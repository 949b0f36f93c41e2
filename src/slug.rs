use vstd::prelude::*;
use vstd::string::StringExecFns;
use crate::text::push_char;

verus! {

pub open spec fn is_ascii_alnum(c: char) -> bool {
    ('a' <= c && c <= 'z') || ('A' <= c && c <= 'Z') || ('0' <= c && c <= '9')
}

pub open spec fn ascii_lower(c: char) -> char {
    if 'A' <= c && c <= 'Z' {
        ((c as u8) + 32) as u8 as char
    } else {
        c
    }
}

/// A character that may stand in a slug besides the separator `-`.
pub open spec fn is_slug_char(c: char) -> bool {
    ('a' <= c && c <= 'z') || ('0' <= c && c <= '9')
}

/// Words of `[a-z0-9]` joined by single dashes: non-empty, no dash at either
/// end, never two dashes in a row.
pub open spec fn is_slug_form(s: Seq<char>) -> bool {
    &&& s.len() > 0
    &&& forall|i: int| 0 <= i < s.len() ==> is_slug_char(#[trigger] s[i]) || s[i] == '-'
    &&& s[0] != '-'
    &&& s[s.len() - 1] != '-'
    &&& forall|i: int| 0 <= i < s.len() - 1 ==> !(#[trigger] s[i] == '-' && s[i + 1] == '-')
}

/// The slug of a title before the fallback: each ASCII letter or digit is
/// kept (lowercased); every run of other characters between two kept ones
/// becomes one `-`; runs at either end vanish.
pub open spec fn slug_words(s: Seq<char>) -> Seq<char>
    decreases s.len(),
{
    if s.len() == 0 {
        Seq::empty()
    } else {
        let prev = slug_words(s.drop_last());
        let c = s.last();
        if !is_ascii_alnum(c) {
            prev
        } else if prev.len() > 0 && !is_ascii_alnum(s[s.len() - 2]) {
            prev.push('-').push(ascii_lower(c))
        } else {
            prev.push(ascii_lower(c))
        }
    }
}

pub open spec fn untitled() -> Seq<char> {
    seq!['u', 'n', 't', 'i', 't', 'l', 'e', 'd']
}

/// The slug of a title: its words, or `untitled` when it has none.
pub open spec fn slug_of(s: Seq<char>) -> Seq<char> {
    if slug_words(s).len() == 0 {
        untitled()
    } else {
        slug_words(s)
    }
}

proof fn lemma_slug_words_form(s: Seq<char>)
    ensures
        slug_words(s).len() == 0 || is_slug_form(slug_words(s)),
        slug_words(s).len() > 0 ==> s.len() > 0,
        slug_words(s).len() == 0 ==> forall|i: int| 0 <= i < s.len() ==> !is_ascii_alnum(#[trigger] s[i]),
    decreases s.len(),
{
    if s.len() > 0 {
        let t = s.drop_last();
        lemma_slug_words_form(t);
        let prev = slug_words(t);
        let r = slug_words(s);
        let c = s.last();
        if is_ascii_alnum(c) {
            let mid = if prev.len() > 0 && !is_ascii_alnum(s[s.len() - 2]) {
                prev.push('-')
            } else {
                prev
            };
            assert(r == mid.push(ascii_lower(c)));
            assert(is_slug_char(ascii_lower(c)));
            assert(forall|i: int| 0 <= i < prev.len() ==> mid[i] == prev[i]);
            assert(forall|i: int| 0 <= i < mid.len() ==> r[i] == mid[i]);
            assert(mid.len() > 0 ==> mid[mid.len() - 1] != '-' || prev.len() > 0);
            assert forall|i: int| 0 <= i < r.len() implies is_slug_char(#[trigger] r[i]) || r[i] == '-' by {
                if i < prev.len() {
                    assert(r[i] == prev[i]);
                }
            }
            assert forall|i: int| 0 <= i < r.len() - 1 implies !(#[trigger] r[i] == '-' && r[i + 1] == '-') by {
                if i + 1 < prev.len() {
                    assert(r[i] == prev[i] && r[i + 1] == prev[i + 1]);
                } else if i + 1 == prev.len() {
                    assert(r[i] == prev[i]);
                }
            }
            if prev.len() > 0 {
                assert(r[0] == prev[0]);
            }
        } else {
            assert forall|i: int| 0 <= i < s.len() && slug_words(s).len() == 0 implies !is_ascii_alnum(#[trigger] s[i]) by {
                if i < t.len() {
                    assert(s[i] == t[i]);
                }
            }
        }
    }
}

/// Every slug has the shape `[a-z0-9]+(-[a-z0-9]+)*` or is `untitled`.
pub proof fn lemma_slug_shape(title: Seq<char>)
    ensures
        is_slug_form(slug_of(title)) || slug_of(title) == untitled(),
{
    lemma_slug_words_form(title);
}

/// Turns a title into a filename-safe slug.
pub fn slug(title: &str) -> (r: String)
    ensures
        r@ == slug_of(title@),
        is_slug_form(r@),
{
    let mut out = String::new();
    let mut wrote = false;
    let mut prev_alnum = false;
    let ghost mut seen: Seq<char> = Seq::empty();
    for c in it: title.chars()
        invariant
            it.seq() == title@,
            seen == it.seq().take(it.index() as int),
            out@ == slug_words(seen),
            wrote == (out@.len() > 0),
            prev_alnum == (seen.len() > 0 && is_ascii_alnum(seen.last())),
    {
        proof {
            assert(seen.push(c).drop_last() == seen);
        }
        let alnum = ('a' <= c && c <= 'z') || ('A' <= c && c <= 'Z') || ('0' <= c && c <= '9');
        if alnum {
            if wrote && !prev_alnum {
                push_char(&mut out, '-');
            }
            let lc = if 'A' <= c && c <= 'Z' { ((c as u8) + 32) as char } else { c };
            push_char(&mut out, lc);
            wrote = true;
        }
        prev_alnum = alnum;
        proof {
            seen = seen.push(c);
            assert(seen == it.seq().take(it.index() as int + 1));
        }
    }
    proof {
        assert(seen == title@);
        lemma_slug_words_form(title@);
    }
    if !wrote {
        out = String::from_str("untitled");
        proof {
            reveal_strlit("untitled");
            assert(out@ == untitled());
        }
    }
    out
}

} // verus!
