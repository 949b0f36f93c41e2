use vstd::prelude::*;
use vstd::string::StringExecFns;
use crate::error::RecordError;
use crate::text::{decimal, decimal_string};

verus! {

/// The file extension of every record, with its dot.
pub open spec fn md_ext() -> Seq<char> {
    seq!['.', 'm', 'd']
}

/// The path tried for a record at a given attempt: `dir/key_slug.md` at
/// attempt zero, `dir/key_slug_N.md` at attempt `N` above zero.
pub open spec fn candidate_path(dir: Seq<char>, key: Seq<char>, slug: Seq<char>, attempt: nat) -> Seq<char> {
    let stem = dir + seq!['/'] + key + seq!['_'] + slug;
    if attempt == 0 {
        stem + md_ext()
    } else {
        stem + seq!['_'] + decimal(attempt) + md_ext()
    }
}

/// Builds the candidate path for `attempt`.
pub fn build_filename(dir: &str, key: &str, slug: &str, attempt: u64) -> (r: String)
    ensures
        r@ == candidate_path(dir@, key@, slug@, attempt as nat),
{
    proof {
        reveal_strlit("/");
        reveal_strlit("_");
        reveal_strlit(".md");
    }
    let mut s = String::from_str(dir);
    s.append("/");
    s.append(key);
    s.append("_");
    s.append(slug);
    if attempt > 0 {
        s.append("_");
        let n = decimal_string(attempt);
        s.append(n.as_str());
    }
    s.append(".md");
    s
}

/// What the probe loop knows: where, under which key and slug, and which
/// attempt comes next.
pub struct ProbeState {
    pub dir: Seq<char>,
    pub key: Seq<char>,
    pub slug: Seq<char>,
    pub attempt: u64,
}

pub open spec fn probe_path(s: ProbeState) -> Seq<char> {
    candidate_path(s.dir, s.key, s.slug, s.attempt as nat)
}

/// What a probe decides after one look at its current path.
pub enum Decision {
    /// The path is free: use it.
    Use(Seq<char>),
    /// The path is taken: go on to the next attempt.
    Next,
    /// The path is taken and no attempt is left after it.
    GiveUp(Seq<char>),
    /// Creating the path failed for another reason.
    Abort(Seq<char>),
}

/// The decision on the current path, given whether it is taken.
pub open spec fn decide(s: ProbeState, taken: bool) -> Decision {
    if !taken {
        Decision::Use(probe_path(s))
    } else if s.attempt < u64::MAX {
        Decision::Next
    } else {
        Decision::GiveUp(probe_path(s))
    }
}

/// The state after a decision: only `Next` moves to the next attempt.
pub open spec fn after(s: ProbeState, d: Decision) -> ProbeState {
    if d is Next {
        ProbeState { attempt: (s.attempt + 1) as u64, ..s }
    } else {
        s
    }
}

/// What an exclusive create of the current path reported.
#[derive(Debug, PartialEq, Eq)]
pub enum CreateOutcome {
    /// The file did not exist and is now created and open.
    Created,
    /// A file already stands at the path.
    AlreadyExists,
    /// Any other failure, with the system's description.
    Failed(String),
}

/// The decision of the create loop on an outcome.
pub open spec fn create_decision(s: ProbeState, o: CreateOutcome) -> Decision {
    match o {
        CreateOutcome::Created => decide(s, false),
        CreateOutcome::AlreadyExists => decide(s, true),
        CreateOutcome::Failed(_) => Decision::Abort(probe_path(s)),
    }
}

/// The decision of the dry-run loop on an existence check.
pub open spec fn preview_decision(s: ProbeState, exists: bool) -> Decision {
    decide(s, exists)
}

/// What an exclusive create reports on a directory holding the paths `taken`.
pub open spec fn outcome_in(taken: Set<Seq<char>>, p: Seq<char>) -> CreateOutcome {
    if taken.contains(p) {
        CreateOutcome::AlreadyExists
    } else {
        CreateOutcome::Created
    }
}

/// Where the create loop ends on a directory holding the paths `taken`.
pub open spec fn create_run(s: ProbeState, taken: Set<Seq<char>>) -> Decision
    decreases u64::MAX - s.attempt,
{
    let d = create_decision(s, outcome_in(taken, probe_path(s)));
    if d is Next {
        create_run(after(s, d), taken)
    } else {
        d
    }
}

/// Where the dry-run loop ends on a directory holding the paths `taken`.
pub open spec fn preview_run(s: ProbeState, taken: Set<Seq<char>>) -> Decision
    decreases u64::MAX - s.attempt,
{
    let d = preview_decision(s, taken.contains(probe_path(s)));
    if d is Next {
        preview_run(after(s, d), taken)
    } else {
        d
    }
}

/// The state at another attempt.
pub open spec fn at_attempt(s: ProbeState, n: u64) -> ProbeState {
    ProbeState { attempt: n, ..s }
}

/// On an unchanged directory, a dry run reports exactly the path that the
/// create loop then claims.
pub proof fn lemma_preview_matches_create(s: ProbeState, taken: Set<Seq<char>>)
    ensures
        preview_run(s, taken) == create_run(s, taken),
    decreases u64::MAX - s.attempt,
{
    let d = create_decision(s, outcome_in(taken, probe_path(s)));
    if d is Next {
        lemma_preview_matches_create(after(s, d), taken);
    }
}

/// The create loop claims the first free attempt from where it stands: the
/// claimed path is not taken, every attempt before it is, and it gives up
/// only when all attempts are taken.
pub proof fn lemma_create_claims_first_free(s: ProbeState, taken: Set<Seq<char>>)
    ensures
        !(create_run(s, taken) is Next),
        !(create_run(s, taken) is Abort),
        create_run(s, taken) matches Decision::Use(p) ==> {
            &&& !taken.contains(p)
            &&& exists|n: u64|
                s.attempt <= n && p == #[trigger] probe_path(at_attempt(s, n)) && forall|m: u64|
                    s.attempt <= m < n ==> taken.contains(#[trigger] probe_path(at_attempt(s, m)))
        },
        create_run(s, taken) is GiveUp ==> forall|m: u64|
            s.attempt <= m ==> taken.contains(#[trigger] probe_path(at_attempt(s, m))),
    decreases u64::MAX - s.attempt,
{
    let d = create_decision(s, outcome_in(taken, probe_path(s)));
    assert(at_attempt(s, s.attempt) == s);
    if d is Next {
        let t = after(s, d);
        lemma_create_claims_first_free(t, taken);
        assert forall|m: u64| #![trigger at_attempt(t, m)] at_attempt(t, m) == at_attempt(s, m) by {}
        if let Decision::Use(p) = create_run(s, taken) {
            let n = choose|n: u64|
                t.attempt <= n && p == #[trigger] probe_path(at_attempt(t, n)) && forall|m: u64|
                    t.attempt <= m < n ==> taken.contains(#[trigger] probe_path(at_attempt(t, m)));
            assert(at_attempt(t, n) == at_attempt(s, n));
            assert forall|m: u64| s.attempt <= m < n implies taken.contains(
                #[trigger] probe_path(at_attempt(s, m)),
            ) by {
                if m > s.attempt {
                    assert(at_attempt(t, m) == at_attempt(s, m));
                }
            }
        }
        if create_run(s, taken) is GiveUp {
            assert forall|m: u64| s.attempt <= m implies taken.contains(
                #[trigger] probe_path(at_attempt(s, m)),
            ) by {
                if m > s.attempt {
                    assert(at_attempt(t, m) == at_attempt(s, m));
                }
            }
        }
    } else if create_run(s, taken) is GiveUp {
        assert forall|m: u64| s.attempt <= m implies taken.contains(
            #[trigger] probe_path(at_attempt(s, m)),
        ) by {
            assert(m == s.attempt);
        }
    }
}

} // verus!

verus! {

/// One look at a candidate path, as handed back to the caller.
#[derive(Debug, PartialEq, Eq)]
pub enum Step {
    /// The path is free (dry run) or now created (real run).
    Found(String),
    /// The path is taken: look at the next one.
    Retry,
    /// The loop cannot go on.
    Failed(RecordError),
}

/// The step that carries out decision `d`.
pub open spec fn step_carries(r: Step, d: Decision) -> bool {
    match d {
        Decision::Use(p) => r matches Step::Found(q) && q@ == p,
        Decision::Next => r is Retry,
        Decision::GiveUp(p) => r matches Step::Failed(RecordError::AttemptsExhausted { path }) && path@ == p,
        Decision::Abort(p) => r matches Step::Failed(RecordError::FileCreate { path, .. }) && path@ == p,
    }
}

/// Walks the attempts 0, 1, 2, ... for one directory, key and slug.
pub struct PathProbe {
    pub dir: String,
    pub key: String,
    pub slug: String,
    pub attempt: u64,
}

impl View for PathProbe {
    type V = ProbeState;

    open spec fn view(&self) -> ProbeState {
        ProbeState { dir: self.dir@, key: self.key@, slug: self.slug@, attempt: self.attempt }
    }
}

impl PathProbe {
    /// A probe that starts at attempt zero.
    pub fn new(dir: String, key: String, slug: String) -> (r: PathProbe)
        ensures
            r@ == (ProbeState { dir: dir@, key: key@, slug: slug@, attempt: 0 }),
    {
        PathProbe { dir, key, slug, attempt: 0 }
    }

    /// The path of the current attempt.
    pub fn path(&self) -> (r: String)
        ensures
            r@ == probe_path(self@),
    {
        build_filename(self.dir.as_str(), self.key.as_str(), self.slug.as_str(), self.attempt)
    }

    fn advance(&mut self) -> (r: Step)
        ensures
            step_carries(r, decide(old(self)@, true)),
            final(self)@ == after(old(self)@, decide(old(self)@, true)),
    {
        if self.attempt < u64::MAX {
            self.attempt = self.attempt + 1;
            Step::Retry
        } else {
            Step::Failed(RecordError::AttemptsExhausted { path: self.path() })
        }
    }

    /// Dry run: takes whether the current path exists, and either reports it
    /// as free or moves on.
    pub fn on_exists(&mut self, exists: bool) -> (r: Step)
        ensures
            step_carries(r, preview_decision(old(self)@, exists)),
            final(self)@ == after(old(self)@, preview_decision(old(self)@, exists)),
    {
        if exists {
            self.advance()
        } else {
            Step::Found(self.path())
        }
    }

    /// Real run: takes what an exclusive create of the current path reported,
    /// and either reports the path as claimed, moves on, or fails.
    pub fn on_create(&mut self, outcome: CreateOutcome) -> (r: Step)
        ensures
            step_carries(r, create_decision(old(self)@, outcome)),
            final(self)@ == after(old(self)@, create_decision(old(self)@, outcome)),
            outcome matches CreateOutcome::Failed(m) ==> r matches Step::Failed(
                RecordError::FileCreate { message, .. },
            ) && message@ == m@,
    {
        match outcome {
            CreateOutcome::Created => Step::Found(self.path()),
            CreateOutcome::AlreadyExists => self.advance(),
            CreateOutcome::Failed(message) => Step::Failed(
                RecordError::FileCreate { path: self.path(), message },
            ),
        }
    }
}

/// Two records of one key and title in one directory land in two distinct
/// files: the first at attempt zero, the second at suffix 1, a third at
/// suffix 2.
pub proof fn lemma_repeated_records(dir: Seq<char>, key: Seq<char>, slug: Seq<char>)
    ensures
        ({
            let s = ProbeState { dir, key, slug, attempt: 0 };
            let c0 = candidate_path(dir, key, slug, 0);
            let c1 = candidate_path(dir, key, slug, 1);
            let c2 = candidate_path(dir, key, slug, 2);
            &&& create_run(s, Set::empty()) == Decision::Use(c0)
            &&& create_run(s, set![c0]) == Decision::Use(c1)
            &&& create_run(s, set![c0, c1]) == Decision::Use(c2)
            &&& c0 != c1 && c1 != c2 && c0 != c2
        }),
{
    let s = ProbeState { dir, key, slug, attempt: 0 };
    let s1 = ProbeState { attempt: 1, ..s };
    let s2 = ProbeState { attempt: 2, ..s };
    let c0 = candidate_path(dir, key, slug, 0);
    let c1 = candidate_path(dir, key, slug, 1);
    let c2 = candidate_path(dir, key, slug, 2);
    let stem = dir + seq!['/'] + key + seq!['_'] + slug;
    assert(decimal(1) == seq!['1']);
    assert(decimal(2) == seq!['2']);
    assert(c0.len() == stem.len() + 3);
    assert(c1.len() == stem.len() + 5);
    assert(c2.len() == stem.len() + 5);
    assert(c1[stem.len() as int + 1] == '1');
    assert(c2[stem.len() as int + 1] == '2');
    assert(probe_path(s) == c0);
    assert(probe_path(s1) == c1);
    assert(probe_path(s2) == c2);
    assert(create_run(s1, set![c0]) == Decision::Use(c1));
    assert(create_run(s2, set![c0, c1]) == Decision::Use(c2));
    assert(create_run(s1, set![c0, c1]) == Decision::Use(c2));
}

/// A record claimed on a directory is a new file, and the next record on the
/// same directory claims yet another file.
pub proof fn lemma_next_record_is_distinct(s: ProbeState, taken: Set<Seq<char>>, p: Seq<char>)
    requires
        create_run(s, taken) == Decision::Use(p),
    ensures
        !taken.contains(p),
        create_run(s, taken.insert(p)) matches Decision::Use(q) ==> q != p && !taken.contains(q),
{
    lemma_create_claims_first_free(s, taken);
    lemma_create_claims_first_free(s, taken.insert(p));
}

} // verus!
