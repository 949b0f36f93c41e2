use vstd::prelude::*;
use vstd::string::StringExecFns;
use crate::error::RecordError;
use crate::paths::{PathProbe, ProbeState};
use crate::slug::{slug, slug_of};

verus! {

pub const ADR_TEMPLATE: &'static str = "#### Context
This section describes the forces at play, including technological, political, social, and project local. 
These forces are probably in tension, and should be called out as such. The language in this section is value-neutral. It is simply describing facts.
#### Decision
This section describes our response to these forces. It is stated in full sentences, with active voice. 'We will...'
#### Status
i.e. accepted, proposed, etc
#### Consequences
This section describes the resulting context, after applying the decision. All consequences should be listed here, 
not just the 'positive' ones. A particular decision may have positive, negative, and neutral consequences, 
but all of them affect the team and project in the future.
";

pub const RFC_TEMPLATE: &'static str = "# Summary
One paragraph explanation of the proposal.
# Motivation
Why are we doing this? What use cases does it support? What is the expected outcome?
# Guide-level explanation
Explain the proposal as if it was already in place and you were teaching it to a newcomer.
# Reference-level explanation
The technical portion: interactions with other parts of the project, how it is implemented, corner cases.
# Drawbacks
Why should we *not* do this?
# Rationale and alternatives
Why is this design the best in the space of possible designs? What other designs were considered, and why not them?
What is the impact of not doing this?
# Prior art
Discuss prior art, both the good and the bad, in relation to this proposal.
# Unresolved questions
What parts of the design are expected to be resolved before this gets merged, during implementation, or left out of scope?
# Future possibilities
Think about what the natural extension and evolution of this proposal would be.
";

pub const ADR_DIR: &'static str = "./docs/adr";

pub const RFC_DIR: &'static str = "./docs/rfc";

pub const ADR_DIR_VAR: &'static str = "CARGO_FAK_ADR_DIR";

pub const RFC_DIR_VAR: &'static str = "CARGO_FAK_RFC_DIR";

/// The environment variable that overrides the directory of either kind.
pub const DIR_VAR: &'static str = "CARGO_FAK_DIR";

/// The two kinds of record.
#[derive(Clone, Copy, Debug, PartialEq, Eq, Structural)]
pub enum RecordKind {
    Adr,
    Rfc,
}

impl RecordKind {
    /// The directory used when nothing overrides it.
    pub fn default_dir(&self) -> (r: &'static str)
        ensures
            r@ == (if *self is Adr { ADR_DIR@ } else { RFC_DIR@ }),
    {
        match self {
            RecordKind::Adr => ADR_DIR,
            RecordKind::Rfc => RFC_DIR,
        }
    }

    /// The environment variable that overrides this kind's directory.
    pub fn env_var(&self) -> (r: &'static str)
        ensures
            r@ == (if *self is Adr { ADR_DIR_VAR@ } else { RFC_DIR_VAR@ }),
    {
        match self {
            RecordKind::Adr => ADR_DIR_VAR,
            RecordKind::Rfc => RFC_DIR_VAR,
        }
    }

    /// The built-in template body.
    pub fn default_template(&self) -> (r: &'static str)
        ensures
            r@ == (if *self is Adr { ADR_TEMPLATE@ } else { RFC_TEMPLATE@ }),
    {
        match self {
            RecordKind::Adr => ADR_TEMPLATE,
            RecordKind::Rfc => RFC_TEMPLATE,
        }
    }
}

/// What one invocation asks for.
pub struct RecordArgs {
    pub title: String,
    pub dir: Option<String>,
    pub template: Option<String>,
    pub print_path: bool,
    pub dry_run: bool,
}

/// An environment override counts only when it is set and not empty.
pub open spec fn is_honored(v: Option<String>) -> bool {
    v matches Some(s) && s@.len() > 0
}

/// The target directory: the explicit one, else the kind's own override,
/// else the shared override, else the kind's default.
pub open spec fn chosen_dir(
    kind: RecordKind,
    explicit: Option<String>,
    kind_env: Option<String>,
    shared_env: Option<String>,
) -> Seq<char> {
    if explicit is Some {
        explicit->0@
    } else if is_honored(kind_env) {
        kind_env->0@
    } else if is_honored(shared_env) {
        shared_env->0@
    } else if kind is Adr {
        ADR_DIR@
    } else {
        RFC_DIR@
    }
}

fn honored(v: Option<String>) -> (r: Option<String>)
    ensures
        is_honored(v) ==> r == v,
        !is_honored(v) ==> r is None,
{
    match v {
        Some(s) => if s.as_str().is_empty() {
            None
        } else {
            Some(s)
        },
        None => None,
    }
}

/// Resolves the target directory from the explicit argument and the values
/// of the two environment variables.
pub fn resolve_dir(
    kind: RecordKind,
    explicit: Option<String>,
    kind_env: Option<String>,
    shared_env: Option<String>,
) -> (r: String)
    ensures
        r@ == chosen_dir(kind, explicit, kind_env, shared_env),
{
    if let Some(d) = explicit {
        return d;
    }
    if let Some(d) = honored(kind_env) {
        return d;
    }
    if let Some(d) = honored(shared_env) {
        return d;
    }
    String::from_str(kind.default_dir())
}

/// What a look at the template reference as a path found.
#[derive(Debug, PartialEq, Eq)]
pub enum TemplateFile {
    /// No regular file stands at that path.
    NotAFile,
    /// A file stands there, with these contents.
    Contents(String),
    /// A file stands there but reading it failed, for this reason.
    Unreadable(String),
}

/// The template body: the built-in one without a reference; the file's
/// contents when the reference names a file; else the reference itself, as
/// literal text.
pub fn resolve_template(template_ref: Option<String>, file: TemplateFile, builtin: &str) -> (r: Result<
    String,
    RecordError,
>)
    ensures
        template_ref is None ==> (r matches Ok(b) && b@ == builtin@),
        template_ref matches Some(t) ==> match file {
            TemplateFile::NotAFile => (r matches Ok(b) && b@ == t@),
            TemplateFile::Contents(c) => (r matches Ok(b) && b@ == c@),
            TemplateFile::Unreadable(m) => (r matches Err(RecordError::TemplateRead { path, message })
                && path@ == t@ && message@ == m@),
        },
{
    match template_ref {
        None => Ok(String::from_str(builtin)),
        Some(t) => match file {
            TemplateFile::NotAFile => Ok(t),
            TemplateFile::Contents(c) => Ok(c),
            TemplateFile::Unreadable(message) => Err(RecordError::TemplateRead { path: t, message }),
        },
    }
}

/// The probe for a new record: resolved directory, the given key, the
/// title's slug, attempt zero.
pub fn start_probe(
    kind: RecordKind,
    args: &RecordArgs,
    kind_env: Option<String>,
    shared_env: Option<String>,
    key: String,
) -> (r: PathProbe)
    ensures
        r@ == (ProbeState {
            dir: chosen_dir(kind, args.dir, kind_env, shared_env),
            key: key@,
            slug: slug_of(args.title@),
            attempt: 0,
        }),
{
    let dir = resolve_dir(kind, args.dir.clone(), kind_env, shared_env);
    let s = slug(args.title.as_str());
    PathProbe::new(dir, key, s)
}

} // verus!
