use vstd::prelude::*;
use vstd::string::StringExecFns;
use crate::error::RecordError;
use crate::paths::{
    after, create_decision, preview_decision, probe_path, CreateOutcome, Decision, PathProbe,
    ProbeState, Step,
};
use crate::record::{
    chosen_dir, resolve_template, start_probe, RecordArgs, RecordKind, TemplateFile, ADR_TEMPLATE,
    RFC_TEMPLATE,
};
use crate::slug::slug_of;

verus! {

/// Where a record session stands.
#[derive(Clone, Copy, Debug, PartialEq, Eq, Structural)]
pub enum Phase {
    /// Dry run: looking for the first free path.
    Preview,
    /// Waiting for the target directory to be created.
    MakeDir,
    /// Waiting for a look at the template reference as a path.
    LookTemplate,
    /// Claiming a path by exclusive create.
    Claim,
    /// Waiting for the body to be written into the claimed file.
    Write,
    /// Nothing more to do.
    Finished,
}

/// What the caller is asked to do next.
#[derive(Debug, PartialEq, Eq)]
pub enum Action {
    /// Report whether a file exists at this path.
    CheckExists(String),
    /// Create this directory and its parents.
    CreateDir(String),
    /// Report whether a regular file stands at this path, and what it holds.
    LookAtTemplate(String),
    /// Create this file exclusively: fail if it exists.
    CreateNew(String),
    /// Write this body into the file just created at this path.
    WriteBody { path: String, body: String },
    /// The session is over; this is the record's path.
    Done(String),
    /// The session is over and failed.
    Fail(RecordError),
}

/// What the caller reports after carrying out an action.
#[derive(Debug, PartialEq, Eq)]
pub enum Event {
    /// Whether a file exists at the checked path.
    Exists(bool),
    /// The directory was created (`None`), or the reason it was not.
    DirMade(Option<String>),
    /// What stands at the template reference.
    TemplateSeen(TemplateFile),
    /// What the exclusive create reported.
    Created(CreateOutcome),
    /// The body was written (`None`), or the reason it was not.
    Written(Option<String>),
}

/// The event that answers the action pending in a phase.
pub open spec fn expects(phase: Phase, e: Event) -> bool {
    match phase {
        Phase::Preview => e is Exists,
        Phase::MakeDir => e is DirMade,
        Phase::LookTemplate => e is TemplateSeen,
        Phase::Claim => e is Created,
        Phase::Write => e is Written,
        Phase::Finished => false,
    }
}

pub open spec fn builtin_of(kind: RecordKind) -> Seq<char> {
    if kind is Adr {
        ADR_TEMPLATE@
    } else {
        RFC_TEMPLATE@
    }
}

/// The action that carries out a decision of the dry-run loop.
pub open spec fn preview_action(r: Action, d: Decision, next: ProbeState) -> bool {
    match d {
        Decision::Use(p) => r matches Action::Done(q) && q@ == p,
        Decision::Next => r matches Action::CheckExists(q) && q@ == probe_path(next),
        Decision::GiveUp(p) => r matches Action::Fail(RecordError::AttemptsExhausted { path }) && path@ == p,
        Decision::Abort(_) => false,
    }
}

/// The action that carries out a decision of the create loop.
pub open spec fn claim_action(r: Action, d: Decision, next: ProbeState, body: Seq<char>) -> bool {
    match d {
        Decision::Use(p) => r matches Action::WriteBody { path, body: b } && path@ == p && b@ == body,
        Decision::Next => r matches Action::CreateNew(q) && q@ == probe_path(next),
        Decision::GiveUp(p) => r matches Action::Fail(RecordError::AttemptsExhausted { path }) && path@ == p,
        Decision::Abort(p) => r matches Action::Fail(RecordError::FileCreate { path, .. }) && path@ == p,
    }
}

/// The phase after a decision of the dry-run loop.
pub open spec fn preview_phase(d: Decision) -> Phase {
    if d is Next {
        Phase::Preview
    } else {
        Phase::Finished
    }
}

/// The phase after a decision of the create loop.
pub open spec fn claim_phase(d: Decision) -> Phase {
    if d is Next {
        Phase::Claim
    } else if d is Use {
        Phase::Write
    } else {
        Phase::Finished
    }
}

/// One invocation that creates a record, or previews where it would go.
pub struct Session {
    pub kind: RecordKind,
    pub probe: PathProbe,
    pub template: Option<String>,
    pub dry_run: bool,
    pub phase: Phase,
    pub body: String,
}

impl Session {
    /// A dry run only ever previews; a real run never previews.
    pub open spec fn wf(&self) -> bool {
        &&& self.phase is Preview ==> self.dry_run
        &&& self.dry_run ==> (self.phase is Preview || self.phase is Finished)
        &&& self.phase is LookTemplate ==> self.template is Some
    }

    /// Whether the session is well formed and `event` answers the pending
    /// action: exactly what `step` requires.
    pub fn expects(&self, event: &Event) -> (r: bool)
        ensures
            r == (self.wf() && expects(self.phase, *event)),
    {
        let phase_ok = match self.phase {
            Phase::Preview => self.dry_run,
            Phase::MakeDir | Phase::Claim | Phase::Write => !self.dry_run,
            Phase::LookTemplate => !self.dry_run && self.template.is_some(),
            Phase::Finished => true,
        };
        let answers = match self.phase {
            Phase::Preview => matches!(event, Event::Exists(_)),
            Phase::MakeDir => matches!(event, Event::DirMade(_)),
            Phase::LookTemplate => matches!(event, Event::TemplateSeen(_)),
            Phase::Claim => matches!(event, Event::Created(_)),
            Phase::Write => matches!(event, Event::Written(_)),
            Phase::Finished => false,
        };
        phase_ok && answers
    }

    /// Starts a session: a dry run first checks the first candidate path; a
    /// real run first creates the directory.
    pub fn begin(
        kind: RecordKind,
        args: &RecordArgs,
        kind_env: Option<String>,
        shared_env: Option<String>,
        key: String,
    ) -> (r: (Session, Action))
        ensures
            r.0.wf(),
            r.0.probe@ == (ProbeState {
                dir: chosen_dir(kind, args.dir, kind_env, shared_env),
                key: key@,
                slug: slug_of(args.title@),
                attempt: 0,
            }),
            r.0.kind == kind,
            r.0.template == args.template,
            r.0.dry_run == args.dry_run,
            args.dry_run ==> r.0.phase is Preview && (r.1 matches Action::CheckExists(p) && p@
                == probe_path(r.0.probe@)),
            !args.dry_run ==> r.0.phase is MakeDir && (r.1 matches Action::CreateDir(d) && d@
                == r.0.probe.dir@),
    {
        let probe = start_probe(kind, args, kind_env, shared_env, key);
        let (phase, action) = if args.dry_run {
            (Phase::Preview, Action::CheckExists(probe.path()))
        } else {
            (Phase::MakeDir, Action::CreateDir(probe.dir.clone()))
        };
        let session = Session {
            kind,
            probe,
            template: args.template.clone(),
            dry_run: args.dry_run,
            phase,
            body: String::new(),
        };
        (session, action)
    }
    /// Takes the report on the pending action and says what to do next.
    /// A dry run only ever asks for existence checks before it ends.
    pub fn step(&mut self, event: Event) -> (r: Action)
        requires
            old(self).wf(),
            expects(old(self).phase, event),
        ensures
            final(self).wf(),
            final(self).kind == old(self).kind,
            final(self).template == old(self).template,
            final(self).dry_run == old(self).dry_run,
            old(self).dry_run ==> (r is CheckExists || r is Done || r is Fail),
            match event {
                Event::Exists(b) => {
                    let d = preview_decision(old(self).probe@, b);
                    &&& final(self).probe@ == after(old(self).probe@, d)
                    &&& preview_action(r, d, final(self).probe@)
                    &&& final(self).phase == preview_phase(d)
                },
                Event::DirMade(res) => {
                    &&& final(self).probe@ == old(self).probe@
                    &&& match res {
                        Some(m) => {
                            &&& r matches Action::Fail(RecordError::Directory { path, message })
                                && path@ == old(self).probe.dir@ && message@ == m@
                            &&& final(self).phase is Finished
                        },
                        None => match old(self).template {
                            Some(t) => {
                                &&& r matches Action::LookAtTemplate(q) && q@ == t@
                                &&& final(self).phase is LookTemplate
                            },
                            None => {
                                &&& final(self).body@ == builtin_of(old(self).kind)
                                &&& r matches Action::CreateNew(q) && q@ == probe_path(old(self).probe@)
                                &&& final(self).phase is Claim
                            },
                        },
                    }
                },
                Event::TemplateSeen(f) => {
                    &&& final(self).probe@ == old(self).probe@
                    &&& match f {
                        TemplateFile::Unreadable(m) => {
                            &&& r matches Action::Fail(RecordError::TemplateRead { path, message })
                                && path@ == old(self).template->0@ && message@ == m@
                            &&& final(self).phase is Finished
                        },
                        TemplateFile::NotAFile => {
                            &&& final(self).body@ == old(self).template->0@
                            &&& r matches Action::CreateNew(q) && q@ == probe_path(old(self).probe@)
                            &&& final(self).phase is Claim
                        },
                        TemplateFile::Contents(c) => {
                            &&& final(self).body@ == c@
                            &&& r matches Action::CreateNew(q) && q@ == probe_path(old(self).probe@)
                            &&& final(self).phase is Claim
                        },
                    }
                },
                Event::Created(o) => {
                    let d = create_decision(old(self).probe@, o);
                    &&& final(self).probe@ == after(old(self).probe@, d)
                    &&& claim_action(r, d, final(self).probe@, old(self).body@)
                    &&& final(self).phase == claim_phase(d)
                    &&& final(self).body@ == old(self).body@
                    &&& o matches CreateOutcome::Failed(m) ==> (r matches Action::Fail(
                        RecordError::FileCreate { message, .. },
                    ) && message@ == m@)
                },
                Event::Written(res) => {
                    &&& final(self).probe@ == old(self).probe@
                    &&& final(self).phase is Finished
                    &&& match res {
                        None => r matches Action::Done(p) && p@ == probe_path(old(self).probe@),
                        Some(m) => r matches Action::Fail(RecordError::Write { path, message })
                            && path@ == probe_path(old(self).probe@) && message@ == m@,
                    }
                },
            },
    {
        match event {
            Event::Exists(b) => match self.probe.on_exists(b) {
                Step::Found(p) => {
                    self.phase = Phase::Finished;
                    Action::Done(p)
                },
                Step::Retry => Action::CheckExists(self.probe.path()),
                Step::Failed(e) => {
                    self.phase = Phase::Finished;
                    Action::Fail(e)
                },
            },
            Event::DirMade(res) => match res {
                Some(message) => {
                    self.phase = Phase::Finished;
                    Action::Fail(RecordError::Directory { path: self.probe.dir.clone(), message })
                },
                None => match &self.template {
                    Some(t) => {
                        let t = t.clone();
                        self.phase = Phase::LookTemplate;
                        Action::LookAtTemplate(t)
                    },
                    None => {
                        self.body = String::from_str(self.kind.default_template());
                        self.phase = Phase::Claim;
                        Action::CreateNew(self.probe.path())
                    },
                },
            },
            Event::TemplateSeen(f) => {
                let t = self.template.clone();
                match resolve_template(t, f, self.kind.default_template()) {
                    Ok(b) => {
                        self.body = b;
                        self.phase = Phase::Claim;
                        Action::CreateNew(self.probe.path())
                    },
                    Err(e) => {
                        self.phase = Phase::Finished;
                        Action::Fail(e)
                    },
                }
            },
            Event::Created(o) => match self.probe.on_create(o) {
                Step::Found(p) => {
                    self.phase = Phase::Write;
                    Action::WriteBody { path: p, body: self.body.clone() }
                },
                Step::Retry => Action::CreateNew(self.probe.path()),
                Step::Failed(e) => {
                    self.phase = Phase::Finished;
                    Action::Fail(e)
                },
            },
            Event::Written(res) => {
                self.phase = Phase::Finished;
                match res {
                    None => Action::Done(self.probe.path()),
                    Some(message) => Action::Fail(RecordError::Write { path: self.probe.path(), message }),
                }
            },
        }
    }
}

} // verus!
