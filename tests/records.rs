use cargo_fak::error::RecordError;
use cargo_fak::paths::{CreateOutcome, PathProbe, Step};
use cargo_fak::record::{
    resolve_dir, resolve_template, start_probe, RecordArgs, RecordKind, TemplateFile, ADR_TEMPLATE,
    RFC_TEMPLATE,
};

fn s(v: &str) -> Option<String> {
    Some(v.to_string())
}

fn args(title: &str, dir: Option<String>) -> RecordArgs {
    RecordArgs { title: title.to_string(), dir, template: None, print_path: true, dry_run: false }
}

/// Runs the create loop against a directory holding `taken`, adding the claimed path.
fn create_in(taken: &mut Vec<String>, mut probe: PathProbe) -> String {
    loop {
        let outcome = if taken.contains(&probe.path()) {
            CreateOutcome::AlreadyExists
        } else {
            CreateOutcome::Created
        };
        match probe.on_create(outcome) {
            Step::Found(p) => {
                taken.push(p.clone());
                return p;
            }
            Step::Retry => {}
            Step::Failed(e) => panic!("{:?}", e),
        }
    }
}

fn preview_in(taken: &[String], mut probe: PathProbe) -> String {
    loop {
        let exists = taken.contains(&probe.path());
        match probe.on_exists(exists) {
            Step::Found(p) => return p,
            Step::Retry => {}
            Step::Failed(e) => panic!("{:?}", e),
        }
    }
}

fn probe() -> PathProbe {
    PathProbe::new("tmp".to_string(), "123".to_string(), "my-adr".to_string())
}

#[test]
fn explicit_dir_wins_over_both_variables() {
    assert_eq!(resolve_dir(RecordKind::Adr, s("mine"), s("kind"), s("shared")), "mine");
}

#[test]
fn kind_variable_wins_over_shared_one() {
    assert_eq!(resolve_dir(RecordKind::Rfc, None, s("kind"), s("shared")), "kind");
}

#[test]
fn shared_variable_wins_over_default() {
    assert_eq!(resolve_dir(RecordKind::Adr, None, None, s("shared")), "shared");
}

#[test]
fn defaults_per_kind() {
    assert_eq!(resolve_dir(RecordKind::Adr, None, None, None), "./docs/adr");
    assert_eq!(resolve_dir(RecordKind::Rfc, None, None, None), "./docs/rfc");
}

#[test]
fn empty_variables_count_as_unset() {
    assert_eq!(resolve_dir(RecordKind::Adr, None, s(""), s("shared")), "shared");
    assert_eq!(resolve_dir(RecordKind::Rfc, None, s(""), s("")), "./docs/rfc");
}

#[test]
fn kind_names() {
    assert_eq!(RecordKind::Adr.env_var(), "CARGO_FAK_ADR_DIR");
    assert_eq!(RecordKind::Rfc.env_var(), "CARGO_FAK_RFC_DIR");
    assert!(RecordKind::Adr.default_template().starts_with("#### Context"));
    assert!(RecordKind::Rfc.default_template().contains("# Future possibilities"));
}

#[test]
fn template_defaults_to_builtin() {
    let r = resolve_template(None, TemplateFile::NotAFile, ADR_TEMPLATE);
    assert_eq!(r, Ok(ADR_TEMPLATE.to_string()));
}

#[test]
fn template_that_is_not_a_file_is_literal_text() {
    let r = resolve_template(s("no/such/file.md"), TemplateFile::NotAFile, RFC_TEMPLATE);
    assert_eq!(r, Ok("no/such/file.md".to_string()));
}

#[test]
fn template_file_contents_are_used() {
    let r = resolve_template(s("t.md"), TemplateFile::Contents("# Mine\n".to_string()), RFC_TEMPLATE);
    assert_eq!(r, Ok("# Mine\n".to_string()));
}

#[test]
fn unreadable_template_is_an_error() {
    let r = resolve_template(s("t.md"), TemplateFile::Unreadable("denied".to_string()), RFC_TEMPLATE);
    assert_eq!(
        r,
        Err(RecordError::TemplateRead { path: "t.md".to_string(), message: "denied".to_string() })
    );
}

#[test]
fn repeated_records_get_suffixes() {
    let mut taken = Vec::new();
    assert_eq!(create_in(&mut taken, probe()), "tmp/123_my-adr.md");
    assert_eq!(create_in(&mut taken, probe()), "tmp/123_my-adr_1.md");
    assert_eq!(create_in(&mut taken, probe()), "tmp/123_my-adr_2.md");
    assert_eq!(taken.len(), 3);
}

#[test]
fn preview_reports_what_create_claims() {
    let mut taken = vec!["tmp/123_my-adr.md".to_string(), "tmp/123_my-adr_1.md".to_string()];
    let shown = preview_in(&taken, probe());
    assert_eq!(shown, "tmp/123_my-adr_2.md");
    assert_eq!(taken.len(), 2);
    assert_eq!(create_in(&mut taken, probe()), shown);
}

#[test]
fn create_failure_carries_the_path() {
    let mut p = probe();
    let r = p.on_create(CreateOutcome::Failed("denied".to_string()));
    assert_eq!(
        r,
        Step::Failed(RecordError::FileCreate {
            path: "tmp/123_my-adr.md".to_string(),
            message: "denied".to_string()
        })
    );
    assert_eq!(p.attempt, 0);
}

#[test]
fn last_attempt_taken_gives_up() {
    let mut p = probe();
    p.attempt = u64::MAX;
    let r = p.on_exists(true);
    assert_eq!(
        r,
        Step::Failed(RecordError::AttemptsExhausted {
            path: "tmp/123_my-adr_18446744073709551615.md".to_string()
        })
    );
    let r = p.on_create(CreateOutcome::AlreadyExists);
    assert!(matches!(r, Step::Failed(RecordError::AttemptsExhausted { .. })));
}

#[test]
fn adr_in_empty_dir_lands_at_attempt_zero() {
    let a = args("My ADR", s("tmp"));
    let key = "1700000000000000001".to_string();
    let mut p = start_probe(RecordKind::Adr, &a, s("ignored"), None, key);
    assert_eq!(p.on_create(CreateOutcome::Created), Step::Found("tmp/1700000000000000001_my-adr.md".to_string()));
    let body = resolve_template(a.template.clone(), TemplateFile::NotAFile, RecordKind::Adr.default_template());
    assert_eq!(body, Ok(ADR_TEMPLATE.to_string()));
}

#[test]
fn probe_uses_environment_when_no_dir_given() {
    let a = args("Use Postgres", None);
    let p = start_probe(RecordKind::Rfc, &a, s("rfcs"), s("docs"), "5".to_string());
    assert_eq!(p.path(), "rfcs/5_use-postgres.md");
}
