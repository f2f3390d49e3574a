use webkitten::optparse::{run_configuration, RunConfiguration};
use webkitten::script::{
    clears_command_field, completion_values, submission_output, ScriptOutcome,
};
use webkitten::ui::CommandError;
use webkitten::{Engine, SubmissionPlan};

fn engine(doc: &str) -> Engine {
    let runtime = RunConfiguration { path: String::from("/tmp/config.toml") };
    Engine::new(runtime, doc).expect("engine should build")
}

#[test]
fn engine_requires_a_parseable_document() {
    let runtime = RunConfiguration { path: String::from("/tmp/config.toml") };
    assert!(Engine::new(runtime, "not = = toml").is_none());
}

#[test]
fn reload_keeps_the_old_document_on_failure() {
    let mut e = engine("[commands]\nsearch-paths = [\"/a\"]\n");
    assert!(!e.reload("broken ="));
    assert_eq!(e.command_search_paths(), vec![String::from("/a")]);
    assert!(e.reload("[commands]\nsearch-paths = [\"/b\"]\n"));
    assert_eq!(e.command_search_paths(), vec![String::from("/b")]);
}

#[test]
fn engine_getters_read_the_document() {
    let e = engine("[commands]\ndisabled = [\"open\"]\n[commands.aliases]\no = \"open\"\n");
    assert_eq!(e.commands_disabled(), Some(vec![String::from("open")]));
    assert_eq!(
        e.command_alias_pairs(),
        vec![(String::from("o"), String::from("open"))]
    );
    assert!(e.command_aliases().is_some());
    assert!(e.command_search_paths().is_empty());
}

#[test]
fn unresolvable_input_is_a_noop_plan() {
    let e = engine("");
    match e.plan_submission("bogus") {
        SubmissionPlan::NoCommand(err) => assert_eq!(err, CommandError::CommandNotFound),
        SubmissionPlan::RunScript(_) => panic!("nothing should resolve"),
    }
}

#[test]
fn empty_input_reports_no_command_specified() {
    let e = engine("");
    match e.plan_submission("") {
        SubmissionPlan::NoCommand(err) => assert_eq!(err, CommandError::NoCommandSpecified),
        SubmissionPlan::RunScript(_) => panic!("nothing should resolve"),
    }
}

#[test]
fn fallback_terminates_when_input_has_the_default_prefix() {
    let e = engine("[commands]\ndefault = \"open\"\n");
    match e.plan_submission("open xyz") {
        SubmissionPlan::NoCommand(err) => assert_eq!(err, CommandError::CommandNotFound),
        SubmissionPlan::RunScript(_) => panic!("nothing should resolve"),
    }
    match e.plan_submission("xyz") {
        SubmissionPlan::NoCommand(err) => assert_eq!(err, CommandError::CommandNotFound),
        SubmissionPlan::RunScript(_) => panic!("nothing should resolve"),
    }
}

#[test]
fn completion_uses_resolution_rules() {
    let e = engine("[commands]\ndisabled = [\"open\"]\n[commands.aliases]\no = \"open\"\n");
    assert!(e.completion_command("o anything").is_none());
    assert!(e.completion_command("").is_none());
}

#[test]
fn script_outcomes_map_to_command_output() {
    let ok = submission_output(&ScriptOutcome::Succeeded);
    assert!(ok.error.is_none() && ok.message.is_none());
    let failed = submission_output(&ScriptOutcome::Failed(String::from("boom")));
    assert_eq!(failed.error, Some(CommandError::ErrorDuringExecution));
    assert_eq!(failed.message, Some(String::from("boom")));
    let rejected = submission_output(&ScriptOutcome::RejectedArguments(String::from("bad")));
    assert_eq!(rejected.error, Some(CommandError::InvalidArguments));
    assert_eq!(rejected.message, Some(String::from("bad")));
    let unreadable = submission_output(&ScriptOutcome::Unreadable);
    assert_eq!(unreadable.error, Some(CommandError::ErrorDuringExecution));
    assert!(unreadable.message.is_none());
}

#[test]
fn only_success_clears_the_command_field() {
    assert!(clears_command_field(&ScriptOutcome::Succeeded));
    assert!(!clears_command_field(&ScriptOutcome::Failed(String::new())));
    assert!(!clears_command_field(&ScriptOutcome::Unreadable));
}

#[test]
fn completion_failures_are_swallowed() {
    assert!(completion_values(None).is_empty());
    assert_eq!(
        completion_values(Some(vec![String::from("openurl")])),
        vec![String::from("openurl")]
    );
}

#[test]
fn explicit_config_path_wins() {
    let given = run_configuration(Some(String::from("/given.toml")), "/default.toml");
    assert_eq!(given.path, "/given.toml");
    let fallback = run_configuration(None, "/default.toml");
    assert_eq!(fallback.path, "/default.toml");
}
