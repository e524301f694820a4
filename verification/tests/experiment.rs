use mini_crater::address::Address;
use mini_crater::command::{CommandLine, Word};
use mini_crater::error::CraterError;
use mini_crater::experiment::{can_patch, Action, Event, ExperimentRun, Finding, Place, Stage, Step};
use mini_crater::message::Message;
use mini_crater::options::{Opts, PatchArg};
use mini_crater::registry::Crate;
use mini_crater::requirement::TargetVersion;
use mini_crater::state::{Progress, Root, RunExperimentProgress};
use mini_crater::statistics::Statistics;
use mini_crater::ui::{Control, MetaEvent};

const NEW: &str = "[package]\nname = \"experiment-a\"\nversion = \"0.1.0\"\nedition = \"2021\"\n\n[dependencies]\nold = \"1\"\n";

fn opts() -> Opts<()> {
    Opts {
        api_base: Address { url: url::Url::parse("https://crates.io/api/v1/").unwrap() },
        crate_name: "snafu".to_owned(),
        version: TargetVersion { major: 1, minor: 0, patch: 0, pre: semver::Prerelease::EMPTY },
        patch: vec![PatchArg::from_str(r#"snafu = { path = "/snafu" }"#).unwrap()],
        working_dir: (),
        use_git: false,
        pre_command: None,
        post_command: None,
        select: None,
    }
}

fn a_crate(name: &str, repository: Option<&str>) -> Crate {
    Crate {
        name: name.to_owned(),
        max_version: "1.2.3".to_owned(),
        downloads: 1,
        repository: repository.map(str::to_owned),
        other: vec![],
    }
}

fn told(step: &Step) -> Vec<String> {
    step.messages
        .iter()
        .map(|m| match m {
            Message::RunExperimentsStart { .. } => "start".to_owned(),
            Message::ExperimentSkip { name } => format!("skip {name}"),
            Message::ExperimentSetupFailure { name } => format!("setup failure {name}"),
            Message::ExperimentSetupSuccess { name } => format!("setup success {name}"),
            Message::ExperimentOriginalOutput { name, output } => {
                format!("original output {name} {} {}", output.stdout, output.stderr)
            }
            Message::ExperimentOriginalSuccess { name } => format!("original success {name}"),
            Message::ExperimentOriginalFailure { name } => format!("original failure {name}"),
            Message::ExperimentOutput { name, output } => {
                format!("output {name} {} {}", output.stdout, output.stderr)
            }
            Message::ExperimentSuccess { name } => format!("success {name}"),
            Message::ExperimentFailure { name } => format!("failure {name}"),
        })
        .collect()
}

fn line(command: &CommandLine) -> String {
    let mut line = command.program.clone();
    for arg in &command.args {
        line.push(' ');
        line.push_str(match arg {
            Word::Text(text) => text,
            Word::WorkingDir => "<working dir>",
            Word::CheckoutDir => "<checkout dir>",
        });
    }
    line
}

fn asked(step: &Step) -> String {
    match &step.action {
        Action::Proceed => "proceed".to_owned(),
        Action::FindExperiment { name } => format!("find experiment {name}"),
        Action::RunStatus(command) => format!("run {}", line(command)),
        Action::ReadManifest { name } => format!("read {name}"),
        Action::WriteManifest { name, .. } => format!("write {name}"),
        Action::FindCheckout { name } => format!("find checkout {name}"),
        Action::FindPackage { name } => format!("find package {name}"),
        Action::RunOutput(command) => format!("collect {}", line(command)),
        Action::Finish => "finish".to_owned(),
        Action::Fail(_) => "fail".to_owned(),
    }
}

fn text_of(step: &Step) -> &str {
    match &step.action {
        Action::WriteManifest { text, .. } => text,
        _ => panic!("no manifest is written"),
    }
}

fn output(success: bool) -> Event {
    Event::Output { success, stdout: b"out".to_vec(), stderr: b"err".to_vec() }
}

fn books(statistics: &Statistics) -> [Vec<&str>; 6] {
    [
        &statistics.setup_successes,
        &statistics.setup_failures,
        &statistics.original_successes,
        &statistics.original_failures,
        &statistics.experiment_successes,
        &statistics.experiment_failures,
    ]
    .map(|names| names.iter().map(String::as_str).collect())
}

struct Driver {
    opts: Opts<()>,
    crates: Vec<Crate>,
    run: ExperimentRun,
}

impl Driver {
    fn new(opts: Opts<()>, crates: Vec<Crate>) -> Driver {
        Driver { opts, crates, run: ExperimentRun::new() }
    }

    fn step(&mut self, event: Event) -> Step {
        assert!(self.run.expects(&self.opts, &event));
        self.run.step(&self.opts, &self.crates, event)
    }

    fn expect(&mut self, event: Event, messages: &[&str], action: &str) -> Step {
        let step = self.step(event);
        assert_eq!(told(&step), messages);
        assert_eq!(asked(&step), action);
        step
    }
}

#[test]
fn a_published_crate_is_built_twice() {
    let mut d = Driver::new(opts(), vec![a_crate("a", None)]);
    d.expect(Event::Done, &[], "find experiment a");
    d.expect(
        Event::Exists(false),
        &[],
        "run cargo new --quiet --bin --name experiment-a a",
    );
    d.expect(Event::Status(true), &[], "read a");
    let reset = d.expect(Event::Text(NEW.to_owned()), &[], "write a");
    assert!(!text_of(&reset).contains("old"));
    assert!(!text_of(&reset).contains("snafu"));
    let setup = d.expect(Event::Done, &[], "write a");
    assert!(text_of(&setup).contains("=1.2.3"));
    assert!(!text_of(&setup).contains("snafu"));
    d.expect(Event::Done, &["setup success a"], "collect cargo build --quiet");
    let patched = d.expect(
        output(true),
        &["original output a out err", "original success a"],
        "write a",
    );
    assert!(text_of(&patched).contains("=1.2.3"));
    assert!(text_of(&patched).contains("[patch.crates-io.snafu]"));
    assert!(text_of(&patched).contains("/snafu"));
    d.expect(Event::Done, &[], "collect cargo build --quiet");
    d.expect(output(true), &["output a out err", "success a"], "proceed");
    d.expect(Event::Done, &[], "finish");
    assert_eq!(d.run.stage, Stage::Finished);
    assert_eq!(
        books(&d.run.statistics),
        [vec!["a"], vec![], vec!["a"], vec![], vec!["a"], vec![]]
    );
}

#[test]
fn an_experiment_is_used_again() {
    let mut d = Driver::new(opts(), vec![a_crate("a", None)]);
    d.expect(Event::Done, &[], "find experiment a");
    d.expect(Event::Exists(true), &[], "read a");
}

#[test]
fn a_crate_that_the_patches_break_is_told_from_one_that_never_built() {
    let mut d = Driver::new(opts(), vec![a_crate("a", None), a_crate("b", None)]);
    for name in ["a", "b"] {
        d.expect(Event::Done, &[], &format!("find experiment {name}"));
        d.expect(Event::Exists(true), &[], &format!("read {name}"));
        d.expect(Event::Text(NEW.to_owned()), &[], &format!("write {name}"));
        d.expect(Event::Done, &[], &format!("write {name}"));
        d.step(Event::Done);
        if name == "a" {
            d.expect(
                output(false),
                &["original output a out err", "original failure a"],
                "proceed",
            );
        } else {
            d.step(output(true));
            d.step(Event::Done);
            d.expect(output(false), &["output b out err", "failure b"], "proceed");
        }
    }
    d.expect(Event::Done, &[], "finish");
    assert_eq!(
        books(&d.run.statistics),
        [vec!["a", "b"], vec![], vec!["b"], vec!["a"], vec![], vec!["b"]]
    );
}

#[test]
fn crates_that_are_not_selected_are_skipped() {
    let opts = Opts { select: Some("^a".to_owned()), ..opts() };
    let mut d = Driver::new(opts, vec![a_crate("ba", None), a_crate("ab", None)]);
    d.expect(Event::Done, &["skip ba"], "proceed");
    d.expect(Event::Done, &[], "find experiment ab");
}

#[test]
fn the_selected_crates_are_set_up_or_not() {
    let opts = Opts { select: Some("^a".to_owned()), use_git: true, ..opts() };
    let crates = vec![a_crate("ax", None), a_crate("b", None), a_crate("ay", Some("r"))];
    let mut d = Driver::new(opts, crates);
    for name in ["ax", "ay"] {
        d.expect(Event::Done, &[], &format!("find experiment {name}"));
        d.step(Event::Exists(true));
        d.step(Event::Text(NEW.to_owned()));
        if name == "ax" {
            d.expect(Event::Done, &["setup failure ax"], "proceed");
            d.expect(Event::Done, &["skip b"], "proceed");
        } else {
            d.step(Event::Done);
            d.step(Event::Exists(true));
            d.step(Event::Located(Place::At("/r".to_owned())));
            d.step(Event::Done);
            d.step(output(false));
        }
    }
    d.expect(Event::Done, &[], "finish");
    assert_eq!(
        books(&d.run.statistics),
        [vec!["ay"], vec!["ax"], vec![], vec!["ay"], vec![], vec![]]
    );
}

#[test]
fn a_skipped_crate_needs_no_proper_name() {
    let opts = Opts { select: Some("x".to_owned()), ..opts() };
    let mut d = Driver::new(opts, vec![a_crate("a b", None)]);
    d.expect(Event::Done, &["skip a b"], "proceed");
    d.expect(Event::Done, &[], "finish");
    assert_eq!(books(&d.run.statistics), [vec![], vec![], vec![], vec![], vec![], vec![]] as [Vec<&str>; 6]);
}

#[test]
fn a_selection_that_is_no_expression_stops_the_run() {
    let opts = Opts { select: Some("(".to_owned()), ..opts() };
    let mut d = Driver::new(opts, vec![a_crate("a", None)]);
    let step = d.step(Event::Done);
    assert!(matches!(step.action, Action::Fail(CraterError::Regex(_))));
    assert_eq!(d.run.stage, Stage::Failed);
    assert!(!d.run.expects(&d.opts, &Event::Done));
}

#[test]
fn a_name_that_no_package_has_stops_the_run() {
    let mut d = Driver::new(opts(), vec![a_crate("a b", None)]);
    let step = d.step(Event::Done);
    assert!(matches!(step.action, Action::Fail(CraterError::PackageName(_))));
}

#[test]
fn a_manifest_that_is_none_stops_the_run() {
    let mut d = Driver::new(opts(), vec![a_crate("a", None)]);
    d.step(Event::Done);
    d.step(Event::Exists(true));
    let step = d.step(Event::Text("[package".to_owned()));
    assert!(matches!(step.action, Action::Fail(CraterError::TomlRead(_))));
    assert_eq!(d.run.stage, Stage::Failed);
}

fn with_git(repository: Option<&str>) -> Driver {
    let opts = Opts { use_git: true, post_command: Some("adjust".to_owned()), ..opts() };
    let mut d = Driver::new(opts, vec![a_crate("a", repository)]);
    d.expect(Event::Done, &[], "find experiment a");
    d.expect(Event::Exists(true), &[], "read a");
    d.expect(Event::Text(NEW.to_owned()), &[], "write a");
    d
}

#[test]
fn a_crate_without_repository_cannot_be_checked_out() {
    let mut d = with_git(None);
    d.expect(Event::Done, &["setup failure a"], "proceed");
    d.expect(Event::Done, &[], "finish");
    assert_eq!(books(&d.run.statistics)[1], ["a"]);
    assert!(books(&d.run.statistics)[0].is_empty());
}

#[test]
fn a_checkout_is_built_twice() {
    let mut d = with_git(Some("https://example.com/a"));
    d.expect(Event::Done, &[], "find checkout a");
    d.expect(
        Event::Exists(false),
        &[],
        "run git clone --quiet https://example.com/a <checkout dir>",
    );
    d.expect(Event::Status(true), &[], "find package a");
    let setup = d.expect(Event::Located(Place::At("/c/a/inner".to_owned())), &[], "write a");
    assert!(text_of(&setup).contains("path = \"/c/a/inner\""));
    assert!(!text_of(&setup).contains("=1.2.3"));
    let built = d.expect(Event::Done, &["setup success a"], "collect cargo build --quiet");
    match &built.action {
        Action::RunOutput(command) => {
            assert_eq!(command.envs.len(), 3);
            assert_eq!(command.envs[2].name, "MINI_CRATER_EXPERIMENT_CHECKOUT_DIR");
        }
        _ => panic!("nothing is built"),
    }
    let patched = d.step(output(true));
    assert!(text_of(&patched).contains("path = \"/c/a/inner\""));
    assert!(text_of(&patched).contains("/snafu"));
    d.expect(Event::Done, &[], "collect adjust");
    d.expect(output(true), &["output a out err", "success a"], "proceed");
}

#[test]
fn a_checkout_is_used_again() {
    let mut d = with_git(Some("https://example.com/a"));
    d.expect(Event::Done, &[], "find checkout a");
    d.expect(Event::Exists(true), &[], "find package a");
}

#[test]
fn a_repository_that_cannot_be_cloned_is_a_setup_failure() {
    let mut d = with_git(Some("https://example.com/a"));
    d.step(Event::Done);
    d.step(Event::Exists(false));
    d.expect(Event::Status(false), &["setup failure a"], "proceed");
    assert_eq!(books(&d.run.statistics)[1], ["a"]);
}

#[test]
fn a_package_that_is_not_in_its_checkout_is_a_setup_failure() {
    let mut d = with_git(Some("https://example.com/a"));
    d.step(Event::Done);
    d.step(Event::Exists(true));
    d.expect(Event::Located(Place::Unknown), &["setup failure a"], "proceed");
}

#[test]
fn a_path_that_is_no_text_stops_the_run() {
    let mut d = with_git(Some("https://example.com/a"));
    d.step(Event::Done);
    d.step(Event::Exists(true));
    let step = d.step(Event::Located(Place::NotUtf8));
    match step.action {
        Action::Fail(e) => {
            assert!(matches!(e, CraterError::PathNotUtf8));
            assert_eq!(e.message().as_deref(), Some("Path was not UTF-8"));
        }
        _ => panic!("the run goes on"),
    }
}

#[test]
fn only_what_is_waited_for_is_expected() {
    let opts = opts();
    let run = ExperimentRun::new();
    assert!(run.expects(&opts, &Event::Done));
    assert!(!run.expects(&opts, &Event::Exists(true)));
    assert!(!run.expects(&opts, &Event::Status(true)));
    let creating = ExperimentRun { stage: Stage::CreatingExperiment, ..ExperimentRun::new() };
    assert!(creating.expects(&opts, &Event::Status(true)));
    assert!(!creating.expects(&opts, &Event::Status(false)));
}

#[test]
fn default_features_cannot_be_patched() {
    let text = r#"snafu = { path = "/snafu", default-features = false }"#;
    let patches = vec![PatchArg::from_str(text).unwrap()];
    assert!(!can_patch(&patches));
    let opts = Opts { patch: patches, ..opts() };
    assert!(can_patch(&vec![]));
    let building = ExperimentRun { stage: Stage::Building, ..ExperimentRun::new() };
    assert!(!building.expects(&opts, &output(true)));
    assert!(building.expects(&opts, &output(false)));
}

#[test]
fn an_answer_decides_how_the_run_goes_on() {
    let opts = opts();
    let crates = vec![a_crate("a", None)];
    let start = |selected, named| {
        let mut run = ExperimentRun::new();
        let step = run.advance(&opts, &crates, Event::Done, Finding::Candidate { selected, named });
        (asked(&step), told(&step))
    };
    assert_eq!(start(Ok(true), Ok(())), ("find experiment a".to_owned(), vec![]));
    assert_eq!(start(Ok(false), Ok(())), ("proceed".to_owned(), vec!["skip a".to_owned()]));
    assert_eq!(start(Err(CraterError::NoPatch), Ok(())), ("fail".to_owned(), vec![]));
    assert_eq!(start(Ok(true), Err(CraterError::NoPatch)), ("fail".to_owned(), vec![]));
    let mut run = ExperimentRun { stage: Stage::ReadingManifest, ..ExperimentRun::new() };
    let finding = Finding::Manifest(Ok("text".to_owned()));
    let step = run.advance(&opts, &crates, Event::Text(String::new()), finding);
    assert_eq!(text_of(&step), "text");
    assert_eq!(run.stage, Stage::ResettingManifest);
}

#[test]
fn a_run_on_no_crates_is_finished() {
    let mut d = Driver::new(opts(), vec![]);
    d.expect(Event::Done, &[], "finish");
    assert_eq!(d.run.stage, Stage::Finished);
}

#[test]
fn the_screen_follows_the_run() {
    let opts = Opts { select: Some("a".to_owned()), use_git: true, ..opts() };
    let crates = vec![a_crate("b", None), a_crate("ax", None), a_crate("ay", Some("r"))];
    let mut root = Root::default();
    root.on_message(Message::RunExperimentsStart { crates: crates.clone() });
    let mut d = Driver::new(opts, crates);
    let mut show = |step: Step| {
        for message in step.messages {
            assert_eq!(root.on_event(MetaEvent::Program(message)), Control::Continue);
        }
        match &root.progress {
            Progress::RunExperiments(e) => {
                e.experiments.iter().map(|e| e.progress).collect::<Vec<_>>()
            }
            Progress::Initialized => panic!("the experiments are not known"),
        }
    };
    let skipped = RunExperimentProgress::Skipped;
    let pending = RunExperimentProgress::Pending;
    let failed = RunExperimentProgress::OriginalError;
    assert_eq!(show(d.step(Event::Done)), [skipped, pending, pending]);
    d.step(Event::Done);
    d.step(Event::Exists(true));
    assert_eq!(show(d.step(Event::Text(NEW.to_owned()))), [skipped, pending, pending]);
    assert_eq!(show(d.step(Event::Done)), [skipped, failed, pending]);
    d.step(Event::Done);
    d.step(Event::Exists(true));
    d.step(Event::Text(NEW.to_owned()));
    d.step(Event::Done);
    d.step(Event::Exists(true));
    d.step(Event::Located(Place::At("/r".to_owned())));
    assert_eq!(show(d.step(Event::Done)), [skipped, failed, RunExperimentProgress::Running]);
    d.step(output(true));
    d.step(Event::Done);
    assert_eq!(show(d.step(output(true))), [skipped, failed, RunExperimentProgress::Success]);
}
