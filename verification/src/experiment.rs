//! The course of the experiments: what to do next, given what came of the last thing done.
//!
//! A run looks at one crate after the other. Whatever has to touch the world is asked for as an
//! [`Action`], and its outcome comes back as an [`Event`].

use vstd::prelude::*;

use crate::command::{
    clone_repository, clone_repository_view, new_experiment, new_experiment_view, prepare_command,
    prepared_command, CommandLine, CommandView, Word, WordView,
};
use crate::error::CraterError;
use crate::manifest::{
    checked_out_view, patched_tables, released_view, reset_tables, rewrites_to, setup_tables,
    text_result, with_tables, DetailedDependency, DetailedView, Manifest, Tables, TablesView,
};
use crate::message::{message_views, Message, MessageView};
use crate::options::{patch_views, Opts, PatchArg, PatchArgView, SettingsView};
use crate::outside::{
    check_package_name, manifest_of, parse_manifest, regex_is_match, regex_match,
    valid_package_name,
};
use crate::registry::{crate_names, crate_views, Crate, CrateView};
use crate::state::{output_of, RunExperimentOutput};
use crate::statistics::{
    empty_statistics, law_books_balance, tally, tried, Outcome, Statistics, StatisticsView,
};
use crate::text::opt_text;

verus! {

/// What a run is waiting for.
#[derive(Debug, Copy, Clone, PartialEq, Eq, Structural)]
pub enum Stage {
    /// The next crate.
    Ready,
    /// Whether the program of the experiment is there already.
    FindingExperiment,
    /// The program of the experiment.
    CreatingExperiment,
    /// The manifest of the program.
    ReadingManifest,
    /// The manifest without the traces of an earlier run, written back.
    ResettingManifest,
    /// Whether the crate is checked out already.
    FindingCheckout,
    /// The checkout.
    Cloning,
    /// The place of the crate in its checkout.
    FindingPackage,
    /// The manifest with the crate as its dependency, written back.
    WritingDependency,
    /// The first step.
    Building,
    /// The manifest with the patches, written back.
    WritingPatches,
    /// The second step.
    Rebuilding,
    /// Nothing: every crate has been tried.
    Finished,
    /// Nothing: the run broke off.
    Failed,
}

/// Where a package lies in a checkout.
pub enum Place {
    /// Nowhere that could be told.
    Unknown,
    /// Somewhere whose path is not text.
    NotUtf8,
    At(String),
}

/// The model of a [`Place`].
pub enum PlaceView {
    Unknown,
    NotUtf8,
    At(Seq<char>),
}

impl View for Place {
    type V = PlaceView;

    open spec fn view(&self) -> PlaceView {
        match self {
            Place::Unknown => PlaceView::Unknown,
            Place::NotUtf8 => PlaceView::NotUtf8,
            Place::At(path) => PlaceView::At(path@),
        }
    }
}

/// What came of an [`Action`].
pub enum Event {
    /// It was done.
    Done,
    /// Whether a thing is there.
    Exists(bool),
    /// Whether a command succeeded.
    Status(bool),
    /// What a file holds.
    Text(String),
    /// Where the package lies.
    Located(Place),
    /// Whether a command succeeded, and what it wrote.
    Output { success: bool, stdout: Vec<u8>, stderr: Vec<u8> },
}

/// The model of an [`Event`].
pub enum EventView {
    Done,
    Exists(bool),
    Status(bool),
    Text(Seq<char>),
    Located(PlaceView),
    Output { success: bool, stdout: Seq<u8>, stderr: Seq<u8> },
}

impl View for Event {
    type V = EventView;

    open spec fn view(&self) -> EventView {
        match self {
            Event::Done => EventView::Done,
            Event::Exists(there) => EventView::Exists(*there),
            Event::Status(success) => EventView::Status(*success),
            Event::Text(text) => EventView::Text(text@),
            Event::Located(place) => EventView::Located(place@),
            Event::Output { success, stdout, stderr } => EventView::Output {
                success: *success,
                stdout: stdout@,
                stderr: stderr@,
            },
        }
    }
}

/// What a run asks for.
pub enum Action {
    /// Nothing; go on.
    Proceed,
    /// Look whether there is a program for this crate.
    FindExperiment { name: String },
    /// Run this to the end.
    RunStatus(CommandLine),
    /// Read the manifest of the program for this crate.
    ReadManifest { name: String },
    /// Write the manifest of the program for this crate.
    WriteManifest { name: String, text: String },
    /// Look whether this crate is checked out.
    FindCheckout { name: String },
    /// Look where this crate lies in its checkout.
    FindPackage { name: String },
    /// Run this to the end and collect what it writes.
    RunOutput(CommandLine),
    /// Stop: all crates have been tried.
    Finish,
    /// Stop: this went wrong.
    Fail(CraterError),
}

/// The model of an [`Action`].
pub enum ActionView {
    Proceed,
    FindExperiment { name: Seq<char> },
    RunStatus(CommandView),
    ReadManifest { name: Seq<char> },
    WriteManifest { name: Seq<char>, text: Seq<char> },
    FindCheckout { name: Seq<char> },
    FindPackage { name: Seq<char> },
    RunOutput(CommandView),
    Finish,
    Fail(CraterError),
}

impl View for Action {
    type V = ActionView;

    open spec fn view(&self) -> ActionView {
        match self {
            Action::Proceed => ActionView::Proceed,
            Action::FindExperiment { name } => ActionView::FindExperiment { name: name@ },
            Action::RunStatus(command) => ActionView::RunStatus(command@),
            Action::ReadManifest { name } => ActionView::ReadManifest { name: name@ },
            Action::WriteManifest { name, text } => ActionView::WriteManifest {
                name: name@,
                text: text@,
            },
            Action::FindCheckout { name } => ActionView::FindCheckout { name: name@ },
            Action::FindPackage { name } => ActionView::FindPackage { name: name@ },
            Action::RunOutput(command) => ActionView::RunOutput(command@),
            Action::Finish => ActionView::Finish,
            Action::Fail(e) => ActionView::Fail(*e),
        }
    }
}

/// What is told to the terminal first, and then asked for.
pub struct Step {
    pub messages: Vec<Message>,
    pub action: Action,
}

/// What other crates had to say before the run could go on.
pub enum Finding {
    /// Nothing was asked of them.
    Nothing,
    /// Whether the crate is selected, and whether its name will do for a package; the second is
    /// asked of a selected crate only.
    Candidate { selected: Result<bool, CraterError>, named: Result<(), CraterError> },
    /// The text of the manifest to write.
    Manifest(Result<String, CraterError>),
}

/// The model of a [`Finding`].
pub enum FindingView {
    Nothing,
    Candidate { selected: Result<bool, CraterError>, named: Result<(), CraterError> },
    Manifest(Result<Seq<char>, CraterError>),
}

impl View for Finding {
    type V = FindingView;

    open spec fn view(&self) -> FindingView {
        match self {
            Finding::Nothing => FindingView::Nothing,
            Finding::Candidate { selected, named } => FindingView::Candidate {
                selected: *selected,
                named: *named,
            },
            Finding::Manifest(r) => FindingView::Manifest(text_result(*r)),
        }
    }
}

/// The manifest of the current experiment, and what it asks of the crate under test, as far as
/// they are known.
pub struct Draft {
    pub manifest: Option<Manifest>,
    pub dep: Option<DetailedDependency>,
}

/// The model of a [`Draft`].
pub struct DraftView {
    pub manifest: Option<Manifest>,
    pub dep: Option<DetailedView>,
}

impl View for Draft {
    type V = DraftView;

    open spec fn view(&self) -> DraftView {
        DraftView {
            manifest: self.manifest,
            dep: match self.dep {
                Some(dep) => Some(dep@),
                None => None,
            },
        }
    }
}

/// Nothing is known yet.
pub open spec fn no_draft() -> DraftView {
    DraftView { manifest: None, dep: None }
}

/// A run of the experiments.
pub struct ExperimentRun {
    /// The place of the current crate.
    pub index: usize,
    pub stage: Stage,
    pub draft: Draft,
    pub statistics: Statistics,
}

/// The model of an [`ExperimentRun`].
pub struct RunView {
    pub index: int,
    pub stage: Stage,
    pub draft: DraftView,
    pub statistics: StatisticsView,
}

impl View for ExperimentRun {
    type V = RunView;

    open spec fn view(&self) -> RunView {
        RunView {
            index: self.index as int,
            stage: self.stage,
            draft: self.draft@,
            statistics: self.statistics@,
        }
    }
}

/// A run before its first crate.
pub open spec fn first_run() -> RunView {
    RunView {
        index: 0,
        stage: Stage::Ready,
        draft: no_draft(),
        statistics: empty_statistics(),
    }
}

/// No patch sets its default features, which a patch cannot do.
pub open spec fn patches_supported(patches: Seq<PatchArgView>) -> bool {
    forall|i: int| 0 <= i < patches.len() ==> (#[trigger] patches[i]).default_features is None
}

/// The event is what the stage waits for. The program of an experiment can always be created, and
/// once a crate has built the patches have to be such as can be applied.
pub open spec fn expected(stage: Stage, patches: Seq<PatchArgView>, event: EventView) -> bool {
    match stage {
        Stage::Ready => event is Done,
        Stage::FindingExperiment => event is Exists,
        Stage::CreatingExperiment => event == EventView::Status(true),
        Stage::ReadingManifest => event is Text,
        Stage::ResettingManifest => event is Done,
        Stage::FindingCheckout => event is Exists,
        Stage::Cloning => event is Status,
        Stage::FindingPackage => event is Located,
        Stage::WritingDependency => event is Done,
        Stage::Building => event matches EventView::Output { success, .. } && (success
            ==> patches_supported(patches)),
        Stage::WritingPatches => event is Done,
        Stage::Rebuilding => event is Output,
        Stage::Finished => false,
        Stage::Failed => false,
    }
}

/// Which question an event raises that other crates have to answer.
pub enum Question {
    Nothing,
    Candidate { name: Seq<char> },
    /// What a new manifest reads without the traces of an earlier run.
    Reset { text: Seq<char> },
    /// What the manifest reads with the crate under test as its dependency.
    Setup { tables: TablesView, dep: DetailedView },
    /// What the manifest reads with the patches.
    Patch { tables: TablesView },
}

/// The question that an event raises.
pub open spec fn question(
    run: RunView,
    settings: SettingsView,
    crates: Seq<CrateView>,
    event: EventView,
) -> Question {
    let c = crates[run.index];
    match (run.stage, event) {
        (Stage::Ready, _) if run.index < crates.len() => Question::Candidate { name: c.name },
        (Stage::ReadingManifest, EventView::Text(text)) => Question::Reset { text },
        (Stage::ResettingManifest, _) if !settings.use_git => {
            let dep = released_view(c.max_version);
            Question::Setup { tables: setup_tables(c.name, dep), dep }
        },
        (Stage::FindingPackage, EventView::Located(PlaceView::At(path))) => {
            let dep = checked_out_view(path);
            Question::Setup { tables: setup_tables(c.name, dep), dep }
        },
        (Stage::Building, EventView::Output { success: true, .. }) => Question::Patch {
            tables: patched_tables(c.name, run.draft.dep->0, settings.patch),
        },
        _ => Question::Nothing,
    }
}

/// What the select expression says of a name; without one, every name is selected.
pub open spec fn selects(
    select: Option<Seq<char>>,
    name: Seq<char>,
    r: Result<bool, CraterError>,
) -> bool {
    match select {
        None => r == Ok::<bool, CraterError>(true),
        Some(pattern) => match regex_match(pattern, name) {
            Some(found) => r == Ok::<bool, CraterError>(found),
            None => r matches Err(CraterError::Regex(_)),
        },
    }
}

/// Whether a name will do for a package.
pub open spec fn names_package(name: Seq<char>, r: Result<(), CraterError>) -> bool {
    if valid_package_name(name) {
        r is Ok
    } else {
        r matches Err(CraterError::PackageName(_))
    }
}

/// The finding answers the question, and the draft is what the answer makes of it: a manifest
/// that could not be made is given up.
pub open spec fn answers(
    run: RunView,
    settings: SettingsView,
    question: Question,
    draft: DraftView,
    finding: FindingView,
) -> bool {
    match question {
        Question::Nothing => finding is Nothing && draft == run.draft,
        Question::Candidate { name } => {
            &&& finding matches FindingView::Candidate { selected, named }
            &&& selects(settings.select, name, selected)
            &&& if selected == Ok::<bool, CraterError>(true) {
                names_package(name, named)
            } else {
                named is Ok
            }
            &&& draft == run.draft
        },
        Question::Reset { text } => {
            &&& finding matches FindingView::Manifest(r)
            &&& match manifest_of(text) {
                None => {
                    &&& r matches Err(CraterError::TomlRead(_))
                    &&& draft == no_draft()
                },
                Some(manifest) => {
                    &&& rewrites_to(manifest, reset_tables(), r)
                    &&& draft == if r is Ok {
                        DraftView {
                            manifest: Some(with_tables(manifest, reset_tables())),
                            dep: None,
                        }
                    } else {
                        no_draft()
                    }
                },
            }
        },
        Question::Setup { tables, dep } => {
            &&& finding matches FindingView::Manifest(r)
            &&& rewrites_to(run.draft.manifest->0, tables, r)
            &&& draft == if r is Ok {
                DraftView {
                    manifest: Some(with_tables(run.draft.manifest->0, tables)),
                    dep: Some(dep),
                }
            } else {
                no_draft()
            }
        },
        Question::Patch { tables } => {
            &&& finding matches FindingView::Manifest(r)
            &&& rewrites_to(run.draft.manifest->0, tables, r)
            &&& draft == no_draft()
        },
    }
}

/// A run after an event, what it tells the terminal, and what it asks for.
pub struct Turn {
    pub run: RunView,
    pub messages: Seq<MessageView>,
    pub action: ActionView,
}

/// The run goes on to wait for something else.
pub open spec fn on_to(run: RunView, stage: Stage, action: ActionView) -> Turn {
    Turn { run: RunView { stage, ..run }, messages: Seq::empty(), action }
}

/// The run breaks off.
pub open spec fn broken_off(run: RunView, e: CraterError) -> Turn {
    on_to(run, Stage::Failed, ActionView::Fail(e))
}

/// The run is done with the current crate.
pub open spec fn next_crate(run: RunView) -> RunView {
    RunView { index: run.index + 1, stage: Stage::Ready, ..run }
}

/// The current crate could not be set up.
pub open spec fn not_set_up(run: RunView, name: Seq<char>) -> Turn {
    Turn {
        run: next_crate(RunView { statistics: run.statistics.setup_failed(name), ..run }),
        messages: seq![MessageView::ExperimentSetupFailure { name }],
        action: ActionView::Proceed,
    }
}

/// A manifest is written, where there is a text for it.
pub open spec fn writing(
    run: RunView,
    stage: Stage,
    name: Seq<char>,
    text: Result<Seq<char>, CraterError>,
) -> Turn {
    match text {
        Ok(text) => on_to(run, stage, ActionView::WriteManifest { name, text }),
        Err(e) => broken_off(run, e),
    }
}

/// A step of the experiment: the user's command or a build, which is told where the checkout is
/// where there is one.
pub open spec fn step_command(
    command: Option<Seq<char>>,
    name: Seq<char>,
    use_git: bool,
) -> CommandView {
    prepared_command(
        command,
        WordView::WorkingDir,
        WordView::Text(name),
        if use_git {
            Some(WordView::CheckoutDir)
        } else {
            None
        },
    )
}

/// What a run does next.
pub open spec fn advanced(
    run: RunView,
    settings: SettingsView,
    crates: Seq<CrateView>,
    event: EventView,
    finding: FindingView,
) -> Turn {
    let c = crates[run.index];
    let name = c.name;
    match run.stage {
        Stage::Ready => if run.index >= crates.len() {
            on_to(run, Stage::Finished, ActionView::Finish)
        } else {
            match finding->selected {
                Err(e) => broken_off(run, e),
                Ok(false) => Turn {
                    run: next_crate(run),
                    messages: seq![MessageView::ExperimentSkip { name }],
                    action: ActionView::Proceed,
                },
                Ok(true) => match finding->named {
                    Err(e) => broken_off(run, e),
                    Ok(_) => on_to(
                        run,
                        Stage::FindingExperiment,
                        ActionView::FindExperiment { name },
                    ),
                },
            }
        },
        Stage::FindingExperiment => if event->Exists_0 {
            on_to(run, Stage::ReadingManifest, ActionView::ReadManifest { name })
        } else {
            on_to(
                run,
                Stage::CreatingExperiment,
                ActionView::RunStatus(new_experiment_view(name)),
            )
        },
        Stage::CreatingExperiment => on_to(
            run,
            Stage::ReadingManifest,
            ActionView::ReadManifest { name },
        ),
        Stage::ReadingManifest => writing(
            run,
            Stage::ResettingManifest,
            name,
            finding->Manifest_0,
        ),
        Stage::ResettingManifest => if !settings.use_git {
            writing(run, Stage::WritingDependency, name, finding->Manifest_0)
        } else if c.repository is None {
            not_set_up(run, name)
        } else {
            on_to(run, Stage::FindingCheckout, ActionView::FindCheckout { name })
        },
        Stage::FindingCheckout => if event->Exists_0 {
            on_to(run, Stage::FindingPackage, ActionView::FindPackage { name })
        } else {
            on_to(
                run,
                Stage::Cloning,
                ActionView::RunStatus(clone_repository_view(c.repository->0)),
            )
        },
        Stage::Cloning => if event->Status_0 {
            on_to(run, Stage::FindingPackage, ActionView::FindPackage { name })
        } else {
            not_set_up(run, name)
        },
        Stage::FindingPackage => match event->Located_0 {
            PlaceView::Unknown => not_set_up(run, name),
            PlaceView::NotUtf8 => broken_off(run, CraterError::PathNotUtf8),
            PlaceView::At(_) => writing(run, Stage::WritingDependency, name, finding->Manifest_0),
        },
        Stage::WritingDependency => Turn {
            run: RunView {
                stage: Stage::Building,
                statistics: run.statistics.set_up(name),
                ..run
            },
            messages: seq![MessageView::ExperimentSetupSuccess { name }],
            action: ActionView::RunOutput(
                step_command(settings.pre_command, name, settings.use_git),
            ),
        },
        Stage::Building => {
            let output = output_of(event->stdout, event->stderr);
            let told = MessageView::ExperimentOriginalOutput { name, output };
            if event->success {
                let built = RunView { statistics: run.statistics.original_built(name), ..run };
                Turn {
                    messages: seq![told, MessageView::ExperimentOriginalSuccess { name }],
                    ..writing(built, Stage::WritingPatches, name, finding->Manifest_0)
                }
            } else {
                Turn {
                    run: next_crate(
                        RunView { statistics: run.statistics.original_failed(name), ..run },
                    ),
                    messages: seq![told, MessageView::ExperimentOriginalFailure { name }],
                    action: ActionView::Proceed,
                }
            }
        },
        Stage::WritingPatches => on_to(
            run,
            Stage::Rebuilding,
            ActionView::RunOutput(step_command(settings.post_command, name, settings.use_git)),
        ),
        Stage::Rebuilding => {
            let output = output_of(event->stdout, event->stderr);
            let told = MessageView::ExperimentOutput { name, output };
            if event->success {
                Turn {
                    run: next_crate(
                        RunView { statistics: run.statistics.experiment_built(name), ..run },
                    ),
                    messages: seq![told, MessageView::ExperimentSuccess { name }],
                    action: ActionView::Proceed,
                }
            } else {
                Turn {
                    run: next_crate(
                        RunView { statistics: run.statistics.experiment_failed(name), ..run },
                    ),
                    messages: seq![told, MessageView::ExperimentFailure { name }],
                    action: ActionView::Proceed,
                }
            }
        },
        Stage::Finished => on_to(run, Stage::Finished, ActionView::Finish),
        Stage::Failed => on_to(run, Stage::Failed, ActionView::Finish),
    }
}

/// The kind of finding that goes with a question.
pub open spec fn fits(question: Question, finding: FindingView) -> bool {
    match question {
        Question::Nothing => finding is Nothing,
        Question::Candidate { .. } => finding is Candidate,
        _ => finding is Manifest,
    }
}

/// The stage is one at which a crate is being worked on.
pub open spec fn at_work(stage: Stage) -> bool {
    !(stage is Ready) && !(stage is Finished) && !(stage is Failed)
}

/// The books on the crates before the current one, given how each of them ended, with what has
/// been entered of the current one.
pub open spec fn books(names: Seq<Seq<char>>, outcomes: Seq<Outcome>, stage: Stage) -> StatisticsView {
    let closed = tally(names, outcomes);
    let name = names[outcomes.len() as int];
    match stage {
        Stage::Building => closed.set_up(name),
        Stage::WritingPatches | Stage::Rebuilding => closed.set_up(name).original_built(name),
        _ => closed,
    }
}

/// The user wants this crate to be tried.
pub open spec fn chosen(select: Option<Seq<char>>, name: Seq<char>) -> bool {
    match select {
        None => true,
        Some(pattern) => regex_match(pattern, name) == Some(true),
    }
}

/// The crates that were skipped are those that the user does not want to be tried.
pub open spec fn skips_follow(
    select: Option<Seq<char>>,
    names: Seq<Seq<char>>,
    outcomes: Seq<Outcome>,
) -> bool {
    forall|i: int|
        0 <= i < outcomes.len() ==> ((#[trigger] outcomes[i]) is Skipped <==> !chosen(
            select,
            names[i],
        ))
}

/// The statistics are the books on the crates so far, for some way that each of them ended. A run
/// that broke off may have done so at any stage.
pub open spec fn books_kept(
    run: RunView,
    select: Option<Seq<char>>,
    names: Seq<Seq<char>>,
) -> bool {
    exists|outcomes: Seq<Outcome>, stage: Stage|
        {
            &&& outcomes.len() == run.index
            &&& skips_follow(select, names, outcomes)
            &&& run.stage is Failed || stage == run.stage
            &&& run.statistics == #[trigger] books(names, outcomes, stage)
        }
}

/// The run stands where the crates let it stand.
pub open spec fn placed(run: RunView, settings: SettingsView, crates: Seq<CrateView>) -> bool {
    &&& 0 <= run.index <= crates.len()
    &&& at_work(run.stage) ==> run.index < crates.len()
    &&& run.stage is Finished ==> run.index == crates.len()
    &&& run.stage is FindingCheckout || run.stage is Cloning || run.stage is FindingPackage
        ==> settings.use_git && crates[run.index].repository is Some
}

/// The run has the manifest that it is going to need.
pub open spec fn drafted(run: RunView) -> bool {
    &&& run.stage is ResettingManifest || run.stage is FindingCheckout || run.stage is Cloning
        || run.stage is FindingPackage || run.stage is WritingDependency || run.stage is Building
        ==> run.draft.manifest is Some
    &&& run.stage is WritingDependency || run.stage is Building ==> run.draft.dep is Some
}

/// A run that got where it is by way of [`ExperimentRun::step`].
pub open spec fn run_wf(run: RunView, settings: SettingsView, crates: Seq<CrateView>) -> bool {
    &&& placed(run, settings, crates)
    &&& drafted(run)
    &&& at_work(run.stage) ==> chosen(settings.select, crates[run.index].name)
    &&& books_kept(run, settings.select, crate_names(crates))
}

/// The turn that an event brings about, given these answers to the question that it raises.
pub open spec fn turns_to(
    run: RunView,
    settings: SettingsView,
    crates: Seq<CrateView>,
    event: EventView,
    draft: DraftView,
    finding: FindingView,
    turn: Turn,
) -> bool {
    &&& answers(run, settings, question(run, settings, crates, event), draft, finding)
    &&& turn == advanced(RunView { draft, ..run }, settings, crates, event, finding)
}

impl Step {
    fn quiet(action: Action) -> (r: Step)
        ensures
            message_views(r.messages@) == Seq::<MessageView>::empty(),
            r.action == action,
    {
        let r = Step { messages: Vec::new(), action };
        assert(message_views(r.messages@) =~= Seq::empty());
        r
    }

    fn telling(message: Message, action: Action) -> (r: Step)
        ensures
            message_views(r.messages@) == seq![message@],
            r.action == action,
    {
        let mut messages: Vec<Message> = Vec::new();
        messages.push(message);
        assert(message_views(messages@) =~= seq![message@]);
        Step { messages, action }
    }

    fn telling_two(first: Message, second: Message, action: Action) -> (r: Step)
        ensures
            message_views(r.messages@) == seq![first@, second@],
            r.action == action,
    {
        let mut messages: Vec<Message> = Vec::new();
        messages.push(first);
        messages.push(second);
        assert(message_views(messages@) =~= seq![first@, second@]);
        Step { messages, action }
    }
}

impl ExperimentRun {
    /// A run that has not begun.
    pub fn new() -> (r: ExperimentRun)
        ensures
            r@ == first_run(),
            forall|settings: SettingsView, crates: Seq<CrateView>| #[trigger]
                run_wf(r@, settings, crates),
    {
        proof {
            assert forall|settings: SettingsView, crates: Seq<CrateView>| #[trigger]
                run_wf(first_run(), settings, crates) by {
                assert(first_run().statistics == books(
                    crate_names(crates),
                    Seq::empty(),
                    Stage::Ready,
                ));
            }
        }
        ExperimentRun {
            index: 0,
            stage: Stage::Ready,
            draft: Draft { manifest: None, dep: None },
            statistics: Statistics::default(),
        }
    }

    /// Whether an event is what the run waits for.
    pub fn expects<P>(&self, opts: &Opts<P>, event: &Event) -> (r: bool)
        ensures
            r == expected(self.stage, opts.settings().patch, event@),
    {
        match (self.stage, event) {
            (Stage::Ready, Event::Done) => true,
            (Stage::FindingExperiment, Event::Exists(_)) => true,
            (Stage::CreatingExperiment, Event::Status(success)) => *success,
            (Stage::ReadingManifest, Event::Text(_)) => true,
            (Stage::ResettingManifest, Event::Done) => true,
            (Stage::FindingCheckout, Event::Exists(_)) => true,
            (Stage::Cloning, Event::Status(_)) => true,
            (Stage::FindingPackage, Event::Located(_)) => true,
            (Stage::WritingDependency, Event::Done) => true,
            (Stage::Building, Event::Output { success, .. }) => !*success || can_patch(
                &opts.patch,
            ),
            (Stage::WritingPatches, Event::Done) => true,
            (Stage::Rebuilding, Event::Output { .. }) => true,
            _ => false,
        }
    }

    fn done_with_crate(&mut self)
        requires
            old(self).index < usize::MAX,
        ensures
            final(self)@ == next_crate(old(self)@),
    {
        self.index = self.index + 1;
        self.stage = Stage::Ready;
    }

    fn fail_setup(&mut self, name: &String) -> (r: Step)
        requires
            old(self).index < usize::MAX,
        ensures
            ({
                let turn = not_set_up(old(self)@, name@);
                final(self)@ == turn.run && message_views(r.messages@) == turn.messages
                    && r.action@ == turn.action
            }),
    {
        self.statistics.setup_failures.push(name.clone());
        assert(self.statistics@ =~= old(self).statistics@.setup_failed(name@));
        self.done_with_crate();
        Step::telling(Message::ExperimentSetupFailure { name: name.clone() }, Action::Proceed)
    }

    fn wait_for(&mut self, stage: Stage, action: Action) -> (r: Step)
        ensures
            ({
                let turn = on_to(old(self)@, stage, action@);
                final(self)@ == turn.run && message_views(r.messages@) == turn.messages
                    && r.action@ == turn.action
            }),
    {
        self.stage = stage;
        Step::quiet(action)
    }

    fn write(&mut self, stage: Stage, name: &String, text: Result<String, CraterError>) -> (r: Step)
        ensures
            ({
                let turn = writing(old(self)@, stage, name@, text_result(text));
                final(self)@ == turn.run && message_views(r.messages@) == turn.messages
                    && r.action@ == turn.action
            }),
    {
        match text {
            Ok(text) => self.wait_for(stage, Action::WriteManifest { name: name.clone(), text }),
            Err(e) => self.wait_for(Stage::Failed, Action::Fail(e)),
        }
    }

    /// Goes on from an event, given what other crates had to say about it.
    pub fn advance<P>(
        &mut self,
        opts: &Opts<P>,
        crates: &Vec<Crate>,
        event: Event,
        finding: Finding,
    ) -> (r: Step)
        requires
            placed(old(self)@, opts.settings(), crate_views(crates@)),
            expected(old(self).stage, opts.settings().patch, event@),
            fits(
                question(old(self)@, opts.settings(), crate_views(crates@), event@),
                finding@,
            ),
        ensures
            ({
                let turn = advanced(
                    old(self)@,
                    opts.settings(),
                    crate_views(crates@),
                    event@,
                    finding@,
                );
                final(self)@ == turn.run && message_views(r.messages@) == turn.messages
                    && r.action@ == turn.action
            }),
    {
        if self.index >= crates.len() {
            return self.wait_for(Stage::Finished, Action::Finish);
        }
        let c: &Crate = &crates[self.index];
        assert(crate_views(crates@)[self.index as int] == c@);
        let name: &String = &c.name;
        match self.stage {
            Stage::Ready => match finding {
                Finding::Candidate { selected: Err(e), .. } => self.wait_for(
                    Stage::Failed,
                    Action::Fail(e),
                ),
                Finding::Candidate { selected: Ok(false), .. } => {
                    self.done_with_crate();
                    Step::telling(Message::ExperimentSkip { name: name.clone() }, Action::Proceed)
                },
                Finding::Candidate { selected: Ok(true), named: Err(e) } => self.wait_for(
                    Stage::Failed,
                    Action::Fail(e),
                ),
                _ => self.wait_for(
                    Stage::FindingExperiment,
                    Action::FindExperiment { name: name.clone() },
                ),
            },
            Stage::FindingExperiment => match event {
                Event::Exists(true) => self.wait_for(
                    Stage::ReadingManifest,
                    Action::ReadManifest { name: name.clone() },
                ),
                _ => self.wait_for(
                    Stage::CreatingExperiment,
                    Action::RunStatus(new_experiment(name.as_str())),
                ),
            },
            Stage::CreatingExperiment => self.wait_for(
                Stage::ReadingManifest,
                Action::ReadManifest { name: name.clone() },
            ),
            Stage::ReadingManifest => match finding {
                Finding::Manifest(text) => self.write(Stage::ResettingManifest, name, text),
                _ => Step::quiet(Action::Proceed),
            },
            Stage::ResettingManifest => if !opts.use_git {
                match finding {
                    Finding::Manifest(text) => self.write(Stage::WritingDependency, name, text),
                    _ => Step::quiet(Action::Proceed),
                }
            } else {
                match &c.repository {
                    None => self.fail_setup(name),
                    Some(_) => self.wait_for(
                        Stage::FindingCheckout,
                        Action::FindCheckout { name: name.clone() },
                    ),
                }
            },
            Stage::FindingCheckout => match (event, &c.repository) {
                (Event::Exists(false), Some(repository)) => self.wait_for(
                    Stage::Cloning,
                    Action::RunStatus(clone_repository(repository.as_str())),
                ),
                _ => self.wait_for(
                    Stage::FindingPackage,
                    Action::FindPackage { name: name.clone() },
                ),
            },
            Stage::Cloning => match event {
                Event::Status(true) => self.wait_for(
                    Stage::FindingPackage,
                    Action::FindPackage { name: name.clone() },
                ),
                _ => self.fail_setup(name),
            },
            Stage::FindingPackage => match (event, finding) {
                (Event::Located(Place::Unknown), _) => self.fail_setup(name),
                (Event::Located(Place::At(_)), Finding::Manifest(text)) => self.write(
                    Stage::WritingDependency,
                    name,
                    text,
                ),
                _ => self.wait_for(Stage::Failed, Action::Fail(CraterError::PathNotUtf8)),
            },
            Stage::WritingDependency => {
                self.statistics.setup_successes.push(name.clone());
                assert(self.statistics@ =~= old(self).statistics@.set_up(name@));
                self.stage = Stage::Building;
                Step::telling(
                    Message::ExperimentSetupSuccess { name: name.clone() },
                    Action::RunOutput(
                        prepare_step(opts.pre_command.as_ref(), name, opts.use_git),
                    ),
                )
            },
            Stage::Building => match event {
                Event::Output { success, stdout, stderr } => {
                    let output = RunExperimentOutput::from_bytes(stdout, stderr);
                    let told = Message::ExperimentOriginalOutput { name: name.clone(), output };
                    if success {
                        self.statistics.original_successes.push(name.clone());
                        assert(self.statistics@ =~= old(self).statistics@.original_built(name@));
                        let built = Message::ExperimentOriginalSuccess { name: name.clone() };
                        let step = match finding {
                            Finding::Manifest(text) => self.write(
                                Stage::WritingPatches,
                                name,
                                text,
                            ),
                            _ => Step::quiet(Action::Proceed),
                        };
                        Step::telling_two(told, built, step.action)
                    } else {
                        self.statistics.original_failures.push(name.clone());
                        assert(self.statistics@ =~= old(self).statistics@.original_failed(name@));
                        self.done_with_crate();
                        Step::telling_two(
                            told,
                            Message::ExperimentOriginalFailure { name: name.clone() },
                            Action::Proceed,
                        )
                    }
                },
                _ => Step::quiet(Action::Proceed),
            },
            Stage::WritingPatches => self.wait_for(
                Stage::Rebuilding,
                Action::RunOutput(prepare_step(opts.post_command.as_ref(), name, opts.use_git)),
            ),
            Stage::Rebuilding => match event {
                Event::Output { success, stdout, stderr } => {
                    let output = RunExperimentOutput::from_bytes(stdout, stderr);
                    let told = Message::ExperimentOutput { name: name.clone(), output };
                    if success {
                        self.statistics.experiment_successes.push(name.clone());
                        assert(self.statistics@ =~= old(self).statistics@.experiment_built(name@));
                        self.done_with_crate();
                        Step::telling_two(
                            told,
                            Message::ExperimentSuccess { name: name.clone() },
                            Action::Proceed,
                        )
                    } else {
                        self.statistics.experiment_failures.push(name.clone());
                        assert(self.statistics@ =~= old(self).statistics@.experiment_failed(name@));
                        self.done_with_crate();
                        Step::telling_two(
                            told,
                            Message::ExperimentFailure { name: name.clone() },
                            Action::Proceed,
                        )
                    }
                },
                _ => Step::quiet(Action::Proceed),
            },
            Stage::Finished | Stage::Failed => Step::quiet(Action::Finish),
        }
    }
}

impl ExperimentRun {
    /// Asks other crates what the run has to know before it can go on from an event.
    pub fn judge<P>(&mut self, opts: &Opts<P>, crates: &Vec<Crate>, event: &Event) -> (r: Finding)
        requires
            run_wf(old(self)@, opts.settings(), crate_views(crates@)),
            expected(old(self).stage, opts.settings().patch, event@),
        ensures
            final(self)@ == (RunView { draft: final(self)@.draft, ..old(self)@ }),
            answers(
                old(self)@,
                opts.settings(),
                question(old(self)@, opts.settings(), crate_views(crates@), event@),
                final(self)@.draft,
                r@,
            ),
    {
        if self.index >= crates.len() {
            return Finding::Nothing;
        }
        let c: &Crate = &crates[self.index];
        assert(crate_views(crates@)[self.index as int] == c@);
        match (self.stage, event) {
            (Stage::Ready, _) => {
                let selected = is_selected(&opts.select, c.name.as_str());
                let named = match selected {
                    Ok(true) => is_package_name(c.name.as_str()),
                    _ => Ok(()),
                };
                Finding::Candidate { selected, named }
            },
            (Stage::ReadingManifest, Event::Text(text)) => {
                self.draft = Draft { manifest: None, dep: None };
                match parse_manifest(text.as_str()) {
                    Err(e) => Finding::Manifest(Err(CraterError::TomlRead(e))),
                    Ok(manifest) => {
                        self.draft.manifest = Some(manifest);
                        self.redraft(Tables::reset(), None)
                    },
                }
            },
            (Stage::ResettingManifest, _) => if opts.use_git {
                Finding::Nothing
            } else {
                let dep = DetailedDependency::released(c.max_version.as_str());
                self.redraft(Tables::setup(c.name.as_str(), &dep), Some(dep))
            },
            (Stage::FindingPackage, Event::Located(Place::At(path))) => {
                let dep = DetailedDependency::checked_out(path.clone());
                self.redraft(Tables::setup(c.name.as_str(), &dep), Some(dep))
            },
            (Stage::Building, Event::Output { success: true, .. }) => {
                let finding = match &self.draft.dep {
                    None => Finding::Nothing,
                    Some(dep) => {
                        let tables = Tables::patched(c.name.as_str(), dep, &opts.patch);
                        self.redraft(tables, None)
                    },
                };
                self.draft = Draft { manifest: None, dep: None };
                finding
            },
            _ => Finding::Nothing,
        }
    }

    /// Writes the draft of the manifest with other tables; one that cannot be written is given
    /// up.
    fn redraft(&mut self, tables: Tables, dep: Option<DetailedDependency>) -> (r: Finding)
        requires
            old(self).draft.manifest is Some,
        ensures
            final(self)@ == (RunView { draft: final(self)@.draft, ..old(self)@ }),
            ({
                let manifest = old(self).draft.manifest->0;
                &&& r@ matches FindingView::Manifest(text)
                &&& rewrites_to(manifest, tables@, text)
                &&& final(self)@.draft == if text is Ok {
                    DraftView {
                        manifest: Some(with_tables(manifest, tables@)),
                        dep: match dep {
                            Some(dep) => Some(dep@),
                            None => None,
                        },
                    }
                } else {
                    no_draft()
                }
            }),
    {
        let text = match self.draft.manifest.take() {
            None => Ok(String::new()),
            Some(manifest) => {
                let mut manifest = manifest;
                let text = manifest.rewrite(&tables);
                self.draft = match text {
                    Ok(_) => Draft { manifest: Some(manifest), dep },
                    Err(_) => Draft { manifest: None, dep: None },
                };
                text
            },
        };
        Finding::Manifest(text)
    }

    /// Goes on from an event.
    pub fn step<P>(&mut self, opts: &Opts<P>, crates: &Vec<Crate>, event: Event) -> (r: Step)
        requires
            run_wf(old(self)@, opts.settings(), crate_views(crates@)),
            expected(old(self).stage, opts.settings().patch, event@),
        ensures
            run_wf(final(self)@, opts.settings(), crate_views(crates@)),
            exists|draft: DraftView, finding: FindingView| #[trigger]
                turns_to(
                    old(self)@,
                    opts.settings(),
                    crate_views(crates@),
                    event@,
                    draft,
                    finding,
                    Turn {
                        run: final(self)@,
                        messages: message_views(r.messages@),
                        action: r.action@,
                    },
                ),
    {
        let finding = self.judge(opts, crates, &event);
        proof {
            law_step_keeps_the_books(
                old(self)@,
                opts.settings(),
                crate_views(crates@),
                event@,
                self@.draft,
                finding@,
            );
        }
        let ghost answer = (self@.draft, finding@);
        let r = self.advance(opts, crates, event, finding);
        assert(turns_to(
            old(self)@,
            opts.settings(),
            crate_views(crates@),
            event@,
            answer.0,
            answer.1,
            Turn { run: self@, messages: message_views(r.messages@), action: r.action@ },
        ));
        r
    }
}

/// Whether the patches are such as can be applied: none of them sets its default features.
pub fn can_patch(patches: &Vec<PatchArg>) -> (r: bool)
    ensures
        r == patches_supported(patch_views(patches@)),
{
    let mut i: usize = 0;
    while i < patches.len()
        invariant
            i <= patches.len(),
            forall|j: int|
                0 <= j < i ==> (#[trigger] patch_views(patches@)[j]).default_features is None,
        decreases patches.len() - i,
    {
        assert(patch_views(patches@)[i as int] == patches@[i as int]@);
        if patches[i].default_features.is_some() {
            return false;
        }
        i = i + 1;
    }
    true
}

/// Whether a name is selected.
fn is_selected(select: &Option<String>, name: &str) -> (r: Result<bool, CraterError>)
    ensures
        selects(opt_text(*select), name@, r),
{
    match select {
        None => Ok(true),
        Some(pattern) => match regex_is_match(pattern.as_str(), name) {
            Ok(found) => Ok(found),
            Err(e) => Err(CraterError::Regex(e)),
        },
    }
}

/// Whether a name will do for a package.
fn is_package_name(name: &str) -> (r: Result<(), CraterError>)
    ensures
        names_package(name@, r),
{
    match check_package_name(name) {
        Ok(()) => Ok(()),
        Err(e) => Err(CraterError::PackageName(e)),
    }
}

/// A step of a run keeps the books: whatever the event, the statistics are the ones that follow
/// from how the experiments on the crates so far have ended.
pub proof fn law_step_keeps_the_books(
    run: RunView,
    settings: SettingsView,
    crates: Seq<CrateView>,
    event: EventView,
    draft: DraftView,
    finding: FindingView,
)
    requires
        run_wf(run, settings, crates),
        expected(run.stage, settings.patch, event),
        answers(run, settings, question(run, settings, crates, event), draft, finding),
    ensures
        fits(question(run, settings, crates, event), finding),
        run_wf(
            advanced(RunView { draft, ..run }, settings, crates, event, finding).run,
            settings,
            crates,
        ),
{
    let names = crate_names(crates);
    let (outcomes, stage) = choose|outcomes: Seq<Outcome>, stage: Stage|
        {
            &&& outcomes.len() == run.index
            &&& skips_follow(settings.select, names, outcomes)
            &&& run.stage is Failed || stage == run.stage
            &&& run.statistics == #[trigger] books(names, outcomes, stage)
        };
    let next = advanced(RunView { draft, ..run }, settings, crates, event, finding).run;
    if run.index < crates.len() {
        assert(names[run.index] == crates[run.index].name);
    }
    if next.index == run.index {
        let reached = if next.stage is Failed {
            if run.stage is Building {
                Stage::WritingPatches
            } else {
                run.stage
            }
        } else {
            next.stage
        };
        assert(next.statistics == books(names, outcomes, reached));
    } else {
        let outcome = match run.stage {
            Stage::Ready => Outcome::Skipped,
            Stage::Building => Outcome::NeverBuilt,
            Stage::Rebuilding => if event->success {
                Outcome::Sound
            } else {
                Outcome::Broken
            },
            _ => Outcome::NotSetUp,
        };
        assert(outcomes.push(outcome).drop_last() =~= outcomes);
        assert(skips_follow(settings.select, names, outcomes.push(outcome)));
        assert(next.statistics == books(names, outcomes.push(outcome), Stage::Ready));
    }
}

/// A finished run accounts for every crate: each of them ended in some way, those that the user
/// does not want to be tried by being skipped, and the statistics are the books on that. Those
/// that were set up and those that could not be are the crates that the user wants to be tried.
pub proof fn law_finished_run_accounts_for_every_crate(
    run: RunView,
    settings: SettingsView,
    crates: Seq<CrateView>,
)
    requires
        run_wf(run, settings, crates),
        run.stage is Finished,
    ensures
        exists|outcomes: Seq<Outcome>|
            {
                &&& outcomes.len() == crates.len()
                &&& skips_follow(settings.select, crate_names(crates), outcomes)
                &&& run.statistics == #[trigger] tally(crate_names(crates), outcomes)
            },
        run.statistics.setup_successes.to_multiset().add(
            run.statistics.setup_failures.to_multiset(),
        ) == crate_names(crates).filter(
            |name: Seq<char>| chosen(settings.select, name),
        ).to_multiset(),
{
    let names = crate_names(crates);
    let (outcomes, stage) = choose|outcomes: Seq<Outcome>, stage: Stage|
        {
            &&& outcomes.len() == run.index
            &&& skips_follow(settings.select, names, outcomes)
            &&& run.stage is Failed || stage == run.stage
            &&& run.statistics == #[trigger] books(names, outcomes, stage)
        };
    assert(run.statistics == tally(names, outcomes));
    law_books_balance(names, outcomes);
    lemma_tried_are_chosen(settings.select, names, outcomes);
    assert(names.take(names.len() as int) =~= names);
}

proof fn lemma_tried_are_chosen(
    select: Option<Seq<char>>,
    names: Seq<Seq<char>>,
    outcomes: Seq<Outcome>,
)
    requires
        outcomes.len() <= names.len(),
        skips_follow(select, names, outcomes),
    ensures
        tried(names, outcomes) == names.take(outcomes.len() as int).filter(
            |name: Seq<char>| chosen(select, name),
        ),
    decreases outcomes.len(),
{
    reveal(Seq::filter);
    let n = outcomes.len() as int;
    if n > 0 {
        let earlier = outcomes.drop_last();
        assert forall|i: int| 0 <= i < earlier.len() implies ((#[trigger] earlier[i]) is Skipped
            <==> !chosen(select, names[i])) by {
            assert(outcomes[i] == earlier[i]);
        }
        lemma_tried_are_chosen(select, names, earlier);
        assert(names.take(n).drop_last() =~= names.take(n - 1));
        assert(outcomes[n - 1] is Skipped <==> !chosen(select, names[n - 1]));
    }
}

/// Prepares one of the two steps of an experiment.
fn prepare_step(command: Option<&String>, name: &String, use_git: bool) -> (r: CommandLine)
    ensures
        r@ == step_command(crate::command::opt_ref_text(command), name@, use_git),
{
    prepare_command(
        command,
        Word::WorkingDir,
        Word::Text(name.clone()),
        if use_git {
            Some(Word::CheckoutDir)
        } else {
            None
        },
    )
}

} // verus!
