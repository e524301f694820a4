//! What holds between the run, its statistics and what the terminal shows of them.

use vstd::prelude::*;

use crate::command::{
    CommandView, VariableView, WordView, CHECKOUT_VARIABLE, NAME_VARIABLE, WORKING_DIR_VARIABLE,
};
use crate::experiment::{
    advanced, answers, books, chosen, expected, first_run, question, run_wf, step_command,
    ActionView, DraftView, EventView, FindingView, PlaceView, RunView, Stage,
};
use crate::manifest::{
    checked_out_view, patched_tables, released_view, setup_tables, with_tables, DetailedView,
    Manifest,
};
use crate::message::MessageView;
use crate::options::{PatchArgView, SettingsView};
use crate::outside::manifest_text;
use crate::registry::{crate_names, CrateView};
use crate::state::{ProgressView, RootView, RunExperimentProgress, RunExperimentView};
use crate::statistics::{tally, Outcome, StatisticsView};
use crate::ui::{
    after_event, after_message, after_press, update_of, KeyCode, MetaEventView, TerminalEvent,
    UpdateView,
};

verus! {

/// The experiments on the screen.
pub open spec fn shown_experiments(root: RootView) -> Seq<RunExperimentView> {
    match root.progress {
        ProgressView::Initialized => Seq::empty(),
        ProgressView::RunExperiments(e) => e.experiments,
    }
}

/// A message about an experiment changes nothing but the experiments of its name, and of those
/// not the name, nor where the user is in them.
pub proof fn law_message_touches_its_experiment_only(
    root: RootView,
    message: MessageView,
    name: Seq<char>,
    update: UpdateView,
    i: int,
)
    requires
        update_of(message) == Some((name, update)),
        0 <= i < shown_experiments(root).len(),
    ensures
        ({
            let next = after_message(root, message);
            let was = shown_experiments(root)[i];
            let is = shown_experiments(next)[i];
            &&& shown_experiments(next).len() == shown_experiments(root).len()
            &&& was.name != name ==> is == was
            &&& is.name == was.name
            &&& is.crate_detail == was.crate_detail
            &&& next.focus == root.focus
            &&& next.tracing == root.tracing
            &&& next.progress->RunExperiments_0.focus == root.progress->RunExperiments_0.focus
            &&& next.progress->RunExperiments_0.crate_list
                == root.progress->RunExperiments_0.crate_list
        }),
{
}

/// A key changes where the user is, and nothing of what the run reported.
pub proof fn law_keys_leave_the_reports(root: RootView, code: KeyCode, i: int)
    ensures
        ({
            let next = after_press(root, code);
            &&& shown_experiments(next).len() == shown_experiments(root).len()
            &&& next.tracing.traces == root.tracing.traces
            &&& 0 <= i < shown_experiments(root).len() ==> {
                let was = shown_experiments(root)[i];
                let is = shown_experiments(next)[i];
                is == RunExperimentView { crate_detail: is.crate_detail, ..was }
            }
        }),
{
}

/// What the books say of a crate, as far as they say anything.
pub open spec fn listed(books: StatisticsView, name: Seq<char>) -> Option<RunExperimentProgress> {
    if books.experiment_successes.contains(name) {
        Some(RunExperimentProgress::Success)
    } else if books.experiment_failures.contains(name) {
        Some(RunExperimentProgress::Error)
    } else if books.original_failures.contains(name) || books.setup_failures.contains(name) {
        Some(RunExperimentProgress::OriginalError)
    } else if books.setup_successes.contains(name) {
        Some(RunExperimentProgress::Running)
    } else {
        None
    }
}

/// How the experiment on the crate at this place is shown during a run: as skipped once the run
/// has passed it by, as not begun while the run has not come to it, and else as the books have
/// it. The crate that the run is at has not begun as long as they do not list it.
pub open spec fn shown_as(
    e: RunExperimentView,
    i: int,
    run: RunView,
    select: Option<Seq<char>>,
) -> bool {
    e.progress == if i < run.index && !chosen(select, e.name) {
        RunExperimentProgress::Skipped
    } else if i > run.index {
        RunExperimentProgress::Pending
    } else {
        match listed(run.statistics, e.name) {
            Some(progress) => progress,
            None => RunExperimentProgress::Pending,
        }
    }
}

/// The screen shows each crate as the run has it.
pub open spec fn shows(
    root: RootView,
    run: RunView,
    select: Option<Seq<char>>,
    names: Seq<Seq<char>>,
) -> bool {
    &&& root.progress is RunExperiments
    &&& shown_experiments(root).len() == names.len()
    &&& forall|i: int|
        0 <= i < names.len() ==> (#[trigger] shown_experiments(root)[i]).name == names[i]
            && shown_as(shown_experiments(root)[i], i, run, select)
}

/// The screen after messages, one after the other.
pub open spec fn after_messages(root: RootView, messages: Seq<MessageView>) -> RootView
    decreases messages.len(),
{
    if messages.len() == 0 {
        root
    } else {
        after_message(after_messages(root, messages.drop_last()), messages.last())
    }
}

/// Every name in the books is one of the crates that are done with.
proof fn lemma_books_list_done_crates(names: Seq<Seq<char>>, outcomes: Seq<Outcome>, i: int)
    requires
        names.no_duplicates(),
        outcomes.len() <= i < names.len(),
    ensures
        ({
            let t = tally(names, outcomes);
            let name = names[i];
            &&& !t.setup_successes.contains(name)
            &&& !t.setup_failures.contains(name)
            &&& !t.original_successes.contains(name)
            &&& !t.original_failures.contains(name)
            &&& !t.experiment_successes.contains(name)
            &&& !t.experiment_failures.contains(name)
        }),
    decreases outcomes.len(),
{
    if outcomes.len() > 0 {
        lemma_books_list_done_crates(names, outcomes.drop_last(), i);
        let before = tally(names, outcomes.drop_last());
        let last = names[outcomes.len() - 1];
        assert(last != names[i]);
        lemma_push_contains(before.setup_successes, last, names[i]);
        lemma_push_contains(before.setup_failures, last, names[i]);
        lemma_push_contains(before.original_successes, last, names[i]);
        lemma_push_contains(before.original_failures, last, names[i]);
        lemma_push_contains(before.experiment_successes, last, names[i]);
        lemma_push_contains(before.experiment_failures, last, names[i]);
    }
}

proof fn lemma_push_contains(s: Seq<Seq<char>>, pushed: Seq<char>, name: Seq<char>)
    ensures
        s.push(pushed).contains(name) <==> s.contains(name) || pushed == name,
{
    if s.contains(name) {
        let k = choose|k: int| 0 <= k < s.len() && s[k] == name;
        assert(s.push(pushed)[k] == name);
    }
    if pushed == name {
        assert(s.push(pushed)[s.len() as int] == name);
    }
}

/// What the screen shows keeps up with the books: after each step of a run, once the messages of
/// the step have arrived, every crate is shown as the run and its statistics have it.
pub proof fn law_screen_follows_the_books(
    root: RootView,
    run: RunView,
    settings: SettingsView,
    crates: Seq<CrateView>,
    event: EventView,
    draft: DraftView,
    finding: FindingView,
)
    requires
        crate_names(crates).no_duplicates(),
        run_wf(run, settings, crates),
        expected(run.stage, settings.patch, event),
        answers(run, settings, question(run, settings, crates, event), draft, finding),
        shows(root, run, settings.select, crate_names(crates)),
    ensures
        ({
            let turn = advanced(RunView { draft, ..run }, settings, crates, event, finding);
            shows(
                after_messages(root, turn.messages),
                turn.run,
                settings.select,
                crate_names(crates),
            )
        }),
{
    let names = crate_names(crates);
    let turn = advanced(RunView { draft, ..run }, settings, crates, event, finding);
    let next = after_messages(root, turn.messages);
    reveal_with_fuel(after_messages, 3);
    if turn.messages.len() > 0 {
        assert(turn.messages.drop_last().len() == turn.messages.len() - 1);
        let (outcomes, stage) = choose|outcomes: Seq<Outcome>, stage: Stage|
            {
                &&& outcomes.len() == run.index
                &&& run.stage is Failed || stage == run.stage
                &&& run.statistics == #[trigger] books(names, outcomes, stage)
            };
        let name = names[run.index];
        assert(name == crates[run.index].name);
        lemma_books_list_done_crates(names, outcomes, run.index);
        assert forall|i: int| 0 <= i < names.len() implies (#[trigger] shown_experiments(
            next,
        )[i]).name == names[i] && shown_as(
            shown_experiments(next)[i],
            i,
            turn.run,
            settings.select,
        ) by {
            if i > run.index {
                lemma_books_list_done_crates(names, outcomes, i);
            }
            let was = run.statistics;
            let closed = tally(names, outcomes);
            assert(shown_experiments(root)[i].name == names[i]);
            assert(i != run.index ==> names[i] != name);
            lemma_push_contains(was.setup_successes, name, names[i]);
            lemma_push_contains(was.setup_failures, name, names[i]);
            lemma_push_contains(was.original_successes, name, names[i]);
            lemma_push_contains(was.original_failures, name, names[i]);
            lemma_push_contains(was.experiment_successes, name, names[i]);
            lemma_push_contains(was.experiment_failures, name, names[i]);
            lemma_push_contains(closed.setup_successes, name, names[i]);
            lemma_push_contains(closed.original_successes, name, names[i]);
        }
    }
}

/// When the experiments are announced, the screen shows every crate as not begun, which is what
/// a new run has.
pub proof fn law_screen_starts_with_the_books(
    root: RootView,
    select: Option<Seq<char>>,
    crates: Seq<CrateView>,
)
    ensures
        shows(
            after_message(root, MessageView::RunExperimentsStart { crates }),
            first_run(),
            select,
            crate_names(crates),
        ),
{
}

/// Whatever the user does at the terminal and whatever is reported besides, the screen keeps
/// showing the crates as the run has them.
pub proof fn law_other_events_keep_what_is_shown(
    root: RootView,
    event: MetaEventView,
    run: RunView,
    select: Option<Seq<char>>,
    names: Seq<Seq<char>>,
)
    requires
        !(event is Program),
        shows(root, run, select, names),
    ensures
        shows(after_event(root, event), run, select, names),
{
    let next = after_event(root, event);
    assert forall|i: int| 0 <= i < names.len() implies (#[trigger] shown_experiments(
        next,
    )[i]).name == names[i] && shown_as(shown_experiments(next)[i], i, run, select) by {
        assert(shown_experiments(root)[i].name == names[i]);
        if let MetaEventView::Terminal(TerminalEvent::Key { code, .. }) = event {
            law_keys_leave_the_reports(root, code, i);
        }
    }
}

/// What the manifest of the current experiment reads, once an action has been performed.
pub open spec fn after_action(disk: Option<Seq<char>>, action: ActionView) -> Option<Seq<char>> {
    match action {
        ActionView::WriteManifest { text, .. } => Some(text),
        _ => disk,
    }
}

/// A manifest with the crate under test as its one dependency, and no patch.
pub open spec fn plain_manifest(manifest: Manifest, name: Seq<char>, dep: DetailedView) -> Manifest {
    with_tables(manifest, setup_tables(name, dep))
}

/// The same manifest with the patches.
pub open spec fn patched_manifest(
    manifest: Manifest,
    name: Seq<char>,
    dep: DetailedView,
    patches: Seq<PatchArgView>,
) -> Manifest {
    with_tables(plain_manifest(manifest, name, dep), patched_tables(name, dep, patches))
}

/// The dependency is on what the user wants to have tried: the crate's repository, or the newest
/// version that was published.
pub open spec fn is_on(dep: DetailedView, c: CrateView, use_git: bool) -> bool {
    if use_git {
        exists|path: Seq<char>| dep == #[trigger] checked_out_view(path)
    } else {
        dep == released_view(c.max_version)
    }
}

/// What the manifest of the current experiment reads is what the stage of the run goes by: up to
/// the first step it names the crate under test and no patch, and from then on the same crate
/// with the patches.
pub open spec fn on_disk(
    run: RunView,
    disk: Option<Seq<char>>,
    settings: SettingsView,
    crates: Seq<CrateView>,
) -> bool {
    match run.stage {
        Stage::WritingDependency | Stage::Building => is_plain(
            run.draft,
            disk,
            crates[run.index],
            settings.use_git,
        ),
        Stage::WritingPatches | Stage::Rebuilding => is_patched(
            disk,
            crates[run.index],
            settings,
        ),
        _ => true,
    }
}

/// The manifest reads as drafted: the crate under test, and no patch.
pub open spec fn is_plain(
    draft: DraftView,
    disk: Option<Seq<char>>,
    c: CrateView,
    use_git: bool,
) -> bool {
    &&& is_on(draft.dep->0, c, use_git)
    &&& exists|manifest: Manifest|
        draft.manifest == Some(#[trigger] plain_manifest(manifest, c.name, draft.dep->0))
    &&& disk is Some
    &&& disk == manifest_text(draft.manifest->0)
}

/// The manifest reads the crate under test and the patches.
pub open spec fn is_patched(
    disk: Option<Seq<char>>,
    c: CrateView,
    settings: SettingsView,
) -> bool {
    &&& disk is Some
    &&& exists|manifest: Manifest, dep: DetailedView|
        is_on(dep, c, settings.use_git) && disk == manifest_text(
            #[trigger] patched_manifest(manifest, c.name, dep, settings.patch),
        )
}

/// The first step of an experiment finds a manifest that names the crate under test and no patch,
/// and the second one finds the same with the patches: whatever happens, each action leaves
/// behind what the next stage goes by.
pub proof fn law_each_step_finds_its_manifest(
    run: RunView,
    disk: Option<Seq<char>>,
    settings: SettingsView,
    crates: Seq<CrateView>,
    event: EventView,
    draft: DraftView,
    finding: FindingView,
)
    requires
        run_wf(run, settings, crates),
        expected(run.stage, settings.patch, event),
        answers(run, settings, question(run, settings, crates, event), draft, finding),
        on_disk(run, disk, settings, crates),
    ensures
        ({
            let turn = advanced(RunView { draft, ..run }, settings, crates, event, finding);
            on_disk(turn.run, after_action(disk, turn.action), settings, crates)
        }),
{
    let turn = advanced(RunView { draft, ..run }, settings, crates, event, finding);
    let c = crates[run.index];
    let next = after_action(disk, turn.action);
    match run.stage {
        Stage::ResettingManifest | Stage::FindingPackage => {
            if turn.run.stage is WritingDependency {
                let dep = turn.run.draft.dep->0;
                if let EventView::Located(PlaceView::At(path)) = event {
                    assert(dep == checked_out_view(path) || !settings.use_git);
                }
                assert(turn.run.draft.manifest == Some(
                    plain_manifest(run.draft.manifest->0, c.name, dep),
                ));
            }
        },
        Stage::Building => {
            if turn.run.stage is WritingPatches {
                let dep = run.draft.dep->0;
                let manifest = choose|manifest: Manifest|
                    run.draft.manifest == Some(#[trigger] plain_manifest(manifest, c.name, dep));
                assert(next == manifest_text(
                    patched_manifest(manifest, c.name, dep, settings.patch),
                ));
            }
        },
        _ => {},
    }
}

/// What a variable holds in the environment of a command.
pub open spec fn holds(command: CommandView, name: Seq<char>, value: WordView) -> bool {
    exists|i: int|
        0 <= i < command.envs.len() && #[trigger] command.envs[i] == (VariableView { name, value })
}

/// Both steps of an experiment are told the working directory and the name of the crate; where,
/// and only where, the crate is checked out, they are told the top of the checkout too.
pub proof fn law_steps_know_their_surroundings(
    command: Option<Seq<char>>,
    name: Seq<char>,
    use_git: bool,
)
    ensures
        ({
            let step = step_command(command, name, use_git);
            &&& holds(step, "MINI_CRATER_WORKING_DIR"@, WordView::WorkingDir)
            &&& holds(step, "MINI_CRATER_EXPERIMENT_NAME"@, WordView::Text(name))
            &&& use_git ==> holds(
                step,
                "MINI_CRATER_EXPERIMENT_CHECKOUT_DIR"@,
                WordView::CheckoutDir,
            )
            &&& !use_git ==> forall|value: WordView|
                !#[trigger] holds(step, "MINI_CRATER_EXPERIMENT_CHECKOUT_DIR"@, value)
        }),
{
    reveal_strlit("MINI_CRATER_WORKING_DIR");
    reveal_strlit("MINI_CRATER_EXPERIMENT_NAME");
    reveal_strlit("MINI_CRATER_EXPERIMENT_CHECKOUT_DIR");
    let step = step_command(command, name, use_git);
    assert(step.envs[0].name == WORKING_DIR_VARIABLE@);
    assert(step.envs[1].name == NAME_VARIABLE@);
    if use_git {
        assert(step.envs[2].name == CHECKOUT_VARIABLE@);
    } else {
        assert(WORKING_DIR_VARIABLE@.len() != CHECKOUT_VARIABLE@.len());
        assert(NAME_VARIABLE@.len() != CHECKOUT_VARIABLE@.len());
    }
}

} // verus!
