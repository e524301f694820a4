//! What a run is for: what it does with each crate, told by what comes in and what goes out.

use vstd::prelude::*;

use crate::command::{
    cargo_config_text, clone_repository_view, new_experiment_view, opt_ref_text, opt_word,
    prepared_command, CommandView, Word, WordView,
};
use crate::error::CraterError;
use crate::experiment::{
    expected, first_run, patches_supported, step_command, turns_to, Action, ActionView, DraftView,
    EventView, FindingView, PlaceView, RunView, Stage, Turn,
};
use crate::manifest::{
    checked_out_view, patched_tables, released_view, setup_tables, valid_names, DependencyView,
    DetailedView,
};
use crate::message::MessageView;
use crate::options::{PatchArgView, SettingsView};
use crate::outside::{
    manifest_of, manifest_text, regex_match, utf8_lossy, valid_package_name, with_dependencies,
    with_patches,
};
use crate::registry::CrateView;
use crate::statistics::{tally, Outcome};

verus! {

/// A list that grew by this name where it was to, and stayed as it was where not.
pub open spec fn grew(
    before: Seq<Seq<char>>,
    after: Seq<Seq<char>>,
    name: Seq<char>,
    grows: bool,
) -> bool {
    if grows {
        &&& after.len() == before.len() + 1
        &&& after.last() == name
        &&& forall|i: int| 0 <= i < before.len() ==> #[trigger] after[i] == before[i]
    } else {
        after == before
    }
}

/// A turn that stays with the crate, says nothing and enters nothing.
pub open spec fn quiet(before: RunView, turn: Turn) -> bool {
    &&& turn.messages.len() == 0
    &&& turn.run.index == before.index
    &&& turn.run.statistics == before.statistics
}

/// A turn that ends the experiment on the crate: the next one comes.
pub open spec fn moves_on(before: RunView, turn: Turn) -> bool {
    &&& turn.run.index == before.index + 1
    &&& turn.run.stage == Stage::Ready
    &&& turn.action == ActionView::Proceed
}

/// A turn that says that the crate could not be set up, enters it so, and goes to the next one.
pub open spec fn fails_setup(before: RunView, turn: Turn, name: Seq<char>) -> bool {
    &&& moves_on(before, turn)
    &&& turn.messages.len() == 1
    &&& turn.messages[0] == (MessageView::ExperimentSetupFailure { name })
    &&& grew(before.statistics.setup_failures, turn.run.statistics.setup_failures, name, true)
    &&& turn.run.statistics.setup_successes == before.statistics.setup_successes
    &&& turn.run.statistics.original_successes == before.statistics.original_successes
    &&& turn.run.statistics.original_failures == before.statistics.original_failures
    &&& turn.run.statistics.experiment_successes == before.statistics.experiment_successes
    &&& turn.run.statistics.experiment_failures == before.statistics.experiment_failures
}

/// A run begins with the first crate and empty books.
pub proof fn law_run_begins_with_nothing()
    ensures
        first_run().index == 0,
        first_run().stage == Stage::Ready,
        first_run().draft.manifest is None,
        first_run().draft.dep is None,
        first_run().statistics.setup_successes.len() == 0,
        first_run().statistics.setup_failures.len() == 0,
        first_run().statistics.original_successes.len() == 0,
        first_run().statistics.original_failures.len() == 0,
        first_run().statistics.experiment_successes.len() == 0,
        first_run().statistics.experiment_failures.len() == 0,
{
}

/// A run ends once there is no crate left, and not before.
pub proof fn law_run_ends_after_the_last_crate(
    run: RunView,
    settings: SettingsView,
    crates: Seq<CrateView>,
    event: EventView,
    draft: DraftView,
    finding: FindingView,
    turn: Turn,
)
    requires
        turns_to(run, settings, crates, event, draft, finding, turn),
        expected(run.stage, settings.patch, event),
    ensures
        turn.action == ActionView::Finish <==> run.stage == Stage::Ready && run.index
            >= crates.len(),
        turn.action == ActionView::Finish <==> turn.run.stage == Stage::Finished,
        turn.action is Fail <==> turn.run.stage == Stage::Failed,
        turn.action == ActionView::Finish ==> quiet(run, turn),
{
}

/// A crate that is not wanted is skipped, a wanted one is tried, and a name that no package can
/// have or a selection that is no expression stops the run.
pub proof fn law_wanted_crates_are_tried(
    run: RunView,
    settings: SettingsView,
    crates: Seq<CrateView>,
    event: EventView,
    draft: DraftView,
    finding: FindingView,
    turn: Turn,
)
    requires
        turns_to(run, settings, crates, event, draft, finding, turn),
        run.stage == Stage::Ready,
        0 <= run.index < crates.len(),
    ensures
        ({
            let name = crates[run.index].name;
            let wanted = match settings.select {
                Some(pattern) => regex_match(pattern, name),
                None => Some(true),
            };
            &&& turn.run.statistics == run.statistics
            &&& wanted == Some(false) ==> moves_on(run, turn) && turn.messages.len() == 1
                && turn.messages[0] == (MessageView::ExperimentSkip { name })
            &&& wanted == Some(true) && valid_package_name(name) ==> quiet(run, turn)
                && turn.action == (ActionView::FindExperiment { name }) && turn.run.stage
                == Stage::FindingExperiment
            &&& wanted == Some(true) && !valid_package_name(name) ==> quiet(run, turn) && (
            turn.action matches ActionView::Fail(CraterError::PackageName(_)))
            &&& wanted is None ==> quiet(run, turn) && (turn.action matches ActionView::Fail(
                CraterError::Regex(_),
            ))
        }),
{
}

/// The program of an experiment is made where it is not there, and its manifest is read.
pub proof fn law_experiment_is_made_once(
    run: RunView,
    settings: SettingsView,
    crates: Seq<CrateView>,
    event: EventView,
    draft: DraftView,
    finding: FindingView,
    turn: Turn,
)
    requires
        turns_to(run, settings, crates, event, draft, finding, turn),
        expected(run.stage, settings.patch, event),
        run.stage == Stage::FindingExperiment || run.stage == Stage::CreatingExperiment,
    ensures
        ({
            let name = crates[run.index].name;
            &&& quiet(run, turn)
            &&& event != EventView::Exists(false) ==> turn.action == (ActionView::ReadManifest {
                name,
            }) && turn.run.stage == Stage::ReadingManifest
            &&& event == EventView::Exists(false) ==> {
                &&& turn.run.stage == Stage::CreatingExperiment
                &&& turn.action matches ActionView::RunStatus(command)
                &&& makes_experiment(command, name)
            }
        }),
{
    law_new_experiment_is_named_after_the_crate(crates[run.index].name);
}

/// `cargo new --quiet --bin --name experiment-<crate> <crate>`, with nothing added to the
/// environment.
pub open spec fn makes_experiment(command: CommandView, name: Seq<char>) -> bool {
    &&& command.program == "cargo"@
    &&& command.envs.len() == 0
    &&& command.args.len() == 6
    &&& command.args[0] == WordView::Text("new"@)
    &&& command.args[1] == WordView::Text("--quiet"@)
    &&& command.args[2] == WordView::Text("--bin"@)
    &&& command.args[3] == WordView::Text("--name"@)
    &&& command.args[4] matches WordView::Text(package)
    &&& package.len() == name.len() + 11
    &&& package.take(11) == "experiment-"@
    &&& package.skip(11) == name
    &&& command.args[5] == WordView::Text(name)
}

/// The program of an experiment lies under the name of the crate and is named after it.
pub proof fn law_new_experiment_is_named_after_the_crate(name: Seq<char>)
    ensures
        makes_experiment(new_experiment_view(name), name),
{
    reveal_strlit("experiment-");
    let package = "experiment-"@ + name;
    assert(package.take(11) =~= "experiment-"@);
    assert(package.skip(11) =~= name);
}

/// A manifest that was read is written back without dependencies and patches.
pub proof fn law_manifest_is_reset(
    run: RunView,
    settings: SettingsView,
    crates: Seq<CrateView>,
    text: Seq<char>,
    draft: DraftView,
    finding: FindingView,
    turn: Turn,
)
    requires
        turns_to(run, settings, crates, EventView::Text(text), draft, finding, turn),
        run.stage == Stage::ReadingManifest,
    ensures
        quiet(run, turn),
        match manifest_of(text) {
            None => turn.action matches ActionView::Fail(CraterError::TomlRead(_)),
            Some(manifest) => {
                let bare = with_patches(with_dependencies(manifest, None), "crates-io"@, None);
                match manifest_text(bare) {
                    None => turn.action matches ActionView::Fail(CraterError::TomlWrite(_)),
                    Some(written) => {
                        &&& turn.action == (ActionView::WriteManifest {
                            name: crates[run.index].name,
                            text: written,
                        })
                        &&& turn.run.stage == Stage::ResettingManifest
                        &&& turn.run.draft.manifest == Some(bare)
                    },
                }
            },
        },
{
}

/// A turn that writes the manifest with one dependency, of this version or on this path, and
/// without patches.
pub open spec fn sets_up(
    before: RunView,
    turn: Turn,
    name: Seq<char>,
    version: Option<Seq<char>>,
    path: Option<Seq<char>>,
) -> bool {
    let line = DependencyView {
        name,
        dep: DetailedView { version, path, default_features: None, features: None },
    };
    let manifest = with_patches(
        with_dependencies(before.draft.manifest->0, Some(seq![line])),
        "crates-io"@,
        None,
    );
    &&& quiet(before, turn)
    &&& if !valid_package_name(name) {
        turn.action matches ActionView::Fail(CraterError::PackageName(_))
    } else {
        match manifest_text(manifest) {
            None => turn.action matches ActionView::Fail(CraterError::TomlWrite(_)),
            Some(text) => {
                &&& turn.action == (ActionView::WriteManifest { name, text })
                &&& turn.run.stage == Stage::WritingDependency
                &&& turn.run.draft.manifest == Some(manifest)
                &&& turn.run.draft.dep == Some(line.dep)
            },
        }
    }
}

/// Without repositories, the manifest is made to ask for the newest release: its whole version
/// behind an equals sign. With them, the checkout of the crate is looked for, and a crate without
/// a repository cannot be set up.
pub proof fn law_newest_release_is_pinned(
    run: RunView,
    settings: SettingsView,
    crates: Seq<CrateView>,
    event: EventView,
    draft: DraftView,
    finding: FindingView,
    turn: Turn,
)
    requires
        turns_to(run, settings, crates, event, draft, finding, turn),
        run.stage == Stage::ResettingManifest,
    ensures
        ({
            let c = crates[run.index];
            &&& !settings.use_git ==> sets_up(
                run,
                turn,
                c.name,
                Some(seq!['='] + c.max_version),
                None,
            )
            &&& settings.use_git && c.repository is None ==> fails_setup(run, turn, c.name)
            &&& settings.use_git && c.repository is Some ==> quiet(run, turn) && turn.action == (
            ActionView::FindCheckout { name: c.name }) && turn.run.stage == Stage::FindingCheckout
                && turn.run.draft == run.draft
        }),
{
    reveal_strlit("=");
    assert("="@ =~= seq!['=']);
    let c = crates[run.index];
    lemma_setup_names(c.name, released_view(c.max_version));
}

proof fn lemma_setup_names(name: Seq<char>, dep: DetailedView)
    ensures
        valid_names(setup_tables(name, dep)) <==> valid_package_name(name),
{
    let tables = setup_tables(name, dep);
    assert(tables.dependencies->0[0].name == name);
}

/// A repository is cloned where it is not checked out, and one that cannot be cloned makes a crate
/// that cannot be set up; else the crate is looked for in its checkout.
pub proof fn law_repository_is_cloned_once(
    run: RunView,
    settings: SettingsView,
    crates: Seq<CrateView>,
    event: EventView,
    draft: DraftView,
    finding: FindingView,
    turn: Turn,
)
    requires
        turns_to(run, settings, crates, event, draft, finding, turn),
        expected(run.stage, settings.patch, event),
        run.stage == Stage::FindingCheckout || run.stage == Stage::Cloning,
        crates[run.index].repository is Some,
    ensures
        ({
            let c = crates[run.index];
            &&& event == EventView::Status(false) ==> fails_setup(run, turn, c.name)
            &&& turn.run.draft == run.draft
            &&& event == EventView::Exists(false) ==> {
                &&& quiet(run, turn)
                &&& turn.run.stage == Stage::Cloning
                &&& turn.action matches ActionView::RunStatus(command)
                &&& clones(command, c.repository->0)
            }
            &&& event == EventView::Status(true) || event == EventView::Exists(true) ==> {
                &&& quiet(run, turn)
                &&& turn.run.stage == Stage::FindingPackage
                &&& turn.action == (ActionView::FindPackage { name: c.name })
            }
        }),
{
    law_clone_goes_to_the_checkout(crates[run.index].repository->0);
}

/// `git clone --quiet <repository> <checkout>`, with nothing added to the environment.
pub open spec fn clones(command: CommandView, repository: Seq<char>) -> bool {
    &&& command.program == "git"@
    &&& command.envs.len() == 0
    &&& command.args.len() == 4
    &&& command.args[0] == WordView::Text("clone"@)
    &&& command.args[1] == WordView::Text("--quiet"@)
    &&& command.args[2] == WordView::Text(repository)
    &&& command.args[3] == WordView::CheckoutDir
}

/// A repository is cloned to where the checkout of the crate is.
pub proof fn law_clone_goes_to_the_checkout(repository: Seq<char>)
    ensures
        clones(clone_repository_view(repository), repository),
{
}

/// The manifest is made to depend on the place of the crate in its checkout. A crate that is not
/// there cannot be set up, and a place that is no text stops the run.
pub proof fn law_checkout_is_depended_on(
    run: RunView,
    settings: SettingsView,
    crates: Seq<CrateView>,
    place: PlaceView,
    draft: DraftView,
    finding: FindingView,
    turn: Turn,
)
    requires
        turns_to(run, settings, crates, EventView::Located(place), draft, finding, turn),
        run.stage == Stage::FindingPackage,
    ensures
        match place {
            PlaceView::Unknown => fails_setup(run, turn, crates[run.index].name),
            PlaceView::NotUtf8 => quiet(run, turn) && turn.action == ActionView::Fail(
                CraterError::PathNotUtf8,
            ),
            PlaceView::At(path) => sets_up(run, turn, crates[run.index].name, None, Some(path)),
        },
{
    if let PlaceView::At(path) = place {
        lemma_setup_names(crates[run.index].name, checked_out_view(path));
    }
}

/// A command that is the user's, without arguments, or else `cargo build --quiet`, and that is
/// told the working directory, the name of the crate and, where there is one, the checkout.
pub open spec fn runs(
    command: CommandView,
    user: Option<Seq<char>>,
    name: Seq<char>,
    checked_out: bool,
) -> bool {
    &&& user matches Some(program) ==> command.program == program && command.args.len() == 0
    &&& user is None ==> {
        &&& command.program == "cargo"@
        &&& command.args.len() == 2
        &&& command.args[0] == WordView::Text("build"@)
        &&& command.args[1] == WordView::Text("--quiet"@)
    }
    &&& command.envs.len() == if checked_out {
        3int
    } else {
        2int
    }
    &&& command.envs[0].name == "MINI_CRATER_WORKING_DIR"@
    &&& command.envs[0].value == WordView::WorkingDir
    &&& command.envs[1].name == "MINI_CRATER_EXPERIMENT_NAME"@
    &&& command.envs[1].value == WordView::Text(name)
    &&& checked_out ==> {
        &&& command.envs[2].name == "MINI_CRATER_EXPERIMENT_CHECKOUT_DIR"@
        &&& command.envs[2].value == WordView::CheckoutDir
    }
}

/// Whatever the checkout, a step runs the user's command wherever there is one, and a build
/// exactly where there is none.
pub proof fn law_users_command_is_run(command: Option<Seq<char>>, name: Seq<char>, use_git: bool)
    ensures
        runs(step_command(command, name, use_git), command, name, use_git),
{
}

/// Whatever a command is told, what is run is the user's command wherever there is one, without
/// arguments, and `cargo build --quiet` exactly where there is none; and what it is told is what
/// was handed over.
pub proof fn law_prepared_command_is_the_users(
    user: Option<Seq<char>>,
    working_dir: WordView,
    experiment_name: WordView,
    checkout: Option<WordView>,
)
    ensures
        ({
            let command = prepared_command(user, working_dir, experiment_name, checkout);
            &&& user matches Some(program) ==> command.program == program && command.args.len()
                == 0
            &&& user is None ==> {
                &&& command.program == "cargo"@
                &&& command.args.len() == 2
                &&& command.args[0] == WordView::Text("build"@)
                &&& command.args[1] == WordView::Text("--quiet"@)
            }
            &&& command.envs.len() == if checkout is Some {
                3int
            } else {
                2int
            }
            &&& command.envs[0].name == "MINI_CRATER_WORKING_DIR"@
            &&& command.envs[0].value == working_dir
            &&& command.envs[1].name == "MINI_CRATER_EXPERIMENT_NAME"@
            &&& command.envs[1].value == experiment_name
            &&& checkout matches Some(checkout) ==> command.envs[2].name
                == "MINI_CRATER_EXPERIMENT_CHECKOUT_DIR"@ && command.envs[2].value == checkout
        }),
{
}

/// The target directory is that below the working directory, which is named as it is.
pub proof fn law_target_directory_is_shared(working_dir: Seq<char>)
    ensures
        ({
            let text = cargo_config_text(working_dir);
            let n = working_dir.len() as int;
            &&& text.len() == n + 39
            &&& text.take(31) == "[build]\n         target-dir = '"@
            &&& text.subrange(31, 31 + n) == working_dir
            &&& text.skip(31 + n) == "/target'"@
        }),
{
    reveal_strlit("[build]\n         target-dir = '");
    reveal_strlit("/target'");
    let text = cargo_config_text(working_dir);
    let n = working_dir.len() as int;
    assert(text.take(31) =~= "[build]\n         target-dir = '"@);
    assert(text.subrange(31, 31 + n) =~= working_dir);
    assert(text.skip(31 + n) =~= "/target'"@);
}

/// A crate whose manifest is written is set up, is entered so, and is built by the first command.
pub proof fn law_first_step_follows_the_setup(
    run: RunView,
    settings: SettingsView,
    crates: Seq<CrateView>,
    event: EventView,
    draft: DraftView,
    finding: FindingView,
    turn: Turn,
)
    requires
        turns_to(run, settings, crates, event, draft, finding, turn),
        run.stage == Stage::WritingDependency,
    ensures
        ({
            let name = crates[run.index].name;
            let was = run.statistics;
            let is = turn.run.statistics;
            &&& turn.run.index == run.index
            &&& turn.run.stage == Stage::Building
            &&& turn.run.draft == run.draft
            &&& turn.messages.len() == 1
            &&& turn.messages[0] == (MessageView::ExperimentSetupSuccess { name })
            &&& turn.action matches ActionView::RunOutput(command)
            &&& runs(command, settings.pre_command, name, settings.use_git)
            &&& grew(was.setup_successes, is.setup_successes, name, true)
            &&& is.setup_failures == was.setup_failures
            &&& is.original_successes == was.original_successes
            &&& is.original_failures == was.original_failures
            &&& is.experiment_successes == was.experiment_successes
            &&& is.experiment_failures == was.experiment_failures
        }),
{
    law_users_command_is_run(settings.pre_command, crates[run.index].name, settings.use_git);
}

/// Whatever the settings, a crate is entered as building as it is exactly where the first command
/// succeeded, and as not building exactly where it did not. What the command wrote is told. Only
/// a crate that builds is tried with the patches.
pub proof fn law_first_step_is_believed(
    run: RunView,
    settings: SettingsView,
    crates: Seq<CrateView>,
    success: bool,
    stdout: Seq<u8>,
    stderr: Seq<u8>,
    draft: DraftView,
    finding: FindingView,
    turn: Turn,
)
    requires
        turns_to(
            run,
            settings,
            crates,
            EventView::Output { success, stdout, stderr },
            draft,
            finding,
            turn,
        ),
        run.stage == Stage::Building,
    ensures
        ({
            let name = crates[run.index].name;
            let was = run.statistics;
            let is = turn.run.statistics;
            &&& grew(was.original_successes, is.original_successes, name, success)
            &&& grew(was.original_failures, is.original_failures, name, !success)
            &&& is.setup_successes == was.setup_successes
            &&& is.setup_failures == was.setup_failures
            &&& is.experiment_successes == was.experiment_successes
            &&& is.experiment_failures == was.experiment_failures
            &&& turn.messages.len() == 2
            &&& turn.messages[0] matches MessageView::ExperimentOriginalOutput {
                name: told,
                output,
            }
            &&& told == name
            &&& output.stdout == utf8_lossy(stdout)
            &&& output.stderr == utf8_lossy(stderr)
            &&& success ==> turn.messages[1] == (MessageView::ExperimentOriginalSuccess { name })
                && turn.run.index == run.index
            &&& !success ==> turn.messages[1] == (MessageView::ExperimentOriginalFailure { name })
                && moves_on(run, turn)
        }),
{
}

/// Where the first command succeeded, the manifest is written with the patches, and with the same
/// dependency on the crate under test.
pub proof fn law_patches_follow_the_first_step(
    run: RunView,
    settings: SettingsView,
    crates: Seq<CrateView>,
    stdout: Seq<u8>,
    stderr: Seq<u8>,
    draft: DraftView,
    finding: FindingView,
    turn: Turn,
)
    requires
        turns_to(
            run,
            settings,
            crates,
            EventView::Output { success: true, stdout, stderr },
            draft,
            finding,
            turn,
        ),
        run.stage == Stage::Building,
        valid_package_name(crates[run.index].name),
        forall|i: int|
            0 <= i < settings.patch.len() ==> valid_package_name(
                (#[trigger] settings.patch[i]).name,
            ),
    ensures
        ({
            let name = crates[run.index].name;
            let tables = patched_tables(name, run.draft.dep->0, settings.patch);
            let manifest = with_patches(
                with_dependencies(run.draft.manifest->0, tables.dependencies),
                "crates-io"@,
                tables.patch,
            );
            match manifest_text(manifest) {
                None => turn.action matches ActionView::Fail(CraterError::TomlWrite(_)),
                Some(text) => turn.action == (ActionView::WriteManifest { name, text })
                    && turn.run.stage == Stage::WritingPatches,
            }
        }),
{
    crate::laws_manifest::lemma_names_come_from_somewhere(
        crates[run.index].name,
        run.draft.dep->0,
        settings.patch,
    );
}

/// Once the patches are written, the second command is run.
pub proof fn law_second_step_follows_the_patches(
    run: RunView,
    settings: SettingsView,
    crates: Seq<CrateView>,
    event: EventView,
    draft: DraftView,
    finding: FindingView,
    turn: Turn,
)
    requires
        turns_to(run, settings, crates, event, draft, finding, turn),
        run.stage == Stage::WritingPatches,
    ensures
        quiet(run, turn),
        turn.run.stage == Stage::Rebuilding,
        turn.action matches ActionView::RunOutput(command) && runs(
            command,
            settings.post_command,
            crates[run.index].name,
            settings.use_git,
        ),
{
    law_users_command_is_run(settings.post_command, crates[run.index].name, settings.use_git);
}

/// Whatever the settings, a crate is entered as building with the patches exactly where the second
/// command succeeded, and as broken exactly where it did not. What the command wrote is told, and
/// the next crate comes.
pub proof fn law_second_step_is_believed(
    run: RunView,
    settings: SettingsView,
    crates: Seq<CrateView>,
    success: bool,
    stdout: Seq<u8>,
    stderr: Seq<u8>,
    draft: DraftView,
    finding: FindingView,
    turn: Turn,
)
    requires
        turns_to(
            run,
            settings,
            crates,
            EventView::Output { success, stdout, stderr },
            draft,
            finding,
            turn,
        ),
        run.stage == Stage::Rebuilding,
    ensures
        ({
            let name = crates[run.index].name;
            let was = run.statistics;
            let is = turn.run.statistics;
            &&& grew(was.experiment_successes, is.experiment_successes, name, success)
            &&& grew(was.experiment_failures, is.experiment_failures, name, !success)
            &&& is.setup_successes == was.setup_successes
            &&& is.setup_failures == was.setup_failures
            &&& is.original_successes == was.original_successes
            &&& is.original_failures == was.original_failures
            &&& moves_on(run, turn)
            &&& turn.messages.len() == 2
            &&& turn.messages[0] matches MessageView::ExperimentOutput { name: told, output }
            &&& told == name
            &&& output.stdout == utf8_lossy(stdout)
            &&& output.stderr == utf8_lossy(stderr)
            &&& turn.messages[1] == if success {
                MessageView::ExperimentSuccess { name }
            } else {
                MessageView::ExperimentFailure { name }
            }
        }),
{
}

/// A step of a run: what came in, what was answered, and what came out.
pub struct StepView {
    pub event: EventView,
    pub draft: DraftView,
    pub finding: FindingView,
    pub turn: Turn,
}

/// Where a run stood before its `k`th step.
pub open spec fn before_step(steps: Seq<StepView>, k: int) -> RunView {
    if k == 0 {
        first_run()
    } else {
        steps[k - 1].turn.run
    }
}

/// A step that a run takes from here, on an event that it waits for.
#[verifier::opaque]
pub open spec fn is_step(
    run: RunView,
    step: StepView,
    settings: SettingsView,
    crates: Seq<CrateView>,
) -> bool {
    &&& expected(run.stage, settings.patch, step.event)
    &&& turns_to(run, settings, crates, step.event, step.draft, step.finding, step.turn)
}

/// Steps that a run took from its beginning.
pub open spec fn lived(
    steps: Seq<StepView>,
    settings: SettingsView,
    crates: Seq<CrateView>,
) -> bool {
    forall|k: int|
        0 <= k < steps.len() ==> is_step(
            before_step(steps, k),
            #[trigger] steps[k],
            settings,
            crates,
        )
}

/// The crates whose command ended in this way at this stage, in order.
pub open spec fn ended_at(
    steps: Seq<StepView>,
    crates: Seq<CrateView>,
    stage: Stage,
    success: bool,
) -> Seq<Seq<char>>
    decreases steps.len(),
{
    if steps.len() == 0 {
        Seq::empty()
    } else {
        let earlier = ended_at(steps.drop_last(), crates, stage, success);
        let run = before_step(steps, steps.len() - 1);
        if run.stage == stage && (steps.last().event matches EventView::Output {
            success: flag,
            ..
        } && flag == success) {
            earlier.push(crates[run.index].name)
        } else {
            earlier
        }
    }
}

/// Only a command that ended enters a crate into the lists on the two steps.
proof fn lemma_commands_enter(
    run: RunView,
    step: StepView,
    settings: SettingsView,
    crates: Seq<CrateView>,
)
    requires
        is_step(run, step, settings, crates),
    ensures
        ({
            let name = crates[run.index].name;
            let was = run.statistics;
            let is = step.turn.run.statistics;
            let success = step.event->success;
            &&& run.stage == Stage::Building || run.stage == Stage::Rebuilding
                ==> step.event is Output
            &&& grew(
                was.original_successes,
                is.original_successes,
                name,
                run.stage == Stage::Building && success,
            )
            &&& grew(
                was.original_failures,
                is.original_failures,
                name,
                run.stage == Stage::Building && !success,
            )
            &&& grew(
                was.experiment_successes,
                is.experiment_successes,
                name,
                run.stage == Stage::Rebuilding && success,
            )
            &&& grew(
                was.experiment_failures,
                is.experiment_failures,
                name,
                run.stage == Stage::Rebuilding && !success,
            )
        }),
{
    reveal(is_step);
}

proof fn lemma_grew(before: Seq<Seq<char>>, after: Seq<Seq<char>>, name: Seq<char>, grows: bool)
    requires
        grew(before, after, name, grows),
    ensures
        after == if grows {
            before.push(name)
        } else {
            before
        },
{
    if grows {
        assert(after =~= before.push(name));
    }
}

/// The results of a run are what its commands ended in: each of the four lists on the two steps
/// names, in order, the crates for which the first or the second command succeeded or did not.
pub proof fn law_results_are_what_the_commands_ended_in(
    steps: Seq<StepView>,
    settings: SettingsView,
    crates: Seq<CrateView>,
)
    requires
        lived(steps, settings, crates),
    ensures
        ({
            let books = before_step(steps, steps.len() as int).statistics;
            &&& books.original_successes == ended_at(steps, crates, Stage::Building, true)
            &&& books.original_failures == ended_at(steps, crates, Stage::Building, false)
            &&& books.experiment_successes == ended_at(steps, crates, Stage::Rebuilding, true)
            &&& books.experiment_failures == ended_at(steps, crates, Stage::Rebuilding, false)
        }),
    decreases steps.len(),
{
    if steps.len() > 0 {
        let earlier = steps.drop_last();
        let k = steps.len() - 1;
        assert forall|i: int| 0 <= i < earlier.len() implies is_step(
            before_step(earlier, i),
            #[trigger] earlier[i],
            settings,
            crates,
        ) by {
            assert(steps[i] == earlier[i]);
            assert(before_step(steps, i) == before_step(earlier, i));
        }
        law_results_are_what_the_commands_ended_in(earlier, settings, crates);
        assert(before_step(earlier, k) == before_step(steps, k));
        assert(steps[k] == steps.last());
        let run = before_step(steps, k);
        let step = steps.last();
        lemma_commands_enter(run, step, settings, crates);
        let name = crates[run.index].name;
        let was = run.statistics;
        let is = step.turn.run.statistics;
        let success = step.event->success;
        let first = run.stage == Stage::Building;
        let second = run.stage == Stage::Rebuilding;
        lemma_grew(was.original_successes, is.original_successes, name, first && success);
        lemma_grew(was.original_failures, is.original_failures, name, first && !success);
        lemma_grew(was.experiment_successes, is.experiment_successes, name, second && success);
        lemma_grew(was.experiment_failures, is.experiment_failures, name, second && !success);
        assert(before_step(steps, steps.len() as int) == step.turn.run);
    }
}

/// How a crate ends says in which lists it stands: the lists follow from how each crate ended.
pub proof fn law_outcome_is_entered(
    names: Seq<Seq<char>>,
    outcomes: Seq<Outcome>,
    outcome: Outcome,
)
    ensures
        ({
            let was = tally(names, outcomes);
            let is = tally(names, outcomes.push(outcome));
            let name = names[outcomes.len() as int];
            &&& grew(
                was.setup_failures,
                is.setup_failures,
                name,
                outcome == Outcome::NotSetUp,
            )
            &&& grew(
                was.setup_successes,
                is.setup_successes,
                name,
                outcome != Outcome::Skipped && outcome != Outcome::NotSetUp,
            )
            &&& grew(
                was.original_failures,
                is.original_failures,
                name,
                outcome == Outcome::NeverBuilt,
            )
            &&& grew(
                was.original_successes,
                is.original_successes,
                name,
                outcome == Outcome::Broken || outcome == Outcome::Sound,
            )
            &&& grew(
                was.experiment_failures,
                is.experiment_failures,
                name,
                outcome == Outcome::Broken,
            )
            &&& grew(
                was.experiment_successes,
                is.experiment_successes,
                name,
                outcome == Outcome::Sound,
            )
        }),
{
    assert(outcomes.push(outcome).drop_last() =~= outcomes);
}

/// No crates, no entries.
pub proof fn law_no_outcomes_no_entries(names: Seq<Seq<char>>)
    ensures
        ({
            let books = tally(names, Seq::empty());
            &&& books.setup_successes.len() == 0
            &&& books.setup_failures.len() == 0
            &&& books.original_successes.len() == 0
            &&& books.original_failures.len() == 0
            &&& books.experiment_successes.len() == 0
            &&& books.experiment_failures.len() == 0
        }),
{
}

/// A run waits for what its last action brings, whatever that is: only a program that could not be
/// created, and patches that cannot be applied to a crate that built, are left out.
pub proof fn law_run_waits_for_what_it_asked_for(
    stage: Stage,
    patches: Seq<PatchArgView>,
    event: EventView,
)
    ensures
        expected(stage, patches, event) <==> {
            ||| event == EventView::Done && (stage == Stage::Ready || stage
                == Stage::ResettingManifest || stage == Stage::WritingDependency || stage
                == Stage::WritingPatches)
            ||| event is Exists && (stage == Stage::FindingExperiment || stage
                == Stage::FindingCheckout)
            ||| event == EventView::Status(true) && stage == Stage::CreatingExperiment
            ||| event is Status && stage == Stage::Cloning
            ||| event is Text && stage == Stage::ReadingManifest
            ||| event is Located && stage == Stage::FindingPackage
            ||| event is Output && stage == Stage::Rebuilding
            ||| event is Output && stage == Stage::Building && (!event->success || forall|i: int|
                0 <= i < patches.len() ==> (#[trigger] patches[i]).default_features is None)
        },
{
}

/// Patches can be applied exactly where none of them sets its default features.
pub proof fn law_default_features_cannot_be_patched(patches: Seq<PatchArgView>, patch: PatchArgView)
    ensures
        patches_supported(Seq::empty()),
        patches_supported(patches.push(patch)) <==> patches_supported(patches)
            && patch.default_features is None,
{
    let all = patches.push(patch);
    assert(all[patches.len() as int] == patch);
    if patches_supported(all) {
        assert forall|i: int| 0 <= i < patches.len() implies (
        #[trigger] patches[i]).default_features is None by {
            assert(all[i] == patches[i]);
        }
    }
}

/// The models of what a run asks for hold all of it.
pub proof fn law_models_of_requests_are_whole(action: Action)
    ensures
        action is Proceed ==> action@ == ActionView::Proceed,
        action is Finish ==> action@ == ActionView::Finish,
        action matches Action::FindExperiment { name } ==> action@ == (
        ActionView::FindExperiment { name: name@ }),
        action matches Action::RunStatus(command) ==> action@ == ActionView::RunStatus(command@),
        action matches Action::ReadManifest { name } ==> action@ == (ActionView::ReadManifest {
            name: name@,
        }),
        action matches Action::WriteManifest { name, text } ==> action@ == (
        ActionView::WriteManifest { name: name@, text: text@ }),
        action matches Action::FindCheckout { name } ==> action@ == (ActionView::FindCheckout {
            name: name@,
        }),
        action matches Action::FindPackage { name } ==> action@ == (ActionView::FindPackage {
            name: name@,
        }),
        action matches Action::RunOutput(command) ==> action@ == ActionView::RunOutput(command@),
        action matches Action::Fail(e) ==> action@ == ActionView::Fail(e),
{
}

/// What is handed to a command is told to it as it is.
pub proof fn law_models_of_arguments_are_whole(user: Option<&String>, word: Option<Word>)
    ensures
        opt_ref_text(user) is Some <==> user is Some,
        user matches Some(text) ==> opt_ref_text(user) == Some(text@),
        opt_word(word) is Some <==> word is Some,
        word matches Some(w) ==> opt_word(word) == Some(w@),
{
}

} // verus!
