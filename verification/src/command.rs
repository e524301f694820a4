//! The commands that an experiment runs.

use vstd::prelude::*;

use crate::text::join;

verus! {

/// A word of a command line or a value in its environment. Directories are named, not spelled:
/// their paths need not be text.
pub enum Word {
    Text(String),
    /// The root working directory.
    WorkingDir,
    /// The top of the checkout of the crate under test.
    CheckoutDir,
}

/// The model of a [`Word`].
pub enum WordView {
    Text(Seq<char>),
    WorkingDir,
    CheckoutDir,
}

impl View for Word {
    type V = WordView;

    open spec fn view(&self) -> WordView {
        match self {
            Word::Text(text) => WordView::Text(text@),
            Word::WorkingDir => WordView::WorkingDir,
            Word::CheckoutDir => WordView::CheckoutDir,
        }
    }
}

/// A variable that a command finds in its environment.
pub struct Variable {
    pub name: String,
    pub value: Word,
}

/// The model of a [`Variable`].
pub struct VariableView {
    pub name: Seq<char>,
    pub value: WordView,
}

impl View for Variable {
    type V = VariableView;

    open spec fn view(&self) -> VariableView {
        VariableView { name: self.name@, value: self.value@ }
    }
}

/// A program, its arguments, and what is added to its environment.
pub struct CommandLine {
    pub program: String,
    pub args: Vec<Word>,
    pub envs: Vec<Variable>,
}

/// The model of a [`CommandLine`].
#[verifier::ext_equal]
pub struct CommandView {
    pub program: Seq<char>,
    pub args: Seq<WordView>,
    pub envs: Seq<VariableView>,
}

impl View for CommandLine {
    type V = CommandView;

    open spec fn view(&self) -> CommandView {
        CommandView {
            program: self.program@,
            args: self.args@.map_values(|w: Word| w@),
            envs: self.envs@.map_values(|v: Variable| v@),
        }
    }
}

/// The variable that names the root working directory.
pub const WORKING_DIR_VARIABLE: &'static str = "MINI_CRATER_WORKING_DIR";

/// The variable that names the crate under test.
pub const NAME_VARIABLE: &'static str = "MINI_CRATER_EXPERIMENT_NAME";

/// The variable that names the top of the checkout of the crate under test.
pub const CHECKOUT_VARIABLE: &'static str = "MINI_CRATER_EXPERIMENT_CHECKOUT_DIR";

/// A word that is text.
pub open spec fn text_word(text: Seq<char>) -> WordView {
    WordView::Text(text)
}

/// The command that the user gave, or else a build, told where it runs and for which crate; the
/// checkout is named only where there is one.
pub open spec fn prepared_command(
    user: Option<Seq<char>>,
    working_dir: WordView,
    experiment_name: WordView,
    checkout: Option<WordView>,
) -> CommandView {
    let common = seq![
        VariableView { name: WORKING_DIR_VARIABLE@, value: working_dir },
        VariableView { name: NAME_VARIABLE@, value: experiment_name },
    ];
    CommandView {
        program: match user {
            Some(program) => program,
            None => "cargo"@,
        },
        args: match user {
            Some(_) => Seq::empty(),
            None => seq![text_word("build"@), text_word("--quiet"@)],
        },
        envs: match checkout {
            Some(checkout) => common.push(
                VariableView { name: CHECKOUT_VARIABLE@, value: checkout },
            ),
            None => common,
        },
    }
}

/// The model of an optional word.
pub open spec fn opt_word(word: Option<Word>) -> Option<WordView> {
    match word {
        Some(word) => Some(word@),
        None => None,
    }
}

/// The text behind an optional reference to a string.
pub open spec fn opt_ref_text(text: Option<&String>) -> Option<Seq<char>> {
    match text {
        Some(text) => Some(text@),
        None => None,
    }
}

/// Prepares a command of the user's, or the build that stands in for it.
pub fn prepare_command(
    user: Option<&String>,
    working_dir: Word,
    experiment_name: Word,
    experiment_checkout_dir: Option<Word>,
) -> (r: CommandLine)
    ensures
        r@ == prepared_command(
            opt_ref_text(user),
            working_dir@,
            experiment_name@,
            opt_word(experiment_checkout_dir),
        ),
{
    let mut args: Vec<Word> = Vec::new();
    let program = match user {
        Some(program) => program.clone(),
        None => {
            args.push(Word::Text("build".to_owned()));
            args.push(Word::Text("--quiet".to_owned()));
            "cargo".to_owned()
        },
    };
    let mut envs: Vec<Variable> = Vec::new();
    envs.push(Variable { name: WORKING_DIR_VARIABLE.to_owned(), value: working_dir });
    envs.push(Variable { name: NAME_VARIABLE.to_owned(), value: experiment_name });
    if let Some(checkout) = experiment_checkout_dir {
        envs.push(Variable { name: CHECKOUT_VARIABLE.to_owned(), value: checkout });
    }
    let r = CommandLine { program, args, envs };
    assert(r@ =~= prepared_command(
        opt_ref_text(user),
        working_dir@,
        experiment_name@,
        opt_word(experiment_checkout_dir),
    ));
    r
}

/// The command that makes an empty program to run an experiment in.
pub open spec fn new_experiment_view(name: Seq<char>) -> CommandView {
    CommandView {
        program: "cargo"@,
        args: seq![
            text_word("new"@),
            text_word("--quiet"@),
            text_word("--bin"@),
            text_word("--name"@),
            text_word("experiment-"@ + name),
            text_word(name),
        ],
        envs: Seq::empty(),
    }
}

/// Makes an empty program under the name of the crate under test.
pub fn new_experiment(name: &str) -> (r: CommandLine)
    ensures
        r@ == new_experiment_view(name@),
{
    let mut args: Vec<Word> = Vec::new();
    args.push(Word::Text("new".to_owned()));
    args.push(Word::Text("--quiet".to_owned()));
    args.push(Word::Text("--bin".to_owned()));
    args.push(Word::Text("--name".to_owned()));
    args.push(Word::Text(join("experiment-", name)));
    args.push(Word::Text(name.to_owned()));
    let r = CommandLine { program: "cargo".to_owned(), args, envs: Vec::new() };
    assert(r@ =~= new_experiment_view(name@));
    r
}

/// The command that checks out a repository.
pub open spec fn clone_repository_view(repository: Seq<char>) -> CommandView {
    CommandView {
        program: "git"@,
        args: seq![
            text_word("clone"@),
            text_word("--quiet"@),
            text_word(repository),
            WordView::CheckoutDir,
        ],
        envs: Seq::empty(),
    }
}

/// Checks out a repository where the crate under test has its checkout.
pub fn clone_repository(repository: &str) -> (r: CommandLine)
    ensures
        r@ == clone_repository_view(repository@),
{
    let mut args: Vec<Word> = Vec::new();
    args.push(Word::Text("clone".to_owned()));
    args.push(Word::Text("--quiet".to_owned()));
    args.push(Word::Text(repository.to_owned()));
    args.push(Word::CheckoutDir);
    let r = CommandLine { program: "git".to_owned(), args, envs: Vec::new() };
    assert(r@ =~= clone_repository_view(repository@));
    r
}

/// The Cargo configuration under which all experiments share one target directory.
pub open spec fn cargo_config_text(working_dir: Seq<char>) -> Seq<char> {
    "[build]\n         target-dir = '"@ + working_dir + "/target'"@
}

/// Lets all experiments share a target directory, to reduce (but not eliminate) disk space usage
/// and needless rebuilds.
pub fn cargo_config(working_dir: &str) -> (r: String)
    ensures
        r@ == cargo_config_text(working_dir@),
{
    let start = join("[build]\n         target-dir = '", working_dir);
    join(start.as_str(), "/target'")
}

} // verus!
