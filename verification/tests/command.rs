use mini_crater::command::{
    cargo_config, clone_repository, new_experiment, prepare_command, CommandLine, Word,
};

fn words(words: &[Word]) -> Vec<&str> {
    words
        .iter()
        .map(|w| match w {
            Word::Text(text) => text.as_str(),
            Word::WorkingDir => "<working dir>",
            Word::CheckoutDir => "<checkout dir>",
        })
        .collect()
}

fn environment(command: &CommandLine) -> Vec<(&str, &str)> {
    command
        .envs
        .iter()
        .map(|v| {
            let value = match &v.value {
                Word::Text(text) => text.as_str(),
                Word::WorkingDir => "<working dir>",
                Word::CheckoutDir => "<checkout dir>",
            };
            (v.name.as_str(), value)
        })
        .collect()
}

#[test]
fn a_build_stands_in_for_a_command() {
    let command =
        prepare_command(None, Word::WorkingDir, Word::Text("snafu".to_owned()), None);
    assert_eq!(command.program, "cargo");
    assert_eq!(words(&command.args), ["build", "--quiet"]);
    assert_eq!(
        environment(&command),
        [("MINI_CRATER_WORKING_DIR", "<working dir>"), ("MINI_CRATER_EXPERIMENT_NAME", "snafu")]
    );
}

#[test]
fn the_command_of_the_user_gets_no_arguments() {
    let user = "/tmp/adjust-code.sh".to_owned();
    let command = prepare_command(
        Some(&user),
        Word::WorkingDir,
        Word::Text("snafu".to_owned()),
        Some(Word::CheckoutDir),
    );
    assert_eq!(command.program, "/tmp/adjust-code.sh");
    assert!(command.args.is_empty());
    assert_eq!(
        environment(&command),
        [
            ("MINI_CRATER_WORKING_DIR", "<working dir>"),
            ("MINI_CRATER_EXPERIMENT_NAME", "snafu"),
            ("MINI_CRATER_EXPERIMENT_CHECKOUT_DIR", "<checkout dir>"),
        ]
    );
}

#[test]
fn an_experiment_is_a_new_program() {
    let command = new_experiment("snafu");
    assert_eq!(command.program, "cargo");
    assert_eq!(
        words(&command.args),
        ["new", "--quiet", "--bin", "--name", "experiment-snafu", "snafu"]
    );
    assert!(command.envs.is_empty());
}

#[test]
fn a_repository_is_cloned_to_the_checkout() {
    let command = clone_repository("https://github.com/shepmaster/snafu");
    assert_eq!(command.program, "git");
    assert_eq!(
        words(&command.args),
        ["clone", "--quiet", "https://github.com/shepmaster/snafu", "<checkout dir>"]
    );
    assert!(command.envs.is_empty());
}

#[test]
fn experiments_share_a_target_directory() {
    assert_eq!(cargo_config("/work"), "[build]\n         target-dir = '/work/target'");
}
