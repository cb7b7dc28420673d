use bwlaunch::{check_arguments, CliError};

#[test]
fn map_and_game_type_together_are_accepted() {
    assert!(check_arguments(true, true).is_ok());
}

#[test]
fn no_arguments_is_reported() {
    assert!(matches!(check_arguments(false, false), Err(CliError::NoArguments)));
}

#[test]
fn one_argument_alone_is_an_error() {
    for (map, game_type) in [(true, false), (false, true)] {
        match check_arguments(map, game_type) {
            Err(CliError::ClapError(e)) => {
                assert_eq!(
                    e.kind(),
                    clap::ErrorKind::DisplayHelpOnMissingArgumentOrSubcommand
                );
            }
            _ => panic!("expected a clap error"),
        }
    }
}
