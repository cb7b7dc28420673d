use vstd::prelude::*;

verus! {

/// clap's error type, carried through unchanged.
#[verifier::external_type_specification]
#[verifier::external_body]
pub struct ExClapError(clap::Error);

/// Why the command line does not describe a game.
pub enum CliError {
    /// Neither a map nor a game type was given.
    NoArguments,
    /// Only one of the map and the game type was given.
    ClapError(clap::Error),
}

/// Relies on `clap::Error::raw`: an error of kind
/// `DisplayHelpOnMissingArgumentOrSubcommand` that carries `message`.
#[verifier::external_body]
fn missing_argument_error(message: &str) -> clap::Error {
    clap::Error::raw(clap::error::ErrorKind::DisplayHelpOnMissingArgumentOrSubcommand, message)
}

/// A game is described by a map together with a game type; giving neither
/// asks for the usage, giving only one is an error.
pub fn check_arguments(has_map: bool, has_game_type: bool) -> (r: Result<(), CliError>)
    ensures
        r is Ok <==> has_map && has_game_type,
        r matches Err(CliError::NoArguments) <==> !has_map && !has_game_type,
        r matches Err(CliError::ClapError(_)) <==> has_map != has_game_type,
{
    if !has_map && !has_game_type {
        Err(CliError::NoArguments)
    } else if has_map != has_game_type {
        Err(
            CliError::ClapError(
                missing_argument_error(
                    "Either no or all arguments are required. Use '-h' to get help.\n",
                ),
            ),
        )
    } else {
        Ok(())
    }
}

} // verus!
