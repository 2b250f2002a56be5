//! The command line's rules: the configuration file it reads and its errors.
use vstd::prelude::*;
use crate::config::concat;
use crate::error::DbError;

verus! {

/// The configuration file read where none is given.
pub open spec fn default_config_path() -> Seq<char> {
    seq!['c', 'o', 'n', 'f', 'i', 'g', '.', 'y', 'a', 'm', 'l']
}

/// The configuration file: the one given, else `config.yaml`.
pub fn config_path_or_default(given: Option<String>) -> (r: String)
    ensures
        r@ == match given {
            Some(p) => p@,
            None => default_config_path(),
        },
{
    match given {
        Some(p) => p,
        None => {
            proof {
                reveal_strlit("config.yaml");
            }
            "config.yaml".to_owned()
        },
    }
}

/// The error of a subcommand that the group does not have.
pub fn invalid_subcommand(command_group: &str) -> (r: Result<(), DbError>)
    ensures
        r is Err,
        r->Err_0 is CustomError,
        r->Err_0->CustomError_0@ == seq![
            'i', 'n', 'v', 'a', 'l', 'i', 'd', ' ', 'c', 'o', 'm', 'm', 'a', 'n', 'd', ' ',
            'f', 'o', 'u', 'n', 'd', ' ', 'f', 'o', 'r', ' ', 'g', 'r', 'o', 'u', 'p', ' ',
        ] + command_group@,
{
    proof {
        reveal_strlit("invalid command found for group ");
    }
    let msg = concat("invalid command found for group ", command_group);
    Err(DbError::CustomError(msg))
}

/// The error of a command that does not exist.
pub fn invalid_command() -> (r: Result<(), DbError>)
    ensures
        r is Err,
        r->Err_0 is CustomError,
        r->Err_0->CustomError_0@ == seq![
            'i', 'n', 'v', 'a', 'l', 'i', 'd', ' ', 'c', 'o', 'm', 'm', 'a', 'n', 'd', ' ',
            'f', 'o', 'u', 'n', 'd',
        ],
{
    proof {
        reveal_strlit("invalid command found");
    }
    Err(DbError::CustomError("invalid command found".to_owned()))
}

} // verus!
