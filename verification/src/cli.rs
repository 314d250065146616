//! The commands of the command line.

use crate::errors::{ErrorView, TemployError};
use crate::path::same_text;
use vstd::prelude::*;

verus! {

/// The name of the command that generates a project.
pub const GENERATE: &'static str = "generate";

/// The name of the command that deploys a project.
pub const DEPLOY: &'static str = "deploy";

/// What the command line can ask for.
#[derive(Clone, Copy, Debug, PartialEq, Eq)]
pub enum Subcommand {
    Generate,
    Deploy,
}

/// The command that a name stands for: [`GENERATE`] and [`DEPLOY`] stand
/// for theirs, any other name for none.
pub open spec fn subcommand_of(name: Seq<char>) -> Result<Subcommand, ErrorView> {
    if name == GENERATE@ {
        Ok(Subcommand::Generate)
    } else if name == DEPLOY@ {
        Ok(Subcommand::Deploy)
    } else {
        Err(ErrorView::InvalidCLICommand)
    }
}

/// Finds the command that `name` stands for: see [`subcommand_of`].
pub fn subcommand(name: &str) -> (r: Result<Subcommand, TemployError>)
    ensures
        match r {
            Ok(command) => subcommand_of(name@) == Ok::<Subcommand, ErrorView>(command),
            Err(error) => subcommand_of(name@) == Err::<Subcommand, ErrorView>(error@),
        },
{
    if same_text(name, GENERATE) {
        Ok(Subcommand::Generate)
    } else if same_text(name, DEPLOY) {
        Ok(Subcommand::Deploy)
    } else {
        Err(TemployError::InvalidCLICommand)
    }
}

} // verus!
