//! The ways in which a profile can be refused.

use vstd::prelude::*;

verus! {

/// Why a configuration record or a value could not be turned into script text.
#[derive(Clone, Copy, Debug, PartialEq, Eq, Structural)]
pub enum ProfileError {
    /// The `mode` of a mutation is none of the known tokens.
    UnknownMutationKind,
    /// The `command` of a record is neither `env` nor `source`.
    UnknownCommand,
    /// A record lacks an attribute that its command requires.
    MissingField,
    /// The `%` delimiters of a value do not pair up.
    MalformedPlaceholder,
}

} // verus!
