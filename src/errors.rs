use vstd::prelude::*;

verus! {

/// Errors of the configuration operations.
#[derive(Clone, Copy, Debug, PartialEq, Eq, Structural)]
pub enum MultisigError {
    /// The caller is not the identity that controls the record.
    Unauthorized,
    /// The record has no configuration authority, so it cannot be
    /// configured directly.
    MissingAuthority,
    /// The record would break its invariant: threshold out of bounds,
    /// a duplicate member, or too many members.
    InvalidInvariant,
    /// Removing the member would leave the record with no members.
    RemoveLastMember,
    /// No member has the given identity.
    MemberNotFound,
    /// The vault index is not the one right after the current one.
    InvalidVaultIndex,
    /// Storage must grow but no account was given to pay for it.
    MissingFundingAccount,
    /// Storage must grow but the system program was not given.
    MissingSystemCollaborator,
}

} // verus!
