use vstd::prelude::*;

verus! {

/// A registry entry that holds the address of another service and stays
/// empty until that address is known.
#[derive(Debug, Clone, Copy, PartialEq, Eq, Structural)]
pub enum RegistryField {
    Collection,
    Companion,
    TransferProtocol,
    Counterparty,
}

/// Everything that can make an operation of the orchestrator fail.
#[derive(Debug, PartialEq)]
pub enum ContractError {
    /// A payload handed over by the host could not be decoded.
    Std { msg: String },
    /// A registry entry was read before it was set.
    NotFound { field: RegistryField },
    /// The payload of a creation confirmation is malformed.
    ParseReplyError(cw_utils::ParseReplyError),
    /// A creation confirmation carried no payload.
    MissingReplyData,
    /// A confirmation reported that its request failed.
    SubMsgFailure { error: String },
    /// A confirmation arrived under a tag that no request carries.
    UnrecognisedReplyId,
    /// A mint request was refused by the collection.
    MintFailed { error: String },
    /// A callback came from someone other than the transfer protocol.
    UnauthorizedCallback,
}

#[verifier::external_type_specification]
#[verifier::external_body]
pub struct ExParseReplyError(cw_utils::ParseReplyError);

} // verus!
