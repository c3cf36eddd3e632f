use vstd::prelude::*;

use crate::error::{ContractError, RegistryField};
use crate::registry::{Registry, RegistryView};

verus! {

pub const INSTANTIATE_CW721_REPLY_ID: u64 = 0;
pub const INSTANTIATE_POAP_REPLY_ID: u64 = 1;
pub const INSTANTIATE_ICS721_REPLY_ID: u64 = 2;
pub const MINT_NFT_REPLY_ID: u64 = 3;

/// A request whose outcome the orchestrator waits to hear about.
#[derive(Debug, Clone, Copy, PartialEq, Eq, Structural)]
pub enum PendingOp {
    CreateCollection,
    CreateCompanion,
    CreateTransferProtocol,
    Mint,
}

/// When the host reports back on a dispatched request.
#[derive(Debug, Clone, Copy, PartialEq, Eq, Structural)]
pub enum Notify {
    OnSuccess,
    Always,
}

/// The tag a pending request travels under.
pub open spec fn tag_of(op: PendingOp) -> u64 {
    match op {
        PendingOp::CreateCollection => INSTANTIATE_CW721_REPLY_ID,
        PendingOp::CreateCompanion => INSTANTIATE_POAP_REPLY_ID,
        PendingOp::CreateTransferProtocol => INSTANTIATE_ICS721_REPLY_ID,
        PendingOp::Mint => MINT_NFT_REPLY_ID,
    }
}

/// The request a tag stands for, if any.
pub open spec fn op_of(id: u64) -> Option<PendingOp> {
    if id == INSTANTIATE_CW721_REPLY_ID {
        Some(PendingOp::CreateCollection)
    } else if id == INSTANTIATE_POAP_REPLY_ID {
        Some(PendingOp::CreateCompanion)
    } else if id == INSTANTIATE_ICS721_REPLY_ID {
        Some(PendingOp::CreateTransferProtocol)
    } else if id == MINT_NFT_REPLY_ID {
        Some(PendingOp::Mint)
    } else {
        None
    }
}

/// A failed creation aborts the bootstrap, so creations report success
/// only; a mint reports either way, so that its failure is seen.
pub open spec fn notify_of(op: PendingOp) -> Notify {
    match op {
        PendingOp::Mint => Notify::Always,
        _ => Notify::OnSuccess,
    }
}

/// The registry entry a creation fills.
pub open spec fn created_field(op: PendingOp) -> RegistryField {
    match op {
        PendingOp::CreateCollection => RegistryField::Collection,
        PendingOp::CreateCompanion => RegistryField::Companion,
        _ => RegistryField::TransferProtocol,
    }
}

impl PendingOp {
    pub fn tag(self) -> (r: u64)
        ensures
            r == tag_of(self),
            op_of(r) == Some(self),
    {
        match self {
            PendingOp::CreateCollection => INSTANTIATE_CW721_REPLY_ID,
            PendingOp::CreateCompanion => INSTANTIATE_POAP_REPLY_ID,
            PendingOp::CreateTransferProtocol => INSTANTIATE_ICS721_REPLY_ID,
            PendingOp::Mint => MINT_NFT_REPLY_ID,
        }
    }

    pub fn notify(self) -> (r: Notify)
        ensures
            r == notify_of(self),
    {
        match self {
            PendingOp::Mint => Notify::Always,
            _ => Notify::OnSuccess,
        }
    }

    /// The request behind a tag; an unknown tag is a protocol error.
    pub fn from_tag(id: u64) -> (r: Result<PendingOp, ContractError>)
        ensures
            r == match op_of(id) {
                Some(op) => Ok(op),
                None => Err(ContractError::UnrecognisedReplyId),
            },
            r matches Ok(op) ==> tag_of(op) == id,
    {
        if id == INSTANTIATE_CW721_REPLY_ID {
            Ok(PendingOp::CreateCollection)
        } else if id == INSTANTIATE_POAP_REPLY_ID {
            Ok(PendingOp::CreateCompanion)
        } else if id == INSTANTIATE_ICS721_REPLY_ID {
            Ok(PendingOp::CreateTransferProtocol)
        } else if id == MINT_NFT_REPLY_ID {
            Ok(PendingOp::Mint)
        } else {
            Err(ContractError::UnrecognisedReplyId)
        }
    }
}

/// The registry right after bootstrap: the three URIs and no address yet.
pub open spec fn bootstrap_view(home: Seq<char>, escrowed: Seq<char>, transferred: Seq<char>) -> RegistryView {
    RegistryView {
        collection: None,
        transfer_protocol: None,
        companion: None,
        counterparty: None,
        default_token_uri: home,
        escrowed_token_uri: escrowed,
        transferred_token_uri: transferred,
    }
}

/// The creations bootstrap dispatches, in order.
pub open spec fn bootstrap_creations() -> Seq<PendingOp> {
    seq![PendingOp::CreateCollection, PendingOp::CreateCompanion, PendingOp::CreateTransferProtocol]
}

/// The outcome of bootstrap: the fresh registry and the creation requests to
/// dispatch, in this order, each under its own tag.
pub struct Bootstrap {
    pub registry: Registry,
    pub creations: Vec<PendingOp>,
}

/// Bootstraps the orchestrator with its three configured URIs.
pub fn instantiate(default_token_uri: String, escrowed_token_uri: String, transferred_token_uri: String) -> (r: Bootstrap)
    ensures
        r.registry@ == bootstrap_view(default_token_uri@, escrowed_token_uri@, transferred_token_uri@),
        r.creations@ == bootstrap_creations(),
{
    let registry = Registry::new(default_token_uri, escrowed_token_uri, transferred_token_uri);
    let mut creations: Vec<PendingOp> = Vec::new();
    creations.push(PendingOp::CreateCollection);
    creations.push(PendingOp::CreateCompanion);
    creations.push(PendingOp::CreateTransferProtocol);
    assert(creations@ =~= bootstrap_creations());
    Bootstrap { registry, creations }
}

/// The address a contract-instantiation response names, or `None` where the
/// bytes are no such response.
pub uninterp spec fn instantiated_address(data: Seq<u8>) -> Option<Seq<char>>;

/// Relies on cw_utils::parse_instantiate_response_data, which decodes the
/// protobuf response of a contract instantiation; only its contract address
/// is kept.
#[verifier::external_body]
fn parse_instantiate_address(data: &Vec<u8>) -> (r: Result<String, cw_utils::ParseReplyError>)
    ensures
        match r {
            Ok(a) => instantiated_address(data@) == Some(a@),
            Err(_) => instantiated_address(data@) is None,
        },
{
    cw_utils::parse_instantiate_response_data(data).map(|res| res.contract_address)
}

/// What the host reports of a dispatched request.
#[derive(Debug, Clone)]
pub enum SubMsgOutcome {
    Succeeded { data: Option<Vec<u8>> },
    Failed { error: String },
}

/// What a confirmation asks of the host.
#[derive(Debug, Clone)]
pub enum ReplyAction {
    /// Validate `addr` and record it in `field`.
    Record { field: RegistryField, addr: String },
    /// A mint went through; nothing to do.
    MintConfirmed,
}

/// Handles the confirmation tagged `id`: a creation yields the address to
/// record, a successful mint nothing, a failed mint `MintFailed`.
pub fn reply(id: u64, result: SubMsgOutcome) -> (r: Result<ReplyAction, ContractError>)
    ensures
        match op_of(id) {
            None => r == Err::<ReplyAction, ContractError>(ContractError::UnrecognisedReplyId),
            Some(PendingOp::Mint) => match result {
                SubMsgOutcome::Succeeded { .. } => r matches Ok(ReplyAction::MintConfirmed),
                SubMsgOutcome::Failed { error } => r == Err::<ReplyAction, ContractError>(
                    ContractError::MintFailed { error },
                ),
            },
            Some(op) => match result {
                SubMsgOutcome::Failed { error } => r == Err::<ReplyAction, ContractError>(
                    ContractError::SubMsgFailure { error },
                ),
                SubMsgOutcome::Succeeded { data: None } => r == Err::<ReplyAction, ContractError>(
                    ContractError::MissingReplyData,
                ),
                SubMsgOutcome::Succeeded { data: Some(d) } => match instantiated_address(d@) {
                    Some(a) => r matches Ok(ReplyAction::Record { field, addr })
                        && field == created_field(op) && addr@ == a,
                    None => r matches Err(ContractError::ParseReplyError(_)),
                },
            },
        },
{
    let op = PendingOp::from_tag(id)?;
    match op {
        PendingOp::Mint => match result {
            SubMsgOutcome::Succeeded { .. } => Ok(ReplyAction::MintConfirmed),
            SubMsgOutcome::Failed { error } => Err(ContractError::MintFailed { error }),
        },
        _ => {
            let field = match op {
                PendingOp::CreateCollection => RegistryField::Collection,
                PendingOp::CreateCompanion => RegistryField::Companion,
                _ => RegistryField::TransferProtocol,
            };
            match result {
                SubMsgOutcome::Failed { error } => Err(ContractError::SubMsgFailure { error }),
                SubMsgOutcome::Succeeded { data: None } => Err(ContractError::MissingReplyData),
                SubMsgOutcome::Succeeded { data: Some(d) } => match parse_instantiate_address(&d) {
                    Ok(addr) => Ok(ReplyAction::Record { field, addr }),
                    Err(e) => Err(ContractError::ParseReplyError(e)),
                },
            }
        },
    }
}

/// The registry with `addr` written into `field`.
pub open spec fn recorded(v: RegistryView, field: RegistryField, addr: Seq<char>) -> RegistryView {
    match field {
        RegistryField::Collection => RegistryView { collection: Some(addr), ..v },
        RegistryField::Companion => RegistryView { companion: Some(addr), ..v },
        RegistryField::TransferProtocol => RegistryView { transfer_protocol: Some(addr), ..v },
        RegistryField::Counterparty => RegistryView { counterparty: Some(addr), ..v },
    }
}

impl Registry {
    /// Writes a validated address into `field`; nothing else changes.
    pub fn record(&mut self, field: RegistryField, addr: String)
        ensures
            final(self)@ == recorded(old(self)@, field, addr@),
    {
        match field {
            RegistryField::Collection => self.collection = Some(addr),
            RegistryField::Companion => self.companion = Some(addr),
            RegistryField::TransferProtocol => self.transfer_protocol = Some(addr),
            RegistryField::Counterparty => self.counterparty = Some(addr),
        }
    }
}

} // verus!
