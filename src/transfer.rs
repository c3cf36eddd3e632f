use vstd::prelude::*;

use crate::error::{ContractError, RegistryField};
use crate::registry::{opt_view, Registry, RegistryView};

verus! {

/// The envelope threaded through a transfer's callbacks: the token and the
/// owner who sent it. Only the orchestrator reads it.
#[derive(Debug, Clone)]
pub struct CallbackMsg {
    pub token_id: String,
    pub sender: String,
}

impl View for CallbackMsg {
    type V = (Seq<char>, Seq<char>);

    open spec fn view(&self) -> (Seq<char>, Seq<char>) {
        (self.token_id@, self.sender@)
    }
}

impl CallbackMsg {
    pub fn duplicate(&self) -> (r: CallbackMsg)
        ensures
            r@ == self@,
    {
        CallbackMsg { token_id: self.token_id.clone(), sender: self.sender.clone() }
    }
}

/// Where the transfer protocol delivers the callbacks of one transfer, and
/// with which envelope: the acknowledgement always comes back here; the
/// receive callback goes to the counterparty orchestrator where one is known.
#[derive(Debug, Clone)]
pub struct Callbacks {
    pub ack_callback_data: CallbackMsg,
    pub ack_callback_addr: String,
    pub receive_callback_data: Option<CallbackMsg>,
    pub receive_callback_addr: Option<String>,
}

pub struct CallbacksView {
    pub ack_callback_data: (Seq<char>, Seq<char>),
    pub ack_callback_addr: Seq<char>,
    pub receive_callback_data: Option<(Seq<char>, Seq<char>)>,
    pub receive_callback_addr: Option<Seq<char>>,
}

impl View for Callbacks {
    type V = CallbacksView;

    open spec fn view(&self) -> CallbacksView {
        CallbacksView {
            ack_callback_data: self.ack_callback_data@,
            ack_callback_addr: self.ack_callback_addr@,
            receive_callback_data: match self.receive_callback_data {
                Some(m) => Some(m@),
                None => None,
            },
            receive_callback_addr: opt_view(self.receive_callback_addr),
        }
    }
}

/// The callbacks of a transfer of `token_id` by `sender`, made by the
/// orchestrator at `contract`.
pub open spec fn memo_of(reg: RegistryView, contract: Seq<char>, sender: Seq<char>, token_id: Seq<char>) -> CallbacksView {
    CallbacksView {
        ack_callback_data: (token_id, sender),
        ack_callback_addr: contract,
        receive_callback_data: match reg.counterparty {
            Some(_) => Some((token_id, sender)),
            None => None,
        },
        receive_callback_addr: reg.counterparty,
    }
}

/// Builds the callbacks attached to an outgoing transfer.
pub fn create_memo(reg: &Registry, contract: &String, sender: String, token_id: String) -> (r: Callbacks)
    ensures
        r@ == memo_of(reg@, contract@, sender@, token_id@),
{
    let envelope = CallbackMsg { token_id, sender };
    match &reg.counterparty {
        Some(counterparty) => Callbacks {
            ack_callback_data: envelope.duplicate(),
            ack_callback_addr: contract.clone(),
            receive_callback_data: Some(envelope),
            receive_callback_addr: Some(counterparty.clone()),
        },
        None => Callbacks {
            ack_callback_data: envelope,
            ack_callback_addr: contract.clone(),
            receive_callback_data: None,
            receive_callback_addr: None,
        },
    }
}

/// A request to `collection` to send token `token_id` to `destination`,
/// carrying the transfer with `memo` as its callbacks.
#[derive(Debug, Clone)]
pub struct SendRequest {
    pub collection: String,
    pub destination: String,
    pub token_id: String,
    pub memo: Callbacks,
}

/// Where a transfer goes: the outgoing proxy the protocol names, else the
/// protocol itself.
pub open spec fn destination_of(protocol: Seq<char>, outgoing_proxy: Option<String>) -> Seq<char> {
    match outgoing_proxy {
        Some(p) => p@,
        None => protocol,
    }
}

/// Forwards token `token_id`, handed over by `sender` through `collection`,
/// to the transfer protocol, with this orchestrator (at `contract`) named for
/// the callbacks. `outgoing_proxy` is what the protocol reports as its
/// outgoing proxy. Fails only while the protocol's address is unknown.
pub fn execute_receive_nft(
    reg: &Registry,
    contract: &String,
    collection: String,
    sender: String,
    token_id: String,
    outgoing_proxy: Option<String>,
) -> (r: Result<SendRequest, ContractError>)
    ensures
        match reg@.transfer_protocol {
            None => r == Err::<SendRequest, ContractError>(ContractError::NotFound { field: RegistryField::TransferProtocol }),
            Some(p) => r is Ok
                && r->Ok_0.collection@ == collection@
                && r->Ok_0.destination@ == destination_of(p, outgoing_proxy)
                && r->Ok_0.token_id@ == token_id@
                && r->Ok_0.memo@ == memo_of(reg@, contract@, sender@, token_id@),
        },
{
    let protocol = reg.load(RegistryField::TransferProtocol)?;
    let destination = match outgoing_proxy {
        Some(proxy) => proxy,
        None => protocol,
    };
    let memo = create_memo(reg, contract, sender, token_id.clone());
    Ok(SendRequest { collection, destination, token_id, memo })
}

} // verus!
