use vstd::prelude::*;

use crate::error::{ContractError, RegistryField};
use crate::metadata::{
    default_uri_key, escrowed_uri_key, next_uri, remembered, remembered_uri, state_attributes,
    state_traits, traits_view, transferred_uri_key, Trait,
};
use crate::mint::{create_mint_msg, mint_of, MintRequest};
use crate::registry::{Registry, RegistryView};
use crate::transfer::CallbackMsg;

verus! {

/// What the collection reports of a token: the URI it shows now and, if its
/// metadata has any, its attributes.
#[derive(Debug, Clone)]
pub struct NftInfo {
    pub token_uri: String,
    pub attributes: Option<Vec<Trait>>,
}

pub struct NftInfoView {
    pub token_uri: Seq<char>,
    pub attributes: Option<Seq<(Seq<char>, Seq<char>)>>,
}

impl View for NftInfo {
    type V = NftInfoView;

    open spec fn view(&self) -> NftInfoView {
        NftInfoView {
            token_uri: self.token_uri@,
            attributes: match self.attributes {
                Some(a) => Some(traits_view(a@)),
                None => None,
            },
        }
    }
}

/// A request to a collection to rewrite a token's display URI and state
/// attributes. It is sent without asking to hear back, so that its failure
/// never undoes the transfer it follows.
#[derive(Debug, Clone)]
pub struct UpdateRequest {
    pub collection: String,
    pub token_id: String,
    pub token_uri: String,
    pub attributes: Vec<Trait>,
}

pub struct UpdateView {
    pub collection: Seq<char>,
    pub token_id: Seq<char>,
    pub token_uri: Seq<char>,
    pub attributes: Seq<(Seq<char>, Seq<char>)>,
}

impl View for UpdateRequest {
    type V = UpdateView;

    open spec fn view(&self) -> UpdateView {
        UpdateView {
            collection: self.collection@,
            token_id: self.token_id@,
            token_uri: self.token_uri@,
            attributes: traits_view(self.attributes@),
        }
    }
}

/// The update that follows a transfer of token `token_id` of `collection`.
/// The configured URIs are those the token remembers, else the registry's;
/// the token moves between home and the escrowed URI (`escrow`) or the
/// transferred URI, and every configured URI is written back.
pub open spec fn update_of(
    reg: RegistryView,
    collection: Seq<char>,
    token_id: Seq<char>,
    info: NftInfoView,
    escrow: bool,
) -> UpdateView {
    let home = remembered(info.attributes, default_uri_key(), reg.default_token_uri);
    let escrowed = remembered(info.attributes, escrowed_uri_key(), reg.escrowed_token_uri);
    let transferred = remembered(info.attributes, transferred_uri_key(), reg.transferred_token_uri);
    let uri = next_uri(info.token_uri, home, if escrow { escrowed } else { transferred });
    UpdateView {
        collection,
        token_id,
        token_uri: uri,
        attributes: state_attributes(uri, home, escrowed, transferred),
    }
}

/// Builds the update of token `token_id` of `cw721`, whose current metadata
/// is `info`.
pub fn create_update_nft_info_msg(
    reg: &Registry,
    cw721: String,
    token_id: String,
    info: &NftInfo,
    use_escrowed_uri: bool,
) -> (r: UpdateRequest)
    ensures
        r@ == update_of(reg@, cw721@, token_id@, info@, use_escrowed_uri),
{
    let default_key = String::from_str("default_uri");
    let escrowed_key = String::from_str("escrowed_uri");
    let transferred_key = String::from_str("transferred_uri");
    let home = remembered_uri(&info.attributes, &default_key, &reg.default_token_uri);
    let escrowed = remembered_uri(&info.attributes, &escrowed_key, &reg.escrowed_token_uri);
    let transferred = remembered_uri(&info.attributes, &transferred_key, &reg.transferred_token_uri);
    let uri = if info.token_uri == home {
        if use_escrowed_uri {
            escrowed.clone()
        } else {
            transferred.clone()
        }
    } else {
        home.clone()
    };
    let attributes = state_traits(&uri, &home, &escrowed, &transferred);
    UpdateRequest { collection: cw721, token_id, token_uri: uri, attributes }
}

/// The refusal a callback from `sender` meets, if any: only the registered
/// transfer protocol may deliver callbacks.
pub open spec fn callback_refusal(reg: RegistryView, sender: Seq<char>) -> Option<ContractError> {
    match reg.transfer_protocol {
        None => Some(ContractError::NotFound { field: RegistryField::TransferProtocol }),
        Some(p) => if p == sender {
            None
        } else {
            Some(ContractError::UnauthorizedCallback)
        },
    }
}

/// Checks that a callback comes from the registered transfer protocol.
pub fn authorize_callback(reg: &Registry, sender: &String) -> (r: Result<(), ContractError>)
    ensures
        r == match callback_refusal(reg@, sender@) {
            Some(e) => Err(e),
            None => Ok(()),
        },
{
    let protocol = reg.load(RegistryField::TransferProtocol)?;
    if protocol != *sender {
        return Err(ContractError::UnauthorizedCallback);
    }
    Ok(())
}

/// How a transfer ended on the source side.
#[derive(Debug, Clone)]
pub enum AckStatus {
    Success,
    Failed(String),
}

/// What an acknowledgement leads to.
#[derive(Debug, Clone)]
pub enum AckOutcome {
    /// The transfer succeeded: the token's display state moves.
    Updated { update: UpdateRequest, previous_token_uri: String },
    /// The transfer failed: nothing changes and the reason is reported.
    Failed { error: String },
}

/// Handles the source side's acknowledgement of a transfer of the token that
/// `envelope` names, held by `nft_contract`. `nft_info` is the token's current
/// metadata, wanted only when the transfer succeeded.
pub fn execute_ack_callback(
    reg: &Registry,
    sender: &String,
    status: AckStatus,
    nft_contract: String,
    envelope: CallbackMsg,
    nft_info: Option<NftInfo>,
) -> (r: Result<AckOutcome, ContractError>)
    requires
        status is Success ==> nft_info is Some,
    ensures
        match callback_refusal(reg@, sender@) {
            Some(e) => r == Err::<AckOutcome, ContractError>(e),
            None => match status {
                AckStatus::Success => r matches Ok(AckOutcome::Updated { update, previous_token_uri })
                    && update@ == update_of(reg@, nft_contract@, envelope.token_id@, nft_info->Some_0@, true)
                    && previous_token_uri@ == nft_info->Some_0.token_uri@,
                AckStatus::Failed(reason) => r matches Ok(AckOutcome::Failed { error }) && error@ == reason@,
            },
        },
{
    match authorize_callback(reg, sender) {
        Ok(()) => {},
        Err(e) => return Err(e),
    }
    match status {
        AckStatus::Success => {
            let info = nft_info.unwrap();
            let update = create_update_nft_info_msg(reg, nft_contract, envelope.token_id, &info, true);
            Ok(AckOutcome::Updated { update, previous_token_uri: info.token_uri })
        },
        AckStatus::Failed(error) => Ok(AckOutcome::Failed { error }),
    }
}

/// What the arrival of a transferred token leads to: its display state moves
/// and the receiver is awarded a companion token. The two are independent
/// effects of one response.
#[derive(Debug, Clone)]
pub struct ReceiveOutcome {
    pub update: UpdateRequest,
    pub previous_token_uri: String,
    pub companion_mint: MintRequest,
}

/// Handles the destination side's notice that the token `envelope` names has
/// arrived in `nft_contract` for `receiver`. `nft_info` is the token's current
/// metadata and `companion_count` the number of companion tokens minted so far.
pub fn execute_receive_callback(
    reg: &Registry,
    sender: &String,
    nft_contract: String,
    envelope: CallbackMsg,
    receiver: String,
    nft_info: &NftInfo,
    companion_count: u64,
) -> (r: Result<ReceiveOutcome, ContractError>)
    ensures
        match callback_refusal(reg@, sender@) {
            Some(e) => r == Err::<ReceiveOutcome, ContractError>(e),
            None => match reg@.companion {
            None => r == Err::<ReceiveOutcome, ContractError>(ContractError::NotFound { field: RegistryField::Companion }),
            Some(c) => r is Ok
                && r->Ok_0.update@ == update_of(reg@, nft_contract@, envelope.token_id@, nft_info@, false)
                && r->Ok_0.previous_token_uri@ == nft_info.token_uri@
                && r->Ok_0.companion_mint@ == mint_of(reg@, c, receiver@, companion_count),
            },
        },
{
    match authorize_callback(reg, sender) {
        Ok(()) => {},
        Err(e) => return Err(e),
    }
    let update = create_update_nft_info_msg(reg, nft_contract, envelope.token_id, nft_info, false);
    let companion = reg.load(RegistryField::Companion)?;
    let companion_mint = create_mint_msg(reg, companion, receiver, companion_count);
    Ok(ReceiveOutcome { update, previous_token_uri: nft_info.token_uri.clone(), companion_mint })
}

} // verus!
