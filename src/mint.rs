use vstd::prelude::*;

use crate::error::{ContractError, RegistryField};
use crate::metadata::{state_attributes, state_traits, traits_view, Trait};
use crate::registry::{Registry, RegistryView};

verus! {

pub open spec fn digit_char(d: int) -> char {
    seq!['0', '1', '2', '3', '4', '5', '6', '7', '8', '9'][d]
}

/// `n` written in decimal, without sign or leading zeros.
pub open spec fn decimal(n: nat) -> Seq<char>
    decreases n,
{
    if n < 10 {
        seq![digit_char(n as int)]
    } else {
        decimal(n / 10).push(digit_char((n % 10) as int))
    }
}

/// Relies on std's `ToString` for `u64` (through its `Display`), which writes
/// the number in decimal with no sign, padding or leading zeros.
#[verifier::external_body]
fn decimal_string(n: u64) -> (r: String)
    ensures
        r@ == decimal(n as nat),
{
    n.to_string()
}

/// A request to a collection to mint one token, dispatched so that the
/// orchestrator hears back whether it succeeded or failed.
#[derive(Debug, Clone)]
pub struct MintRequest {
    pub collection: String,
    pub token_id: String,
    pub owner: String,
    pub token_uri: String,
    pub attributes: Vec<Trait>,
}

pub struct MintView {
    pub collection: Seq<char>,
    pub token_id: Seq<char>,
    pub owner: Seq<char>,
    pub token_uri: Seq<char>,
    pub attributes: Seq<(Seq<char>, Seq<char>)>,
}

impl View for MintRequest {
    type V = MintView;

    open spec fn view(&self) -> MintView {
        MintView {
            collection: self.collection@,
            token_id: self.token_id@,
            owner: self.owner@,
            token_uri: self.token_uri@,
            attributes: traits_view(self.attributes@),
        }
    }
}

/// The mint of the next token of a collection that holds `count` tokens: its
/// id is `count`, it shows the home URI and remembers all three URIs.
pub open spec fn mint_of(reg: RegistryView, collection: Seq<char>, owner: Seq<char>, count: u64) -> MintView {
    MintView {
        collection,
        token_id: decimal(count as nat),
        owner,
        token_uri: reg.default_token_uri,
        attributes: state_attributes(
            reg.default_token_uri,
            reg.default_token_uri,
            reg.escrowed_token_uri,
            reg.transferred_token_uri,
        ),
    }
}

/// Builds the mint of the next token for `owner` on `collection`, which
/// reports `num_tokens` tokens.
pub fn create_mint_msg(reg: &Registry, collection: String, owner: String, num_tokens: u64) -> (r: MintRequest)
    ensures
        r@ == mint_of(reg@, collection@, owner@, num_tokens),
{
    let attributes = state_traits(
        &reg.default_token_uri,
        &reg.default_token_uri,
        &reg.escrowed_token_uri,
        &reg.transferred_token_uri,
    );
    MintRequest {
        collection,
        token_id: decimal_string(num_tokens),
        owner,
        token_uri: reg.default_token_uri.clone(),
        attributes,
    }
}

/// Mints the next passport of the collection for `owner`; `num_tokens` is
/// the collection's current token count. Fails only while the collection's
/// address is unknown.
pub fn execute_mint(reg: &Registry, owner: String, num_tokens: u64) -> (r: Result<MintRequest, ContractError>)
    ensures
        match reg@.collection {
            Some(c) => r is Ok && r->Ok_0@ == mint_of(reg@, c, owner@, num_tokens),
            None => r == Err::<MintRequest, ContractError>(ContractError::NotFound { field: RegistryField::Collection }),
        },
{
    let collection = reg.load(RegistryField::Collection)?;
    Ok(create_mint_msg(reg, collection, owner, num_tokens))
}

} // verus!
