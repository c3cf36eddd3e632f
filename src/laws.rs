use vstd::prelude::*;

use crate::bootstrap::{bootstrap_view, created_field, recorded, PendingOp};
use crate::callback::{update_of, NftInfoView, UpdateView};
use crate::metadata::{
    default_uri_key, escrowed_uri_key, find_trait, state_attributes, token_uri_key,
    transferred_uri_key,
};
use crate::mint::{decimal, digit_char, mint_of, MintView};
use crate::registry::RegistryView;

verus! {

/// The registry after the creations in `order` are confirmed one by one,
/// each with the address of the service it created.
pub open spec fn confirm_all(
    v: RegistryView,
    order: Seq<PendingOp>,
    collection: Seq<char>,
    companion: Seq<char>,
    protocol: Seq<char>,
) -> RegistryView
    decreases order.len(),
{
    if order.len() == 0 {
        v
    } else {
        let addr = match order[0] {
            PendingOp::CreateCollection => collection,
            PendingOp::CreateCompanion => companion,
            _ => protocol,
        };
        confirm_all(recorded(v, created_field(order[0]), addr), order.drop_first(), collection, companion, protocol)
    }
}

/// Once all three creations are confirmed, whatever the order of the
/// confirmations, the registry holds exactly the three created addresses and
/// the configured URIs.
pub proof fn lemma_bootstrap_complete(
    home: Seq<char>,
    escrowed: Seq<char>,
    transferred: Seq<char>,
    collection: Seq<char>,
    companion: Seq<char>,
    protocol: Seq<char>,
    order: Seq<PendingOp>,
)
    requires
        order.len() == 3,
        order.contains(PendingOp::CreateCollection),
        order.contains(PendingOp::CreateCompanion),
        order.contains(PendingOp::CreateTransferProtocol),
    ensures
        confirm_all(bootstrap_view(home, escrowed, transferred), order, collection, companion, protocol)
            == (RegistryView {
                collection: Some(collection),
                transfer_protocol: Some(protocol),
                companion: Some(companion),
                counterparty: None,
                default_token_uri: home,
                escrowed_token_uri: escrowed,
                transferred_token_uri: transferred,
            }),
{
    let i = choose|i: int| 0 <= i < order.len() && order[i] == PendingOp::CreateCollection;
    let j = choose|j: int| 0 <= j < order.len() && order[j] == PendingOp::CreateCompanion;
    let k = choose|k: int| 0 <= k < order.len() && order[k] == PendingOp::CreateTransferProtocol;
    assert(order.drop_first().drop_first().drop_first().len() == 0);
    reveal_with_fuel(confirm_all, 4);
}

proof fn lemma_digit_injective(a: int, b: int)
    requires
        0 <= a < 10,
        0 <= b < 10,
        digit_char(a) == digit_char(b),
    ensures
        a == b,
{
    let digits = seq!['0', '1', '2', '3', '4', '5', '6', '7', '8', '9'];
    assert(digits[0] == '0' && digits[1] == '1' && digits[2] == '2' && digits[3] == '3' && digits[4] == '4');
    assert(digits[5] == '5' && digits[6] == '6' && digits[7] == '7' && digits[8] == '8' && digits[9] == '9');
}

proof fn lemma_decimal_len(n: nat)
    ensures
        decimal(n).len() >= 1,
        n >= 10 ==> decimal(n).len() >= 2,
    decreases n,
{
    if n >= 10 {
        lemma_decimal_len(n / 10);
    }
}

/// Distinct numbers have distinct decimal forms.
pub proof fn lemma_decimal_injective(a: nat, b: nat)
    requires
        decimal(a) == decimal(b),
    ensures
        a == b,
    decreases a,
{
    lemma_decimal_len(a);
    lemma_decimal_len(b);
    if a < 10 && b < 10 {
        assert(decimal(a) == seq![digit_char(a as int)]);
        assert(decimal(b) == seq![digit_char(b as int)]);
        assert(seq![digit_char(a as int)][0] == digit_char(a as int));
        assert(seq![digit_char(b as int)][0] == digit_char(b as int));
        lemma_digit_injective(a as int, b as int);
    } else if a >= 10 && b >= 10 {
        let da = decimal(a);
        let db = decimal(b);
        assert(da.last() == db.last());
        lemma_digit_injective((a % 10) as int, (b % 10) as int);
        assert(da.drop_last() =~= decimal(a / 10));
        assert(db.drop_last() =~= decimal(b / 10));
        lemma_decimal_injective(a / 10, b / 10);
    }
}

/// Consecutive successful mints on a collection that starts empty, and that
/// counts one more token after each, carry the ids 0, 1, .., n - 1: no gap,
/// no repeat.
pub proof fn lemma_mint_ids_sequential(reg: RegistryView, collection: Seq<char>, owners: Seq<Seq<char>>)
    requires
        owners.len() <= u64::MAX,
    ensures
        forall|i: int| 0 <= i < owners.len() ==>
            #[trigger] mint_of(reg, collection, owners[i], i as u64).token_id == decimal(i as nat),
        forall|i: int, j: int| 0 <= i < owners.len() && 0 <= j < owners.len() && i != j ==>
            #[trigger] mint_of(reg, collection, owners[i], i as u64).token_id
                != #[trigger] mint_of(reg, collection, owners[j], j as u64).token_id,
{
    assert forall|i: int, j: int| 0 <= i < owners.len() && 0 <= j < owners.len() && i != j implies
        #[trigger] mint_of(reg, collection, owners[i], i as u64).token_id
            != #[trigger] mint_of(reg, collection, owners[j], j as u64).token_id by {
        if decimal(i as nat) == decimal(j as nat) {
            lemma_decimal_injective(i as nat, j as nat);
        }
    }
}

proof fn lemma_keys_distinct()
    ensures
        token_uri_key() != default_uri_key(),
        token_uri_key() != escrowed_uri_key(),
        token_uri_key() != transferred_uri_key(),
        default_uri_key() != escrowed_uri_key(),
        default_uri_key() != transferred_uri_key(),
        escrowed_uri_key() != transferred_uri_key(),
{
    reveal_strlit("token_uri");
    reveal_strlit("default_uri");
    reveal_strlit("escrowed_uri");
    reveal_strlit("transferred_uri");
    assert(token_uri_key().len() != default_uri_key().len());
    assert(token_uri_key().len() != escrowed_uri_key().len());
    assert(token_uri_key().len() != transferred_uri_key().len());
    assert(default_uri_key().len() != escrowed_uri_key().len());
    assert(default_uri_key().len() != transferred_uri_key().len());
    assert(escrowed_uri_key().len() != transferred_uri_key().len());
}

/// The state attributes give back the three URIs they remember.
proof fn lemma_state_remembered(current: Seq<char>, home: Seq<char>, escrowed: Seq<char>, transferred: Seq<char>)
    ensures
        find_trait(state_attributes(current, home, escrowed, transferred), default_uri_key()) == Some(home),
        find_trait(state_attributes(current, home, escrowed, transferred), escrowed_uri_key()) == Some(escrowed),
        find_trait(state_attributes(current, home, escrowed, transferred), transferred_uri_key()) == Some(transferred),
{
    lemma_keys_distinct();
    let s = state_attributes(current, home, escrowed, transferred);
    reveal_with_fuel(find_trait, 4);
    assert(s.drop_first()[0] == s[1]);
    assert(s.drop_first().drop_first()[0] == s[2]);
    assert(s.drop_first().drop_first().drop_first()[0] == s[3]);
}

/// What the collection reports of a token right after a mint.
pub open spec fn minted_info(m: MintView) -> NftInfoView {
    NftInfoView { token_uri: m.token_uri, attributes: Some(m.attributes) }
}

/// What the collection reports of a token right after an update.
pub open spec fn updated_info(u: UpdateView) -> NftInfoView {
    NftInfoView { token_uri: u.token_uri, attributes: Some(u.attributes) }
}

/// A minted token shows the home URI; a successful acknowledgement moves it
/// to the escrowed URI, and a second one, for its return, brings it home with
/// the state it was minted with. The token remembers its URIs, so the second
/// step holds even if the registry was reconfigured in between (`later`).
pub proof fn lemma_ack_round_trip(
    reg: RegistryView,
    later: RegistryView,
    collection: Seq<char>,
    owner: Seq<char>,
    count: u64,
)
    ensures
        ({
            let m = mint_of(reg, collection, owner, count);
            let first = update_of(reg, collection, m.token_id, minted_info(m), true);
            let second = update_of(later, collection, m.token_id, updated_info(first), true);
            &&& m.token_uri == reg.default_token_uri
            &&& first.token_uri == reg.escrowed_token_uri
            &&& second.token_uri == reg.default_token_uri
            &&& second.attributes == m.attributes
        }),
{
    let m = mint_of(reg, collection, owner, count);
    lemma_state_remembered(m.token_uri, reg.default_token_uri, reg.escrowed_token_uri, reg.transferred_token_uri);
    let first = update_of(reg, collection, m.token_id, minted_info(m), true);
    lemma_state_remembered(first.token_uri, reg.default_token_uri, reg.escrowed_token_uri, reg.transferred_token_uri);
}

/// A token that arrives showing the home URI moves to the transferred URI,
/// and arriving again, on its way back, it returns home. Each arrival awards
/// one companion token to the receiver; with the companion collection
/// counting one more token after each, the two awards carry distinct ids.
pub proof fn lemma_receive_round_trip(
    reg: RegistryView,
    later: RegistryView,
    collection: Seq<char>,
    companion: Seq<char>,
    owner: Seq<char>,
    receiver: Seq<char>,
    count: u64,
    companions: u64,
)
    requires
        companions < u64::MAX,
    ensures
        ({
            let m = mint_of(reg, collection, owner, count);
            let first = update_of(reg, collection, m.token_id, minted_info(m), false);
            let second = update_of(later, collection, m.token_id, updated_info(first), false);
            let award1 = mint_of(reg, companion, receiver, companions);
            let award2 = mint_of(later, companion, receiver, (companions + 1) as u64);
            &&& first.token_uri == reg.transferred_token_uri
            &&& second.token_uri == reg.default_token_uri
            &&& second.attributes == m.attributes
            &&& award1.collection == companion && award1.owner == receiver
            &&& award2.collection == companion && award2.owner == receiver
            &&& award1.token_id != award2.token_id
        }),
{
    let m = mint_of(reg, collection, owner, count);
    lemma_state_remembered(m.token_uri, reg.default_token_uri, reg.escrowed_token_uri, reg.transferred_token_uri);
    let first = update_of(reg, collection, m.token_id, minted_info(m), false);
    lemma_state_remembered(first.token_uri, reg.default_token_uri, reg.escrowed_token_uri, reg.transferred_token_uri);
    if decimal(companions as nat) == decimal((companions + 1) as nat) {
        lemma_decimal_injective(companions as nat, (companions + 1) as nat);
    }
}

} // verus!
