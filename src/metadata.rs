use vstd::prelude::*;

use crate::registry::opt_view;

verus! {

/// One named attribute of a token's metadata.
#[derive(Debug, Clone)]
pub struct Trait {
    pub trait_type: String,
    pub value: String,
}

impl View for Trait {
    type V = (Seq<char>, Seq<char>);

    open spec fn view(&self) -> (Seq<char>, Seq<char>) {
        (self.trait_type@, self.value@)
    }
}

pub open spec fn traits_view(t: Seq<Trait>) -> Seq<(Seq<char>, Seq<char>)> {
    t.map_values(|a: Trait| a@)
}

/// The attribute that holds a token's current display URI.
pub open spec fn token_uri_key() -> Seq<char> {
    "token_uri"@
}

/// The attribute that remembers the home URI.
pub open spec fn default_uri_key() -> Seq<char> {
    "default_uri"@
}

/// The attribute that remembers the escrowed URI.
pub open spec fn escrowed_uri_key() -> Seq<char> {
    "escrowed_uri"@
}

/// The attribute that remembers the transferred URI.
pub open spec fn transferred_uri_key() -> Seq<char> {
    "transferred_uri"@
}

/// The value of the first attribute named `key`, if any.
pub open spec fn find_trait(attrs: Seq<(Seq<char>, Seq<char>)>, key: Seq<char>) -> Option<Seq<char>>
    decreases attrs.len(),
{
    if attrs.len() == 0 {
        None
    } else if attrs[0].0 == key {
        Some(attrs[0].1)
    } else {
        find_trait(attrs.drop_first(), key)
    }
}

/// The URI remembered under `key` in the token's attributes, or `fallback`
/// where the token carries no such attribute.
pub open spec fn remembered(attrs: Option<Seq<(Seq<char>, Seq<char>)>>, key: Seq<char>, fallback: Seq<char>) -> Seq<char> {
    match attrs {
        Some(a) => match find_trait(a, key) {
            Some(v) => v,
            None => fallback,
        },
        None => fallback,
    }
}

/// The display-state transition: a token showing its home URI moves to
/// `away`; a token showing anything else moves back home.
pub open spec fn next_uri(current: Seq<char>, home: Seq<char>, away: Seq<char>) -> Seq<char> {
    if current == home {
        away
    } else {
        home
    }
}

/// The attributes that encode a token's display state: the current URI and
/// the three configured URIs, in this order.
pub open spec fn state_attributes(
    current: Seq<char>,
    home: Seq<char>,
    escrowed: Seq<char>,
    transferred: Seq<char>,
) -> Seq<(Seq<char>, Seq<char>)> {
    seq![
        (token_uri_key(), current),
        (default_uri_key(), home),
        (escrowed_uri_key(), escrowed),
        (transferred_uri_key(), transferred),
    ]
}

fn named(trait_type: &str, value: &String) -> (r: Trait)
    ensures
        r@ == (trait_type@, value@),
{
    Trait { trait_type: String::from_str(trait_type), value: value.clone() }
}

/// The attribute list that encodes a display state.
pub fn state_traits(current: &String, home: &String, escrowed: &String, transferred: &String) -> (r: Vec<Trait>)
    ensures
        traits_view(r@) == state_attributes(current@, home@, escrowed@, transferred@),
{
    let mut r: Vec<Trait> = Vec::new();
    r.push(named("token_uri", current));
    r.push(named("default_uri", home));
    r.push(named("escrowed_uri", escrowed));
    r.push(named("transferred_uri", transferred));
    assert(traits_view(r@) =~= state_attributes(current@, home@, escrowed@, transferred@));
    r
}

/// The value of the first attribute named `key`.
pub fn find_trait_value(attrs: &Vec<Trait>, key: &String) -> (r: Option<String>)
    ensures
        opt_view(r) == find_trait(traits_view(attrs@), key@),
{
    let mut i: usize = 0;
    assert(traits_view(attrs@).subrange(0, attrs@.len() as int) =~= traits_view(attrs@));
    while i < attrs.len()
        invariant
            i <= attrs.len(),
            find_trait(traits_view(attrs@), key@) == find_trait(traits_view(attrs@).subrange(i as int, attrs@.len() as int), key@),
        decreases attrs.len() - i,
    {
        let ghost rest = traits_view(attrs@).subrange(i as int, attrs@.len() as int);
        assert(rest.drop_first() =~= traits_view(attrs@).subrange(i + 1, attrs@.len() as int));
        if attrs[i].trait_type == *key {
            return Some(attrs[i].value.clone());
        }
        i += 1;
    }
    assert(traits_view(attrs@).subrange(i as int, attrs@.len() as int).len() == 0);
    None
}

/// The URI remembered under `key`, or a clone of `fallback`.
pub fn remembered_uri(attrs: &Option<Vec<Trait>>, key: &String, fallback: &String) -> (r: String)
    ensures
        r@ == remembered(
            match attrs { Some(a) => Some(traits_view(a@)), None => None },
            key@,
            fallback@,
        ),
{
    match attrs {
        Some(a) => match find_trait_value(a, key) {
            Some(v) => v,
            None => fallback.clone(),
        },
        None => fallback.clone(),
    }
}

} // verus!
