use vstd::prelude::*;

use crate::error::{ContractError, RegistryField};

verus! {

/// The orchestrator's durable configuration: the addresses of the services it
/// drives and the three display URIs a token moves between.
#[derive(Debug, Clone)]
pub struct Registry {
    pub collection: Option<String>,
    pub transfer_protocol: Option<String>,
    pub companion: Option<String>,
    pub counterparty: Option<String>,
    pub default_token_uri: String,
    pub escrowed_token_uri: String,
    pub transferred_token_uri: String,
}

pub struct RegistryView {
    pub collection: Option<Seq<char>>,
    pub transfer_protocol: Option<Seq<char>>,
    pub companion: Option<Seq<char>>,
    pub counterparty: Option<Seq<char>>,
    pub default_token_uri: Seq<char>,
    pub escrowed_token_uri: Seq<char>,
    pub transferred_token_uri: Seq<char>,
}

pub open spec fn opt_view(o: Option<String>) -> Option<Seq<char>> {
    match o {
        Some(s) => Some(s@),
        None => None,
    }
}

impl View for Registry {
    type V = RegistryView;

    open spec fn view(&self) -> RegistryView {
        RegistryView {
            collection: opt_view(self.collection),
            transfer_protocol: opt_view(self.transfer_protocol),
            companion: opt_view(self.companion),
            counterparty: opt_view(self.counterparty),
            default_token_uri: self.default_token_uri@,
            escrowed_token_uri: self.escrowed_token_uri@,
            transferred_token_uri: self.transferred_token_uri@,
        }
    }
}

/// The entry of `v` that `field` names.
pub open spec fn field_value(v: RegistryView, field: RegistryField) -> Option<Seq<char>> {
    match field {
        RegistryField::Collection => v.collection,
        RegistryField::Companion => v.companion,
        RegistryField::TransferProtocol => v.transfer_protocol,
        RegistryField::Counterparty => v.counterparty,
    }
}

/// Reading an address entry: its value, or `NotFound` naming the entry.
pub open spec fn loaded(r: Result<String, ContractError>, v: RegistryView, field: RegistryField) -> bool {
    match field_value(v, field) {
        Some(a) => r is Ok && r->Ok_0@ == a,
        None => r == Err::<String, ContractError>(ContractError::NotFound { field }),
    }
}

/// Read-only questions about the registry.
#[derive(Debug, Clone, Copy, PartialEq, Eq, Structural)]
pub enum QueryMsg {
    Poap,
    CW721,
    ICS721,
    DefaultTokenUri,
    EscrowedTokenUri,
    TransferredTokenUri,
    CounterPartyContract,
}

/// Replacement of any of the configured URIs when the code is upgraded.
#[derive(Debug, Clone)]
pub enum MigrateMsg {
    WithUpdate {
        default_token_uri: Option<String>,
        escrowed_token_uri: Option<String>,
        transferred_token_uri: Option<String>,
    },
}

/// The answer a query owes, `None` where the entry is not set.
pub open spec fn query_answer(v: RegistryView, q: QueryMsg) -> Option<Seq<char>> {
    match q {
        QueryMsg::Poap => v.companion,
        QueryMsg::CW721 => v.collection,
        QueryMsg::ICS721 => v.transfer_protocol,
        QueryMsg::DefaultTokenUri => Some(v.default_token_uri),
        QueryMsg::EscrowedTokenUri => Some(v.escrowed_token_uri),
        QueryMsg::TransferredTokenUri => Some(v.transferred_token_uri),
        QueryMsg::CounterPartyContract => v.counterparty,
    }
}

/// The entry a query reads when that entry is an address.
pub open spec fn query_field(q: QueryMsg) -> RegistryField {
    match q {
        QueryMsg::Poap => RegistryField::Companion,
        QueryMsg::CW721 => RegistryField::Collection,
        QueryMsg::ICS721 => RegistryField::TransferProtocol,
        _ => RegistryField::Counterparty,
    }
}

pub open spec fn with_uri(old: Seq<char>, update: Option<String>) -> Seq<char> {
    match update {
        Some(u) => u@,
        None => old,
    }
}

impl Registry {
    /// A registry with the three configured URIs and no service address yet.
    pub fn new(default_token_uri: String, escrowed_token_uri: String, transferred_token_uri: String) -> (r: Registry)
        ensures
            r@ == (RegistryView {
                collection: None,
                transfer_protocol: None,
                companion: None,
                counterparty: None,
                default_token_uri: default_token_uri@,
                escrowed_token_uri: escrowed_token_uri@,
                transferred_token_uri: transferred_token_uri@,
            }),
    {
        Registry {
            collection: None,
            transfer_protocol: None,
            companion: None,
            counterparty: None,
            default_token_uri,
            escrowed_token_uri,
            transferred_token_uri,
        }
    }

    /// Reads the address entry `field`.
    pub fn load(&self, field: RegistryField) -> (r: Result<String, ContractError>)
        ensures
            loaded(r, self@, field),
    {
        let entry = match field {
            RegistryField::Collection => &self.collection,
            RegistryField::Companion => &self.companion,
            RegistryField::TransferProtocol => &self.transfer_protocol,
            RegistryField::Counterparty => &self.counterparty,
        };
        match entry {
            Some(a) => Ok(a.clone()),
            None => Err(ContractError::NotFound { field }),
        }
    }

    /// Records the address of the counterparty orchestrator; nothing else changes.
    pub fn set_counterparty(&mut self, addr: String)
        ensures
            final(self)@ == (RegistryView { counterparty: Some(addr@), ..old(self)@ }),
    {
        self.counterparty = Some(addr);
    }

    /// Answers a read-only query: the entry's value, or `NotFound` where an
    /// address entry is still empty.
    pub fn query(&self, msg: QueryMsg) -> (r: Result<String, ContractError>)
        ensures
            match query_answer(self@, msg) {
                Some(a) => r is Ok && r->Ok_0@ == a,
                None => r == Err::<String, ContractError>(ContractError::NotFound { field: query_field(msg) }),
            },
    {
        match msg {
            QueryMsg::Poap => self.load(RegistryField::Companion),
            QueryMsg::CW721 => self.load(RegistryField::Collection),
            QueryMsg::ICS721 => self.load(RegistryField::TransferProtocol),
            QueryMsg::DefaultTokenUri => Ok(self.default_token_uri.clone()),
            QueryMsg::EscrowedTokenUri => Ok(self.escrowed_token_uri.clone()),
            QueryMsg::TransferredTokenUri => Ok(self.transferred_token_uri.clone()),
            QueryMsg::CounterPartyContract => self.load(RegistryField::Counterparty),
        }
    }

    /// Replaces each URI the message carries; the others and every address stay.
    pub fn migrate(&mut self, msg: MigrateMsg)
        ensures
            match msg {
                MigrateMsg::WithUpdate { default_token_uri, escrowed_token_uri, transferred_token_uri } =>
                    final(self)@ == (RegistryView {
                        default_token_uri: with_uri(old(self)@.default_token_uri, default_token_uri),
                        escrowed_token_uri: with_uri(old(self)@.escrowed_token_uri, escrowed_token_uri),
                        transferred_token_uri: with_uri(old(self)@.transferred_token_uri, transferred_token_uri),
                        ..old(self)@
                    }),
            },
    {
        match msg {
            MigrateMsg::WithUpdate { default_token_uri, escrowed_token_uri, transferred_token_uri } => {
                if let Some(u) = default_token_uri {
                    self.default_token_uri = u;
                }
                if let Some(u) = escrowed_token_uri {
                    self.escrowed_token_uri = u;
                }
                if let Some(u) = transferred_token_uri {
                    self.transferred_token_uri = u;
                }
            },
        }
    }
}

} // verus!
