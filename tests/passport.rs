use arkite_passport::{
    execute_ack_callback, execute_mint, execute_receive_callback, execute_receive_nft, instantiate,
    reply, AckOutcome, AckStatus, CallbackMsg, ContractError, MintRequest, NftInfo, QueryMsg,
    Registry, RegistryField, ReplyAction, SubMsgOutcome, Trait, UpdateRequest,
};

const ARKITE_CONTRACT: &str = "arkite_contract";
const CW721_CONTRACT: &str = "cw721_contract";
const POAP_CONTRACT: &str = "poap_contract";
const ICS721_CONTRACT: &str = "ics721_contract";
const NFT_OWNER_WALLET: &str = "nft_owner";
const OTHER_CHAIN_WALLET: &str = "other_chain";
const COUNTERPARTY_CONTRACT: &str = "counterparty_contract";
const DEFAULT_TOKEN_URI: &str = "ipfs://interchain.passport";
const ESCROWED_TOKEN_URI: &str = "ipfs://interchain.escrowed";
const TRANSFERRED_TOKEN_URI: &str = "ipfs://interchain.transferred";

struct Token {
    id: String,
    owner: String,
    info: NftInfo,
}

/// A minimal host: the orchestrator's registry and two collections that
/// apply the requests the orchestrator hands out.
struct Test {
    registry: Registry,
    nfts: Vec<Token>,
    poaps: Vec<Token>,
}

/// The protobuf encoding of a contract-instantiation response for `addr`.
fn instantiate_response(addr: &str) -> Vec<u8> {
    let mut data = vec![0x0a, addr.len() as u8];
    data.extend_from_slice(addr.as_bytes());
    data
}

fn apply_mint(tokens: &mut Vec<Token>, req: MintRequest) {
    assert!(tokens.iter().all(|t| t.id != req.token_id));
    tokens.push(Token {
        id: req.token_id,
        owner: req.owner,
        info: NftInfo { token_uri: req.token_uri, attributes: Some(req.attributes) },
    });
}

fn apply_update(tokens: &mut Vec<Token>, req: UpdateRequest) {
    let token = tokens.iter_mut().find(|t| t.id == req.token_id).unwrap();
    token.info = NftInfo { token_uri: req.token_uri, attributes: Some(req.attributes) };
}

impl Test {
    fn new() -> Test {
        let boot = instantiate(
            DEFAULT_TOKEN_URI.to_string(),
            ESCROWED_TOKEN_URI.to_string(),
            TRANSFERRED_TOKEN_URI.to_string(),
        );
        let mut registry = boot.registry;
        for op in boot.creations {
            let addr = match op.tag() {
                0 => CW721_CONTRACT,
                1 => POAP_CONTRACT,
                _ => ICS721_CONTRACT,
            };
            let outcome = SubMsgOutcome::Succeeded { data: Some(instantiate_response(addr)) };
            match reply(op.tag(), outcome).unwrap() {
                ReplyAction::Record { field, addr } => registry.record(field, addr),
                ReplyAction::MintConfirmed => panic!("creation confirmed as a mint"),
            }
        }
        Test { registry, nfts: vec![], poaps: vec![] }
    }

    fn query(&self, q: QueryMsg) -> String {
        self.registry.query(q).unwrap()
    }

    fn nft(&self, token_id: &str) -> &Token {
        self.nfts.iter().find(|t| t.id == token_id).unwrap()
    }

    fn execute_passport_mint(&mut self, owner: &str) -> Result<(), ContractError> {
        let req = execute_mint(&self.registry, owner.to_string(), self.nfts.len() as u64)?;
        assert_eq!(req.collection, CW721_CONTRACT);
        apply_mint(&mut self.nfts, req);
        Ok(())
    }

    fn execute_ack_callback(
        &mut self,
        sender: &str,
        status: AckStatus,
        envelope: CallbackMsg,
    ) -> Result<AckOutcome, ContractError> {
        let info = match status {
            AckStatus::Success => Some(self.nft(&envelope.token_id).info.clone()),
            AckStatus::Failed(_) => None,
        };
        let outcome = execute_ack_callback(
            &self.registry,
            &sender.to_string(),
            status,
            CW721_CONTRACT.to_string(),
            envelope,
            info,
        )?;
        if let AckOutcome::Updated { update, .. } = &outcome {
            apply_update(&mut self.nfts, update.clone());
        }
        Ok(outcome)
    }

    fn execute_receive_callback(
        &mut self,
        sender: &str,
        envelope: CallbackMsg,
        receiver: &str,
    ) -> Result<(), ContractError> {
        let info = self.nft(&envelope.token_id).info.clone();
        let outcome = execute_receive_callback(
            &self.registry,
            &sender.to_string(),
            CW721_CONTRACT.to_string(),
            envelope,
            receiver.to_string(),
            &info,
            self.poaps.len() as u64,
        )?;
        apply_update(&mut self.nfts, outcome.update);
        assert_eq!(outcome.companion_mint.collection, POAP_CONTRACT);
        apply_mint(&mut self.poaps, outcome.companion_mint);
        Ok(())
    }
}

fn envelope(sender: &str, token_id: &str) -> CallbackMsg {
    CallbackMsg { sender: sender.to_string(), token_id: token_id.to_string() }
}

#[test]
fn test_instantiate() {
    let test = Test::new();

    assert_eq!(test.query(QueryMsg::Poap), POAP_CONTRACT);
    assert_eq!(test.query(QueryMsg::CW721), CW721_CONTRACT);
    assert_eq!(test.query(QueryMsg::ICS721), ICS721_CONTRACT);
    assert_eq!(test.nfts.len(), 0);
    assert_eq!(test.query(QueryMsg::DefaultTokenUri), DEFAULT_TOKEN_URI.to_string());
    assert_eq!(test.query(QueryMsg::EscrowedTokenUri), ESCROWED_TOKEN_URI.to_string());
    assert_eq!(test.query(QueryMsg::TransferredTokenUri), TRANSFERRED_TOKEN_URI.to_string());
}

#[test]
fn test_execute_counter_party_contract() {
    let mut test = Test::new();

    test.registry.set_counterparty(COUNTERPARTY_CONTRACT.to_string());

    let counter_party_contract = test.query(QueryMsg::CounterPartyContract);
    assert_eq!(counter_party_contract, COUNTERPARTY_CONTRACT.to_string());
}

#[test]
fn test_mint() {
    let mut test = Test::new();

    test.execute_passport_mint(NFT_OWNER_WALLET).unwrap();

    assert_eq!(test.nfts.len(), 1);
    let token = test.nft("0");
    assert_eq!(token.owner, NFT_OWNER_WALLET);
    assert_eq!(token.info.token_uri, DEFAULT_TOKEN_URI.to_string());
}

#[test]
fn test_send_nft() {
    let mut test = Test::new();

    test.execute_passport_mint(NFT_OWNER_WALLET).unwrap();
    let send = execute_receive_nft(
        &test.registry,
        &ARKITE_CONTRACT.to_string(),
        CW721_CONTRACT.to_string(),
        NFT_OWNER_WALLET.to_string(),
        "0".to_string(),
        None,
    )
    .unwrap();

    // the token goes on to ics721, with this contract named for the ack
    assert_eq!(send.collection, CW721_CONTRACT);
    assert_eq!(send.destination, ICS721_CONTRACT);
    assert_eq!(send.token_id, "0");
    assert_eq!(send.memo.ack_callback_addr, ARKITE_CONTRACT);
    assert_eq!(send.memo.ack_callback_data.token_id, "0");
    assert_eq!(send.memo.ack_callback_data.sender, NFT_OWNER_WALLET);
    assert!(send.memo.receive_callback_data.is_none());
    assert!(send.memo.receive_callback_addr.is_none());
}

#[test]
fn test_receive_callback() {
    // assert unauthorized
    {
        let mut test = Test::new();
        test.execute_passport_mint(NFT_OWNER_WALLET).unwrap();
        let err = test
            .execute_receive_callback(
                CW721_CONTRACT, // unauthorized
                envelope(OTHER_CHAIN_WALLET, "0"),
                OTHER_CHAIN_WALLET,
            )
            .unwrap_err();
        assert_eq!(err, ContractError::UnauthorizedCallback);
        assert_eq!(test.nft("0").info.token_uri, DEFAULT_TOKEN_URI.to_string());
        assert_eq!(test.poaps.len(), 0);
    }
    // assert receive ok
    {
        let mut test = Test::new();
        test.execute_passport_mint(NFT_OWNER_WALLET).unwrap();
        let token = test.nft("0");
        assert_eq!(token.owner, NFT_OWNER_WALLET);
        assert_eq!(token.info.token_uri, DEFAULT_TOKEN_URI.to_string());
        assert_eq!(test.poaps.len(), 0);

        test.execute_receive_callback(
            ICS721_CONTRACT,
            envelope(OTHER_CHAIN_WALLET, "0"),
            OTHER_CHAIN_WALLET,
        )
        .unwrap();
        let token = test.nft("0");
        assert_eq!(token.owner, NFT_OWNER_WALLET);
        assert_eq!(token.info.token_uri, TRANSFERRED_TOKEN_URI.to_string());
        assert_eq!(test.poaps.len(), 1);

        // back transfer
        test.execute_receive_callback(
            ICS721_CONTRACT,
            envelope(OTHER_CHAIN_WALLET, "0"),
            OTHER_CHAIN_WALLET,
        )
        .unwrap();
        let token = test.nft("0");
        assert_eq!(token.owner, NFT_OWNER_WALLET);
        assert_eq!(token.info.token_uri, DEFAULT_TOKEN_URI.to_string());
        assert_eq!(test.poaps.len(), 2);
    }
}

#[test]
fn test_ack_callback() {
    // assert unauthorized
    {
        let mut test = Test::new();
        test.execute_passport_mint(NFT_OWNER_WALLET).unwrap();
        let err = test
            .execute_ack_callback(
                CW721_CONTRACT, // unauthorized
                AckStatus::Success,
                envelope(NFT_OWNER_WALLET, "0"),
            )
            .unwrap_err();
        assert_eq!(err, ContractError::UnauthorizedCallback);
    }
    // assert ack success
    {
        let mut test = Test::new();
        test.execute_passport_mint(ICS721_CONTRACT).unwrap();
        let token = test.nft("0");
        assert_eq!(token.owner, ICS721_CONTRACT);
        assert_eq!(token.info.token_uri, DEFAULT_TOKEN_URI.to_string());

        test.execute_ack_callback(ICS721_CONTRACT, AckStatus::Success, envelope(NFT_OWNER_WALLET, "0"))
            .unwrap();
        let token = test.nft("0");
        assert_eq!(token.owner, ICS721_CONTRACT);
        assert_eq!(token.info.token_uri, ESCROWED_TOKEN_URI.to_string());

        test.execute_ack_callback(ICS721_CONTRACT, AckStatus::Success, envelope(NFT_OWNER_WALLET, "0"))
            .unwrap();
        let token = test.nft("0");
        assert_eq!(token.owner, ICS721_CONTRACT);
        assert_eq!(token.info.token_uri, DEFAULT_TOKEN_URI.to_string());
    }
    // assert ack fail
    {
        let mut test = Test::new();
        let outcome = test
            .execute_ack_callback(
                ICS721_CONTRACT,
                AckStatus::Failed("some reason".to_string()),
                envelope(NFT_OWNER_WALLET, "0"),
            )
            .unwrap();
        match outcome {
            AckOutcome::Failed { error } => assert_eq!(error, "some reason"),
            AckOutcome::Updated { .. } => panic!("a failed transfer must not move the token"),
        }
    }
}

#[test]
fn example_uri_cycle_and_companion_mints() {
    let boot = instantiate("U0".to_string(), "U1".to_string(), "U2".to_string());
    let mut test = Test { registry: boot.registry, nfts: vec![], poaps: vec![] };
    test.registry.record(RegistryField::Collection, CW721_CONTRACT.to_string());
    test.registry.record(RegistryField::Companion, POAP_CONTRACT.to_string());
    test.registry.record(RegistryField::TransferProtocol, ICS721_CONTRACT.to_string());

    test.execute_passport_mint(NFT_OWNER_WALLET).unwrap();
    assert_eq!(test.nft("0").info.token_uri, "U0");
    test.execute_ack_callback(ICS721_CONTRACT, AckStatus::Success, envelope(NFT_OWNER_WALLET, "0"))
        .unwrap();
    assert_eq!(test.nft("0").info.token_uri, "U1");
    test.execute_ack_callback(ICS721_CONTRACT, AckStatus::Success, envelope(NFT_OWNER_WALLET, "0"))
        .unwrap();
    assert_eq!(test.nft("0").info.token_uri, "U0");
    test.execute_receive_callback(ICS721_CONTRACT, envelope(NFT_OWNER_WALLET, "0"), OTHER_CHAIN_WALLET)
        .unwrap();
    assert_eq!(test.nft("0").info.token_uri, "U2");
    assert_eq!(test.poaps.len(), 1);
    assert_eq!(test.poaps[0].owner, OTHER_CHAIN_WALLET);
    test.execute_receive_callback(ICS721_CONTRACT, envelope(NFT_OWNER_WALLET, "0"), OTHER_CHAIN_WALLET)
        .unwrap();
    assert_eq!(test.nft("0").info.token_uri, "U0");
    assert_eq!(test.poaps.len(), 2);
    assert_eq!(test.poaps[1].owner, OTHER_CHAIN_WALLET);
    assert_eq!(test.poaps[0].id, "0");
    assert_eq!(test.poaps[1].id, "1");
}

#[test]
fn minted_metadata_remembers_all_uris() {
    let mut test = Test::new();
    test.execute_passport_mint(NFT_OWNER_WALLET).unwrap();
    let attrs = test.nft("0").info.attributes.clone().unwrap();
    let pairs: Vec<(String, String)> =
        attrs.into_iter().map(|t: Trait| (t.trait_type, t.value)).collect();
    assert_eq!(
        pairs,
        vec![
            ("token_uri".to_string(), DEFAULT_TOKEN_URI.to_string()),
            ("default_uri".to_string(), DEFAULT_TOKEN_URI.to_string()),
            ("escrowed_uri".to_string(), ESCROWED_TOKEN_URI.to_string()),
            ("transferred_uri".to_string(), TRANSFERRED_TOKEN_URI.to_string()),
        ]
    );
}
