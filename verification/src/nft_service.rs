//! The NFT minting capability and its implementations: an Ethereum-backed
//! service (token references drawn from the chain's randomness), a Solana
//! placeholder, and an in-memory mock whose failures tests can script.

use vstd::prelude::*;
use vstd::string::StringExecFns;
use vstd::string::StrSliceExecFns;

use std::collections::HashMap;

use crate::errors::TicketError;
use crate::ticketing::Event;
use crate::ticketing::NFTMetadata;
use crate::ticketing::Ticket;

verus! {

/// Relies on `rand::random::<u128>` and zero-padded hex formatting: a fresh
/// transaction-hash-shaped string of exactly 66 characters ("0x" plus 64 hex
/// digits). No other property of the value is promised.
#[verifier::external_body]
fn random_tx_hash() -> (r: String)
    ensures
        r@.len() == 66,
{
    format!("0x{:064x}", rand::random::<u128>())
}

/// Relies on `uuid::Uuid::new_v4` and its hyphenated text form: a fresh
/// 36-character identifier. No other property of the value is promised.
#[verifier::external_body]
fn new_uuid_string() -> (r: String)
    ensures
        r@.len() == 36,
{
    uuid::Uuid::new_v4().to_string()
}

/// The minting capability consumed by the purchase orchestrator.
///
/// `mint_ok()` and `nft_transfer_ok()` say whether the next mint or token
/// transfer will succeed; the orchestrator's contracts are stated over them.
pub trait NFTMinter: Sized {
    /// Whether the next mint will succeed.
    spec fn mint_ok(&self) -> bool;

    /// Whether the next token transfer will succeed.
    spec fn nft_transfer_ok(&self) -> bool;

    /// Mints a token for the ticket and returns its token reference.
    fn mint_ticket_nft(&self, ticket: &Ticket, event: &Event, metadata: &NFTMetadata) -> (r:
        Result<String, TicketError>)
        ensures
            r is Ok <==> self.mint_ok(),
    ;

    /// Transfers the token to another wallet and returns a transaction
    /// reference.
    fn transfer_nft(&self, token_id: &str, to_wallet: &str) -> (r: Result<String, TicketError>)
        ensures
            r is Ok <==> self.nft_transfer_ok(),
    ;

    /// Destroys the token and returns a transaction reference.
    fn burn_nft(&self, token_id: &str) -> (r: Result<String, TicketError>);

    /// Fetches the metadata currently bound to the token.
    fn get_nft_metadata(&self, token_id: &str) -> (r: Result<NFTMetadata, TicketError>);
}

/// Minting backed by an Ethereum contract.
pub struct EthereumNFTService {
    rpc_url: String,
    contract_address: String,
    private_key: String,
}

/// Minting backed by a Solana program; not yet wired to a backend.
#[allow(dead_code)]
pub struct SolanaNFTService {
    rpc_url: String,
    program_id: String,
    private_key: String,
}

/// An in-memory minter whose failures tests can script.
pub struct MockNFTService {
    /// Token metadata kept by the mock; nothing reads it yet.
    pub nfts: HashMap<String, NFTMetadata>,
    /// When true, every mint fails.
    pub fail_minting: bool,
    /// When true, every token transfer fails.
    pub fail_transfers: bool,
}

impl EthereumNFTService {
    pub fn new(rpc_url: String, contract_address: String, private_key: String) -> (r:
        EthereumNFTService)
        ensures
            r.mint_ok(),
            r.nft_transfer_ok(),
    {
        EthereumNFTService { rpc_url, contract_address, private_key }
    }

    /// Issues the mint transaction on chain and returns its hash.
    fn mint_ethereum_nft(&self, metadata_uri: String, to_wallet: &str) -> (r: Result<
        String,
        TicketError,
    >)
        ensures
            r is Ok,
            r is Ok ==> r->Ok_0@.len() == 66,
    {
        let _ = metadata_uri;
        let _ = to_wallet;
        Ok(random_tx_hash())
    }

    /// Pins the metadata document and returns its content identifier.
    fn pin_metadata_to_ipfs(&self, metadata: &NFTMetadata) -> (r: Result<String, TicketError>)
        ensures
            r is Ok,
            r is Ok ==> r->Ok_0@.len() == 43,
    {
        let _ = metadata;
        let mut uri = String::from_str("ipfs://");
        let cid = new_uuid_string();
        uri.append(cid.as_str());
        proof {
            reveal_strlit("ipfs://");
        }
        Ok(uri)
    }
}

impl NFTMinter for EthereumNFTService {
    open spec fn mint_ok(&self) -> bool {
        true
    }

    open spec fn nft_transfer_ok(&self) -> bool {
        true
    }

    fn mint_ticket_nft(&self, ticket: &Ticket, event: &Event, metadata: &NFTMetadata) -> (r:
        Result<String, TicketError>) {
        let _ = event;
        let metadata_uri = match self.pin_metadata_to_ipfs(metadata) {
            Ok(uri) => uri,
            Err(e) => {
                return Err(e);
            },
        };
        self.mint_ethereum_nft(metadata_uri, ticket.owner_wallet.as_str())
    }

    fn transfer_nft(&self, token_id: &str, to_wallet: &str) -> (r: Result<String, TicketError>) {
        let _ = token_id;
        let _ = to_wallet;
        Ok(random_tx_hash())
    }

    fn burn_nft(&self, token_id: &str) -> (r: Result<String, TicketError>) {
        let _ = token_id;
        Ok(random_tx_hash())
    }

    fn get_nft_metadata(&self, token_id: &str) -> (r: Result<NFTMetadata, TicketError>) {
        let _ = token_id;
        Err(TicketError::ExternalServiceError(String::from_str("metadata lookup not supported")))
    }
}

impl MockNFTService {
    pub fn new() -> (r: MockNFTService)
        ensures
            !r.fail_minting,
            !r.fail_transfers,
    {
        MockNFTService { nfts: HashMap::new(), fail_minting: false, fail_transfers: false }
    }
}

impl NFTMinter for MockNFTService {
    open spec fn mint_ok(&self) -> bool {
        !self.fail_minting
    }

    open spec fn nft_transfer_ok(&self) -> bool {
        !self.fail_transfers
    }

    fn mint_ticket_nft(&self, ticket: &Ticket, event: &Event, metadata: &NFTMetadata) -> (r:
        Result<String, TicketError>) {
        let _ = ticket;
        let _ = event;
        let _ = metadata;
        if self.fail_minting {
            Err(TicketError::ExternalServiceError(String::from_str("mint declined")))
        } else {
            Ok(new_uuid_string())
        }
    }

    fn transfer_nft(&self, token_id: &str, to_wallet: &str) -> (r: Result<String, TicketError>) {
        let _ = to_wallet;
        if self.fail_transfers {
            Err(TicketError::ExternalServiceError(String::from_str("token transfer declined")))
        } else {
            Ok(token_id.to_owned())
        }
    }

    fn burn_nft(&self, token_id: &str) -> (r: Result<String, TicketError>) {
        Ok(token_id.to_owned())
    }

    fn get_nft_metadata(&self, token_id: &str) -> (r: Result<NFTMetadata, TicketError>) {
        let _ = token_id;
        Err(TicketError::ExternalServiceError(String::from_str("metadata lookup not supported")))
    }
}

} // verus!
