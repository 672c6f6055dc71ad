//! The DeltaDeFi client: network stages and their endpoints, the shared API
//! configuration, the request description every endpoint produces, and the wallets
//! that sign transactions.
pub mod accounts;
pub mod app;
pub mod connection;
pub mod market;
pub mod market_stream;
pub mod order;
pub mod request;
pub mod stream;

use vstd::prelude::*;
use vstd::string::StringExecFns;

use crate::bindings::{
    new_http_client, root_key_wallet_accepts, signed_tx, wallet_from_master_key,
    wallet_from_root_key, wallet_new_accepts, wallet_sign_tx, SigningWallet,
};
use crate::text::{concat, is_hex};
use accounts::Accounts;
use market::Market;
use order::Order;

verus! {

/// Network environment of the DeltaDeFi API.
#[derive(Debug, PartialEq, Eq)]
pub enum Stage {
    /// Production mainnet environment.
    Mainnet,
    /// Staging environment for testing.
    Staging,
    /// Custom endpoints: the HTTP base URL, then the WebSocket base URL.
    Custom(String, String),
}

impl Clone for Stage {
    fn clone(&self) -> (res: Self)
        ensures
            res == *self,
    {
        match self {
            Stage::Mainnet => Stage::Mainnet,
            Stage::Staging => Stage::Staging,
            Stage::Custom(url, ws_url) => Stage::Custom(url.clone(), ws_url.clone()),
        }
    }
}

/// The HTTP base URL of a stage.
pub open spec fn stage_base_url(network: Stage) -> Seq<char> {
    match network {
        Stage::Mainnet => "https://api.deltadefi.io/"@,
        Stage::Staging => "https://api-staging.deltadefi.io"@,
        Stage::Custom(url, _) => url@,
    }
}

/// The WebSocket base URL of a stage.
pub open spec fn stage_ws_url(network: Stage) -> Seq<char> {
    match network {
        Stage::Mainnet => "wss://stream.deltadefi.io"@,
        Stage::Staging => "wss://stream-staging.deltadefi.io"@,
        Stage::Custom(_, ws_url) => ws_url@,
    }
}

impl Stage {
    /// The HTTP base URL and the WebSocket base URL of this stage.
    pub fn urls(&self) -> (res: (String, String))
        ensures
            res.0@ == stage_base_url(*self),
            res.1@ == stage_ws_url(*self),
    {
        match self {
            Stage::Mainnet => (
                String::from_str("https://api.deltadefi.io/"),
                String::from_str("wss://stream.deltadefi.io"),
            ),
            Stage::Staging => (
                String::from_str("https://api-staging.deltadefi.io"),
                String::from_str("wss://stream-staging.deltadefi.io"),
            ),
            Stage::Custom(url, ws_url) => (url.clone(), ws_url.clone()),
        }
    }
}

/// Shared configuration of the API clients: endpoints, API key, network and the
/// HTTP client that sends the requests.
pub struct Api {
    /// Base URL for the DeltaDeFi API.
    pub base_url: String,
    /// WebSocket URL for the DeltaDeFi stream.
    pub ws_url: String,
    /// API key for authentication.
    pub api_key: String,
    /// Network environment configuration.
    pub network: Stage,
    /// HTTP client for making requests.
    pub http_client: reqwest::Client,
    /// The request timeout, in seconds, that the HTTP client was built with.
    pub http_timeout_secs: u64,
}

/// The request timeout of the HTTP client, in seconds.
pub const HTTP_TIMEOUT_SECS: u64 = 300;

/// Clones the HTTP client with `reqwest::Client::clone`; the clone shares the
/// connection pool of the client it was cloned from. Nothing is claimed of it.
#[verifier::external_body]
fn clone_http_client(client: &reqwest::Client) -> reqwest::Client {
    client.clone()
}

impl Api {
    /// The configuration fields of this API client equal those derived from `api_key`
    /// and `network`.
    pub open spec fn configured_for(self, api_key: Seq<char>, network: Stage) -> bool {
        &&& self.api_key@ == api_key
        &&& self.network == network
        &&& self.base_url@ == stage_base_url(network)
        &&& self.ws_url@ == stage_ws_url(network)
        &&& self.http_timeout_secs == HTTP_TIMEOUT_SECS
    }

    /// Creates the API client for `network`, authenticating with `api_key`, with an
    /// HTTP client whose requests time out after `HTTP_TIMEOUT_SECS` seconds.
    pub fn new(api_key: String, network: Stage) -> (res: Self)
        ensures
            res.configured_for(api_key@, network),
    {
        let (base_url, ws_url) = network.urls();
        let http_client = new_http_client(HTTP_TIMEOUT_SECS);
        Api { api_key, network, base_url, ws_url, http_client, http_timeout_secs: HTTP_TIMEOUT_SECS }
    }

    /// The full URL of `path` on this API.
    pub fn url(&self, path: &str) -> (res: String)
        ensures
            res@ == self.base_url@ + path@,
    {
        concat(self.base_url.as_str(), path)
    }
}

impl Clone for Api {
    fn clone(&self) -> (res: Self)
        ensures
            res.base_url == self.base_url,
            res.ws_url == self.ws_url,
            res.api_key == self.api_key,
            res.network == self.network,
            res.http_timeout_secs == self.http_timeout_secs,
    {
        Api {
            base_url: self.base_url.clone(),
            ws_url: self.ws_url.clone(),
            api_key: self.api_key.clone(),
            network: self.network.clone(),
            http_client: clone_http_client(&self.http_client),
            http_timeout_secs: self.http_timeout_secs,
        }
    }
}

/// The key of a master wallet: the plain values of a `whisky::WalletType`.
#[derive(Debug, Clone)]
pub enum MasterKey {
    /// A BIP39 mnemonic phrase with its derivation path.
    Mnemonic { phrase: String, derivation_indices: Vec<u32> },
    /// A bech32-encoded root key with its derivation path.
    RootKey { root_key: String, derivation_indices: Vec<u32> },
    /// A CLI signing key in hex.
    Cli(String),
}

/// The key of a master wallet as sequences: the secret (mnemonic phrase, root key or
/// signing key) and, where it has one, the derivation path.
pub enum MasterKeyView {
    Mnemonic(Seq<char>, Seq<u32>),
    RootKey(Seq<char>, Seq<u32>),
    Cli(Seq<char>),
}

impl View for MasterKey {
    type V = MasterKeyView;

    open spec fn view(&self) -> MasterKeyView {
        match self {
            MasterKey::Mnemonic { phrase, derivation_indices } => MasterKeyView::Mnemonic(phrase@, derivation_indices@),
            MasterKey::RootKey { root_key, derivation_indices } => MasterKeyView::RootKey(root_key@, derivation_indices@),
            MasterKey::Cli(signing_key) => MasterKeyView::Cli(signing_key@),
        }
    }
}

/// The hardened offset of BIP32 derivation indices.
pub const HARDENED_KEY_START: u32 = 0x8000_0000;

impl MasterKey {
    /// A derivation path names at least purpose, coin type, account, role and key index.
    pub open spec fn well_formed(self) -> bool {
        match self {
            MasterKey::Mnemonic { derivation_indices, .. } => derivation_indices.len() >= 5,
            MasterKey::RootKey { derivation_indices, .. } => derivation_indices.len() >= 5,
            MasterKey::Cli(_) => true,
        }
    }

    /// The default Cardano derivation path m/1852'/1815'/0'/0/0.
    pub open spec fn default_derivation() -> Seq<u32> {
        seq![(HARDENED_KEY_START + 1852) as u32, (HARDENED_KEY_START + 1815) as u32, HARDENED_KEY_START, 0u32, 0u32]
    }

    fn default_derivation_indices() -> (res: Vec<u32>)
        ensures
            res@ == Self::default_derivation(),
    {
        vec![HARDENED_KEY_START + 1852, HARDENED_KEY_START + 1815, HARDENED_KEY_START, 0, 0]
    }

    /// A mnemonic wallet on the default derivation path.
    pub fn mnemonic(phrase: String) -> (res: Self)
        ensures
            res matches MasterKey::Mnemonic { phrase: p, derivation_indices: d }
                && p == phrase && d@ == Self::default_derivation(),
            res.well_formed(),
    {
        MasterKey::Mnemonic { phrase, derivation_indices: Self::default_derivation_indices() }
    }

    /// A root-key wallet on the default derivation path.
    pub fn root_key(root_key: String) -> (res: Self)
        ensures
            res matches MasterKey::RootKey { root_key: k, derivation_indices: d }
                && k == root_key && d@ == Self::default_derivation(),
            res.well_formed(),
    {
        MasterKey::RootKey { root_key, derivation_indices: Self::default_derivation_indices() }
    }
}

/// Errors of the client that do not come from the network.
#[derive(Debug)]
pub enum ClientError {
    /// An error reported by the wallet toolkit while creating a wallet or signing.
    Wallet(whisky::WError),
    /// No wallet of the required kind is loaded.
    NoWallet,
}

/// The main DeltaDeFi client: the account, market and order clients and the wallets
/// that sign transactions.
pub struct DeltaDeFi {
    /// Account management operations.
    pub accounts: Accounts,
    /// Market data operations.
    pub market: Market,
    /// Order management operations.
    pub order: Order,
    /// Optional master wallet for transaction signing.
    pub master_wallet: Option<SigningWallet>,
    /// Optional operation wallet for transaction signing.
    pub operation_wallet: Option<SigningWallet>,
}

impl DeltaDeFi {
    /// The three API clients of this client are configured for `api_key` and `network`.
    pub open spec fn configured_for(self, api_key: Seq<char>, network: Stage) -> bool {
        &&& self.accounts.api.configured_for(api_key, network)
        &&& self.market.api.configured_for(api_key, network)
        &&& self.order.api.configured_for(api_key, network)
        &&& self.accounts.path_url@ == "/accounts"@
        &&& self.market.path_url@ == "/market"@
        &&& self.order.path_url@ == "/order"@
    }

    /// Creates a client for `network` authenticating with `api_key`, with a master
    /// wallet when `master_key` is given. It fails exactly when the wallet toolkit
    /// rejects the master key.
    pub fn new(api_key: String, network: Stage, master_key: Option<MasterKey>) -> (res: Result<Self, ClientError>)
        requires
            master_key matches Some(key) ==> key.well_formed(),
        ensures
            match res {
                Ok(client) => {
                    &&& client.configured_for(api_key@, network)
                    &&& client.master_wallet is Some <==> master_key is Some
                    &&& master_key matches Some(key) ==> client.master_wallet->0.key() == key@
                    &&& client.operation_wallet is None
                },
                Err(err) => master_key is Some && err is Wallet,
            },
            res is Ok <==> (master_key matches Some(key) ==> wallet_new_accepts(key@)),
    {
        let master_wallet = match master_key {
            Some(key) => match wallet_from_master_key(key) {
                Ok(wallet) => Some(wallet),
                Err(err) => return Err(ClientError::Wallet(err)),
            },
            None => None,
        };
        let api = Api::new(api_key, network);
        let accounts = Accounts::new(api.clone());
        let market = Market::new(api.clone());
        let order = Order::new(api);
        Ok(DeltaDeFi { accounts, market, order, master_wallet, operation_wallet: None })
    }

    /// Installs the operation wallet built from a decrypted bech32 root key, as loading
    /// the operation key does once the key has been fetched and decrypted. It fails
    /// exactly when the wallet toolkit rejects the key, and then leaves the client
    /// unchanged.
    pub fn install_operation_key(&mut self, operation_key: &str) -> (res: Result<(), ClientError>)
        ensures
            final(self).accounts == old(self).accounts,
            final(self).market == old(self).market,
            final(self).order == old(self).order,
            final(self).master_wallet == old(self).master_wallet,
            res is Ok <==> root_key_wallet_accepts(operation_key@),
            res is Ok ==> (final(self).operation_wallet matches Some(wallet)
                && wallet.key() == MasterKeyView::RootKey(operation_key@, MasterKey::default_derivation())),
            res is Err ==> res->Err_0 is Wallet && final(self).operation_wallet == old(self).operation_wallet,
    {
        match wallet_from_root_key(operation_key) {
            Ok(wallet) => {
                self.operation_wallet = Some(wallet);
                Ok(())
            },
            Err(err) => Err(ClientError::Wallet(err)),
        }
    }

    /// Signs a transaction, given in hex, with the master wallet.
    pub fn sign_tx_by_master_key(&self, tx: &str) -> (res: Result<String, ClientError>)
        requires
            self.master_wallet is Some ==> is_hex(tx@),
        ensures
            self.master_wallet is None <==> res == Err::<String, ClientError>(ClientError::NoWallet),
            self.master_wallet matches Some(wallet) ==> match res {
                Ok(signed) => signed_tx(wallet.key(), tx@) == Some(signed@),
                Err(err) => err is Wallet && signed_tx(wallet.key(), tx@) is None,
            },
    {
        match &self.master_wallet {
            Some(wallet) => match wallet_sign_tx(wallet, tx) {
                Ok(signed) => Ok(signed),
                Err(err) => Err(ClientError::Wallet(err)),
            },
            None => Err(ClientError::NoWallet),
        }
    }

    /// Signs a transaction, given in hex, with the operation wallet.
    pub fn sign_tx_by_operation_key(&self, tx: &str) -> (res: Result<String, ClientError>)
        requires
            self.operation_wallet is Some ==> is_hex(tx@),
        ensures
            self.operation_wallet is None <==> res == Err::<String, ClientError>(ClientError::NoWallet),
            self.operation_wallet matches Some(wallet) ==> match res {
                Ok(signed) => signed_tx(wallet.key(), tx@) == Some(signed@),
                Err(err) => err is Wallet && signed_tx(wallet.key(), tx@) is None,
            },
    {
        match &self.operation_wallet {
            Some(wallet) => match wallet_sign_tx(wallet, tx) {
                Ok(signed) => Ok(signed),
                Err(err) => Err(ClientError::Wallet(err)),
            },
            None => Err(ClientError::NoWallet),
        }
    }

    /// Signs each transaction of `txs`, given in hex, with the operation wallet, in
    /// order, stopping at the first that cannot be signed: the batch of signatures that
    /// cancelling several orders submits. Without an operation wallet it fails, whatever
    /// the batch.
    pub fn sign_txs_by_operation_key(&self, txs: &Vec<String>) -> (res: Result<Vec<String>, ClientError>)
        requires
            self.operation_wallet is Some ==> forall|i: int| 0 <= i < txs.len() ==> is_hex(#[trigger] txs[i]@),
        ensures
            self.operation_wallet is None <==> res == Err::<Vec<String>, ClientError>(ClientError::NoWallet),
            self.operation_wallet matches Some(wallet) ==> match res {
                Ok(signed) => signed.len() == txs.len() && forall|i: int| 0 <= i < txs.len()
                    ==> signed_tx(wallet.key(), #[trigger] txs[i]@) == Some(signed[i]@),
                Err(err) => err is Wallet && exists|i: int| 0 <= i < txs.len()
                    && signed_tx(wallet.key(), #[trigger] txs[i]@) is None,
            },
    {
        if self.operation_wallet.is_none() {
            return Err(ClientError::NoWallet);
        }
        let mut signed: Vec<String> = Vec::new();
        let mut i: usize = 0;
        while i < txs.len()
            invariant
                i <= txs.len(),
                signed.len() == i,
                self.operation_wallet is Some,
                self.operation_wallet is Some ==> forall|j: int| 0 <= j < txs.len() ==> is_hex(#[trigger] txs[j]@),
                self.operation_wallet matches Some(wallet) ==> forall|j: int| 0 <= j < i
                    ==> signed_tx(wallet.key(), #[trigger] txs[j]@) == Some(signed[j]@),
            decreases txs.len() - i,
        {
            let tx = &txs[i];
            match self.sign_tx_by_operation_key(tx.as_str()) {
                Ok(one) => signed.push(one),
                Err(err) => return Err(err),
            }
            i = i + 1;
        }
        Ok(signed)
    }
}

} // verus!
