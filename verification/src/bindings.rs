//! Declarations of the types of `whisky` and `reqwest` that the library carries,
//! and the calls it makes into those crates.
//!
//! Nothing here is proved: each contract below is believed as written.
use vstd::prelude::*;

use crate::client::{MasterKey, MasterKeyView};
use crate::text::is_hex;
use whisky::derivation_indices::DerivationIndices;
use whisky::Asset as WhiskyAsset;
use whisky::{MnemonicWallet, RootKeyWallet, WalletType};

verus! {

/// `whisky::WError`, the error type of the Cardano toolkit. Carried opaquely.
#[verifier::external_type_specification]
#[verifier::external_body]
pub struct ExWError(whisky::WError);

/// `whisky::Wallet`, a Cardano wallet able to sign transactions. Carried opaquely.
#[verifier::external_type_specification]
#[verifier::external_body]
pub struct ExWallet(whisky::Wallet);

/// `whisky::Asset`, a Cardano asset unit with its quantity. Carried opaquely.
#[verifier::external_type_specification]
#[verifier::external_body]
pub struct ExAsset(WhiskyAsset);

/// `whisky::UTxO`, an unspent transaction output. Carried opaquely.
#[verifier::external_type_specification]
#[verifier::external_body]
pub struct ExUTxO(whisky::UTxO);

/// `reqwest::Client`, the HTTP client. Carried opaquely.
#[verifier::external_type_specification]
#[verifier::external_body]
pub struct ExHttpClient(reqwest::Client);

/// Calls `reqwest::ClientBuilder::build` on a builder whose only setting is a request
/// timeout of `timeout_secs` seconds (`ClientBuilder::timeout`). Nothing is claimed of
/// the client: reqwest keeps the timeout inside it, out of sight.
///
/// `build` fails only when a TLS backend or the system resolver configuration cannot
/// be loaded; this crate enables no TLS backend of `reqwest`, and like the rest of the
/// SDK the call stops the program in that case, which no argument of this function
/// can rule out.
#[verifier::external_body]
pub(crate) fn new_http_client(timeout_secs: u64) -> reqwest::Client {
    reqwest::Client::builder()
        .timeout(std::time::Duration::from_secs(timeout_secs))
        .build()
        .expect("Failed to create HTTP client")
}

/// Whether `whisky::Wallet::new` builds a wallet from the key that `key` describes:
/// its mnemonic phrase, bech32 root key or CLI signing key is accepted and the account
/// derives along its derivation path.
pub uninterp spec fn wallet_new_accepts(key: MasterKeyView) -> bool;

/// Whether `whisky::Wallet::new_root_key` builds a wallet from the bech32 root key
/// `root_key` on the default derivation path.
pub uninterp spec fn root_key_wallet_accepts(root_key: Seq<char>) -> bool;

/// What `whisky::Wallet::sign_tx` gives back for the transaction `tx_hex` on the
/// wallet that `whisky::Wallet::new` builds from `key`: the signed transaction in hex,
/// or `None` where signing fails. Wallets are built deterministically from their key
/// and Ed25519 signatures are deterministic, so this depends on the two alone.
pub uninterp spec fn signed_tx(key: MasterKeyView, tx_hex: Seq<char>) -> Option<Seq<char>>;

/// A wallet that the wallet toolkit built from a key it accepted, together with that
/// key. Its fields are private: only the functions of this module build one, each from
/// a successful `whisky::Wallet::new` or `whisky::Wallet::new_root_key`.
pub struct SigningWallet {
    wallet: whisky::Wallet,
    key: Ghost<MasterKeyView>,
}

impl SigningWallet {
    /// The key the wallet was built from.
    pub closed spec fn key(self) -> MasterKeyView {
        self.key@
    }
}

/// Calls `whisky::Wallet::new` on the `whisky::WalletType` that `key` describes
/// (mnemonic phrase, bech32 root key or CLI signing key, with its derivation indices),
/// and keeps the wallet with its key. The call succeeds exactly when
/// `wallet_new_accepts` holds of the key: whether it does depends on the key alone.
/// Nothing is claimed of the error.
///
/// `Wallet::new` indexes the derivation indices at positions 3 and 4 after the key has
/// been accepted, so `requires` asks for at least five of them.
#[verifier::external_body]
pub(crate) fn wallet_from_master_key(key: MasterKey) -> (res: Result<SigningWallet, whisky::WError>)
    requires
        key.well_formed(),
    ensures
        res is Ok <==> wallet_new_accepts(key@),
        res matches Ok(wallet) ==> wallet.key() == key@,
{
    let view = Ghost(key@);
    let wallet_type = match key {
        MasterKey::Mnemonic { phrase, derivation_indices: path } => WalletType::MnemonicWallet(
            MnemonicWallet { mnemonic_phrase: phrase, derivation_indices: DerivationIndices(path) }),
        MasterKey::RootKey { root_key, derivation_indices: path } => WalletType::RootKeyWallet(
            RootKeyWallet { root_key, derivation_indices: DerivationIndices(path) }),
        MasterKey::Cli(signing_key) => WalletType::Cli(signing_key),
    };
    match whisky::Wallet::new(wallet_type) {
        Ok(wallet) => Ok(SigningWallet { wallet, key: view }),
        Err(err) => Err(err),
    }
}

/// Calls `whisky::Wallet::new_root_key`, which builds a wallet from a bech32 root key
/// with the default derivation path, and keeps the wallet with its key. The call
/// succeeds exactly when `root_key_wallet_accepts` holds of the key. `new_root_key`
/// sets up the wallet as `Wallet::new` does on that root key and path, so the wallet
/// is the one built from `MasterKeyView::RootKey` of them. Nothing is claimed of the
/// error.
#[verifier::external_body]
pub(crate) fn wallet_from_root_key(root_key: &str) -> (res: Result<SigningWallet, whisky::WError>)
    ensures
        res is Ok <==> root_key_wallet_accepts(root_key@),
        res matches Ok(wallet) ==> wallet.key() == MasterKeyView::RootKey(root_key@, MasterKey::default_derivation()),
{
    let view = Ghost(MasterKeyView::RootKey(root_key@, MasterKey::default_derivation()));
    match whisky::Wallet::new_root_key(root_key) {
        Ok(wallet) => Ok(SigningWallet { wallet, key: view }),
        Err(err) => Err(err),
    }
}

/// Calls `whisky::Wallet::sign_tx`, which adds the wallet's witness to a transaction
/// given in hex; the result is the one `signed_tx` names for the wallet's key.
///
/// The transaction is decoded by `FixedTransaction::from_hex`, which unwraps the hex
/// decoding: a text that is not hexadecimal byte pairs stops the program, so
/// `requires` leaves it out. A wallet of CLI type also slices the first four bytes of
/// its signing key; every signing key that `Wallet::new` accepts is the hex of at least
/// 32 bytes, and only this module builds a `SigningWallet`, so no wallet here has a
/// shorter key.
#[verifier::external_body]
pub(crate) fn wallet_sign_tx(wallet: &SigningWallet, tx_hex: &str) -> (res: Result<String, whisky::WError>)
    requires
        is_hex(tx_hex@),
    ensures
        match res {
            Ok(signed) => signed_tx(wallet.key(), tx_hex@) == Some(signed@),
            Err(_) => signed_tx(wallet.key(), tx_hex@) is None,
        },
{
    wallet.wallet.sign_tx(tx_hex)
}

} // verus!
