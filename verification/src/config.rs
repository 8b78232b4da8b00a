//! Wallet and node configuration: the rules that turn the raw settings of the
//! environment into a [`Config`].
use vstd::prelude::*;

use crate::error::AppError;
use crate::commands::opt_text;
use crate::text::{
    ascii_lower, ascii_lower_of_any_case, concat3, same_word_any_case, str_eq, to_ascii_lowercase,
};

verus! {

/// The Bitcoin network a wallet operates on.
#[derive(Debug, Clone, Copy, PartialEq, Eq, Structural)]
pub enum Network {
    /// Mainnet Bitcoin.
    Bitcoin,
    /// The testnet network (version 3).
    Testnet,
    /// The testnet4 network.
    Testnet4,
    /// The signet network.
    Signet,
    /// A local regression-test network.
    Regtest,
}

/// Which kind of keychain descriptors the wallet derives.
#[derive(Debug, Clone, Copy, PartialEq, Eq, Structural)]
pub enum DescriptorKind {
    /// BIP84-style native segwit v0 (wpkh) keychain.
    Wpkh,
    /// BIP86-style taproot (tr) keychain.
    Taproot,
}

/// The descriptor kind that a (lower-case) name selects, if any.
pub open spec fn descriptor_kind_named(name: Seq<char>) -> Option<DescriptorKind> {
    if name == "wpkh"@ || name == "segwit"@ || name == "bip84"@ {
        Some(DescriptorKind::Wpkh)
    } else if name == "tr"@ || name == "taproot"@ || name == "bip86"@ {
        Some(DescriptorKind::Taproot)
    } else {
        None
    }
}

/// The message for a descriptor kind name that selects nothing.
pub open spec fn unknown_kind_message(name: Seq<char>) -> Seq<char> {
    "unknown DESCRIPTOR_KIND '"@ + name + "', expected 'wpkh' or 'taproot'"@
}

/// The network that a `BITCOIN_NETWORK` value selects, if any: the wallet only
/// runs on regtest, testnet and signet.
pub open spec fn network_named(name: Seq<char>) -> Option<Network> {
    if name == "regtest"@ {
        Some(Network::Regtest)
    } else if name == "testnet"@ {
        Some(Network::Testnet)
    } else if name == "signet"@ {
        Some(Network::Signet)
    } else {
        None
    }
}

/// The message for a `BITCOIN_NETWORK` value that selects no supported network.
pub open spec fn unsupported_network_message(name: Seq<char>) -> Seq<char> {
    "unsupported BITCOIN_NETWORK '"@ + name + "'; this wallet only supports regtest/testnet/signet"@
}

impl DescriptorKind {
    /// Reads a `DESCRIPTOR_KIND` setting. The value is compared in ASCII lower
    /// case with the names of each kind.
    pub fn from_env(value: &str) -> (r: Result<DescriptorKind, AppError>)
        ensures
            match descriptor_kind_named(ascii_lower(value@)) {
                Some(k) => r == Ok::<DescriptorKind, AppError>(k),
                None => r matches Err(AppError::Config(m))
                    && m@ == unknown_kind_message(ascii_lower(value@)),
            },
    {
        let lower = to_ascii_lowercase(value);
        let name = lower.as_str();
        if str_eq(name, "wpkh") || str_eq(name, "segwit") || str_eq(name, "bip84") {
            Ok(DescriptorKind::Wpkh)
        } else if str_eq(name, "tr") || str_eq(name, "taproot") || str_eq(name, "bip86") {
            Ok(DescriptorKind::Taproot)
        } else {
            Err(AppError::Config(
                concat3("unknown DESCRIPTOR_KIND '", name, "', expected 'wpkh' or 'taproot'"),
            ))
        }
    }
}

} // verus!

verus! {

/// The raw settings that configure the wallet, as read from the environment
/// (and `.env`): one optional value per variable.
pub struct EnvVars {
    /// `BITCOIN_NETWORK`
    pub bitcoin_network: Option<String>,
    /// `WALLET_DB_PATH`
    pub wallet_db_path: Option<String>,
    /// `DESCRIPTOR_KIND`
    pub descriptor_kind: Option<String>,
    /// `RPC_URL`
    pub rpc_url: Option<String>,
    /// `RPC_USER`
    pub rpc_user: Option<String>,
    /// `RPC_PASS`
    pub rpc_pass: Option<String>,
    /// `RPC_COOKIE`
    pub rpc_cookie: Option<String>,
    /// `MNEMONIC`
    pub mnemonic: Option<String>,
    /// `MNEMONIC_PASSPHRASE`
    pub mnemonic_passphrase: Option<String>,
    /// `DESCRIPTOR`
    pub descriptor: Option<String>,
    /// `CHANGE_DESCRIPTOR`
    pub change_descriptor: Option<String>,
}

/// Wallet and node configuration.
///
/// Nothing here is hardcoded: secrets such as the seed phrase and RPC
/// credentials only ever come from the environment.
pub struct Config {
    pub network: Network,
    /// Path of the wallet database file.
    pub db_path: String,
    pub descriptor_kind: DescriptorKind,
    pub rpc_url: String,
    pub rpc_user: Option<String>,
    pub rpc_pass: Option<String>,
    /// Path of the node's RPC cookie file.
    pub rpc_cookie: Option<String>,
    /// BIP-39 mnemonic. If absent, `init` generates a fresh one.
    pub mnemonic: Option<String>,
    pub mnemonic_passphrase: Option<String>,
    /// Optional explicit descriptor override, bypassing mnemonic derivation entirely.
    pub external_descriptor: Option<String>,
    pub internal_descriptor: Option<String>,
}

/// The network name in effect: the given one, else `regtest`.
pub open spec fn network_setting(v: Option<String>) -> Seq<char> {
    match v {
        Some(s) => s@,
        None => "regtest"@,
    }
}

/// The text of an optional setting, or the default where it is unset.
pub open spec fn setting_or(v: Option<String>, default: Seq<char>) -> Seq<char> {
    match v {
        Some(s) => s@,
        None => default,
    }
}

/// The text of a setting, or a default text.
fn string_or(v: Option<String>, default: &str) -> (r: String)
    ensures
        r@ == setting_or(v, default@),
{
    match v {
        Some(s) => s,
        None => String::from_str(default),
    }
}

/// What loading the configuration from the raw settings yields: an
/// unsupported network is refused first, then an unknown descriptor kind;
/// otherwise every setting is taken as given, with its default where unset.
pub open spec fn loads_to(vars: EnvVars, r: Result<Config, AppError>) -> bool {
    let network_name = network_setting(vars.bitcoin_network);
    match network_named(network_name) {
        None => r matches Err(AppError::Config(m)) && m@ == unsupported_network_message(network_name),
        Some(network) => match vars.descriptor_kind {
            Some(v) if descriptor_kind_named(ascii_lower(v@)) is None => r matches Err(
                AppError::Config(m),
            ) && m@ == unknown_kind_message(ascii_lower(v@)),
            _ => r matches Ok(c) && {
                &&& c.network == network
                &&& c.db_path@ == setting_or(vars.wallet_db_path, "wallet_data/wallet.sqlite"@)
                &&& c.descriptor_kind == match vars.descriptor_kind {
                    Some(v) => descriptor_kind_named(ascii_lower(v@))->0,
                    None => DescriptorKind::Wpkh,
                }
                &&& c.rpc_url@ == setting_or(vars.rpc_url, "127.0.0.1:18443"@)
                &&& c.rpc_user == vars.rpc_user
                &&& c.rpc_pass == vars.rpc_pass
                &&& c.rpc_cookie == vars.rpc_cookie
                &&& c.mnemonic == vars.mnemonic
                &&& c.mnemonic_passphrase == vars.mnemonic_passphrase
                &&& c.external_descriptor == vars.descriptor
                &&& c.internal_descriptor == vars.change_descriptor
            },
        },
    }
}

impl Config {
    /// Builds the configuration from the raw settings. The network defaults
    /// to regtest, the database to `wallet_data/wallet.sqlite`, the descriptor
    /// kind to wpkh and the RPC URL to `127.0.0.1:18443`; an unsupported
    /// network is refused first, then an unknown descriptor kind.
    pub fn load(vars: EnvVars) -> (r: Result<Config, AppError>)
        ensures
            loads_to(vars, r),
            r matches Ok(c) ==> opt_text(c.external_descriptor) == opt_text(vars.descriptor)
                && opt_text(c.internal_descriptor) == opt_text(vars.change_descriptor) && opt_text(
                c.mnemonic,
            ) == opt_text(vars.mnemonic) && opt_text(c.mnemonic_passphrase) == opt_text(
                vars.mnemonic_passphrase,
            ),
    {
        let name = string_or(vars.bitcoin_network, "regtest");
        let n = name.as_str();
        let network = if str_eq(n, "regtest") {
            Network::Regtest
        } else if str_eq(n, "testnet") {
            Network::Testnet
        } else if str_eq(n, "signet") {
            Network::Signet
        } else {
            return Err(
                AppError::Config(
                    concat3(
                        "unsupported BITCOIN_NETWORK '",
                        n,
                        "'; this wallet only supports regtest/testnet/signet",
                    ),
                ),
            );
        };
        let db_path = string_or(vars.wallet_db_path, "wallet_data/wallet.sqlite");
        let descriptor_kind = match &vars.descriptor_kind {
            Some(v) => DescriptorKind::from_env(v.as_str())?,
            None => DescriptorKind::Wpkh,
        };
        let rpc_url = string_or(vars.rpc_url, "127.0.0.1:18443");
        Ok(Config {
            network,
            db_path,
            descriptor_kind,
            rpc_url,
            rpc_user: vars.rpc_user,
            rpc_pass: vars.rpc_pass,
            rpc_cookie: vars.rpc_cookie,
            mnemonic: vars.mnemonic,
            mnemonic_passphrase: vars.mnemonic_passphrase,
            external_descriptor: vars.descriptor,
            internal_descriptor: vars.change_descriptor,
        })
    }
}

} // verus!

verus! {

/// Lower-casing a text twice changes nothing more than lower-casing it once.
pub proof fn ascii_lower_is_idempotent(s: Seq<char>)
    ensures
        ascii_lower(ascii_lower(s)) == ascii_lower(s),
{
    assert(ascii_lower(ascii_lower(s)) =~= ascii_lower(s));
}

/// A `DESCRIPTOR_KIND` value selects the same kind in any ASCII case: the
/// value and its lower-case form read alike.
pub proof fn kind_names_ignore_ascii_case(value: Seq<char>)
    ensures
        descriptor_kind_named(ascii_lower(ascii_lower(value))) == descriptor_kind_named(
            ascii_lower(value),
        ),
        unknown_kind_message(ascii_lower(ascii_lower(value))) == unknown_kind_message(
            ascii_lower(value),
        ),
{
    ascii_lower_is_idempotent(value);
}

} // verus!

verus! {

/// A `DESCRIPTOR_KIND` value written in any mix of ASCII cases selects the same
/// kind as the word in small letters: `TAPROOT` and `TapRoot` select taproot,
/// `SEGWIT` selects wpkh.
pub proof fn kind_names_read_in_any_case(value: Seq<char>, word: Seq<char>)
    requires
        same_word_any_case(value, word),
    ensures
        descriptor_kind_named(ascii_lower(value)) == descriptor_kind_named(word),
{
    ascii_lower_of_any_case(value, word);
}

/// Every loaded setting comes from its own variable only: the descriptors,
/// seed phrase, passphrase and credentials are exactly the values set (unset
/// where their variable is unset), a set database path or RPC URL is taken
/// as given, and the network is the one its name selects.
pub proof fn loaded_settings_come_from_their_own_variables(vars: EnvVars, c: Config)
    requires
        loads_to(vars, Ok(c)),
    ensures
        opt_text(c.external_descriptor) == opt_text(vars.descriptor),
        opt_text(c.internal_descriptor) == opt_text(vars.change_descriptor),
        opt_text(c.mnemonic) == opt_text(vars.mnemonic),
        opt_text(c.mnemonic_passphrase) == opt_text(vars.mnemonic_passphrase),
        opt_text(c.rpc_user) == opt_text(vars.rpc_user),
        opt_text(c.rpc_pass) == opt_text(vars.rpc_pass),
        opt_text(c.rpc_cookie) == opt_text(vars.rpc_cookie),
        vars.wallet_db_path matches Some(p) ==> c.db_path@ == p@,
        vars.rpc_url matches Some(u) ==> c.rpc_url@ == u@,
        vars.bitcoin_network is None ==> c.network == Network::Regtest,
        vars.bitcoin_network matches Some(name) ==> (name@ == "regtest"@ && c.network
            == Network::Regtest) || (name@ == "testnet"@ && c.network == Network::Testnet) || (
        name@ == "signet"@ && c.network == Network::Signet),
        vars.descriptor_kind is None ==> c.descriptor_kind == DescriptorKind::Wpkh,
{
}

} // verus!
