//! Seed phrases and the planning of the wallet's keychain descriptors.
use vstd::prelude::*;

use crate::config::{loads_to, Config, DescriptorKind, EnvVars, Network};
use crate::error::AppError;
use crate::text::{concat3, concat4};

use bdk_wallet::keys::bip39::{Language, WordCount};
use bdk_wallet::keys::GeneratableKey;

verus! {

/// What BIP-39 parsing of a phrase in the English word list yields: the
/// mnemonic's words joined by single spaces, or the message of the parse error.
pub uninterp spec fn bip39_english(phrase: Seq<char>) -> Result<Seq<char>, Seq<char>>;

/// The number of space-separated words in a text.
pub open spec fn word_count(s: Seq<char>) -> nat
    decreases s.len(),
{
    if s.len() == 0 {
        0
    } else {
        word_count(s.drop_last()) + if s.last() != ' ' && (s.len() == 1 || s[s.len() - 2] == ' ') {
            1nat
        } else {
            0nat
        }
    }
}

/// Calls `bip39::Mnemonic::parse_in(Language::English, phrase)` and hands back
/// the parsed mnemonic as it displays itself (its words joined by single
/// spaces), or the parse error's message. The contract claims that the
/// outcome depends on the phrase alone and that a displayed mnemonic parses
/// back to the same words.
#[verifier::external_body]
fn bip39_parse_english(phrase: &str) -> (r: Result<String, String>)
    ensures
        match r {
            Ok(p) => bip39_english(phrase@) == Ok::<Seq<char>, Seq<char>>(p@)
                && bip39_english(p@) == Ok::<Seq<char>, Seq<char>>(p@),
            Err(e) => bip39_english(phrase@) == Err::<Seq<char>, Seq<char>>(e@),
        },
{
    match bdk_wallet::keys::bip39::Mnemonic::parse_in(Language::English, phrase) {
        Ok(m) => Ok(m.to_string()),
        Err(e) => Err(e.to_string()),
    }
}

/// Calls `GeneratableKey::generate((WordCount::Words12, Language::English))` on
/// `bip39::Mnemonic` (taproot context, fresh entropy from the thread's random
/// generator) and hands back the mnemonic as it displays itself, or the Debug
/// text of the error. The contract claims what the sources show: bdk_wallet
/// hands bip39 16 bytes of entropy, which `Mnemonic::from_entropy_in` always
/// accepts, so generation succeeds; the phrase has twelve words and parses back
/// to itself. It says nothing of which words they are.
#[verifier::external_body]
fn bip39_generate_english_12() -> (r: Result<String, String>)
    ensures
        match r {
            Ok(p) => bip39_english(p@) == Ok::<Seq<char>, Seq<char>>(p@) && word_count(p@) == 12,
            Err(_) => false,
        },
{
    match <bdk_wallet::keys::bip39::Mnemonic as GeneratableKey<bdk_wallet::miniscript::Tap>>::generate(
        (WordCount::Words12, Language::English),
    ) {
        Ok(g) => Ok((*g).to_string()),
        Err(e) => Err(format!("{:?}", e)),
    }
}

/// A BIP-39 mnemonic in the English word list, held as its canonical phrase:
/// its words joined by single spaces.
pub struct Mnemonic {
    phrase: String,
}

impl View for Mnemonic {
    type V = Seq<char>;

    closed spec fn view(&self) -> Seq<char> {
        self.phrase@
    }
}

impl Mnemonic {
    #[verifier::type_invariant]
    spec fn canonical(self) -> bool {
        bip39_english(self.phrase@) == Ok::<Seq<char>, Seq<char>>(self.phrase@)
    }

    /// The mnemonic's phrase: its words joined by single spaces. The phrase
    /// parses back to the same mnemonic.
    pub fn to_phrase(&self) -> (r: String)
        ensures
            r@ == self@,
            bip39_english(r@) == Ok::<Seq<char>, Seq<char>>(r@),
    {
        proof {
            use_type_invariant(self);
        }
        self.phrase.clone()
    }
}

/// Generates a fresh 12-word BIP-39 mnemonic; generation always succeeds.
pub fn generate_mnemonic() -> (r: Result<Mnemonic, AppError>)
    ensures
        match r {
            Ok(m) => word_count(m@) == 12 && bip39_english(m@) == Ok::<Seq<char>, Seq<char>>(m@),
            Err(_) => false,
        },
{
    match bip39_generate_english_12() {
        Ok(p) => Ok(Mnemonic { phrase: p }),
        Err(d) => {
            let mut msg = String::from_str("mnemonic generation failed: ");
            msg.append(d.as_str());
            Err(AppError::Wallet(msg))
        },
    }
}

/// Parses an existing mnemonic phrase (e.g. loaded from `.env`) in the
/// English word list.
pub fn parse_mnemonic(phrase: &str) -> (r: Result<Mnemonic, AppError>)
    ensures
        match bip39_english(phrase@) {
            Ok(p) => r matches Ok(m) && m@ == p,
            Err(e) => r matches Err(AppError::Config(msg)) && msg@ == "invalid MNEMONIC: "@ + e,
        },
{
    match bip39_parse_english(phrase) {
        Ok(p) => Ok(Mnemonic { phrase: p }),
        Err(e) => {
            let mut msg = String::from_str("invalid MNEMONIC: ");
            msg.append(e.as_str());
            Err(AppError::Config(msg))
        },
    }
}

} // verus!

verus! {

/// A pair of ready-to-use descriptor strings (with embedded private keys) for
/// the external (receiving) and internal (change) keychains.
pub struct DescriptorPair {
    pub external: String,
    pub internal: String,
}

/// Whether a network is real Bitcoin or some kind of test network.
#[derive(Debug, Clone, Copy, PartialEq, Eq, Structural)]
pub enum NetworkKind {
    /// The Bitcoin mainnet.
    Main,
    /// Some kind of test network.
    Test,
}

/// The kind of a network: mainnet Bitcoin is `Main`, every other network `Test`.
pub open spec fn kind_of_network(n: Network) -> NetworkKind {
    if n == Network::Bitcoin {
        NetworkKind::Main
    } else {
        NetworkKind::Test
    }
}

/// Calls `bitcoin::NetworkKind::from` on the network. The contract claims what
/// its source shows: `Bitcoin` is `Main`, `Testnet`, `Testnet4`, `Signet` and
/// `Regtest` are `Test`.
#[verifier::external_body]
fn network_kind(n: Network) -> (r: NetworkKind)
    ensures
        r == kind_of_network(n),
{
    let net = match n {
        Network::Bitcoin => bdk_wallet::bitcoin::Network::Bitcoin,
        Network::Testnet => bdk_wallet::bitcoin::Network::Testnet,
        Network::Testnet4 => bdk_wallet::bitcoin::Network::Testnet4,
        Network::Signet => bdk_wallet::bitcoin::Network::Signet,
        Network::Regtest => bdk_wallet::bitcoin::Network::Regtest,
    };
    match bdk_wallet::bitcoin::NetworkKind::from(net) {
        bdk_wallet::bitcoin::NetworkKind::Main => NetworkKind::Main,
        bdk_wallet::bitcoin::NetworkKind::Test => NetworkKind::Test,
    }
}

impl NetworkKind {
    /// Whether this is real mainnet Bitcoin.
    pub fn is_mainnet(&self) -> (r: bool)
        ensures
            r == (*self == NetworkKind::Main),
    {
        match self {
            NetworkKind::Main => true,
            NetworkKind::Test => false,
        }
    }
}

/// The BIP44-style coin type of a network: 0 for mainnet, 1 for any test
/// network.
pub open spec fn coin_type_of(n: Network) -> u32 {
    if kind_of_network(n) == NetworkKind::Main {
        0
    } else {
        1
    }
}

/// The BIP44-style coin type of a network: 0 for mainnet, 1 for any test network.
pub fn coin_type(n: Network) -> (r: u32)
    ensures
        r == coin_type_of(n),
{
    if network_kind(n).is_mainnet() {
        0
    } else {
        1
    }
}

/// The BIP purpose of a descriptor kind, as the text of a path step: 84 for
/// wpkh (BIP84), 86 for taproot (BIP86).
pub open spec fn purpose_text(kind: DescriptorKind) -> Seq<char> {
    match kind {
        DescriptorKind::Wpkh => "84"@,
        DescriptorKind::Taproot => "86"@,
    }
}

/// The coin type of a network, as the text of a path step.
pub open spec fn coin_text(n: Network) -> Seq<char> {
    if coin_type_of(n) == 0 {
        "0"@
    } else {
        "1"@
    }
}

/// The derivation path of a keychain: `m/{purpose}h/{coin}h/0h/{chain}`, where
/// chain `0` is the external keychain and `1` the internal one.
pub open spec fn keychain_path(kind: DescriptorKind, n: Network, chain: Seq<char>) -> Seq<char> {
    "m/"@ + purpose_text(kind) + "h/"@ + coin_text(n) + "h/0h/"@ + chain
}

/// The derivation paths of the two keychains of a wallet.
pub struct DerivationPaths {
    /// The external (receiving) keychain's path.
    pub external: String,
    /// The internal (change) keychain's path.
    pub internal: String,
}

/// The derivation paths of a wallet: BIP84 paths (`m/84h/{coin}h/0h/{0,1}`)
/// for wpkh wallets and BIP86 paths (`m/86h/{coin}h/0h/{0,1}`) for taproot
/// wallets, matching the account structure real wallets use so that the
/// external and internal keychains never collide.
pub fn descriptor_paths(network: Network, kind: DescriptorKind) -> (r: DerivationPaths)
    ensures
        r.external@ == keychain_path(kind, network, "0"@),
        r.internal@ == keychain_path(kind, network, "1"@),
        r.external@ == bip44_path(kind == DescriptorKind::Wpkh, network == Network::Bitcoin, "0"@),
        r.internal@ == bip44_path(kind == DescriptorKind::Wpkh, network == Network::Bitcoin, "1"@),
{
    let coin = coin_type(network);
    let purpose = match kind {
        DescriptorKind::Wpkh => "84",
        DescriptorKind::Taproot => "86",
    };
    let coin_str = if coin == 0 {
        "0"
    } else {
        "1"
    };
    let prefix = concat4("m/", purpose, "h/", coin_str);
    let external = concat3(prefix.as_str(), "h/0h/", "0");
    let internal = concat3(prefix.as_str(), "h/0h/", "1");
    DerivationPaths { external, internal }
}

} // verus!

verus! {

/// The BIP44-style account path `m/{84|86}h/{0|1}h/0h/{chain}`: purpose 84 for
/// a wpkh wallet (86 otherwise), coin type 0 on mainnet (1 otherwise).
pub open spec fn bip44_path(wpkh: bool, mainnet: bool, chain: Seq<char>) -> Seq<char> {
    "m/"@ + (if wpkh {
        "84"@
    } else {
        "86"@
    }) + "h/"@ + (if mainnet {
        "0"@
    } else {
        "1"@
    }) + "h/0h/"@ + chain
}

/// Every keychain path is the BIP44-style account path of its purpose and
/// coin type: coin type 0 on mainnet and 1 on every test network, so all test
/// networks share their paths and mainnet's differ from them.
pub proof fn keychain_paths_follow_bip44(kind: DescriptorKind, n: Network, m: Network, chain: Seq<char>)
    ensures
        keychain_path(kind, n, chain) == bip44_path(kind == DescriptorKind::Wpkh, n == Network::Bitcoin, chain),
        n != Network::Bitcoin && m != Network::Bitcoin ==> keychain_path(kind, n, chain)
            == keychain_path(kind, m, chain),
        n == Network::Bitcoin && m != Network::Bitcoin ==> keychain_path(kind, n, chain)
            != keychain_path(kind, m, chain),
{
    reveal_strlit("0");
    reveal_strlit("1");
    reveal_strlit("m/");
    reveal_strlit("h/");
    reveal_strlit("84");
    reveal_strlit("86");
    if n == Network::Bitcoin && m != Network::Bitcoin {
        let a = keychain_path(kind, n, chain);
        let b = keychain_path(kind, m, chain);
        assert(a[6] == '0');
        assert(b[6] == '1');
    }
}

/// The external and internal keychains of a wallet never share a derivation
/// path, and wpkh and taproot wallets never share one either.
pub proof fn keychain_paths_never_collide(kind: DescriptorKind, other: DescriptorKind, n: Network)
    ensures
        keychain_path(kind, n, "0"@) != keychain_path(kind, n, "1"@),
        kind != other ==> keychain_path(kind, n, "0"@) != keychain_path(other, n, "0"@),
        kind != other ==> keychain_path(kind, n, "1"@) != keychain_path(other, n, "1"@),
{
    reveal_strlit("0");
    reveal_strlit("1");
    reveal_strlit("m/");
    reveal_strlit("84");
    reveal_strlit("86");
    reveal_strlit("h/");
    reveal_strlit("h/0h/");
    let a = keychain_path(kind, n, "0"@);
    let b = keychain_path(kind, n, "1"@);
    assert(a[a.len() - 1] == '0');
    assert(b[b.len() - 1] == '1');
    if kind != other {
        let c = keychain_path(other, n, "0"@);
        let d = keychain_path(kind, n, "1"@);
        let e = keychain_path(other, n, "1"@);
        assert(a[3] != c[3]);
        assert(d[3] != e[3]);
    }
}

/// Every configuration the wallet loads is for a test network, so its
/// keychains always use coin type 1.
pub proof fn loaded_configs_use_test_coin_type(vars: EnvVars, c: Config)
    requires
        loads_to(vars, Ok(c)),
    ensures
        c.network != Network::Bitcoin,
        coin_type_of(c.network) == 1,
{
}

} // verus!

verus! {

/// The steps of building a descriptor at which the wallet can fail.
#[derive(Debug, Clone, Copy, PartialEq, Eq, Structural)]
pub enum DescriptorStep {
    /// Building the descriptor from the key and its path.
    Build,
    /// Resolving it into a wallet descriptor for the network.
    Resolve,
}

/// How the wallet error of a descriptor step begins.
pub open spec fn descriptor_message_prefix(step: DescriptorStep) -> Seq<char> {
    match step {
        DescriptorStep::Build => "descriptor build failed: "@,
        DescriptorStep::Resolve => "descriptor resolve failed: "@,
    }
}

/// The wallet error of a failed descriptor step, with the detail of the failure.
pub fn descriptor_step_error(step: DescriptorStep, detail: &str) -> (r: AppError)
    ensures
        r matches AppError::Wallet(m) && m@ == descriptor_message_prefix(step) + detail@,
{
    let prefix = match step {
        DescriptorStep::Build => "descriptor build failed: ",
        DescriptorStep::Resolve => "descriptor resolve failed: ",
    };
    let mut m = String::from_str(prefix);
    m.append(detail);
    AppError::Wallet(m)
}

} // verus!
