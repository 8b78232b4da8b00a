use std::str::FromStr;

use capstone_wallet::bitcoin_text::{fee_rate_sat_per_kwu, parse_outpoints, read_address};
use capstone_wallet::commands::{
    env_has_mnemonic, init_descriptor_source, mine_target, mnemonic_env_line,
    mnemonic_line_to_append, plan_send, require_finalized, resolve_descriptors, send_step_error,
    DescriptorSource, MineTarget, SendStep,
};
use capstone_wallet::config::{Config, DescriptorKind, Network};
use capstone_wallet::error::AppError;
use capstone_wallet::keys::{
    coin_type, descriptor_paths, descriptor_step_error, generate_mnemonic, parse_mnemonic,
    DescriptorStep, NetworkKind,
};
use capstone_wallet::node::{node_unreachable, rpc_auth, RpcAuth};

const PHRASE: &str = "aim bunker wash balance finish force paper analyst cabin spoon stable organ";
const TB_ADDR: &str = "tb1qw508d6qejxtdg4y5r3zarvary0c5xw7kxpjzsx";
const TXID: &str = "e567952fb6cc33857f392efa3a46c995a28f69cca4bb1b37e0204dab1ec7a389";

fn tb_script() -> Vec<u8> {
    let mut s = vec![0x00, 0x14];
    for i in 0..20 {
        s.push(u8::from_str_radix(&"751e76e8199196d454941c45d1b3a323f1433bd6"[2 * i..2 * i + 2], 16).unwrap());
    }
    s
}

fn config() -> Config {
    Config {
        network: Network::Regtest,
        db_path: "w.sqlite".to_string(),
        descriptor_kind: DescriptorKind::Wpkh,
        rpc_url: "127.0.0.1:18443".to_string(),
        rpc_user: None,
        rpc_pass: None,
        rpc_cookie: None,
        mnemonic: None,
        mnemonic_passphrase: None,
        external_descriptor: None,
        internal_descriptor: None,
    }
}

#[test]
fn parses_a_valid_phrase() {
    let m = parse_mnemonic(PHRASE).unwrap();
    assert_eq!(m.to_phrase(), PHRASE);
}

#[test]
fn parsing_normalizes_white_space() {
    let spaced = "  aim bunker  wash balance finish force paper analyst cabin spoon stable organ\n";
    assert_eq!(parse_mnemonic(spaced).unwrap().to_phrase(), PHRASE);
}

#[test]
fn refuses_a_bad_word_count() {
    assert_eq!(
        parse_mnemonic("aim bunker wash").err(),
        Some(AppError::Config(
            "invalid MNEMONIC: mnemonic has an invalid word count: 3. Word count must be 12, 15, 18, 21, or 24"
                .to_string()
        ))
    );
}

#[test]
fn refuses_a_bad_checksum() {
    let bad = "aim bunker wash balance finish force paper analyst cabin spoon stable stable";
    assert_eq!(
        parse_mnemonic(bad).err(),
        Some(AppError::Config(
            "invalid MNEMONIC: the mnemonic has an invalid checksum".to_string()
        ))
    );
}

#[test]
fn generated_phrases_have_twelve_words_and_parse_back() {
    let m = generate_mnemonic().unwrap();
    let phrase = m.to_phrase();
    assert_eq!(phrase.split(' ').count(), 12);
    assert_eq!(parse_mnemonic(&phrase).unwrap().to_phrase(), phrase);
}

#[test]
fn two_generated_phrases_differ() {
    let a = generate_mnemonic().unwrap().to_phrase();
    let b = generate_mnemonic().unwrap().to_phrase();
    assert_ne!(a, b);
}

#[test]
fn coin_types() {
    assert_eq!(coin_type(Network::Bitcoin), 0);
    assert_eq!(coin_type(Network::Testnet), 1);
    assert_eq!(coin_type(Network::Testnet4), 1);
    assert_eq!(coin_type(Network::Signet), 1);
    assert_eq!(coin_type(Network::Regtest), 1);
    assert!(NetworkKind::Main.is_mainnet());
    assert!(!NetworkKind::Test.is_mainnet());
}

#[test]
fn bip84_and_bip86_paths() {
    let p = descriptor_paths(Network::Regtest, DescriptorKind::Wpkh);
    assert_eq!(p.external, "m/84h/1h/0h/0");
    assert_eq!(p.internal, "m/84h/1h/0h/1");
    let p = descriptor_paths(Network::Bitcoin, DescriptorKind::Taproot);
    assert_eq!(p.external, "m/86h/0h/0h/0");
    assert_eq!(p.internal, "m/86h/0h/0h/1");
    let p = descriptor_paths(Network::Signet, DescriptorKind::Taproot);
    assert_eq!(p.external, "m/86h/1h/0h/0");
    assert_ne!(p.external, p.internal);
}

#[test]
fn env_mnemonic_detection() {
    assert!(!env_has_mnemonic(""));
    assert!(!env_has_mnemonic("FOO=1\n"));
    assert!(env_has_mnemonic("MNEMONIC=\"a b\"\n"));
    assert!(env_has_mnemonic("FOO=1\n  \tMNEMONIC=x"));
    assert!(env_has_mnemonic("FOO=1\r\nMNEMONIC=x\r\n"));
    assert!(env_has_mnemonic("A=1\n\u{3000}MNEMONIC="));
    assert!(!env_has_mnemonic("XMNEMONIC=1"));
    assert!(!env_has_mnemonic("# MNEMONIC=1"));
    assert!(!env_has_mnemonic("MNEMONIC"));
    assert!(!env_has_mnemonic("mnemonic=1"));
    assert!(!env_has_mnemonic("FOO=MNEMONIC=1"));
}

#[test]
fn env_line() {
    assert_eq!(mnemonic_env_line("a b c"), "MNEMONIC=\"a b c\"\n");
}

#[test]
fn existing_entries_are_never_overwritten() {
    assert_eq!(mnemonic_line_to_append("X=1\n MNEMONIC=old\n", "new"), None);
    assert_eq!(
        mnemonic_line_to_append("X=1\n", "a b").as_deref(),
        Some("MNEMONIC=\"a b\"\n")
    );
}

#[test]
fn an_appended_line_is_found_by_the_next_init() {
    let existing = "RPC_USER=u\n".to_string();
    let line = mnemonic_line_to_append(&existing, PHRASE).unwrap();
    let updated = existing + &line;
    assert!(env_has_mnemonic(&updated));
    assert_eq!(mnemonic_line_to_append(&updated, "other"), None);
    assert_eq!(updated.lines().filter(|l| l.trim_start().starts_with("MNEMONIC=")).count(), 1);
}

#[test]
fn an_unterminated_last_line_is_ended_first() {
    let existing = "RPC_USER=alice".to_string();
    let line = mnemonic_line_to_append(&existing, "p").unwrap();
    assert_eq!(line, "\nMNEMONIC=\"p\"\n");
    let updated = existing + &line;
    assert_eq!(updated.lines().collect::<Vec<_>>(), vec!["RPC_USER=alice", "MNEMONIC=\"p\""]);
    assert!(env_has_mnemonic(&updated));
}

#[test]
fn an_empty_env_gets_just_the_line() {
    assert_eq!(mnemonic_line_to_append("", "p").as_deref(), Some("MNEMONIC=\"p\"\n"));
}

#[test]
fn explicit_descriptors_win() {
    let mut c = config();
    c.external_descriptor = Some("ext".to_string());
    c.internal_descriptor = Some("int".to_string());
    c.mnemonic = Some("not even a phrase".to_string());
    match resolve_descriptors(&c).unwrap() {
        DescriptorSource::Explicit(p) => {
            assert_eq!(p.external, "ext");
            assert_eq!(p.internal, "int");
        }
        DescriptorSource::Derive(_) => panic!("expected explicit descriptors"),
    }
}

#[test]
fn one_descriptor_falls_back_to_the_phrase() {
    let mut c = config();
    c.external_descriptor = Some("ext".to_string());
    c.mnemonic = Some(PHRASE.to_string());
    c.mnemonic_passphrase = Some("secret".to_string());
    c.network = Network::Testnet;
    c.descriptor_kind = DescriptorKind::Taproot;
    match resolve_descriptors(&c).unwrap() {
        DescriptorSource::Derive(req) => {
            assert_eq!(req.mnemonic.to_phrase(), PHRASE);
            assert_eq!(req.passphrase.as_deref(), Some("secret"));
            assert_eq!(req.network, Network::Testnet);
            assert_eq!(req.kind, DescriptorKind::Taproot);
        }
        DescriptorSource::Explicit(_) => panic!("expected a derivation"),
    }
}

#[test]
fn no_wallet_without_phrase_or_descriptors() {
    let mut c = config();
    c.internal_descriptor = Some("int".to_string());
    assert_eq!(
        resolve_descriptors(&c).err(),
        Some(AppError::Config(
            "no wallet found: run `capstone_wallet init` first, or set DESCRIPTOR / CHANGE_DESCRIPTOR in .env to import an existing wallet"
                .to_string()
        ))
    );
}

#[test]
fn a_bad_configured_phrase_is_reported() {
    let mut c = config();
    c.mnemonic = Some("one two".to_string());
    assert!(matches!(resolve_descriptors(&c), Err(AppError::Config(m)) if m.starts_with("invalid MNEMONIC: ")));
}

#[test]
fn init_generates_when_nothing_is_configured() {
    let (source, generated) = init_descriptor_source(&config()).unwrap();
    let generated = generated.expect("a generated phrase");
    match source {
        DescriptorSource::Derive(req) => assert_eq!(req.mnemonic.to_phrase(), generated),
        DescriptorSource::Explicit(_) => panic!("expected a derivation"),
    }
    // The generated phrase is accepted by every later command.
    let mut later = config();
    later.mnemonic = Some(generated.clone());
    match resolve_descriptors(&later).unwrap() {
        DescriptorSource::Derive(req) => assert_eq!(req.mnemonic.to_phrase(), generated),
        DescriptorSource::Explicit(_) => panic!("expected a derivation"),
    }
}

#[test]
fn init_uses_a_configured_phrase() {
    let mut c = config();
    c.mnemonic = Some(PHRASE.to_string());
    let (source, generated) = init_descriptor_source(&c).unwrap();
    assert!(generated.is_none());
    assert!(matches!(source, DescriptorSource::Derive(req) if req.mnemonic.to_phrase() == PHRASE));
}

#[test]
fn init_with_an_external_descriptor_resolves_like_other_commands() {
    let mut c = config();
    c.external_descriptor = Some("ext".to_string());
    assert!(matches!(init_descriptor_source(&c), Err(AppError::Config(m)) if m.starts_with("no wallet found")));
}

#[test]
fn fee_rates() {
    assert_eq!(fee_rate_sat_per_kwu(1), Ok(250));
    assert_eq!(fee_rate_sat_per_kwu(0), Ok(0));
    assert_eq!(fee_rate_sat_per_kwu(u64::MAX / 250), Ok(u64::MAX / 250 * 250));
    assert_eq!(
        fee_rate_sat_per_kwu(u64::MAX / 250 + 1),
        Err(AppError::Config("fee rate overflowed".to_string()))
    );
}

#[test]
fn outpoints() {
    let good = vec![format!("{TXID}:0"), format!("{TXID}:7")];
    assert_eq!(parse_outpoints(&good).unwrap().len(), 2);
    let bad = vec![format!("{TXID}:0"), "abc".to_string(), "def".to_string()];
    assert_eq!(
        parse_outpoints(&bad).err(),
        Some(AppError::Config(
            "invalid --utxo 'abc': OutPoint not in <txid>:<vout> format".to_string()
        ))
    );
}

#[test]
fn outpoint_values() {
    let refs = parse_outpoints(&vec![format!("{TXID}:7"), format!("{TXID}:0")]).unwrap();
    assert_eq!(refs[0].vout, 7);
    assert_eq!(refs[1].vout, 0);
    // The id's bytes are kept in the reverse of the order of its hex text.
    let mut bytes = [0u8; 32];
    for i in 0..32 {
        bytes[31 - i] = u8::from_str_radix(&TXID[2 * i..2 * i + 2], 16).unwrap();
    }
    assert_eq!(refs[0].txid, bytes);
    assert_eq!(
        parse_outpoints(&vec![format!("{TXID}:01")]).err(),
        Some(AppError::Config(format!(
            "invalid --utxo '{TXID}:01': no leading zeroes or + allowed in vout part"
        )))
    );
}

#[test]
fn send_plans() {
    let p = plan_send(TB_ADDR, Network::Testnet, 5000, 2, &vec![]).unwrap();
    assert_eq!(p.script, tb_script());
    assert_eq!(p.amount_sats, 5000);
    assert_eq!(p.fee_rate_sat_kwu, 500);
    assert!(p.manual_utxos.is_none());
    let p = plan_send(TB_ADDR, Network::Signet, 1, 1, &vec![format!("{TXID}:3")]).unwrap();
    assert_eq!(p.manual_utxos.map(|v| v.len()), Some(1));
    // The fee rate is checked before the UTXOs.
    assert_eq!(
        plan_send(TB_ADDR, Network::Testnet, 1, u64::MAX, &vec!["abc".to_string()]).err(),
        Some(AppError::Config("fee rate overflowed".to_string()))
    );
    assert!(matches!(plan_send(TB_ADDR, Network::Testnet, 1, 1, &vec!["x:1:2".to_string()]), Err(AppError::Config(m)) if m.starts_with("invalid --utxo 'x:1:2': ")));
    // The address is read before everything else.
    assert_eq!(
        plan_send(TB_ADDR, Network::Regtest, 1, u64::MAX, &vec![]).err(),
        Some(AppError::Address("validation error".to_string()))
    );
    assert!(matches!(plan_send("nope", Network::Testnet, 1, u64::MAX, &vec![]), Err(AppError::Address(_))));
}

#[test]
fn addresses() {
    assert_eq!(read_address(TB_ADDR, Network::Testnet), Ok(tb_script()));
    assert_eq!(read_address(TB_ADDR, Network::Signet), Ok(tb_script()));
    assert_eq!(read_address(&TB_ADDR.to_uppercase(), Network::Testnet), Ok(tb_script()));
    assert_eq!(
        read_address(TB_ADDR, Network::Bitcoin),
        Err(AppError::Address("validation error".to_string()))
    );
    assert!(matches!(read_address("", Network::Regtest), Err(AppError::Address(_))));
}

#[test]
fn send_errors() {
    assert_eq!(
        send_step_error(SendStep::Build, "no funds"),
        AppError::Wallet("failed to build transaction: no funds".to_string())
    );
    assert_eq!(
        send_step_error(SendStep::SelectUtxos, "x"),
        AppError::Wallet("failed to select utxos: x".to_string())
    );
    assert_eq!(
        send_step_error(SendStep::Sign, "x"),
        AppError::Wallet("failed to sign transaction: x".to_string())
    );
    assert_eq!(
        send_step_error(SendStep::Extract, "x"),
        AppError::Wallet("failed to extract final transaction: x".to_string())
    );
    assert_eq!(require_finalized(true), Ok(()));
    assert_eq!(
        require_finalized(false),
        Err(AppError::Wallet("transaction could not be fully signed/finalized".to_string()))
    );
}

#[test]
fn mining_is_for_regtest_only() {
    assert!(matches!(mine_target(Network::Regtest, None), Ok(MineTarget::FreshReceiveAddress)));
    assert!(matches!(mine_target(Network::Regtest, Some("bcrt1q".to_string())), Ok(MineTarget::Given(a)) if a == "bcrt1q"));
    for n in [Network::Bitcoin, Network::Testnet, Network::Testnet4, Network::Signet] {
        assert!(matches!(mine_target(n, None), Err(AppError::Config(m)) if m == "`mine` only makes sense on regtest (there is no faucet, so we mine our own coins)"));
    }
}

#[test]
fn rpc_credentials() {
    let mut c = config();
    assert!(matches!(rpc_auth(&c), Ok(RpcAuth::Anonymous)));
    c.rpc_user = Some("u".to_string());
    assert_eq!(
        rpc_auth(&c).err(),
        Some(AppError::Config(
            "set both RPC_USER and RPC_PASS, or RPC_COOKIE, to authenticate with bitcoind".to_string()
        ))
    );
    c.rpc_pass = Some("p".to_string());
    assert!(matches!(rpc_auth(&c), Ok(RpcAuth::UserPass(u, p)) if u == "u" && p == "p"));
    c.rpc_cookie = Some("/cookie".to_string());
    assert!(matches!(rpc_auth(&c), Ok(RpcAuth::CookieFile(p)) if p == "/cookie"));
    let mut c = config();
    c.rpc_pass = Some("p".to_string());
    assert!(rpc_auth(&c).is_err());
}

#[test]
fn unreachable_node_message() {
    assert_eq!(
        node_unreachable("127.0.0.1:18443", "refused"),
        AppError::Config(
            "could not reach bitcoind at 127.0.0.1:18443 (refused); is it running with `-regtest -server`?"
                .to_string()
        )
    );
}

#[test]
fn descriptor_errors() {
    assert_eq!(
        descriptor_step_error(DescriptorStep::Build, "bad key"),
        AppError::Wallet("descriptor build failed: bad key".to_string())
    );
    assert_eq!(
        descriptor_step_error(DescriptorStep::Resolve, "wrong network"),
        AppError::Wallet("descriptor resolve failed: wrong network".to_string())
    );
}

#[test]
fn planned_paths_are_valid_bip32_paths() {
    for network in [
        Network::Bitcoin,
        Network::Testnet,
        Network::Testnet4,
        Network::Signet,
        Network::Regtest,
    ] {
        for kind in [DescriptorKind::Wpkh, DescriptorKind::Taproot] {
            let p = descriptor_paths(network, kind);
            let external = bdk_wallet::bitcoin::bip32::DerivationPath::from_str(&p.external).unwrap();
            let internal = bdk_wallet::bitcoin::bip32::DerivationPath::from_str(&p.internal).unwrap();
            assert_eq!(external.len(), 4);
            assert_ne!(external, internal);
        }
    }
}
