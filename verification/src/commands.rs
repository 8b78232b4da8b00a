//! The decisions that the wallet's commands take, apart from the I/O around them.
use vstd::prelude::*;

use crate::config::{Config, DescriptorKind, Network};
use crate::error::AppError;
use crate::keys::{
    bip39_english, generate_mnemonic, parse_mnemonic, word_count, DescriptorPair, Mnemonic,
};
use crate::bitcoin_text::{
    address_read, all_outpoints, bad_utxo_at, fee_rate_sat_per_kwu, outpoint_read, parse_outpoints,
    read_address, sat_per_kwu, utxo_ref_value, UtxoRef,
};
use crate::text::{chars_of, concat3, is_white_space, white_space};


verus! {

/// The key under which the seed phrase is kept in `.env`.
pub open spec fn mnemonic_key() -> Seq<char> {
    seq!['M', 'N', 'E', 'M', 'O', 'N', 'I', 'C', '=']
}

/// Whether position `i` of a text starts a line.
pub open spec fn line_start(s: Seq<char>, i: int) -> bool {
    i == 0 || (0 < i <= s.len() && s[i - 1] == '\n')
}

/// Whether positions `i..j` of a text hold only white space within one line.
pub open spec fn blank_run(s: Seq<char>, i: int, j: int) -> bool {
    &&& 0 <= i <= j <= s.len()
    &&& forall|k: int| i <= k < j ==> is_white_space(#[trigger] s[k]) && s[k] != '\n'
}

/// Whether the text at position `j` begins with `MNEMONIC=`.
pub open spec fn key_at(s: Seq<char>, j: int) -> bool {
    0 <= j && j + 9 <= s.len() && s.subrange(j, j + 9) == mnemonic_key()
}

/// Whether some line of an `.env` text, with its leading white space removed,
/// starts with `MNEMONIC=`.
pub open spec fn has_mnemonic_entry(s: Seq<char>) -> bool {
    exists|i: int, j: int| #![trigger blank_run(s, i, j)] line_start(s, i) && blank_run(s, i, j) && key_at(s, j)
}

/// Whether `v[j..]` begins with `MNEMONIC=`.
fn key_at_index(v: &Vec<char>, j: usize) -> (r: bool)
    ensures
        r == key_at(v@, j as int),
{
    let key = ['M', 'N', 'E', 'M', 'O', 'N', 'I', 'C', '='];
    if j > v.len() || v.len() - j < 9 {
        return false;
    }
    let mut k: usize = 0;
    while k < 9
        invariant
            j + 9 <= v.len(),
            k <= 9,
            key@ == mnemonic_key(),
            forall|m: int| 0 <= m < k ==> v@[j + m] == key@[m],
        decreases 9 - k,
    {
        if v[j + k] != key[k] {
            assert(v@.subrange(j as int, j + 9)[k as int] != mnemonic_key()[k as int]);
            return false;
        }
        k = k + 1;
    }
    assert(v@.subrange(j as int, j + 9) =~= mnemonic_key());
    true
}

/// Whether an existing `.env` text already holds a `MNEMONIC=` entry: some
/// line starts with it once its leading white space is removed.
pub fn env_has_mnemonic(existing: &str) -> (r: bool)
    ensures
        r == has_mnemonic_entry(existing@),
{
    let v = chars_of(existing);
    let n = v.len();
    let mut i: usize = 0;
    let mut in_prefix = true;
    let ghost mut start: int = 0;
    while i < n
        invariant
            n == v@.len(),
            v@ == existing@,
            i <= n,
            in_prefix ==> line_start(v@, start) && blank_run(v@, start, i as int),
            !in_prefix ==> forall|i0: int| #![trigger blank_run(v@, i0, i as int)] !(line_start(v@, i0) && blank_run(v@, i0, i as int)),
            forall|i0: int, j: int| #![trigger blank_run(v@, i0, j)]
                j < i && line_start(v@, i0) && blank_run(v@, i0, j) ==> !key_at(v@, j),
        decreases n - i,
    {
        if in_prefix && key_at_index(&v, i) {
            assert(line_start(v@, start) && blank_run(v@, start, i as int) && key_at(v@, i as int));
            return true;
        }
        let c = v[i];
        if c == '\n' {
            in_prefix = true;
            proof {
                start = i + 1;
            }
        } else if white_space(c) {
            proof {
                if !in_prefix {
                    assert forall|i0: int| !(line_start(v@, i0) && #[trigger] blank_run(v@, i0, i + 1)) by {
                        if line_start(v@, i0) && blank_run(v@, i0, i + 1) {
                            if i0 == i + 1 {
                                assert(v@[i0 - 1] == '\n');
                            } else {
                                assert(blank_run(v@, i0, i as int));
                            }
                        }
                    }
                }
            }
        } else {
            in_prefix = false;
            proof {
                assert forall|i0: int| !(line_start(v@, i0) && #[trigger] blank_run(v@, i0, i + 1)) by {
                    if line_start(v@, i0) && blank_run(v@, i0, i + 1) {
                        if i0 == i + 1 {
                            assert(v@[i0 - 1] == '\n');
                        } else {
                            assert(is_white_space(v@[i as int]));
                        }
                    }
                }
            }
        }
        i = i + 1;
    }
    proof {
        assert forall|i0: int, j: int| line_start(v@, i0) && #[trigger] blank_run(v@, i0, j) implies !key_at(v@, j) by {
            if j >= n {
                assert(!key_at(v@, j));
            }
        }
    }
    false
}

/// The line that records a seed phrase in `.env`: `MNEMONIC="<phrase>"` and a
/// line end.
pub fn mnemonic_env_line(phrase: &str) -> (r: String)
    ensures
        r@ == mnemonic_key() + seq!['"'] + phrase@ + seq!['"', '\n'],
{
    let r = concat3("MNEMONIC=\"", phrase, "\"\n");
    proof {
        reveal_strlit("MNEMONIC=\"");
        reveal_strlit("\"\n");
        assert(r@ =~= mnemonic_key() + seq!['"'] + phrase@ + seq!['"', '\n']);
    }
    r
}

} // verus!

verus! {

/// The line of `.env` that records a seed phrase: `MNEMONIC="<phrase>"` and a
/// line end.
pub open spec fn entry_line(phrase: Seq<char>) -> Seq<char> {
    mnemonic_key() + seq!['"'] + phrase + seq!['"', '\n']
}

/// What must come before a new line of an `.env` text: a line end where the
/// text's last line is not yet ended, else nothing.
pub open spec fn line_separator(existing: Seq<char>) -> Seq<char> {
    if existing.len() > 0 && existing.last() != '\n' {
        seq!['\n']
    } else {
        Seq::<char>::empty()
    }
}

/// What to append to an existing `.env` text to record a generated seed
/// phrase: nothing where the text already holds a `MNEMONIC=` entry (an
/// existing entry is never overwritten), else the `MNEMONIC="<phrase>"` line,
/// on a line of its own.
pub fn mnemonic_line_to_append(existing: &str, phrase: &str) -> (r: Option<String>)
    ensures
        has_mnemonic_entry(existing@) ==> r is None,
        !has_mnemonic_entry(existing@) ==> (r matches Some(text) && text@ == line_separator(
            existing@,
        ) + entry_line(phrase@)),
{
    if env_has_mnemonic(existing) {
        return None;
    }
    let line = mnemonic_env_line(phrase);
    let v = chars_of(existing);
    if v.len() > 0 && v[v.len() - 1] != '\n' {
        let mut text = String::from_str("\n");
        text.append(line.as_str());
        proof {
            reveal_strlit("\n");
            assert(text@ =~= line_separator(existing@) + entry_line(phrase@));
        }
        Some(text)
    } else {
        assert(line@ =~= line_separator(existing@) + entry_line(phrase@));
        Some(line)
    }
}

/// Whether the line starting at `i` is a `MNEMONIC=` entry, its key at `j`.
pub open spec fn entry_at(s: Seq<char>, i: int, j: int) -> bool {
    line_start(s, i) && blank_run(s, i, j) && key_at(s, j)
}

/// Appending the seed phrase line to an `.env` text that holds no `MNEMONIC=`
/// entry leaves exactly one entry, the appended line (for a phrase without line
/// ends): a second `init` finds it and appends nothing.
#[verifier::spinoff_prover]
#[verifier::rlimit(50)]
pub proof fn appended_line_is_the_only_entry(existing: Seq<char>, phrase: Seq<char>)
    requires
        !has_mnemonic_entry(existing),
        forall|k: int| 0 <= k < phrase.len() ==> phrase[k] != '\n',
    ensures
        has_mnemonic_entry(existing + line_separator(existing) + entry_line(phrase)),
        forall|i: int, j: int|
            #[trigger] entry_at(existing + line_separator(existing) + entry_line(phrase), i, j) ==> i
                == j && j == (existing + line_separator(existing)).len(),
{
    let e2 = existing + line_separator(existing);
    let line = entry_line(phrase);
    let s = e2 + line;
    let n = existing.len() as int;
    let l = e2.len() as int;
    assert(forall|k: int| 0 <= k < n ==> s[k] == existing[k]);
    assert(l > 0 ==> s[l - 1] == '\n');
    assert(forall|k: int| 0 <= k < 9 ==> s[l + k] == mnemonic_key()[k]);
    assert(forall|k: int| 0 <= k < line.len() - 1 ==> line[k] != '\n') by {
        assert forall|k: int| 0 <= k < line.len() - 1 implies line[k] != '\n' by {
            if 10 <= k < 10 + phrase.len() {
                assert(line[k] == phrase[k - 10]);
            }
        }
    }
    // The appended line is an entry.
    assert(line_start(s, l));
    assert(blank_run(s, l, l));
    assert(s.subrange(l, l + 9) =~= mnemonic_key());
    assert(entry_at(s, l, l));
    // Every entry is the appended line.
    assert forall|i: int, j: int| #[trigger] entry_at(s, i, j) implies i == j && j == l by {
        assert(forall|k: int| 0 <= k < 9 ==> s[j + k] == #[trigger] s.subrange(j, j + 9)[k]);
        if i < l {
            if j + 9 <= n {
                assert(existing.subrange(j, j + 9) =~= s.subrange(j, j + 9));
                assert(line_start(existing, i));
                assert(blank_run(existing, i, j));
                assert(key_at(existing, j));
                assert(has_mnemonic_entry(existing));
            } else if j < l {
                assert(s.subrange(j, j + 9)[l - 1 - j] == mnemonic_key()[l - 1 - j]);
            } else {
                assert(s[l - 1] == '\n');
            }
        } else if i > l {
            assert(s[i - 1] == '\n');
            assert(line[i - 1 - l] == s[i - 1]);
        } else if j > l {
            assert(s[l] == 'M');
        }
    }
}

} // verus!

verus! {

/// The text of an optional string.
pub open spec fn opt_text(o: Option<String>) -> Option<Seq<char>> {
    match o {
        Some(s) => Some(s@),
        None => None,
    }
}

/// A copy of an optional string.
pub fn clone_opt(o: &Option<String>) -> (r: Option<String>)
    ensures
        opt_text(r) == opt_text(*o),
{
    match o {
        Some(s) => Some(s.clone()),
        None => None,
    }
}

/// A request to derive the keychain descriptors of a wallet from its seed.
pub struct DerivationRequest {
    pub mnemonic: Mnemonic,
    pub passphrase: Option<String>,
    pub network: Network,
    pub kind: DescriptorKind,
}

/// Where the descriptors of a wallet come from.
pub enum DescriptorSource {
    /// Both descriptors are given explicitly by the configuration.
    Explicit(DescriptorPair),
    /// The descriptors are derived from a seed phrase.
    Derive(DerivationRequest),
}

/// The message for a command that finds neither descriptors nor a seed phrase.
pub open spec fn no_wallet_message() -> Seq<char> {
    "no wallet found: run `capstone_wallet init` first, or set DESCRIPTOR / CHANGE_DESCRIPTOR in .env to import an existing wallet"@
}

/// Whether `req` derives from the seed phrase `p` with the passphrase, network
/// and descriptor kind of the configuration.
pub open spec fn derives_with(config: Config, p: Seq<char>, req: DerivationRequest) -> bool {
    &&& req.mnemonic@ == p
    &&& opt_text(req.passphrase) == opt_text(config.mnemonic_passphrase)
    &&& req.network == config.network
    &&& req.kind == config.descriptor_kind
}

/// The outcome of taking the descriptors from the configured seed phrase
/// `phrase`: a derivation from its mnemonic, or the reason it does not parse.
pub open spec fn from_phrase(config: Config, phrase: Seq<char>, r: Result<DescriptorSource, AppError>) -> bool {
    match bip39_english(phrase) {
        Ok(p) => r matches Ok(DescriptorSource::Derive(req)) && derives_with(config, p, req),
        Err(e) => r matches Err(AppError::Config(m)) && m@ == "invalid MNEMONIC: "@ + e,
    }
}

/// The descriptors every command other than `init` uses: both configured
/// descriptors where both are set; otherwise those derived from the configured
/// seed phrase; and where there is none, the error telling the user to run
/// `init` first.
pub open spec fn resolves_to(config: Config, r: Result<DescriptorSource, AppError>) -> bool {
    match (config.external_descriptor, config.internal_descriptor) {
        (Some(e), Some(i)) => r matches Ok(DescriptorSource::Explicit(pair)) && pair.external@ == e@
            && pair.internal@ == i@,
        _ => match config.mnemonic {
            Some(phrase) => from_phrase(config, phrase@, r),
            None => r matches Err(AppError::Config(m)) && m@ == no_wallet_message(),
        },
    }
}

/// Takes the descriptors from the configured seed phrase.
fn source_from_phrase(config: &Config, phrase: &str) -> (r: Result<DescriptorSource, AppError>)
    ensures
        from_phrase(*config, phrase@, r),
{
    let mnemonic = parse_mnemonic(phrase)?;
    Ok(
        DescriptorSource::Derive(
            DerivationRequest {
                mnemonic,
                passphrase: clone_opt(&config.mnemonic_passphrase),
                network: config.network,
                kind: config.descriptor_kind,
            },
        ),
    )
}

/// Figures out which descriptors to use for every command other than `init`.
///
/// Deliberately does not fall back to generating a new mnemonic: doing so on an
/// ordinary command (e.g. `balance`) would silently open a brand new, unrelated
/// wallet instead of failing loudly.
pub fn resolve_descriptors(config: &Config) -> (r: Result<DescriptorSource, AppError>)
    ensures
        resolves_to(*config, r),
        r matches Ok(DescriptorSource::Derive(req)) ==> opt_text(req.passphrase) == opt_text(
            config.mnemonic_passphrase,
        ) && req.network == config.network && req.kind == config.descriptor_kind,
{
    if let (Some(external), Some(internal)) = (&config.external_descriptor, &config.internal_descriptor) {
        return Ok(
            DescriptorSource::Explicit(
                DescriptorPair { external: external.clone(), internal: internal.clone() },
            ),
        );
    }
    match &config.mnemonic {
        Some(phrase) => source_from_phrase(config, phrase.as_str()),
        None => Err(
            AppError::Config(
                String::from_str(
                    "no wallet found: run `capstone_wallet init` first, or set DESCRIPTOR / CHANGE_DESCRIPTOR in .env to import an existing wallet",
                ),
            ),
        ),
    }
}

/// Where `init` takes the wallet's descriptors from, and the seed phrase it
/// generated, if any: with a configured external descriptor it resolves them
/// as every other command does; with only a seed phrase it derives from that
/// phrase; with neither it generates a fresh 12-word phrase and derives from
/// it, which always succeeds.
pub fn init_descriptor_source(config: &Config) -> (r: Result<(DescriptorSource, Option<String>), AppError>)
    ensures
        r matches Ok((DescriptorSource::Derive(req), _)) ==> opt_text(req.passphrase) == opt_text(
            config.mnemonic_passphrase,
        ) && req.network == config.network && req.kind == config.descriptor_kind,
        config.external_descriptor is Some ==> match r {
            Ok((s, generated)) => generated is None && resolves_to(*config, Ok(s)),
            Err(e) => resolves_to(*config, Err(e)),
        },
        config.external_descriptor is None && config.mnemonic is Some ==> match r {
            Ok((s, generated)) => generated is None && from_phrase(*config, config.mnemonic->0@, Ok(s)),
            Err(e) => from_phrase(*config, config.mnemonic->0@, Err(e)),
        },
        config.external_descriptor is None && config.mnemonic is None ==> match r {
            Ok((DescriptorSource::Derive(req), Some(g))) => {
                &&& g@ == req.mnemonic@
                &&& derives_with(*config, g@, req)
                &&& word_count(g@) == 12
                &&& bip39_english(g@) == Ok::<Seq<char>, Seq<char>>(g@)
            },
            Ok(_) => false,
            Err(_) => false,
        },
{
    match (&config.mnemonic, &config.external_descriptor) {
        (_, Some(_)) => {
            let s = resolve_descriptors(config)?;
            Ok((s, None))
        },
        (Some(phrase), None) => {
            let s = source_from_phrase(config, phrase.as_str())?;
            Ok((s, None))
        },
        (None, None) => {
            let mnemonic = generate_mnemonic()?;
            let phrase = mnemonic.to_phrase();
            let req = DerivationRequest {
                mnemonic,
                passphrase: clone_opt(&config.mnemonic_passphrase),
                network: config.network,
                kind: config.descriptor_kind,
            };
            Ok((DescriptorSource::Derive(req), Some(phrase)))
        },
    }
}

} // verus!

verus! {

/// What a `send` asks of the wallet's transaction builder, once its command
/// line has been read.
pub struct SendPlan {
    /// The output script of the address to pay.
    pub script: Vec<u8>,
    /// The amount to pay, in satoshis.
    pub amount_sats: u64,
    /// The fee rate, in satoshis per 1000 weight units.
    pub fee_rate_sat_kwu: u64,
    /// The UTXOs to spend, where they were selected by hand; then they are the
    /// only ones spent and automatic coin selection is off.
    pub manual_utxos: Option<Vec<UtxoRef>>,
}

/// Whether `r` is the plan of a `send` that pays `script`, once the address is
/// read: the fee rate is checked first (an overflowing one is refused), then
/// the manually selected UTXOs, if any were given.
pub open spec fn plans_payment(
    script: Seq<u8>,
    amount_sats: u64,
    fee_rate_sat_vb: u64,
    manual_utxos: Seq<String>,
    r: Result<SendPlan, AppError>,
) -> bool {
    match sat_per_kwu(fee_rate_sat_vb) {
        None => r matches Err(AppError::Config(m)) && m@ == "fee rate overflowed"@,
        Some(k) => if manual_utxos.len() == 0 {
            r matches Ok(p) && p.script@ == script && p.amount_sats == amount_sats
                && p.fee_rate_sat_kwu == k && p.manual_utxos is None
        } else if all_outpoints(manual_utxos) {
            r matches Ok(p) && p.script@ == script && p.amount_sats == amount_sats
                && p.fee_rate_sat_kwu == k && (p.manual_utxos matches Some(v) && v.len()
                == manual_utxos.len() && forall|i: int|
                0 <= i < v.len() ==> outpoint_read(manual_utxos[i]@) == Ok::<
                    (Seq<u8>, u32),
                    Seq<char>,
                >(utxo_ref_value(#[trigger] v@[i])))
        } else {
            r matches Err(e) && exists|i: int|
                0 <= i < manual_utxos.len() && all_outpoints(manual_utxos.subrange(0, i))
                    && #[trigger] bad_utxo_at(manual_utxos, i, e)
        },
    }
}

/// Reads the command line of a `send`: the address to pay first (it must
/// belong to the wallet's network), then the fee rate, then the manually
/// selected UTXOs, if any were given.
pub fn plan_send(
    to: &str,
    network: Network,
    amount_sats: u64,
    fee_rate_sat_vb: u64,
    manual_utxos: &Vec<String>,
) -> (r: Result<SendPlan, AppError>)
    ensures
        match address_read(to@, network) {
            Err(e) => r matches Err(AppError::Address(m)) && m@ == e,
            Ok(script) => plans_payment(script, amount_sats, fee_rate_sat_vb, manual_utxos@, r),
        },
        r matches Ok(p) ==> p.fee_rate_sat_kwu == fee_rate_sat_vb * 250 && p.amount_sats
            == amount_sats && address_read(to@, network) == Ok::<Seq<u8>, Seq<char>>(p.script@)
            && (p.manual_utxos is None <==> manual_utxos.len() == 0),
{
    let script = read_address(to, network)?;
    let fee_rate_sat_kwu = fee_rate_sat_per_kwu(fee_rate_sat_vb)?;
    let manual = if manual_utxos.len() == 0 {
        None
    } else {
        Some(parse_outpoints(manual_utxos)?)
    };
    Ok(SendPlan { script, amount_sats, fee_rate_sat_kwu, manual_utxos: manual })
}

/// A planned payment pays the address read, the amount asked, and the fee rate
/// asked converted from satoshis per virtual byte to satoshis per 1000 weight
/// units (times 250), whether or not UTXOs were selected by hand; it selects
/// UTXOs by hand exactly when some were given, one for each.
pub proof fn planned_payments_keep_what_was_asked(
    script: Seq<u8>,
    amount_sats: u64,
    fee_rate_sat_vb: u64,
    manual_utxos: Seq<String>,
    r: Result<SendPlan, AppError>,
)
    requires
        plans_payment(script, amount_sats, fee_rate_sat_vb, manual_utxos, r),
    ensures
        r matches Ok(p) ==> p.fee_rate_sat_kwu == fee_rate_sat_vb * 250 && p.script@ == script
            && p.amount_sats == amount_sats,
        r matches Ok(p) ==> (p.manual_utxos is None <==> manual_utxos.len() == 0),
        r matches Ok(p) ==> (p.manual_utxos matches Some(v) ==> v.len() == manual_utxos.len()),
        fee_rate_sat_vb * 250 > u64::MAX ==> r is Err,
{
}

/// The steps of a `send` at which the wallet can refuse to go on.
#[derive(Debug, Clone, Copy, PartialEq, Eq, Structural)]
pub enum SendStep {
    /// Adding the manually selected UTXOs to the transaction.
    SelectUtxos,
    /// Building the transaction.
    Build,
    /// Signing the transaction.
    Sign,
    /// Extracting the final transaction from the signed PSBT.
    Extract,
}

/// How the wallet error of a step begins.
pub open spec fn step_message_prefix(step: SendStep) -> Seq<char> {
    match step {
        SendStep::SelectUtxos => "failed to select utxos: "@,
        SendStep::Build => "failed to build transaction: "@,
        SendStep::Sign => "failed to sign transaction: "@,
        SendStep::Extract => "failed to extract final transaction: "@,
    }
}

/// The wallet error of a failed step, with the wallet's own detail.
pub fn send_step_error(step: SendStep, detail: &str) -> (r: AppError)
    ensures
        r matches AppError::Wallet(m) && m@ == step_message_prefix(step) + detail@,
{
    let prefix = match step {
        SendStep::SelectUtxos => "failed to select utxos: ",
        SendStep::Build => "failed to build transaction: ",
        SendStep::Sign => "failed to sign transaction: ",
        SendStep::Extract => "failed to extract final transaction: ",
    };
    let mut m = String::from_str(prefix);
    m.append(detail);
    AppError::Wallet(m)
}

/// A signed transaction can only be sent when signing finalized it.
pub fn require_finalized(finalized: bool) -> (r: Result<(), AppError>)
    ensures
        finalized ==> r is Ok,
        !finalized ==> (r matches Err(AppError::Wallet(m)) && m@
            == "transaction could not be fully signed/finalized"@),
{
    if finalized {
        Ok(())
    } else {
        Err(AppError::Wallet(String::from_str("transaction could not be fully signed/finalized")))
    }
}

/// Where `mine` pays the coinbase of the blocks it mines.
pub enum MineTarget {
    /// The address given on the command line.
    Given(String),
    /// A freshly revealed receiving address of the wallet.
    FreshReceiveAddress,
}

/// The message for `mine` on any network but regtest.
pub open spec fn mine_off_regtest_message() -> Seq<char> {
    "`mine` only makes sense on regtest (there is no faucet, so we mine our own coins)"@
}

/// Decides where `mine` pays to: it only runs on regtest, and pays to the
/// given address, or else to a fresh receiving address of the wallet.
pub fn mine_target(network: Network, address: Option<String>) -> (r: Result<MineTarget, AppError>)
    ensures
        network != Network::Regtest ==> (r matches Err(AppError::Config(m)) && m@
            == mine_off_regtest_message()),
        network == Network::Regtest ==> match address {
            Some(a) => r matches Ok(MineTarget::Given(t)) && t@ == a@,
            None => r matches Ok(MineTarget::FreshReceiveAddress),
        },
{
    if network != Network::Regtest {
        return Err(
            AppError::Config(
                String::from_str(
                    "`mine` only makes sense on regtest (there is no faucet, so we mine our own coins)",
                ),
            ),
        );
    }
    match address {
        Some(a) => Ok(MineTarget::Given(a)),
        None => Ok(MineTarget::FreshReceiveAddress),
    }
}

} // verus!

verus! {

/// A seed phrase that `init` generated, once it is configured as `MNEMONIC`
/// (and no descriptors are set), is accepted by every later command, which
/// derives the wallet from that very phrase.
pub proof fn generated_phrase_is_accepted_later(
    config: Config,
    generated: Seq<char>,
    r: Result<DescriptorSource, AppError>,
)
    requires
        bip39_english(generated) == Ok::<Seq<char>, Seq<char>>(generated),
        config.external_descriptor is None,
        config.mnemonic matches Some(m) && m@ == generated,
        resolves_to(config, r),
    ensures
        r matches Ok(DescriptorSource::Derive(req)) && req.mnemonic@ == generated,
{
}

/// Commands other than `init` never make up a wallet: whatever they resolve is
/// either the configured descriptors, as given, or a derivation from the
/// configured seed phrase with the configured passphrase, network and
/// descriptor kind.
pub proof fn resolving_never_invents_a_seed(config: Config, r: Result<DescriptorSource, AppError>)
    requires
        resolves_to(config, r),
    ensures
        r matches Ok(DescriptorSource::Derive(req)) ==> config.mnemonic is Some && bip39_english(
            config.mnemonic->0@,
        ) == Ok::<Seq<char>, Seq<char>>(req.mnemonic@),
        r matches Ok(DescriptorSource::Derive(req)) ==> opt_text(req.passphrase) == opt_text(
            config.mnemonic_passphrase,
        ) && req.network == config.network && req.kind == config.descriptor_kind,
        r matches Ok(DescriptorSource::Explicit(pair)) ==> config.external_descriptor matches Some(
            e,
        ) && config.internal_descriptor matches Some(i) && pair.external@ == e@ && pair.internal@
            == i@,
{
}

} // verus!

verus! {

/// A line that starts with `MNEMONIC=` after any white space is an entry,
/// whatever lines come before it and whatever follows on it; and a text in
/// which `MNEMONIC=` occurs nowhere holds no entry.
pub proof fn entries_are_lines_starting_with_the_key(
    before: Seq<char>,
    blank: Seq<char>,
    rest: Seq<char>,
    other: Seq<char>,
)
    requires
        before.len() == 0 || before.last() == '\n',
        forall|k: int| 0 <= k < blank.len() ==> is_white_space(#[trigger] blank[k]) && blank[k] != '\n',
        forall|j: int| 0 <= j && j + 9 <= other.len() ==> #[trigger] other.subrange(j, j + 9) != mnemonic_key(),
    ensures
        has_mnemonic_entry(before + blank + mnemonic_key() + rest),
        !has_mnemonic_entry(other),
{
    let s = before + blank + mnemonic_key() + rest;
    let i = before.len() as int;
    let j = i + blank.len();
    assert(line_start(s, i));
    assert(forall|k: int| i <= k < j ==> s[k] == blank[k - i]);
    assert(blank_run(s, i, j));
    assert(s.subrange(j, j + 9) =~= mnemonic_key());
    assert(key_at(s, j));
}

} // verus!
