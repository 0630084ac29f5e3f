//! Assembling the record of a transaction: its witnesses, its outputs as
//! they stood and as they decode, and the outputs that its inputs spend.

use crate::bytes::{append_bytes, copy_bytes, same_bytes};
use crate::chain::{
    compute_txid, compute_wtxid, serialize, txid_of, wtxid_of, consensus_encoding,
    OutPoint, RawTransaction, RawTransactionView, TxIn, TxInView, TxOutView,
};
use crate::config::Config;
use crate::digest::{sha256d, sha256d_digest};
use crate::error::{error_message, Error, ErrorView};
use crate::hexadecimal::{from_hex, hex_decoding, hex_lower, to_hex};
use crate::record::{
    dispenser_views, parsed_vouts_view, witness_views, ParsedVouts, ParsedVoutsView, Transaction,
    TransactionView, Vin, VinOutput, VinOutputView, VinView, Vout, VoutView,
};
use crate::script::{is_witness_program, spec_is_witness_program};
use crate::text::string_views;
use crate::vout::{
    parse_vout, parsed_view, reveal_marker, reveal_marker_bytes, spec_parse_vout, ParseOutput,
    ParseOutputView, PotentialDispenser, PotentialDispenserView,
};
use crate::witness::{extract_data_from_witness, spec_extract_data_from_witness};
use vstd::prelude::*;
use vstd::string::*;

verus! {

/// What has been gathered from the outputs of a transaction so far.
pub struct Pass {
    pub destinations: Vec<String>,
    pub btc_amount: i64,
    pub fee: i64,
    pub data: Vec<u8>,
    pub potential_dispensers: Vec<PotentialDispenser>,
    pub is_reveal_tx: bool,
    pub error: Option<String>,
}

pub struct PassView {
    pub destinations: Seq<Seq<char>>,
    pub btc_amount: int,
    pub fee: int,
    pub data: Seq<u8>,
    pub potential_dispensers: Seq<PotentialDispenserView>,
    pub is_reveal_tx: bool,
    pub error: Option<Seq<char>>,
}

impl View for Pass {
    type V = PassView;

    open spec fn view(&self) -> PassView {
        PassView {
            destinations: string_views(self.destinations@),
            btc_amount: self.btc_amount as int,
            fee: self.fee as int,
            data: self.data@,
            potential_dispensers: dispenser_views(self.potential_dispensers@),
            is_reveal_tx: self.is_reveal_tx,
            error: match self.error {
                Some(message) => Some(message@),
                None => None,
            },
        }
    }
}

/// Nothing gathered yet.
pub open spec fn empty_pass() -> PassView {
    PassView {
        destinations: Seq::empty(),
        btc_amount: 0,
        fee: 0,
        data: Seq::empty(),
        potential_dispensers: Seq::empty(),
        is_reveal_tx: false,
        error: None,
    }
}

/// The failure of a witness script that was to hold the payload.
pub open spec fn witness_failure(error: ErrorView, txid: Seq<char>) -> Seq<char> {
    "Failed to extract data from witness script: "@ + error_message(error) + " for tx: "@ + txid
}

/// The failure of a witness element that is no hexadecimal text.
pub open spec fn witness_hex_failure(txid: Seq<char>) -> Seq<char> {
    "Failed to decode taproot witness hex for tx: "@ + txid
}

/// What the witness of a reveal transaction yields, where an output is the
/// reveal marker: the payload of the script that is the second of three
/// elements in the first input's witness, or the reason why there is none.
/// Where the output is no marker, or the witness has another shape, nothing
/// is looked up.
pub open spec fn revealed(
    taproot: bool,
    bytes: Seq<u8>,
    witnesses: Seq<Seq<Seq<char>>>,
    txid: Seq<char>,
) -> Option<Result<Seq<u8>, Seq<char>>> {
    if taproot && bytes == reveal_marker() && witnesses.len() > 0 && witnesses[0].len() == 3 {
        match hex_decoding(witnesses[0][1]) {
            Some(script) => match spec_extract_data_from_witness(script) {
                Ok(payload) => Some(Ok(payload)),
                Err(error) => Some(Err(witness_failure(error, txid))),
            },
            None => Some(Err(witness_hex_failure(txid))),
        }
    } else {
        None
    }
}

/// What the witness yields in place of a decoded output: something only
/// for data, and then as [`revealed`] says.
pub open spec fn reveal_for(
    outcome: Result<(ParseOutputView, PotentialDispenserView), ErrorView>,
    taproot: bool,
    witnesses: Seq<Seq<Seq<char>>>,
    txid: Seq<char>,
) -> Option<Result<Seq<u8>, Seq<char>>> {
    match outcome {
        Ok((ParseOutputView::Data(bytes), _)) => revealed(taproot, bytes, witnesses, txid),
        _ => None,
    }
}

/// What has been gathered after one more output, and whether the outputs
/// after it are still read.
///
/// The value of the output is taken off the fee. A failed output is noted
/// and ends the reading. A destination joins the list and its value the
/// amount, as long as no data was seen and the list is not the unspendable
/// address alone; otherwise it ends the reading. Data joins the payload,
/// unless `found` holds what the witness of a reveal transaction yielded in
/// its place: a payload, which joins instead, or a failure, which is noted.
pub open spec fn after_outcome(
    state: PassView,
    value: u64,
    outcome: Result<(ParseOutputView, PotentialDispenserView), ErrorView>,
    unspendable: Seq<char>,
    found: Option<Result<Seq<u8>, Seq<char>>>,
) -> (PassView, bool) {
    let charged = PassView { fee: state.fee - value, ..state };
    match outcome {
        Err(error) => (PassView { error: Some(error_message(error)), ..charged }, false),
        Ok((output, note)) => {
            let noted = PassView {
                potential_dispensers: charged.potential_dispensers.push(note),
                ..charged
            };
            match output {
                ParseOutputView::Destination(address) => if noted.data.len() == 0
                    && noted.destinations != seq![unspendable] {
                    (
                        PassView {
                            destinations: noted.destinations.push(address),
                            btc_amount: noted.btc_amount + value,
                            ..noted
                        },
                        true,
                    )
                } else {
                    (noted, false)
                },
                ParseOutputView::Data(bytes) => match found {
                    Some(Ok(payload)) => (
                        PassView { data: noted.data + payload, is_reveal_tx: true, ..noted },
                        true,
                    ),
                    Some(Err(message)) => (PassView { error: Some(message), ..noted }, true),
                    None => (PassView { data: noted.data + bytes, ..noted }, true),
                },
            }
        },
    }
}

/// The view of what a witness yields.
pub open spec fn revealed_view(found: Option<Result<Vec<u8>, String>>) -> Option<
    Result<Seq<u8>, Seq<char>>,
> {
    match found {
        Some(Ok(payload)) => Some(Ok(payload@)),
        Some(Err(message)) => Some(Err(message@)),
        None => None,
    }
}

/// Looks up what the witness of a reveal transaction yields for an output
/// that decoded to `bytes`.
pub fn look_up_reveal(taproot: bool, bytes: &Vec<u8>, witnesses: &Vec<Vec<String>>, txid: &String) -> (found:
    Option<Result<Vec<u8>, String>>)
    ensures
        revealed_view(found) == revealed(taproot, bytes@, witness_views(witnesses@), txid@),
{
    if !(taproot && same_bytes(bytes, &reveal_marker_bytes()) && witnesses.len() > 0
        && witnesses[0].len() == 3) {
        return None;
    }
    assert(witness_views(witnesses@)[0] == string_views(witnesses@[0]@));
    assert(string_views(witnesses@[0]@)[1] == witnesses@[0]@[1]@);
    match from_hex(&witnesses[0][1]) {
        Some(script) => match extract_data_from_witness(&script) {
            Ok(payload) => Some(Ok(payload)),
            Err(error) => {
                let mut message = String::from_str("Failed to extract data from witness script: ");
                message.append(error.message().as_str());
                message.append(" for tx: ");
                message.append(txid.as_str());
                Some(Err(message))
            },
        },
        None => {
            let mut message = String::from_str("Failed to decode taproot witness hex for tx: ");
            message.append(txid.as_str());
            Some(Err(message))
        },
    }
}

/// Whether the destinations are the unspendable address and nothing else.
pub fn only_unspendable(destinations: &Vec<String>, unspendable: &String) -> (only: bool)
    ensures
        only == (string_views(destinations@) == seq![unspendable@]),
{
    if destinations.len() == 1 {
        let only = destinations[0] == *unspendable;
        assert(string_views(destinations@)[0] == destinations@[0]@);
        assert(only ==> string_views(destinations@) =~= seq![unspendable@]);
        assert(seq![unspendable@][0] == unspendable@);
        only
    } else {
        assert(seq![unspendable@].len() == 1);
        false
    }
}

/// Takes one more output into what has been gathered, and says whether the
/// outputs after it are still read. `found` is what the witness yielded in
/// place of the output, if it was looked up.
pub fn absorb(
    pass: Pass,
    value: u64,
    outcome: Result<(ParseOutput, PotentialDispenser), Error>,
    unspendable: &String,
    found: Option<Result<Vec<u8>, String>>,
) -> (next: (Pass, bool))
    requires
        value <= i64::MAX,
        i64::MIN <= pass@.fee - value,
        pass@.btc_amount + value <= i64::MAX,
    ensures
        (next.0@, next.1) == after_outcome(
            pass@,
            value,
            parsed_view(outcome),
            unspendable@,
            revealed_view(found),
        ),
{
    let mut pass = pass;
    let amount = value as i64;
    pass.fee = pass.fee - amount;
    let (output, note) = match outcome {
        Err(error) => {
            pass.error = Some(error.message());
            return (pass, false);
        },
        Ok(parsed) => parsed,
    };
    let ghost before = dispenser_views(pass.potential_dispensers@);
    pass.potential_dispensers.push(note);
    assert(dispenser_views(pass.potential_dispensers@) =~= before.push(note@));
    match output {
        ParseOutput::Destination(address) => {
            if pass.data.len() == 0 && !only_unspendable(&pass.destinations, unspendable) {
                let ghost listed = string_views(pass.destinations@);
                pass.destinations.push(address);
                assert(string_views(pass.destinations@) =~= listed.push(address@));
                pass.btc_amount = pass.btc_amount + amount;
                (pass, true)
            } else {
                (pass, false)
            }
        },
        ParseOutput::Data(bytes) => {
            match found {
                Some(Ok(payload)) => {
                    append_bytes(&mut pass.data, &payload);
                    pass.is_reveal_tx = true;
                },
                Some(Err(message)) => {
                    pass.error = Some(message);
                },
                None => {
                    append_bytes(&mut pass.data, &bytes);
                },
            }
            (pass, true)
        },
    }
}

/// Looks up what the witness yields in place of a decoded output.
pub fn look_up_reveal_for(
    outcome: &Result<(ParseOutput, PotentialDispenser), Error>,
    taproot: bool,
    witnesses: &Vec<Vec<String>>,
    txid: &String,
) -> (found: Option<Result<Vec<u8>, String>>)
    ensures
        revealed_view(found) == reveal_for(
            parsed_view(*outcome),
            taproot,
            witness_views(witnesses@),
            txid@,
        ),
{
    match outcome {
        Ok((ParseOutput::Data(bytes), _)) => look_up_reveal(taproot, bytes, witnesses, txid),
        _ => None,
    }
}

/// A hash as it is displayed: its bytes in reverse order, in hexadecimal.
pub open spec fn displayed(hash: Seq<u8>) -> Seq<char> {
    hex_lower(hash.reverse())
}

/// The witness stacks of a transaction, each element in hexadecimal.
pub open spec fn witness_snapshot(tx: RawTransactionView) -> Seq<Seq<Seq<char>>> {
    Seq::new(
        tx.input.len(),
        |i: int| Seq::new(tx.input[i].witness.len(), |j: int| hex_lower(tx.input[i].witness[j])),
    )
}

/// Whether any input of a transaction has a witness.
pub open spec fn has_witness(tx: RawTransactionView) -> bool {
    exists|i: int| 0 <= i < tx.input.len() && (#[trigger] tx.input[i]).witness.len() > 0
}

/// The key under which the payload of a transaction is hidden: the
/// identifier of the transaction that its first input spends, reversed. A
/// transaction without inputs has the empty key.
pub open spec fn decryption_key(tx: RawTransactionView) -> Seq<u8> {
    if tx.input.len() > 0 {
        tx.input[0].txid.reverse()
    } else {
        Seq::empty()
    }
}

/// The sum of the values of the first `count` outputs.
pub open spec fn total_value(outputs: Seq<TxOutView>, count: nat) -> int
    decreases count,
{
    if count == 0 {
        0
    } else {
        total_value(outputs, (count - 1) as nat) + outputs[count - 1].value
    }
}

/// Whether the values of a transaction's outputs can be summed in 64 bits.
pub open spec fn amounts_fit(tx: RawTransactionView) -> bool {
    total_value(tx.output, tx.output.len()) <= i64::MAX
}

/// What has been gathered from the first `count` outputs of a transaction,
/// and whether the outputs after them are still read.
pub open spec fn pass_after(config: Config, height: u32, tx: RawTransactionView, count: nat) -> (
    PassView,
    bool,
)
    decreases count,
{
    if count == 0 {
        (empty_pass(), true)
    } else {
        let (state, reading) = pass_after(config, height, tx, (count - 1) as nat);
        if reading {
            let outcome = spec_parse_vout(
                config,
                decryption_key(tx),
                height,
                displayed(txid_of(tx)),
                (count - 1) as nat,
                tx.output[count - 1],
            );
            after_outcome(
                state,
                tx.output[count - 1].value,
                outcome,
                config.unspendable@,
                reveal_for(
                    outcome,
                    config.taproot_at(height),
                    witness_snapshot(tx),
                    displayed(txid_of(tx)),
                ),
            )
        } else {
            (state, false)
        }
    }
}

/// What is gathered from all outputs of a transaction.
pub open spec fn spec_read_outputs(config: Config, height: u32, tx: RawTransactionView) -> PassView {
    pass_after(config, height, tx, tx.output.len()).0
}

/// Once the reading has ended, nothing more is gathered.
proof fn lemma_pass_stays(config: Config, height: u32, tx: RawTransactionView, from: nat, to: nat)
    requires
        from <= to,
        !pass_after(config, height, tx, from).1,
    ensures
        pass_after(config, height, tx, to) == pass_after(config, height, tx, from),
    decreases to,
{
    if from < to {
        lemma_pass_stays(config, height, tx, from, (to - 1) as nat);
    }
}

/// The sum of the first outputs is no more than the sum of all.
proof fn lemma_total_grows(outputs: Seq<TxOutView>, from: nat, to: nat)
    requires
        from <= to,
    ensures
        0 <= total_value(outputs, from) <= total_value(outputs, to),
    decreases to,
{
    if from < to {
        lemma_total_grows(outputs, from, (to - 1) as nat);
    } else {
        if from > 0 {
            lemma_total_grows(outputs, (from - 1) as nat, (from - 1) as nat);
        }
    }
}

/// The fee and the amount stay within the sum of the values read.
proof fn lemma_pass_bounds(config: Config, height: u32, tx: RawTransactionView, count: nat)
    ensures
        -total_value(tx.output, count) <= pass_after(config, height, tx, count).0.fee <= 0,
        0 <= pass_after(config, height, tx, count).0.btc_amount <= total_value(tx.output, count),
    decreases count,
{
    if count > 0 {
        lemma_pass_bounds(config, height, tx, (count - 1) as nat);
        lemma_total_grows(tx.output, (count - 1) as nat, (count - 1) as nat);
    }
}

/// Whether two hashes are equal.
pub fn same_hash(a: &[u8; 32], b: &[u8; 32]) -> (same: bool)
    ensures
        same == (a@ == b@),
{
    let mut i: usize = 0;
    while i < 32
        invariant
            i <= 32,
            forall|k: int| 0 <= k < i ==> a@[k] == b@[k],
        decreases 32 - i,
    {
        if a[i] != b[i] {
            return false;
        }
        i += 1;
    }
    assert(a@ =~= b@);
    true
}

/// The bytes of a hash in reverse order.
pub fn reversed(hash: &[u8; 32]) -> (bytes: Vec<u8>)
    ensures
        bytes@ == hash@.reverse(),
{
    let mut bytes: Vec<u8> = Vec::new();
    let mut i: usize = 0;
    while i < 32
        invariant
            i <= 32,
            bytes@.len() == i,
            forall|k: int| 0 <= k < i ==> bytes@[k] == hash@[31 - k],
        decreases 32 - i,
    {
        bytes.push(hash[31 - i]);
        i += 1;
    }
    assert(bytes@ =~= hash@.reverse());
    bytes
}

/// A hash as it is displayed.
pub fn display_hash(hash: &[u8; 32]) -> (text: String)
    ensures
        text@ == displayed(hash@),
{
    to_hex(&reversed(hash))
}

/// The key under which the payload of a transaction is hidden.
pub fn derive_key(tx: &RawTransaction) -> (key: Vec<u8>)
    ensures
        key@ == decryption_key(tx@),
{
    if tx.input.len() > 0 {
        reversed(&tx.input[0].previous_output.txid)
    } else {
        Vec::new()
    }
}

/// The witness stacks of a transaction in hexadecimal, and whether any of
/// them holds anything.
pub fn snapshot_witnesses(tx: &RawTransaction) -> (snapshot: (Vec<Vec<String>>, bool))
    ensures
        witness_views(snapshot.0@) == witness_snapshot(tx@),
        snapshot.1 == has_witness(tx@),
{
    let mut stacks: Vec<Vec<String>> = Vec::new();
    let mut segwit = false;
    let mut i: usize = 0;
    while i < tx.input.len()
        invariant
            i <= tx.input@.len(),
            stacks@.len() == i,
            forall|k: int|
                0 <= k < i ==> string_views((#[trigger] stacks@[k])@) == witness_snapshot(tx@)[k],
            segwit == exists|k: int| 0 <= k < i && (#[trigger] tx@.input[k]).witness.len() > 0,
        decreases tx.input@.len() - i,
    {
        let input = &tx.input[i];
        let mut stack: Vec<String> = Vec::new();
        let mut j: usize = 0;
        while j < input.witness.len()
            invariant
                j <= input.witness@.len(),
                stack@.len() == j,
                forall|k: int|
                    0 <= k < j ==> (#[trigger] stack@[k])@ == hex_lower(input.witness@[k]@),
            decreases input.witness@.len() - j,
        {
            stack.push(to_hex(&input.witness[j]));
            j += 1;
        }
        proof {
            assert(tx@.input[i as int] == input@);
            assert(input@.witness.len() == input.witness@.len());
            assert(string_views(stack@) =~= witness_snapshot(tx@)[i as int]) by {
                assert forall|k: int| 0 <= k < stack@.len() implies string_views(stack@)[k]
                    == witness_snapshot(tx@)[i as int][k] by {
                    assert(input@.witness[k] == input.witness@[k]@);
                }
            }
        }
        if input.witness.len() > 0 {
            segwit = true;
        }
        stacks.push(stack);
        i += 1;
    }
    assert(witness_views(stacks@) =~= witness_snapshot(tx@));
    (stacks, segwit)
}

/// Reads all outputs of a transaction.
pub fn read_outputs(
    tx: &RawTransaction,
    config: &Config,
    height: u32,
    witnesses: &Vec<Vec<String>>,
    txid: &String,
) -> (pass: Pass)
    requires
        amounts_fit(tx@),
        witness_views(witnesses@) == witness_snapshot(tx@),
        txid@ == displayed(txid_of(tx@)),
    ensures
        pass@ == spec_read_outputs(*config, height, tx@),
{
    let key = derive_key(tx);
    let taproot = config.taproot_support_enabled(height);
    let mut pass = Pass {
        destinations: Vec::new(),
        btc_amount: 0,
        fee: 0,
        data: Vec::new(),
        potential_dispensers: Vec::new(),
        is_reveal_tx: false,
        error: None,
    };
    assert(pass@.destinations =~= empty_pass().destinations);
    assert(pass@.potential_dispensers =~= empty_pass().potential_dispensers);
    let mut reading = true;
    let mut vi: usize = 0;
    while reading && vi < tx.output.len()
        invariant
            vi <= tx.output@.len(),
            amounts_fit(tx@),
            witness_views(witnesses@) == witness_snapshot(tx@),
            txid@ == displayed(txid_of(tx@)),
            key@ == decryption_key(tx@),
            taproot == config.taproot_at(height),
            (pass@, reading) == pass_after(*config, height, tx@, vi as nat),
        decreases tx.output@.len() - vi,
    {
        let output = &tx.output[vi];
        proof {
            assert(tx@.output[vi as int] == output@);
            lemma_pass_bounds(*config, height, tx@, vi as nat);
            lemma_total_grows(tx@.output, (vi + 1) as nat, tx@.output.len());
        }
        let outcome = parse_vout(config, copy_bytes(&key), height, txid.clone(), vi, output);
        let found = look_up_reveal_for(&outcome, taproot, witnesses, txid);
        let next = absorb(pass, output.value, outcome, &config.unspendable, found);
        pass = next.0;
        reading = next.1;
        vi += 1;
    }
    proof {
        if vi < tx.output@.len() {
            lemma_pass_stays(*config, height, tx@, vi as nat, tx@.output.len());
        }
    }
    pass
}

/// What the node answered when it was asked for earlier transactions. An
/// answer that is missing stands for a request that failed or was not made.
pub struct Answers {
    /// The transactions that the inputs spend, asked for by input.
    pub previous: Option<Vec<Option<RawTransaction>>>,
    /// The transaction that the commit transaction of a reveal spends, asked
    /// for alone.
    pub commit_parent: Option<Vec<Option<RawTransaction>>>,
}

pub struct AnswersView {
    pub previous: Option<Seq<Option<RawTransactionView>>>,
    pub commit_parent: Option<Seq<Option<RawTransactionView>>>,
}

/// The views of transactions that may be missing, in order.
pub open spec fn found_views(found: Seq<Option<RawTransaction>>) -> Seq<Option<RawTransactionView>> {
    found.map_values(
        |tx: Option<RawTransaction>|
            match tx {
                Some(t) => Some(t@),
                None => None,
            },
    )
}

/// The view of an answer.
pub open spec fn answer_view(answer: Option<Vec<Option<RawTransaction>>>) -> Option<
    Seq<Option<RawTransactionView>>,
> {
    match answer {
        Some(found) => Some(found_views(found@)),
        None => None,
    }
}

impl View for Answers {
    type V = AnswersView;

    open spec fn view(&self) -> AnswersView {
        AnswersView {
            previous: answer_view(self.previous),
            commit_parent: answer_view(self.commit_parent),
        }
    }
}

/// What is gathered from the outputs of a transaction: nothing, unless
/// outputs are to be decoded and `height` admits it.
pub open spec fn gathered(config: Config, height: u32, parse_vouts: bool, tx: RawTransactionView) -> PassView {
    if parse_vouts && config.multisig_addresses_at(height) {
        spec_read_outputs(config, height, tx)
    } else {
        empty_pass()
    }
}

/// The outcome of decoding the outputs, as the record holds it.
pub open spec fn concluded(config: Config, height: u32, parse_vouts: bool, state: PassView) -> Result<
    ParsedVoutsView,
    Seq<char>,
> {
    if !parse_vouts {
        Err("Not Parsed"@)
    } else if !config.multisig_addresses_at(height) {
        Err("Multisig addresses are not enabled"@)
    } else {
        match state.error {
            Some(message) => Err(message),
            None => Ok(
                ParsedVoutsView {
                    destinations: state.destinations,
                    btc_amount: state.btc_amount as i64,
                    fee: state.fee as i64,
                    data: state.data,
                    potential_dispensers: state.potential_dispensers,
                    is_reveal_tx: state.is_reveal_tx,
                },
            ),
        }
    }
}

/// Whether the outputs that the inputs spend are looked up: where the
/// transaction carries data, or where its outputs decoded to the
/// unspendable address alone.
pub open spec fn wants_inputs(config: Config, height: u32, parse_vouts: bool, state: PassView) -> bool {
    state.data.len() > 0 || (concluded(config, height, parse_vouts, state) is Ok
        && state.destinations == seq![config.unspendable@])
}

/// The output that stands for no commit parent: the all-zero identifier
/// and the index zero.
pub open spec fn no_commit_parent() -> (Seq<u8>, u32) {
    (Seq::new(32, |i: int| 0u8), 0u32)
}

/// The output that the commit transaction of a reveal spends: the first
/// input of the first of the earlier transactions.
pub open spec fn commit_parent(is_reveal_tx: bool, previous: Seq<Option<RawTransactionView>>) -> Option<
    (Seq<u8>, u32),
> {
    if is_reveal_tx && previous.len() > 0 && previous[0] is Some
        && previous[0].unwrap().input.len() > 0 {
        Some((previous[0].unwrap().input[0].txid, previous[0].unwrap().input[0].vout))
    } else {
        None
    }
}

/// The earlier transactions that the inputs are resolved against: none
/// unless they are wanted and were answered; for a reveal, the first is
/// replaced by the commit parent where that was answered.
pub open spec fn resolved_previous(wanted: bool, is_reveal_tx: bool, answers: AnswersView) -> Seq<
    Option<RawTransactionView>,
> {
    if wanted && answers.previous is Some {
        let previous = answers.previous.unwrap();
        if commit_parent(is_reveal_tx, previous) is Some && answers.commit_parent is Some
            && answers.commit_parent.unwrap().len() > 0 {
            previous.update(0, answers.commit_parent.unwrap()[0])
        } else {
            previous
        }
    } else {
        Seq::empty()
    }
}

/// The commit parent that the inputs are resolved with.
pub open spec fn resolved_commit_parent(wanted: bool, is_reveal_tx: bool, answers: AnswersView) -> (
    Seq<u8>,
    u32,
) {
    if wanted && answers.previous is Some && commit_parent(
        is_reveal_tx,
        answers.previous.unwrap(),
    ) is Some {
        commit_parent(is_reveal_tx, answers.previous.unwrap()).unwrap()
    } else {
        no_commit_parent()
    }
}

/// The output of an earlier transaction that an input spends: the output
/// at the input's index, or at the commit parent's index where the
/// transaction is the commit parent, if the transaction has that many
/// outputs. Its witness flag says whether its script is a witness program
/// or, before that rule, whether the transaction has a witness identifier
/// of its own.
pub open spec fn chosen_output(
    fix_is_segwit: bool,
    input_vout: u32,
    previous: RawTransactionView,
    previous_txid: Seq<u8>,
    previous_wtxid: Seq<u8>,
    commit: (Seq<u8>, u32),
) -> Option<VinOutputView> {
    let index = if previous_txid == commit.0 {
        commit.1
    } else {
        input_vout
    };
    if index < previous.output.len() {
        let output = previous.output[index as int];
        Some(
            VinOutputView {
                value: output.value,
                script_pub_key: output.script_pubkey,
                is_segwit: if fix_is_segwit {
                    spec_is_witness_program(output.script_pubkey)
                } else {
                    previous_txid != previous_wtxid
                },
            },
        )
    } else {
        None
    }
}

/// The output that an input spends, read from the earlier transaction that
/// was found for it.
pub open spec fn spent_output(
    config: Config,
    height: u32,
    input: TxInView,
    found: Option<RawTransactionView>,
    commit: (Seq<u8>, u32),
) -> Option<VinOutputView> {
    match found {
        None => None,
        Some(previous) => chosen_output(
            config.fix_is_segwit_at(height),
            input.vout,
            previous,
            txid_of(previous),
            wtxid_of(previous),
            commit,
        ),
    }
}

/// The record of an input.
pub open spec fn vin_of(
    config: Config,
    height: u32,
    input: TxInView,
    found: Option<RawTransactionView>,
    commit: (Seq<u8>, u32),
) -> VinView {
    VinView {
        hash: displayed(input.txid),
        n: input.vout,
        sequence: input.sequence,
        script_sig: input.script_sig,
        info: spent_output(config, height, input, found, commit),
    }
}

/// The earlier transaction found for the input at `index`.
pub open spec fn found_for(previous: Seq<Option<RawTransactionView>>, index: int) -> Option<
    RawTransactionView,
> {
    if 0 <= index < previous.len() {
        previous[index]
    } else {
        None
    }
}

/// Whether a transaction creates coins: its one input spends the null output.
pub open spec fn is_coinbase(tx: RawTransactionView) -> bool {
    tx.input.len() == 1 && tx.input[0].vout == u32::MAX && forall|k: int|
        0 <= k < tx.input[0].txid.len() ==> tx.input[0].txid[k] == 0
}

/// The record of a transaction, given what the node answered.
pub open spec fn spec_parse_transaction(
    config: Config,
    height: u32,
    parse_vouts: bool,
    tx: RawTransactionView,
    answers: AnswersView,
) -> TransactionView {
    let state = gathered(config, height, parse_vouts, tx);
    let wanted = wants_inputs(config, height, parse_vouts, state);
    let previous = resolved_previous(wanted, state.is_reveal_tx, answers);
    let commit = resolved_commit_parent(wanted, state.is_reveal_tx, answers);
    TransactionView {
        version: tx.version,
        segwit: has_witness(tx),
        coinbase: is_coinbase(tx),
        lock_time: tx.lock_time,
        tx_id: displayed(txid_of(tx)),
        tx_hash: if has_witness(tx) && config.correct_segwit_txids_at(height) {
            displayed(txid_of(tx))
        } else {
            displayed(sha256d(consensus_encoding(tx)))
        },
        vtxinwit: witness_snapshot(tx),
        vin: Seq::new(
            tx.input.len(),
            |i: int| vin_of(config, height, tx.input[i], found_for(previous, i), commit),
        ),
        vout: Seq::new(
            tx.output.len(),
            |i: int|
                VoutView {
                    value: tx.output[i].value,
                    script_pub_key: tx.output[i].script_pubkey,
                },
        ),
        parsed_vouts: concluded(config, height, parse_vouts, state),
    }
}

/// Whether the outputs that the inputs spend are to be looked up, after
/// the outputs were read.
pub fn needs_inputs(pass: &Pass, config: &Config, height: u32, parse_vouts: bool) -> (wanted: bool)
    ensures
        wanted == wants_inputs(*config, height, parse_vouts, pass@),
{
    if pass.data.len() > 0 {
        return true;
    }
    parse_vouts && config.multisig_addresses_enabled(height) && pass.error.is_none()
        && only_unspendable(&pass.destinations, &config.unspendable)
}

/// Turns what was gathered into the outcome that the record holds.
pub fn conclude(pass: Pass, config: &Config, height: u32, parse_vouts: bool) -> (parsed: Result<
    ParsedVouts,
    String,
>)
    ensures
        parsed_vouts_view(parsed) == concluded(*config, height, parse_vouts, pass@),
{
    if !parse_vouts {
        return Err(String::from_str("Not Parsed"));
    }
    if !config.multisig_addresses_enabled(height) {
        return Err(String::from_str("Multisig addresses are not enabled"));
    }
    match pass.error {
        Some(message) => Err(message),
        None => Ok(
            ParsedVouts {
                destinations: pass.destinations,
                btc_amount: pass.btc_amount,
                fee: pass.fee,
                data: pass.data,
                potential_dispensers: pass.potential_dispensers,
                is_reveal_tx: pass.is_reveal_tx,
            },
        ),
    }
}

/// The view of an output reference.
pub open spec fn outpoint_view(outpoint: OutPoint) -> (Seq<u8>, u32) {
    (outpoint.txid@, outpoint.vout)
}

/// The view of an output reference that may be missing.
pub open spec fn optional_outpoint(outpoint: Option<OutPoint>) -> Option<(Seq<u8>, u32)> {
    match outpoint {
        Some(o) => Some(outpoint_view(o)),
        None => None,
    }
}

/// The output that the commit transaction of a reveal spends, which is the
/// next transaction to ask the node for.
pub fn find_commit_parent(is_reveal_tx: bool, previous: &Vec<Option<RawTransaction>>) -> (parent:
    Option<OutPoint>)
    ensures
        optional_outpoint(parent) == commit_parent(is_reveal_tx, found_views(previous@)),
{
    if !is_reveal_tx || previous.len() == 0 {
        return None;
    }
    match &previous[0] {
        Some(commit) => {
            if commit.input.len() > 0 {
                assert(commit@.input[0] == commit.input@[0]@);
                Some(commit.input[0].previous_output)
            } else {
                None
            }
        },
        None => None,
    }
}

/// The view of a transaction that may be missing.
pub open spec fn optional_transaction(found: Option<&RawTransaction>) -> Option<RawTransactionView> {
    match found {
        Some(tx) => Some(tx@),
        None => None,
    }
}

/// The view of an output that an input spends, where it was resolved.
pub open spec fn optional_info(info: Option<VinOutput>) -> Option<VinOutputView> {
    match info {
        Some(i) => Some(i@),
        None => None,
    }
}

/// Chooses the output of an earlier transaction that an input spends, given
/// the identifiers of that transaction.
pub fn choose_output(
    fix_is_segwit: bool,
    input_vout: u32,
    previous: &RawTransaction,
    previous_txid: &[u8; 32],
    previous_wtxid: &[u8; 32],
    commit: &OutPoint,
) -> (info: Option<VinOutput>)
    ensures
        optional_info(info) == chosen_output(
            fix_is_segwit,
            input_vout,
            previous@,
            previous_txid@,
            previous_wtxid@,
            outpoint_view(*commit),
        ),
{
    let index: usize = if same_hash(previous_txid, &commit.txid) {
        commit.vout as usize
    } else {
        input_vout as usize
    };
    if index >= previous.output.len() {
        return None;
    }
    let output = &previous.output[index];
    assert(previous@.output[index as int] == output@);
    let is_segwit = if fix_is_segwit {
        is_witness_program(&output.script_pubkey)
    } else {
        !same_hash(previous_txid, previous_wtxid)
    };
    Some(
        VinOutput {
            value: output.value,
            script_pub_key: copy_bytes(&output.script_pubkey),
            is_segwit,
        },
    )
}

/// Reads the output that an input spends from the earlier transaction that
/// was found for it.
pub fn find_spent_output(
    config: &Config,
    height: u32,
    input: &TxIn,
    found: Option<&RawTransaction>,
    commit: &OutPoint,
) -> (info: Option<VinOutput>)
    ensures
        optional_info(info) == spent_output(
            *config,
            height,
            input@,
            optional_transaction(found),
            outpoint_view(*commit),
        ),
{
    match found {
        Some(previous) => choose_output(
            config.fix_is_segwit_enabled(height),
            input.previous_output.vout,
            previous,
            &compute_txid(previous),
            &compute_wtxid(previous),
            commit,
        ),
        None => None,
    }
}

/// Whether a transaction creates coins.
pub fn check_coinbase(tx: &RawTransaction) -> (coinbase: bool)
    ensures
        coinbase == is_coinbase(tx@),
{
    if tx.input.len() != 1 {
        return false;
    }
    let outpoint = &tx.input[0].previous_output;
    assert(tx@.input[0] == tx.input@[0]@);
    if outpoint.vout != u32::MAX {
        return false;
    }
    let mut k: usize = 0;
    while k < 32
        invariant
            k <= 32,
            tx@.input.len() == 1,
            tx@.input[0].vout == u32::MAX,
            tx@.input[0].txid == outpoint.txid@,
            forall|j: int| 0 <= j < k ==> outpoint.txid@[j] == 0,
        decreases 32 - k,
    {
        if outpoint.txid[k] != 0 {
            assert(tx@.input[0].txid[k as int] != 0);
            return false;
        }
        k += 1;
    }
    true
}

/// The all-zero identifier with the index zero.
fn null_commit_parent() -> (outpoint: OutPoint)
    ensures
        outpoint_view(outpoint) == no_commit_parent(),
{
    let outpoint = OutPoint { txid: [0u8; 32], vout: 0 };
    assert(outpoint.txid@ =~= no_commit_parent().0);
    outpoint
}

/// The earlier transaction to resolve the input at `index` against.
fn pick_found<'a>(
    answers: &'a Answers,
    wanted: bool,
    is_reveal_tx: bool,
    index: usize,
) -> (found: Option<&'a RawTransaction>)
    ensures
        optional_transaction(found) == found_for(
            resolved_previous(wanted, is_reveal_tx, answers@),
            index as int,
        ),
{
    if !wanted {
        return None;
    }
    let previous = match &answers.previous {
        Some(previous) => previous,
        None => {
            return None;
        },
    };
    if index >= previous.len() {
        return None;
    }
    let kept = match &previous[index] {
        Some(tx) => Some(tx),
        None => None,
    };
    if index > 0 || find_commit_parent(is_reveal_tx, previous).is_none() {
        return kept;
    }
    match &answers.commit_parent {
        Some(parent) => {
            if parent.len() > 0 {
                match &parent[0] {
                    Some(tx) => Some(tx),
                    None => None,
                }
            } else {
                kept
            }
        },
        None => kept,
    }
}

/// The commit parent to resolve the inputs with.
fn pick_commit_parent(answers: &Answers, wanted: bool, is_reveal_tx: bool) -> (commit: OutPoint)
    ensures
        outpoint_view(commit) == resolved_commit_parent(wanted, is_reveal_tx, answers@),
{
    if !wanted {
        return null_commit_parent();
    }
    match &answers.previous {
        Some(previous) => match find_commit_parent(is_reveal_tx, previous) {
            Some(parent) => parent,
            None => null_commit_parent(),
        },
        None => null_commit_parent(),
    }
}

/// Builds the record of a transaction from the transaction and from what
/// the node answered when it was asked for the transactions that the inputs
/// spend.
///
/// The record is that of [`spec_parse_transaction`]. Every input and every
/// output appears in it, whether or not the outputs decode; where they do
/// not, `parsed_vouts` holds the message of the failure.
pub fn parse_transaction(
    tx: &RawTransaction,
    config: &Config,
    height: u32,
    parse_vouts: bool,
    answers: &Answers,
) -> (record: Transaction)
    requires
        amounts_fit(tx@),
    ensures
        record@ == spec_parse_transaction(*config, height, parse_vouts, tx@, answers@),
{
    let (vtxinwit, segwit) = snapshot_witnesses(tx);
    let txid = compute_txid(tx);
    let tx_id = display_hash(&txid);
    let pass = if parse_vouts && config.multisig_addresses_enabled(height) {
        read_outputs(tx, config, height, &vtxinwit, &tx_id)
    } else {
        let pass = Pass {
            destinations: Vec::new(),
            btc_amount: 0,
            fee: 0,
            data: Vec::new(),
            potential_dispensers: Vec::new(),
            is_reveal_tx: false,
            error: None,
        };
        assert(pass@.destinations =~= empty_pass().destinations);
        assert(pass@.potential_dispensers =~= empty_pass().potential_dispensers);
        pass
    };
    let wanted = needs_inputs(&pass, config, height, parse_vouts);
    let is_reveal_tx = pass.is_reveal_tx;
    let commit = pick_commit_parent(answers, wanted, is_reveal_tx);
    let mut vin: Vec<Vin> = Vec::new();
    let mut i: usize = 0;
    while i < tx.input.len()
        invariant
            i <= tx.input@.len(),
            vin@.len() == i,
            outpoint_view(commit) == resolved_commit_parent(wanted, is_reveal_tx, answers@),
            forall|k: int|
                0 <= k < i ==> (#[trigger] vin@[k])@ == vin_of(
                    *config,
                    height,
                    tx@.input[k],
                    found_for(resolved_previous(wanted, is_reveal_tx, answers@), k),
                    outpoint_view(commit),
                ),
        decreases tx.input@.len() - i,
    {
        let input = &tx.input[i];
        assert(tx@.input[i as int] == input@);
        let found = pick_found(answers, wanted, is_reveal_tx, i);
        vin.push(
            Vin {
                hash: display_hash(&input.previous_output.txid),
                n: input.previous_output.vout,
                sequence: input.sequence,
                script_sig: copy_bytes(&input.script_sig),
                info: find_spent_output(config, height, input, found, &commit),
            },
        );
        i += 1;
    }
    let mut vout: Vec<Vout> = Vec::new();
    let mut j: usize = 0;
    while j < tx.output.len()
        invariant
            j <= tx.output@.len(),
            vout@.len() == j,
            forall|k: int|
                0 <= k < j ==> (#[trigger] vout@[k])@ == (VoutView {
                    value: tx@.output[k].value,
                    script_pub_key: tx@.output[k].script_pubkey,
                }),
        decreases tx.output@.len() - j,
    {
        let output = &tx.output[j];
        assert(tx@.output[j as int] == output@);
        vout.push(Vout { value: output.value, script_pub_key: copy_bytes(&output.script_pubkey) });
        j += 1;
    }
    let tx_hash = if segwit && config.correct_segwit_txids_enabled(height) {
        tx_id.clone()
    } else {
        display_hash(&sha256d_digest(&serialize(tx)))
    };
    let coinbase = check_coinbase(tx);
    let parsed_vouts = conclude(pass, config, height, parse_vouts);
    let record = Transaction {
        version: tx.version,
        segwit,
        coinbase,
        lock_time: tx.lock_time,
        tx_id,
        tx_hash,
        vtxinwit,
        vin,
        vout,
        parsed_vouts,
    };
    proof {
        let expected = spec_parse_transaction(*config, height, parse_vouts, tx@, answers@);
        assert(record@.vin =~= expected.vin);
        assert(record@.vout =~= expected.vout);
    }
    record
}

/// What to ask the node for next.
#[derive(Clone, Debug, PartialEq, Eq)]
pub enum Fetch {
    /// Nothing more: the record can be built.
    Nothing,
    /// The transactions with these identifiers, which the inputs spend.
    Previous(Vec<[u8; 32]>),
    /// The transaction with this identifier, which the commit transaction
    /// of a reveal spends.
    CommitParent([u8; 32]),
}

pub enum FetchView {
    Nothing,
    Previous(Seq<Seq<u8>>),
    CommitParent(Seq<u8>),
}

impl View for Fetch {
    type V = FetchView;

    open spec fn view(&self) -> FetchView {
        match self {
            Fetch::Nothing => FetchView::Nothing,
            Fetch::Previous(txids) => FetchView::Previous(
                txids@.map_values(|txid: [u8; 32]| txid@),
            ),
            Fetch::CommitParent(txid) => FetchView::CommitParent(txid@),
        }
    }
}

/// What to ask the node for next, given what it has answered so far: the
/// transactions that the inputs spend, where they are wanted and not yet
/// answered; then, for a reveal, the transaction that its commit
/// transaction spends; and then nothing.
pub open spec fn spec_next_request(
    config: Config,
    height: u32,
    parse_vouts: bool,
    tx: RawTransactionView,
    answers: AnswersView,
) -> FetchView {
    let state = gathered(config, height, parse_vouts, tx);
    if !wants_inputs(config, height, parse_vouts, state) {
        FetchView::Nothing
    } else if answers.previous is None {
        FetchView::Previous(Seq::new(tx.input.len(), |i: int| tx.input[i].txid))
    } else if commit_parent(state.is_reveal_tx, answers.previous.unwrap()) is Some
        && answers.commit_parent is None {
        FetchView::CommitParent(
            commit_parent(state.is_reveal_tx, answers.previous.unwrap()).unwrap().0,
        )
    } else {
        FetchView::Nothing
    }
}

/// Says what to ask the node for next, given what it has answered so far.
/// An answer that stays missing because the request failed ends the asking:
/// the record is then built without it.
pub fn next_request(
    tx: &RawTransaction,
    config: &Config,
    height: u32,
    parse_vouts: bool,
    answers: &Answers,
) -> (fetch: Fetch)
    requires
        amounts_fit(tx@),
    ensures
        fetch@ == spec_next_request(*config, height, parse_vouts, tx@, answers@),
{
    if !(parse_vouts && config.multisig_addresses_enabled(height)) {
        return Fetch::Nothing;
    }
    let (witnesses, _) = snapshot_witnesses(tx);
    let tx_id = display_hash(&compute_txid(tx));
    let pass = read_outputs(tx, config, height, &witnesses, &tx_id);
    if !needs_inputs(&pass, config, height, parse_vouts) {
        return Fetch::Nothing;
    }
    match &answers.previous {
        None => {
            let mut txids: Vec<[u8; 32]> = Vec::new();
            let mut i: usize = 0;
            while i < tx.input.len()
                invariant
                    i <= tx.input@.len(),
                    txids@.len() == i,
                    forall|k: int| 0 <= k < i ==> (#[trigger] txids@[k])@ == tx@.input[k].txid,
                decreases tx.input@.len() - i,
            {
                assert(tx@.input[i as int] == tx.input@[i as int]@);
                txids.push(tx.input[i].previous_output.txid);
                i += 1;
            }
            let fetch = Fetch::Previous(txids);
            assert(fetch@->Previous_0 =~= Seq::new(
                tx@.input.len(),
                |i: int| tx@.input[i].txid,
            ));
            fetch
        },
        Some(previous) => match find_commit_parent(pass.is_reveal_tx, previous) {
            Some(parent) => if answers.commit_parent.is_none() {
                Fetch::CommitParent(parent.txid)
            } else {
                Fetch::Nothing
            },
            None => Fetch::Nothing,
        },
    }
}

/// The record of a transaction holds one witness stack for each input, of
/// as many elements as the input's witness has, and its witness flag is set
/// exactly where some input has a witness that is not empty.
pub proof fn lemma_witnesses_mirror_inputs(
    config: Config,
    height: u32,
    parse_vouts: bool,
    tx: RawTransactionView,
    answers: AnswersView,
)
    ensures
        ({
            let record = spec_parse_transaction(config, height, parse_vouts, tx, answers);
            &&& record.vtxinwit.len() == record.vin.len()
            &&& record.vin.len() == tx.input.len()
            &&& record.vout.len() == tx.output.len()
            &&& forall|i: int|
                0 <= i < tx.input.len() ==> (#[trigger] record.vtxinwit[i]).len()
                    == tx.input[i].witness.len()
            &&& record.segwit <==> exists|i: int|
                0 <= i < tx.input.len() && (#[trigger] tx.input[i]).witness.len() > 0
            &&& record.segwit <==> exists|i: int|
                0 <= i < record.vtxinwit.len() && (#[trigger] record.vtxinwit[i]).len() > 0
        }),
{
    let record = spec_parse_transaction(config, height, parse_vouts, tx, answers);
    if record.segwit {
        let i = choose|i: int| 0 <= i < tx.input.len() && (#[trigger] tx.input[i]).witness.len() > 0;
        assert(record.vtxinwit[i].len() > 0);
    }
    if exists|i: int| 0 <= i < record.vtxinwit.len() && (#[trigger] record.vtxinwit[i]).len() > 0 {
        let i = choose|i: int|
            0 <= i < record.vtxinwit.len() && (#[trigger] record.vtxinwit[i]).len() > 0;
        assert(tx.input[i].witness.len() > 0);
    }
}

/// How one decoded output changes what has been gathered. Its value is
/// taken off the fee and its note is kept. A destination is listed and its
/// value added to the amount while no data has been seen and the
/// destinations are not the unspendable address alone; otherwise it ends
/// the reading and changes nothing else. Data is appended to the payload,
/// or what the witness yielded in its place.
pub proof fn lemma_decoded_output_step(
    state: PassView,
    value: u64,
    output: ParseOutputView,
    note: PotentialDispenserView,
    unspendable: Seq<char>,
    found: Option<Result<Seq<u8>, Seq<char>>>,
)
    ensures
        ({
            let (next, reading) = after_outcome(state, value, Ok((output, note)), unspendable, found);
            &&& next.fee == state.fee - value
            &&& next.potential_dispensers == state.potential_dispensers.push(note)
            &&& match output {
                ParseOutputView::Destination(address) => {
                    if state.data.len() == 0 && state.destinations != seq![unspendable] {
                        &&& reading
                        &&& next.destinations == state.destinations.push(address)
                        &&& next.btc_amount == state.btc_amount + value
                        &&& next.data == state.data
                    } else {
                        &&& !reading
                        &&& next.destinations == state.destinations
                        &&& next.btc_amount == state.btc_amount
                        &&& next.data == state.data
                    }
                },
                ParseOutputView::Data(bytes) => {
                    &&& reading
                    &&& next.destinations == state.destinations
                    &&& next.btc_amount == state.btc_amount
                    &&& match found {
                        None => next.data == state.data + bytes && next.error == state.error,
                        Some(Ok(payload)) => next.data == state.data + payload
                            && next.is_reveal_tx,
                        Some(Err(message)) => next.data == state.data && next.error == Some(
                            message,
                        ),
                    }
                },
            }
        }),
{
}

/// The witness stacks in the record read back as the witnesses of the inputs.
pub proof fn lemma_snapshot_reads_back(tx: RawTransactionView, i: int, j: int)
    requires
        0 <= i < tx.input.len(),
        0 <= j < tx.input[i].witness.len(),
    ensures
        hex_decoding(witness_snapshot(tx)[i][j]) == Some(tx.input[i].witness[j]),
{
    crate::hexadecimal::lemma_hex_round_trip(tx.input[i].witness[j]);
}

/// While the outputs are still read, every output so far has been taken
/// off the fee and has left its note.
pub proof fn lemma_read_outputs_are_charged(
    config: Config,
    height: u32,
    tx: RawTransactionView,
    count: nat,
)
    requires
        pass_after(config, height, tx, count).1,
    ensures
        pass_after(config, height, tx, count).0.fee == -total_value(tx.output, count),
        pass_after(config, height, tx, count).0.potential_dispensers.len() == count,
    decreases count,
{
    if count > 0 {
        lemma_read_outputs_are_charged(config, height, tx, (count - 1) as nat);
    }
}

/// A payload that is not empty comes from an output that decoded to data.
pub proof fn lemma_data_comes_from_an_output(
    config: Config,
    height: u32,
    tx: RawTransactionView,
    count: nat,
)
    requires
        pass_after(config, height, tx, count).0.data.len() > 0,
    ensures
        exists|i: int|
            0 <= i < count && (#[trigger] spec_parse_vout(
                config,
                decryption_key(tx),
                height,
                displayed(txid_of(tx)),
                i as nat,
                tx.output[i],
            )) matches Ok((ParseOutputView::Data(_), _)),
    decreases count,
{
    if count > 0 {
        let previous = (count - 1) as nat;
        let (state, reading) = pass_after(config, height, tx, previous);
        let outcome = spec_parse_vout(
            config,
            decryption_key(tx),
            height,
            displayed(txid_of(tx)),
            previous,
            tx.output[count - 1],
        );
        if state.data.len() > 0 {
            lemma_data_comes_from_an_output(config, height, tx, previous);
        } else {
            assert(reading);
            assert(outcome matches Ok((ParseOutputView::Data(_), _)));
        }
    }
}

/// Where the outputs that the inputs spend are not wanted, the answers of
/// the node do not change the record, and no input is resolved.
pub proof fn lemma_unwanted_answers_do_not_matter(
    config: Config,
    height: u32,
    parse_vouts: bool,
    tx: RawTransactionView,
    first: AnswersView,
    second: AnswersView,
)
    requires
        !wants_inputs(config, height, parse_vouts, gathered(config, height, parse_vouts, tx)),
    ensures
        spec_parse_transaction(config, height, parse_vouts, tx, first) == spec_parse_transaction(
            config,
            height,
            parse_vouts,
            tx,
            second,
        ),
        forall|i: int|
            0 <= i < tx.input.len() ==> (#[trigger] spec_parse_transaction(
                config,
                height,
                parse_vouts,
                tx,
                first,
            ).vin[i]).info is None,
{
    let a = spec_parse_transaction(config, height, parse_vouts, tx, first);
    let b = spec_parse_transaction(config, height, parse_vouts, tx, second);
    assert(a.vin =~= b.vin);
}

} // verus!
