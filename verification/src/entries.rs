//! The index entries that a block gives rise to.

use crate::chain::{
    block_hash, block_hash_of, compute_txid, txid_of, OutPoint, RawBlock, RawBlockView,
    RawTransaction, RawTransactionView,
};
use crate::config::Mode;
use crate::digest::{script_hash, script_hash_of};
use vstd::prelude::*;

verus! {

/// One entry of the index.
#[derive(Clone, Copy, Debug, PartialEq, Eq)]
pub enum Entry {
    /// The block at a height has a hash.
    BlockAtHeightHasHash { height: u32, hash: [u8; 32] },
    /// A transaction is in the block at a height.
    TxInBlockAtHeight { txid: [u8; 32], height: u32 },
    /// The block at a height spends an output in a transaction.
    BlockAtHeightSpentOutputInTx { txid: [u8; 32], vout: u32, height: u32 },
    /// A script has outputs in the block at a height.
    ScriptHashHasOutputsInBlockAtHeight { script_hash: [u8; 20], height: u32 },
}

pub enum EntryView {
    BlockAtHeightHasHash { height: u32, hash: Seq<u8> },
    TxInBlockAtHeight { txid: Seq<u8>, height: u32 },
    BlockAtHeightSpentOutputInTx { txid: Seq<u8>, vout: u32, height: u32 },
    ScriptHashHasOutputsInBlockAtHeight { script_hash: Seq<u8>, height: u32 },
}

impl View for Entry {
    type V = EntryView;

    open spec fn view(&self) -> EntryView {
        match self {
            Entry::BlockAtHeightHasHash { height, hash } => EntryView::BlockAtHeightHasHash {
                height: *height,
                hash: hash@,
            },
            Entry::TxInBlockAtHeight { txid, height } => EntryView::TxInBlockAtHeight {
                txid: txid@,
                height: *height,
            },
            Entry::BlockAtHeightSpentOutputInTx {
                txid,
                vout,
                height,
            } => EntryView::BlockAtHeightSpentOutputInTx {
                txid: txid@,
                vout: *vout,
                height: *height,
            },
            Entry::ScriptHashHasOutputsInBlockAtHeight {
                script_hash,
                height,
            } => EntryView::ScriptHashHasOutputsInBlockAtHeight {
                script_hash: script_hash@,
                height: *height,
            },
        }
    }
}

/// The views of a list of entries, in order.
pub open spec fn entry_views(entries: Seq<Entry>) -> Seq<EntryView> {
    entries.map_values(|entry: Entry| entry@)
}

/// What the index needs of a transaction: its identifier, the outputs that
/// its inputs spend, and the script hashes of its outputs.
#[derive(Clone, Debug, PartialEq, Eq)]
pub struct TxSummary {
    pub txid: [u8; 32],
    pub spent: Vec<OutPoint>,
    pub script_hashes: Vec<[u8; 20]>,
}

pub struct TxSummaryView {
    pub txid: Seq<u8>,
    pub spent: Seq<(Seq<u8>, u32)>,
    pub script_hashes: Seq<Seq<u8>>,
}

impl View for TxSummary {
    type V = TxSummaryView;

    open spec fn view(&self) -> TxSummaryView {
        TxSummaryView {
            txid: self.txid@,
            spent: self.spent@.map_values(|o: OutPoint| (o.txid@, o.vout)),
            script_hashes: self.script_hashes@.map_values(|h: [u8; 20]| h@),
        }
    }
}

/// The views of a list of summaries, in order.
pub open spec fn summary_views(txs: Seq<TxSummary>) -> Seq<TxSummaryView> {
    txs.map_values(|tx: TxSummary| tx@)
}

/// What the index needs of a transaction.
pub open spec fn summary_of(tx: RawTransactionView) -> TxSummaryView {
    TxSummaryView {
        txid: txid_of(tx),
        spent: Seq::new(tx.input.len(), |i: int| (tx.input[i].txid, tx.input[i].vout)),
        script_hashes: Seq::new(
            tx.output.len(),
            |j: int| script_hash(tx.output[j].script_pubkey),
        ),
    }
}

/// What the index needs of the transactions of a block, in order.
pub open spec fn block_summaries(block: RawBlockView) -> Seq<TxSummaryView> {
    Seq::new(block.txdata.len(), |t: int| summary_of(block.txdata[t]))
}

/// The script hash of the output `j` of the transaction `t`.
pub open spec fn output_hash(txs: Seq<TxSummaryView>, t: int, j: int) -> Seq<u8> {
    txs[t].script_hashes[j]
}

/// Whether the output `b` of the transaction `a` comes before the output
/// `j` of the transaction `t` and has the script hash `hash`.
pub open spec fn is_earlier_output(
    txs: Seq<TxSummaryView>,
    t: int,
    j: int,
    hash: Seq<u8>,
    a: int,
    b: int,
) -> bool {
    &&& 0 <= a < txs.len()
    &&& 0 <= b < txs[a].script_hashes.len()
    &&& a < t || (a == t && b < j)
    &&& output_hash(txs, a, b) == hash
}

/// Whether an output before the output `j` of the transaction `t` has the
/// script hash `hash`.
pub open spec fn seen_earlier(txs: Seq<TxSummaryView>, t: int, j: int, hash: Seq<u8>) -> bool {
    exists|a: int, b: int| is_earlier_output(txs, t, j, hash, a, b)
}

/// The entries for the inputs of a transaction: one for each, in order.
pub open spec fn input_entries(tx: TxSummaryView, height: u32) -> Seq<EntryView> {
    Seq::new(
        tx.spent.len(),
        |i: int|
            EntryView::BlockAtHeightSpentOutputInTx {
                txid: tx.spent[i].0,
                vout: tx.spent[i].1,
                height,
            },
    )
}

/// The entries for the first `count` outputs of the transaction `t`: one
/// for each output whose script hash no earlier output of the block has.
pub open spec fn output_entries(txs: Seq<TxSummaryView>, t: int, count: nat, height: u32) -> Seq<
    EntryView,
>
    decreases count,
{
    if count == 0 {
        Seq::empty()
    } else {
        let before = output_entries(txs, t, (count - 1) as nat, height);
        if seen_earlier(txs, t, count - 1, output_hash(txs, t, count - 1)) {
            before
        } else {
            before.push(
                EntryView::ScriptHashHasOutputsInBlockAtHeight {
                    script_hash: output_hash(txs, t, count - 1),
                    height,
                },
            )
        }
    }
}

/// The entries for the transaction `t`: the transaction, its inputs, its
/// outputs.
pub open spec fn transaction_entries(txs: Seq<TxSummaryView>, t: int, height: u32) -> Seq<
    EntryView,
> {
    seq![EntryView::TxInBlockAtHeight { txid: txs[t].txid, height }] + input_entries(
        txs[t],
        height,
    ) + output_entries(txs, t, txs[t].script_hashes.len(), height)
}

/// The entries for the first `count` transactions.
pub open spec fn transactions_entries(txs: Seq<TxSummaryView>, count: nat, height: u32) -> Seq<
    EntryView,
>
    decreases count,
{
    if count == 0 {
        Seq::empty()
    } else {
        transactions_entries(txs, (count - 1) as nat, height) + transaction_entries(
            txs,
            count - 1,
            height,
        )
    }
}

/// The entries of a block with the hash `hash` at a height: the block's
/// hash, and unless only that is fetched, the entries of its transactions
/// in order.
pub open spec fn entries_of(hash: Seq<u8>, txs: Seq<TxSummaryView>, mode: Mode, height: u32) -> Seq<
    EntryView,
> {
    seq![EntryView::BlockAtHeightHasHash { height, hash }] + if mode == Mode::Fetcher {
        Seq::empty()
    } else {
        transactions_entries(txs, txs.len(), height)
    }
}

/// The entries of a block at a height.
pub open spec fn spec_get_entries(block: RawBlockView, mode: Mode, height: u32) -> Seq<EntryView> {
    entries_of(block_hash_of(block.header), block_summaries(block), mode, height)
}

/// Whether a script hash stands in a list.
pub open spec fn listed(seen: Seq<[u8; 20]>, hash: Seq<u8>) -> bool {
    exists|k: int| 0 <= k < seen.len() && (#[trigger] seen[k])@ == hash
}

/// Whether a script hash stands in a list.
fn is_listed(seen: &Vec<[u8; 20]>, hash: &[u8; 20]) -> (found: bool)
    ensures
        found == listed(seen@, hash@),
{
    let mut k: usize = 0;
    while k < seen.len()
        invariant
            k <= seen@.len(),
            forall|i: int| 0 <= i < k ==> (#[trigger] seen@[i])@ != hash@,
        decreases seen@.len() - k,
    {
        let candidate = &seen[k];
        let mut same = true;
        let mut b: usize = 0;
        while b < 20
            invariant
                b <= 20,
                same == (forall|i: int| 0 <= i < b ==> candidate@[i] == hash@[i]),
            decreases 20 - b,
        {
            if candidate[b] != hash[b] {
                same = false;
            }
            b += 1;
        }
        if same {
            assert(candidate@ =~= hash@);
            return true;
        }
        k += 1;
    }
    false
}

proof fn lemma_seen_step(txs: Seq<TxSummaryView>, t: int, j: int, hash: Seq<u8>)
    requires
        0 <= t < txs.len(),
        0 <= j < txs[t].script_hashes.len(),
    ensures
        seen_earlier(txs, t, j + 1, hash) <==> (seen_earlier(txs, t, j, hash) || output_hash(
            txs,
            t,
            j,
        ) == hash),
{
    let next = j + 1;
    if seen_earlier(txs, t, next, hash) {
        let (a, b) = choose|a: int, b: int| is_earlier_output(txs, t, next, hash, a, b);
        if !(a == t && b == j) {
            assert(is_earlier_output(txs, t, j, hash, a, b));
        }
    }
    if seen_earlier(txs, t, j, hash) {
        let (a, b) = choose|a: int, b: int| is_earlier_output(txs, t, j, hash, a, b);
        assert(is_earlier_output(txs, t, next, hash, a, b));
    }
    if output_hash(txs, t, j) == hash {
        assert(is_earlier_output(txs, t, next, hash, t, j));
    }
}

proof fn lemma_seen_next_transaction(txs: Seq<TxSummaryView>, t: int, hash: Seq<u8>)
    requires
        0 <= t < txs.len(),
    ensures
        seen_earlier(txs, t + 1, 0, hash) <==> seen_earlier(
            txs,
            t,
            txs[t].script_hashes.len() as int,
            hash,
        ),
{
    let n = txs[t].script_hashes.len() as int;
    let next = t + 1;
    if seen_earlier(txs, next, 0, hash) {
        let (a, b) = choose|a: int, b: int| is_earlier_output(txs, next, 0, hash, a, b);
        assert(is_earlier_output(txs, t, n, hash, a, b));
    }
    if seen_earlier(txs, t, n, hash) {
        let (a, b) = choose|a: int, b: int| is_earlier_output(txs, t, n, hash, a, b);
        assert(is_earlier_output(txs, next, 0, hash, a, b));
    }
}

proof fn lemma_nothing_seen_at_start(txs: Seq<TxSummaryView>, hash: Seq<u8>)
    ensures
        !seen_earlier(txs, 0, 0, hash),
{
    if seen_earlier(txs, 0, 0, hash) {
        let (a, b) = choose|a: int, b: int| is_earlier_output(txs, 0, 0, hash, a, b);
        assert(false);
    }
}

/// Gathers what the index needs of a transaction.
pub fn summarize(tx: &RawTransaction) -> (summary: TxSummary)
    ensures
        summary@ == summary_of(tx@),
{
    let mut spent: Vec<OutPoint> = Vec::new();
    let mut i: usize = 0;
    while i < tx.input.len()
        invariant
            i <= tx.input@.len(),
            spent@.len() == i,
            forall|k: int|
                0 <= k < i ==> (#[trigger] spent@[k]).txid@ == tx@.input[k].txid && spent@[k].vout
                    == tx@.input[k].vout,
        decreases tx.input@.len() - i,
    {
        assert(tx@.input[i as int] == tx.input@[i as int]@);
        spent.push(tx.input[i].previous_output);
        i += 1;
    }
    let mut script_hashes: Vec<[u8; 20]> = Vec::new();
    let mut j: usize = 0;
    while j < tx.output.len()
        invariant
            j <= tx.output@.len(),
            script_hashes@.len() == j,
            forall|k: int|
                0 <= k < j ==> (#[trigger] script_hashes@[k])@ == script_hash(
                    tx@.output[k].script_pubkey,
                ),
        decreases tx.output@.len() - j,
    {
        assert(tx@.output[j as int] == tx.output@[j as int]@);
        script_hashes.push(script_hash_of(&tx.output[j].script_pubkey));
        j += 1;
    }
    let summary = TxSummary { txid: compute_txid(tx), spent, script_hashes };
    assert(summary@.spent =~= summary_of(tx@).spent);
    assert(summary@.script_hashes =~= summary_of(tx@).script_hashes);
    summary
}

/// The index entries of a block with the hash `hash` at `height`: the
/// entry of the block's hash first and, unless only that is fetched, one
/// entry for each transaction, each followed by one for each of its inputs
/// and by one for each script hash among its outputs that no earlier output
/// of the block has.
pub fn emit_entries(hash: &[u8; 32], summaries: &Vec<TxSummary>, mode: Mode, height: u32) -> (entries:
    Vec<Entry>)
    ensures
        entry_views(entries@) == entries_of(hash@, summary_views(summaries@), mode, height),
{
    let mut entries: Vec<Entry> = Vec::new();
    entries.push(Entry::BlockAtHeightHasHash { height, hash: *hash });
    let ghost head = seq![EntryView::BlockAtHeightHasHash { height, hash: hash@ }];
    assert(entry_views(entries@) =~= head);
    match mode {
        Mode::Fetcher => {
            assert(head + Seq::<EntryView>::empty() =~= head);
            return entries;
        },
        Mode::Indexer => {},
    }
    let ghost txs = summary_views(summaries@);
    let mut seen: Vec<[u8; 20]> = Vec::new();
    let mut t: usize = 0;
    assert(entry_views(entries@) =~= head + transactions_entries(txs, 0, height));
    assert forall|hash: Seq<u8>| listed(seen@, hash) <==> seen_earlier(txs, 0, 0, hash) by {
        lemma_nothing_seen_at_start(txs, hash);
    }
    while t < summaries.len()
        invariant
            t <= summaries@.len(),
            txs == summary_views(summaries@),
            entry_views(entries@) == head + transactions_entries(txs, t as nat, height),
            forall|hash: Seq<u8>| listed(seen@, hash) <==> seen_earlier(txs, t as int, 0, hash),
        decreases summaries@.len() - t,
    {
        let tx = &summaries[t];
        assert(txs[t as int] == tx@);
        let ghost base = entry_views(entries@);
        entries.push(Entry::TxInBlockAtHeight { txid: tx.txid, height });
        let ghost opened = base.push(EntryView::TxInBlockAtHeight { txid: tx@.txid, height });
        assert(entry_views(entries@) =~= opened);
        let mut i: usize = 0;
        while i < tx.spent.len()
            invariant
                i <= tx.spent@.len(),
                entry_views(entries@) == opened + input_entries(tx@, height).take(i as int),
            decreases tx.spent@.len() - i,
        {
            let outpoint = &tx.spent[i];
            assert(tx@.spent[i as int] == (outpoint.txid@, outpoint.vout));
            let ghost so_far = entry_views(entries@);
            entries.push(
                Entry::BlockAtHeightSpentOutputInTx {
                    txid: outpoint.txid,
                    vout: outpoint.vout,
                    height,
                },
            );
            i += 1;
            assert(entry_views(entries@) =~= so_far.push(input_entries(tx@, height)[i - 1]));
            assert(input_entries(tx@, height).take(i as int) =~= input_entries(tx@, height).take(
                i - 1,
            ).push(input_entries(tx@, height)[i - 1]));
        }
        assert(input_entries(tx@, height).take(tx.spent@.len() as int) =~= input_entries(
            tx@,
            height,
        ));
        let ghost spent = opened + input_entries(tx@, height);
        let mut j: usize = 0;
        while j < tx.script_hashes.len()
            invariant
                j <= tx.script_hashes@.len(),
                t < summaries@.len(),
                txs == summary_views(summaries@),
                txs[t as int] == tx@,
                entry_views(entries@) == spent + output_entries(txs, t as int, j as nat, height),
                forall|hash: Seq<u8>|
                    listed(seen@, hash) <==> seen_earlier(txs, t as int, j as int, hash),
            decreases tx.script_hashes@.len() - j,
        {
            let hash = tx.script_hashes[j];
            assert(hash@ == output_hash(txs, t as int, j as int));
            let ghost so_far = entry_views(entries@);
            let ghost listed_before = seen@;
            if !is_listed(&seen, &hash) {
                seen.push(hash);
                entries.push(
                    Entry::ScriptHashHasOutputsInBlockAtHeight { script_hash: hash, height },
                );
                assert(entry_views(entries@) =~= so_far.push(
                    EntryView::ScriptHashHasOutputsInBlockAtHeight { script_hash: hash@, height },
                ));
                assert forall|h: Seq<u8>| listed(seen@, h) <==> (listed(listed_before, h) || h
                    == hash@) by {
                    if listed(seen@, h) {
                        let k = choose|k: int| 0 <= k < seen@.len() && (#[trigger] seen@[k])@ == h;
                        if k < listed_before.len() {
                            assert(listed_before[k]@ == h);
                        }
                    }
                    if listed(listed_before, h) {
                        let k = choose|k: int|
                            0 <= k < listed_before.len() && (#[trigger] listed_before[k])@ == h;
                        assert(seen@[k]@ == h);
                    }
                    if h == hash@ {
                        assert(seen@[seen@.len() - 1]@ == h);
                    }
                }
            }
            assert forall|h: Seq<u8>| listed(seen@, h) <==> seen_earlier(
                txs,
                t as int,
                j + 1,
                h,
            ) by {
                lemma_seen_step(txs, t as int, j as int, h);
                assert(listed(listed_before, h) <==> seen_earlier(txs, t as int, j as int, h));
                assert(listed(seen@, h) <==> (listed(listed_before, h) || h == hash@));
            }
            j += 1;
        }
        assert forall|hash: Seq<u8>| listed(seen@, hash) <==> seen_earlier(txs, t + 1, 0, hash) by {
            lemma_seen_next_transaction(txs, t as int, hash);
        }
        assert(entry_views(entries@) =~= head + transactions_entries(txs, (t + 1) as nat, height));
        t += 1;
    }
    entries
}

impl RawBlock {
    /// The hash of the block before this one.
    pub fn get_prev_block_hash(&self) -> (hash: &[u8; 32])
        ensures
            hash@ == self@.header.prev_blockhash,
    {
        &self.header.prev_blockhash
    }

    /// The index entries of this block at `height`.
    pub fn get_entries(&self, mode: Mode, height: u32) -> (entries: Vec<Entry>)
        ensures
            entry_views(entries@) == spec_get_entries(self@, mode, height),
    {
        let mut summaries: Vec<TxSummary> = Vec::new();
        let mut t: usize = 0;
        while t < self.txdata.len()
            invariant
                t <= self.txdata@.len(),
                summaries@.len() == t,
                forall|k: int|
                    0 <= k < t ==> (#[trigger] summaries@[k])@ == summary_of(self@.txdata[k]),
            decreases self.txdata@.len() - t,
        {
            assert(self@.txdata[t as int] == self.txdata@[t as int]@);
            summaries.push(summarize(&self.txdata[t]));
            t += 1;
        }
        assert(summary_views(summaries@) =~= block_summaries(self@));
        emit_entries(&block_hash(&self.header), &summaries, mode, height)
    }
}

/// The script hashes of the outputs before the output `j` of the
/// transaction `t`, in the order of the block.
pub open spec fn hashes_before(txs: Seq<TxSummaryView>, t: nat, j: nat) -> Seq<Seq<u8>>
    decreases t, j,
{
    if j > 0 {
        hashes_before(txs, t, (j - 1) as nat).push(output_hash(txs, t as int, j - 1))
    } else if t > 0 {
        hashes_before(txs, (t - 1) as nat, txs[t - 1].script_hashes.len())
    } else {
        Seq::empty()
    }
}

/// The script hashes of all outputs of a block, in order.
pub open spec fn output_hashes(txs: Seq<TxSummaryView>) -> Seq<Seq<u8>> {
    hashes_before(txs, txs.len(), 0)
}

/// The script hashes that a list of entries names, in order.
pub open spec fn script_hashes_in(entries: Seq<EntryView>) -> Seq<Seq<u8>>
    decreases entries.len(),
{
    if entries.len() == 0 {
        Seq::empty()
    } else {
        let before = script_hashes_in(entries.drop_last());
        match entries.last() {
            EntryView::ScriptHashHasOutputsInBlockAtHeight { script_hash, .. } => before.push(
                script_hash,
            ),
            _ => before,
        }
    }
}

/// A list without its repetitions: each value once, at the place where it
/// first occurs.
pub open spec fn first_occurrences(hashes: Seq<Seq<u8>>) -> Seq<Seq<u8>>
    decreases hashes.len(),
{
    if hashes.len() == 0 {
        Seq::empty()
    } else {
        let before = first_occurrences(hashes.drop_last());
        if hashes.drop_last().contains(hashes.last()) {
            before
        } else {
            before.push(hashes.last())
        }
    }
}

proof fn lemma_seen_is_contained(txs: Seq<TxSummaryView>, t: nat, j: nat, hash: Seq<u8>)
    requires
        t < txs.len() && j <= txs[t as int].script_hashes.len() || t == txs.len() && j == 0,
    ensures
        seen_earlier(txs, t as int, j as int, hash) <==> hashes_before(txs, t, j).contains(hash),
    decreases t, j,
{
    let here = hashes_before(txs, t, j);
    if j > 0 {
        let before = hashes_before(txs, t, (j - 1) as nat);
        lemma_seen_is_contained(txs, t, (j - 1) as nat, hash);
        lemma_seen_step(txs, t as int, j - 1, hash);
        let last = output_hash(txs, t as int, j - 1);
        assert(here == before.push(last));
        if before.contains(hash) {
            let k = choose|k: int| 0 <= k < before.len() && before[k] == hash;
            assert(here[k] == hash);
        }
        if last == hash {
            assert(here[here.len() - 1] == hash);
        }
        if here.contains(hash) {
            let k = choose|k: int| 0 <= k < here.len() && here[k] == hash;
            if k < before.len() {
                assert(before[k] == hash);
            }
        }
    } else if t > 0 {
        let n = txs[t - 1].script_hashes.len();
        lemma_seen_is_contained(txs, (t - 1) as nat, n, hash);
        lemma_seen_next_transaction(txs, t - 1, hash);
    } else {
        lemma_nothing_seen_at_start(txs, hash);
    }
}

proof fn lemma_script_hashes_concat(a: Seq<EntryView>, b: Seq<EntryView>)
    ensures
        script_hashes_in(a + b) == script_hashes_in(a) + script_hashes_in(b),
    decreases b.len(),
{
    if b.len() == 0 {
        assert(a + b =~= a);
        assert(script_hashes_in(a) + script_hashes_in(b) =~= script_hashes_in(a));
    } else {
        lemma_script_hashes_concat(a, b.drop_last());
        assert((a + b).drop_last() =~= a + b.drop_last());
        assert((a + b).last() == b.last());
        let head = script_hashes_in(a) + script_hashes_in(b.drop_last());
        match b.last() {
            EntryView::ScriptHashHasOutputsInBlockAtHeight { script_hash, .. } => {
                assert(head.push(script_hash) =~= script_hashes_in(a) + script_hashes_in(
                    b.drop_last(),
                ).push(script_hash));
            },
            _ => {},
        }
    }
}

proof fn lemma_no_script_hashes(entries: Seq<EntryView>)
    requires
        forall|i: int|
            0 <= i < entries.len() ==> !(#[trigger] entries[i]
                is ScriptHashHasOutputsInBlockAtHeight),
    ensures
        script_hashes_in(entries) == Seq::<Seq<u8>>::empty(),
    decreases entries.len(),
{
    if entries.len() > 0 {
        let rest = entries.drop_last();
        assert forall|i: int| 0 <= i < rest.len() implies !(#[trigger] rest[i]
            is ScriptHashHasOutputsInBlockAtHeight) by {
            assert(rest[i] == entries[i]);
        }
        lemma_no_script_hashes(rest);
        assert(!(entries[entries.len() - 1] is ScriptHashHasOutputsInBlockAtHeight));
    }
}

proof fn lemma_output_entries_are_first_occurrences(
    txs: Seq<TxSummaryView>,
    t: nat,
    j: nat,
    height: u32,
)
    requires
        t < txs.len(),
        j <= txs[t as int].script_hashes.len(),
    ensures
        first_occurrences(hashes_before(txs, t, j)) == first_occurrences(hashes_before(txs, t, 0))
            + script_hashes_in(output_entries(txs, t as int, j, height)),
    decreases j,
{
    let start = first_occurrences(hashes_before(txs, t, 0));
    if j == 0 {
        assert(start + script_hashes_in(output_entries(txs, t as int, 0, height)) =~= start);
    } else {
        let previous = (j - 1) as nat;
        lemma_output_entries_are_first_occurrences(txs, t, previous, height);
        let hash = output_hash(txs, t as int, j - 1);
        let before = hashes_before(txs, t, previous);
        let here = hashes_before(txs, t, j);
        assert(here == before.push(hash));
        assert(here.drop_last() =~= before);
        assert(here.last() == hash);
        lemma_seen_is_contained(txs, t, previous, hash);
        let entries_before = output_entries(txs, t as int, previous, height);
        if !seen_earlier(txs, t as int, j - 1, hash) {
            let entry = EntryView::ScriptHashHasOutputsInBlockAtHeight { script_hash: hash, height };
            assert(entries_before.push(entry).drop_last() =~= entries_before);
            assert(start + script_hashes_in(entries_before).push(hash) =~= (start
                + script_hashes_in(entries_before)).push(hash));
        }
    }
}

proof fn lemma_transactions_entries_are_first_occurrences(
    txs: Seq<TxSummaryView>,
    count: nat,
    height: u32,
)
    requires
        count <= txs.len(),
    ensures
        script_hashes_in(transactions_entries(txs, count, height)) == first_occurrences(
            hashes_before(txs, count, 0),
        ),
    decreases count,
{
    if count > 0 {
        let t = (count - 1) as nat;
        lemma_transactions_entries_are_first_occurrences(txs, t, height);
        let opening = seq![EntryView::TxInBlockAtHeight { txid: txs[t as int].txid, height }];
        let inputs = input_entries(txs[t as int], height);
        let outputs = output_entries(txs, t as int, txs[t as int].script_hashes.len(), height);
        lemma_no_script_hashes(opening);
        lemma_no_script_hashes(inputs);
        lemma_script_hashes_concat(opening, inputs);
        lemma_script_hashes_concat(opening + inputs, outputs);
        lemma_script_hashes_concat(
            transactions_entries(txs, t, height),
            transaction_entries(txs, t as int, height),
        );
        lemma_output_entries_are_first_occurrences(
            txs,
            t,
            txs[t as int].script_hashes.len(),
            height,
        );
        assert(script_hashes_in(opening + inputs) =~= Seq::<Seq<u8>>::empty());
        assert(script_hashes_in(transaction_entries(txs, t as int, height)) =~= script_hashes_in(
            outputs,
        ));
    }
}

/// The first entry of a block says which hash the block at the height has.
/// Where only the hash is fetched, it is the only entry.
pub proof fn lemma_block_entry_comes_first(block: RawBlockView, mode: Mode, height: u32)
    ensures
        spec_get_entries(block, mode, height).len() >= 1,
        spec_get_entries(block, mode, height)[0] == (EntryView::BlockAtHeightHasHash {
            height,
            hash: block_hash_of(block.header),
        }),
        mode == Mode::Fetcher ==> spec_get_entries(block, mode, height).len() == 1,
{
}

/// The script hashes that the entries of a block name are the script hashes
/// of its outputs without their repetitions: each once, in the order in
/// which they first occur.
pub proof fn lemma_script_hashes_once(hash: Seq<u8>, txs: Seq<TxSummaryView>, height: u32)
    ensures
        script_hashes_in(entries_of(hash, txs, Mode::Indexer, height)) == first_occurrences(
            output_hashes(txs),
        ),
{
    let head = seq![EntryView::BlockAtHeightHasHash { height, hash }];
    let rest = transactions_entries(txs, txs.len(), height);
    lemma_no_script_hashes(head);
    lemma_script_hashes_concat(head, rest);
    lemma_transactions_entries_are_first_occurrences(txs, txs.len(), height);
    assert(script_hashes_in(head) + script_hashes_in(rest) =~= script_hashes_in(rest));
}

/// The script hashes that the entries of a block name are those of the
/// block's outputs in the order in which they first occur: none is named
/// twice, and that of every output is named.
pub proof fn lemma_block_script_hashes_once(block: RawBlockView, height: u32)
    ensures
        script_hashes_in(spec_get_entries(block, Mode::Indexer, height)) == first_occurrences(
            output_hashes(block_summaries(block)),
        ),
        script_hashes_in(spec_get_entries(block, Mode::Indexer, height)).no_duplicates(),
        forall|t: int, j: int|
            0 <= t < block.txdata.len() && 0 <= j < block.txdata[t].output.len()
                ==> script_hashes_in(spec_get_entries(block, Mode::Indexer, height)).contains(
                #[trigger] script_hash(block.txdata[t].output[j].script_pubkey),
            ),
{
    let txs = block_summaries(block);
    lemma_script_hashes_once(block_hash_of(block.header), txs, height);
    lemma_first_occurrences(output_hashes(txs));
    assert forall|t: int, j: int|
        0 <= t < block.txdata.len() && 0 <= j < block.txdata[t].output.len() implies first_occurrences(
        output_hashes(txs),
    ).contains(#[trigger] script_hash(block.txdata[t].output[j].script_pubkey)) by {
        let hash = script_hash(block.txdata[t].output[j].script_pubkey);
        let end = txs.len() as int;
        assert(output_hash(txs, t, j) == hash);
        assert(is_earlier_output(txs, end, 0, hash, t, j));
        lemma_seen_is_contained(txs, txs.len(), 0, hash);
    }
}

/// A list without its repetitions holds no value twice, and holds exactly
/// the values of the list.
pub proof fn lemma_first_occurrences(hashes: Seq<Seq<u8>>)
    ensures
        first_occurrences(hashes).no_duplicates(),
        forall|hash: Seq<u8>|
            first_occurrences(hashes).contains(hash) <==> hashes.contains(hash),
    decreases hashes.len(),
{
    let kept = first_occurrences(hashes);
    if hashes.len() > 0 {
        let rest = hashes.drop_last();
        let last = hashes.last();
        let before = first_occurrences(rest);
        lemma_first_occurrences(rest);
        assert forall|hash: Seq<u8>| kept.contains(hash) <==> hashes.contains(hash) by {
            if hashes.contains(hash) {
                let k = choose|k: int| 0 <= k < hashes.len() && hashes[k] == hash;
                if k < rest.len() {
                    assert(rest[k] == hash);
                    assert(rest.contains(hash));
                    assert(before.contains(hash));
                    let m = choose|m: int| 0 <= m < before.len() && before[m] == hash;
                    assert(kept[m] == hash);
                } else {
                    if rest.contains(last) {
                        assert(before.contains(last));
                    } else {
                        assert(kept[kept.len() - 1] == last);
                    }
                }
            }
            if kept.contains(hash) {
                let m = choose|m: int| 0 <= m < kept.len() && kept[m] == hash;
                if m < before.len() {
                    assert(before[m] == hash);
                    assert(before.contains(hash));
                    assert(rest.contains(hash));
                    let k = choose|k: int| 0 <= k < rest.len() && rest[k] == hash;
                    assert(hashes[k] == hash);
                } else {
                    assert(hash == last);
                    assert(hashes[hashes.len() - 1] == hash);
                }
            }
        }
        if !rest.contains(last) {
            assert forall|a: int, b: int| 0 <= a < kept.len() && 0 <= b < kept.len() && a
                != b implies kept[a] != kept[b] by {
                if a < before.len() && b < before.len() {
                    assert(before[a] != before[b]);
                } else if a < before.len() {
                    assert(before.contains(before[a]));
                } else {
                    assert(before.contains(before[b]));
                }
            }
        }
    }
}

} // verus!
