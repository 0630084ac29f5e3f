//! Building the record of a block from the records of its transactions.

use crate::chain::{block_hash, block_hash_of, RawBlock, RawBlockView};
use crate::config::Config;
use crate::error::Error;
use crate::record::{Block, BlockView, Transaction};
use crate::transaction::{
    amounts_fit, display_hash, displayed, parse_transaction, spec_parse_transaction, Answers,
    AnswersView,
};
use vstd::prelude::*;

verus! {

/// No answers at all.
pub open spec fn no_answers() -> AnswersView {
    AnswersView { previous: None, commit_parent: None }
}

/// The answers for the transaction at `index`: none where the list is shorter.
pub open spec fn answers_for(answers: Seq<AnswersView>, index: int) -> AnswersView {
    if 0 <= index < answers.len() {
        answers[index]
    } else {
        no_answers()
    }
}

/// The views of a list of answers, in order.
pub open spec fn answers_views(answers: Seq<Answers>) -> Seq<AnswersView> {
    answers.map_values(|a: Answers| a@)
}

/// Whether the output values of every transaction of a block can be summed
/// in 64 bits.
pub open spec fn block_amounts_fit(block: RawBlockView) -> bool {
    forall|i: int| 0 <= i < block.txdata.len() ==> amounts_fit(#[trigger] block.txdata[i])
}

/// The record of a block at a height, given what the node answered for each
/// of its transactions.
pub open spec fn spec_parse_block(
    block: RawBlockView,
    config: Config,
    height: u32,
    parse_vouts: bool,
    answers: Seq<AnswersView>,
) -> BlockView {
    BlockView {
        height,
        version: block.header.version,
        hash_prev: displayed(block.header.prev_blockhash),
        hash_merkle_root: displayed(block.header.merkle_root),
        block_time: block.header.time,
        bits: block.header.bits,
        nonce: block.header.nonce,
        block_hash: displayed(block_hash_of(block.header)),
        transaction_count: block.txdata.len() as usize,
        transactions: Seq::new(
            block.txdata.len(),
            |i: int|
                spec_parse_transaction(
                    config,
                    height,
                    parse_vouts,
                    block.txdata[i],
                    answers_for(answers, i),
                ),
        ),
    }
}

/// Builds the records of the transactions of a block.
fn parse_transactions(
    block: &RawBlock,
    config: &Config,
    height: u32,
    parse_vouts: bool,
    answers: &Vec<Answers>,
) -> (transactions: Vec<Transaction>)
    requires
        block_amounts_fit(block@),
    ensures
        transactions@.map_values(|t: Transaction| t@) == spec_parse_block(
            block@,
            *config,
            height,
            parse_vouts,
            answers_views(answers@),
        ).transactions,
{
    let none = Answers { previous: None, commit_parent: None };
    let mut transactions: Vec<Transaction> = Vec::new();
    let mut i: usize = 0;
    while i < block.txdata.len()
        invariant
            i <= block.txdata@.len(),
            block_amounts_fit(block@),
            none@ == no_answers(),
            transactions@.len() == i,
            forall|k: int|
                0 <= k < i ==> (#[trigger] transactions@[k])@ == spec_parse_transaction(
                    *config,
                    height,
                    parse_vouts,
                    block@.txdata[k],
                    answers_for(answers_views(answers@), k),
                ),
        decreases block.txdata@.len() - i,
    {
        let tx = &block.txdata[i];
        assert(block@.txdata[i as int] == tx@);
        let given = if i < answers.len() {
            &answers[i]
        } else {
            &none
        };
        transactions.push(parse_transaction(tx, config, height, parse_vouts, given));
        i += 1;
    }
    assert(transactions@.map_values(|t: Transaction| t@) =~= spec_parse_block(
        block@,
        *config,
        height,
        parse_vouts,
        answers_views(answers@),
    ).transactions);
    transactions
}

/// Builds the record of `block` at `height`, decoding the outputs of its
/// transactions where `parse_vouts` says so. `answers` holds, for each
/// transaction in order, what the node answered when it was asked for the
/// transactions that the inputs spend.
///
/// It always succeeds, with the record of [`spec_parse_block`].
pub fn parse_block(
    block: RawBlock,
    config: &Config,
    height: u32,
    parse_vouts: bool,
    answers: &Vec<Answers>,
) -> (result: Result<Block, Error>)
    requires
        block_amounts_fit(block@),
    ensures
        result is Ok,
        result.unwrap()@ == spec_parse_block(
            block@,
            *config,
            height,
            parse_vouts,
            answers_views(answers@),
        ),
{
    let transactions = parse_transactions(&block, config, height, parse_vouts, answers);
    Ok(
        Block {
            height,
            version: block.header.version,
            hash_prev: display_hash(&block.header.prev_blockhash),
            hash_merkle_root: display_hash(&block.header.merkle_root),
            block_time: block.header.time,
            bits: block.header.bits,
            nonce: block.header.nonce,
            block_hash: display_hash(&block_hash(&block.header)),
            transaction_count: block.txdata.len(),
            transactions,
        },
    )
}

impl RawBlock {
    /// The record of this block at `height`, with the outputs of its
    /// transactions decoded.
    pub fn to_block(&self, config: Config, height: u32, answers: &Vec<Answers>) -> (record: Block)
        requires
            block_amounts_fit(self@),
        ensures
            record@ == spec_parse_block(self@, config, height, true, answers_views(answers@)),
    {
        let transactions = parse_transactions(self, &config, height, true, answers);
        Block {
            height,
            version: self.header.version,
            hash_prev: display_hash(&self.header.prev_blockhash),
            hash_merkle_root: display_hash(&self.header.merkle_root),
            block_time: self.header.time,
            bits: self.header.bits,
            nonce: self.header.nonce,
            block_hash: display_hash(&block_hash(&self.header)),
            transaction_count: self.txdata.len(),
            transactions,
        }
    }
}

/// Two records of one block, parsed at one height under one configuration
/// and with the same answers, are equal.
pub proof fn lemma_parsing_is_repeatable(
    first: Block,
    second: Block,
    block: RawBlockView,
    config: Config,
    height: u32,
    parse_vouts: bool,
    answers: Seq<AnswersView>,
)
    requires
        first@ == spec_parse_block(block, config, height, parse_vouts, answers),
        second@ == spec_parse_block(block, config, height, parse_vouts, answers),
    ensures
        first@ == second@,
{
}

} // verus!
