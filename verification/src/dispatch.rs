//! The decisions of the node client: what a worker does with what it
//! received, and how a call ends.

use crate::error::{Error, ErrorView};
use vstd::prelude::*;
use vstd::string::*;

verus! {

/// A request to the node.
#[derive(Clone, Copy, Debug, PartialEq, Eq)]
pub enum Request {
    GetBlockHash(u32),
    GetBlock([u8; 32]),
    GetBlockchainHeight,
}

/// What a worker's wait ended with.
#[derive(Clone, Copy, Debug, PartialEq, Eq)]
pub enum WorkerEvent {
    /// The work was cancelled.
    Cancelled,
    /// A request arrived.
    Received(Request),
    /// A request channel was closed.
    Closed,
}

/// What a worker does next.
#[derive(Clone, Copy, Debug, PartialEq, Eq)]
pub enum WorkerStep {
    /// Leave the loop, with success.
    Exit,
    /// Ask the node and send the reply.
    Serve(Request),
    /// Wait again.
    Wait,
}

/// What a worker does with what its wait ended with: it leaves on
/// cancellation, serves a request, and otherwise waits again.
pub fn worker_step(event: WorkerEvent) -> (step: WorkerStep)
    ensures
        step == match event {
            WorkerEvent::Cancelled => WorkerStep::Exit,
            WorkerEvent::Received(request) => WorkerStep::Serve(request),
            WorkerEvent::Closed => WorkerStep::Wait,
        },
{
    match event {
        WorkerEvent::Cancelled => WorkerStep::Exit,
        WorkerEvent::Received(request) => WorkerStep::Serve(request),
        WorkerEvent::Closed => WorkerStep::Wait,
    }
}

/// What a caller's wait for its reply ended with.
pub enum CallEvent<T> {
    /// The work was cancelled.
    Cancelled,
    /// The reply arrived.
    Replied(Result<T, Error>),
    /// The reply channel was closed.
    Closed,
}

/// How a call ends: with the failure of a stopped client on cancellation,
/// and otherwise with the reply, or the failure of a closed channel, after
/// the caller's subscription to the cancellation is given back.
pub fn finish_call<T>(event: CallEvent<T>) -> (end: (bool, Result<T, Error>))
    ensures
        match event {
            CallEvent::Cancelled => !end.0 && (end.1 matches Err(e) && e@ == ErrorView::Stopped),
            CallEvent::Replied(reply) => end.0 && end.1 == reply,
            CallEvent::Closed => end.0 && (end.1 matches Err(e) && e@ == ErrorView::Channel),
        },
{
    match event {
        CallEvent::Cancelled => (false, Err(Error::Stopped)),
        CallEvent::Replied(reply) => (true, reply),
        CallEvent::Closed => (true, Err(Error::Channel)),
    }
}

/// The message of a node that reports no number of blocks.
pub open spec fn no_height() -> Seq<char> {
    "Invalid blocks field in blockchain info"@
}

/// The height of the chain from the number of blocks that the node
/// reports, cut down to 32 bits.
pub fn blockchain_height(blocks: Option<u64>) -> (height: Result<u32, Error>)
    ensures
        match blocks {
            Some(count) => (height matches Ok(h) && h == count as u32),
            None => (height matches Err(e) && e@ == ErrorView::BitcoinRpc(no_height())),
        },
{
    match blocks {
        Some(count) => Ok(#[verifier::truncate] (count as u32)),
        None => Err(Error::BitcoinRpc(String::from_str("Invalid blocks field in blockchain info"))),
    }
}

} // verus!
