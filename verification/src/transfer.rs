//! Resumable transfer planning: decide, from the bytes already on disk and
//! the probed remote size, whether a transfer is already complete, can be
//! resumed with a ranged fetch, or must restart from the beginning; and
//! say how a ranged response must be written out.

use vstd::prelude::*;

verus! {

/// What a single file transfer should do, decided before any bytes move.
#[derive(Clone, Copy, Debug, PartialEq, Eq, Structural)]
pub enum TransferPlan {
    /// The local file already holds every byte of the remote resource.
    AlreadyComplete,
    /// Fetch bytes from `start` (inclusive) to the end of the resource and
    /// append them to the local file.
    Resume { start: u64 },
    /// The local file cannot be extended into the remote resource
    /// (it is longer than the remote says the resource is):
    /// truncate it and fetch everything from byte zero.
    Restart,
}

/// The planning rule as a pure function of the probed state.
pub open spec fn spec_plan(local_bytes: u64, remote_total: Option<u64>) -> TransferPlan {
    match remote_total {
        Some(total) => {
            if local_bytes == total {
                TransferPlan::AlreadyComplete
            } else if local_bytes < total {
                TransferPlan::Resume { start: local_bytes }
            } else {
                TransferPlan::Restart
            }
        },
        None => TransferPlan::Resume { start: local_bytes },
    }
}

/// Decide what a transfer must do, given the size of the destination file
/// (zero when it does not exist) and the remote size reported by a
/// metadata probe (`None` when the probe failed or gave no size).
///
/// A file whose size equals the known remote size is never fetched again;
/// a shorter file is resumed exactly at its current length; a longer file
/// is restarted; with no known remote size the transfer is a best-effort
/// resume from the current length.
pub fn plan_transfer(local_bytes: u64, remote_total: Option<u64>) -> (p: TransferPlan)
    ensures
        p == spec_plan(local_bytes, remote_total),
{
    match remote_total {
        Some(total) => {
            if local_bytes == total {
                TransferPlan::AlreadyComplete
            } else if local_bytes < total {
                TransferPlan::Resume { start: local_bytes }
            } else {
                TransferPlan::Restart
            }
        },
        None => TransferPlan::Resume { start: local_bytes },
    }
}

/// How the body of a ranged response must be written to the destination.
#[derive(Clone, Copy, Debug, PartialEq, Eq, Structural)]
pub enum WriteMode {
    /// The server honoured the requested offset: append to the file.
    Append,
    /// The server ignored the range and replied from byte zero: truncate
    /// the file first, then write the whole body.
    TruncateRewrite,
}

/// Classify a ranged response by the offset the server actually answered
/// from. A server that ignores `Range` and replies from byte zero must not
/// have its body appended after the bytes already on disk.
pub fn classify_range_response(requested_start: u64, response_start: u64) -> (m: WriteMode)
    ensures
        m == WriteMode::Append <==> response_start == requested_start,
        m == WriteMode::TruncateRewrite <==> response_start != requested_start,
{
    if response_start == requested_start {
        WriteMode::Append
    } else {
        WriteMode::TruncateRewrite
    }
}

/// Append one streamed chunk to the (model of the) destination file.
/// The bytes already present are never rewritten; the chunk lands after them.
pub fn append_chunk(file: &mut Vec<u8>, chunk: &[u8])
    ensures
        final(file)@ == old(file)@ + chunk@,
{
    let mut i: usize = 0;
    while i < chunk.len()
        invariant
            i <= chunk@.len(),
            file@ == old(file)@ + chunk@.subrange(0, i as int),
        decreases chunk@.len() - i,
    {
        file.push(chunk[i]);
        proof {
            assert(chunk@.subrange(0, i + 1) =~= chunk@.subrange(0, i as int).push(chunk@[i as int]));
            assert(old(file)@ + chunk@.subrange(0, i + 1)
                =~= (old(file)@ + chunk@.subrange(0, i as int)).push(chunk@[i as int]));
        }
        i = i + 1;
    }
    proof {
        assert(chunk@.subrange(0, chunk@.len() as int) =~= chunk@);
    }
}

/// Stream fetched chunks into the (model of the) destination file,
/// reading the cancellation flag before each chunk: `cancel[i]` is the
/// flag as it stands when chunk `i` is about to be written. A chunk in
/// flight is finished and lands on disk; once the flag is seen set, no
/// later chunk starts, and everything already written stays in place as
/// the resume point of the next run. Returns how many chunks were
/// written.
pub fn stream_chunks(file: &mut Vec<u8>, chunks: &Vec<Vec<u8>>, cancel: &Vec<bool>) -> (written:
    usize)
    requires
        chunks@.len() == cancel@.len(),
    ensures
        written <= chunks@.len(),
        forall|i: int| 0 <= i < written ==> !cancel@[i],
        written < chunks@.len() ==> cancel@[written as int],
        final(file)@ == old(file)@ + chunks@.map_values(|c: Vec<u8>| c@).take(
            written as int,
        ).flatten(),
{
    let ghost mv = chunks@.map_values(|c: Vec<u8>| c@);
    let mut i: usize = 0;
    proof {
        assert(mv.take(0).flatten() =~= Seq::<u8>::empty());
        assert(old(file)@ + mv.take(0).flatten() =~= old(file)@);
    }
    while i < chunks.len()
        invariant
            i <= chunks@.len(),
            chunks@.len() == cancel@.len(),
            mv == chunks@.map_values(|c: Vec<u8>| c@),
            forall|j: int| 0 <= j < i ==> !cancel@[j],
            file@ == old(file)@ + mv.take(i as int).flatten(),
        decreases chunks@.len() - i,
    {
        if cancel[i] {
            return i;
        }
        append_chunk(file, chunks[i].as_slice());
        proof {
            assert(mv.take(i + 1) =~= mv.take(i as int).push(mv[i as int]));
            mv.take(i as int).lemma_flatten_push(mv[i as int]);
            assert(old(file)@ + mv.take(i + 1).flatten() =~= (old(file)@ + mv.take(
                i as int,
            ).flatten()) + chunks@[i as int]@);
        }
        i = i + 1;
    }
    i
}

/// Resuming is correct: when the destination already holds the first
/// `local.len()` bytes of the remote resource and the tail fetched from
/// that offset is appended, the destination holds exactly the remote
/// resource — the old bytes unchanged, the new bytes equal to the remote
/// content at that range.
pub proof fn lemma_resume_yields_remote(local: Seq<u8>, remote: Seq<u8>)
    requires
        local.len() <= remote.len(),
        local == remote.subrange(0, local.len() as int),
    ensures
        local + remote.subrange(local.len() as int, remote.len() as int) == remote,
{
    assert(local + remote.subrange(local.len() as int, remote.len() as int) =~= remote);
}

/// Re-running against an unchanged remote is idempotent: a destination
/// file whose size equals the known remote size is planned as already
/// complete, so no byte is transferred again.
pub proof fn lemma_rerun_idempotent(total: u64)
    ensures
        spec_plan(total, Some(total)) == TransferPlan::AlreadyComplete,
{
}

} // verus!
