use kemono_dl::transfer::append_chunk;
use kemono_dl::transfer::classify_range_response;
use kemono_dl::transfer::plan_transfer;
use kemono_dl::transfer::stream_chunks;
use kemono_dl::transfer::TransferPlan;
use kemono_dl::transfer::WriteMode;

#[test]
fn a_complete_file_is_never_fetched_again() {
    assert_eq!(plan_transfer(1000, Some(1000)), TransferPlan::AlreadyComplete);
    assert_eq!(plan_transfer(0, Some(0)), TransferPlan::AlreadyComplete);
}

#[test]
fn a_shorter_file_resumes_at_its_length() {
    assert_eq!(plan_transfer(400, Some(1000)), TransferPlan::Resume { start: 400 });
    assert_eq!(plan_transfer(0, Some(1000)), TransferPlan::Resume { start: 0 });
}

#[test]
fn a_longer_file_restarts_from_zero() {
    assert_eq!(plan_transfer(2000, Some(1000)), TransferPlan::Restart);
}

#[test]
fn unknown_remote_size_means_best_effort_resume() {
    assert_eq!(plan_transfer(0, None), TransferPlan::Resume { start: 0 });
    assert_eq!(plan_transfer(123, None), TransferPlan::Resume { start: 123 });
}

#[test]
fn a_server_ignoring_the_range_forces_truncate_rewrite() {
    assert_eq!(classify_range_response(400, 400), WriteMode::Append);
    assert_eq!(classify_range_response(400, 0), WriteMode::TruncateRewrite);
    assert_eq!(classify_range_response(0, 0), WriteMode::Append);
}

#[test]
fn resume_reproduces_the_remote_content_exactly() {
    let remote: Vec<u8> = (0u8..200).collect();
    let n = 77usize;
    // the destination already holds the first n bytes
    let mut local: Vec<u8> = remote[..n].to_vec();
    // a ranged fetch returns the tail, streamed in chunks
    let tail = &remote[n..];
    let (first, second) = tail.split_at(50);
    append_chunk(&mut local, first);
    append_chunk(&mut local, second);
    assert_eq!(local, remote);
    // bytes [0, n) were never touched
    assert_eq!(&local[..n], &remote[..n]);
    // re-running now plans no transfer at all
    assert_eq!(
        plan_transfer(local.len() as u64, Some(remote.len() as u64)),
        TransferPlan::AlreadyComplete
    );
}

#[test]
fn cancellation_between_chunks_keeps_the_partial_file() {
    let mut file: Vec<u8> = vec![1, 2, 3];
    let chunks: Vec<Vec<u8>> = vec![vec![4, 5], vec![6, 7], vec![8, 9]];
    // the flag is observed after the first chunk has gone out
    let cancel = vec![false, true, true];
    let written = stream_chunks(&mut file, &chunks, &cancel);
    // the chunk in flight completed and wrote its data ...
    assert_eq!(written, 1);
    assert_eq!(file, vec![1, 2, 3, 4, 5]);
    // ... and the partial file is a valid resume point for the next run
    let remote_total = 3 + 2 + 2 + 2;
    assert_eq!(
        plan_transfer(file.len() as u64, Some(remote_total)),
        TransferPlan::Resume { start: 5 }
    );
}

#[test]
fn without_cancellation_every_chunk_is_written() {
    let mut file: Vec<u8> = Vec::new();
    let chunks: Vec<Vec<u8>> = vec![vec![1], vec![2, 3], vec![]];
    let cancel = vec![false, false, false];
    let written = stream_chunks(&mut file, &chunks, &cancel);
    assert_eq!(written, 3);
    assert_eq!(file, vec![1, 2, 3]);
}

#[test]
fn rerun_against_unchanged_remote_moves_no_bytes() {
    // first run: empty destination, full fetch
    let remote: Vec<u8> = vec![9, 8, 7, 6, 5];
    let mut local: Vec<u8> = Vec::new();
    match plan_transfer(local.len() as u64, Some(remote.len() as u64)) {
        TransferPlan::Resume { start } => {
            assert_eq!(start, 0);
            append_chunk(&mut local, &remote[start as usize..]);
        }
        other => panic!("expected a resume from zero, got {:?}", other),
    }
    assert_eq!(local, remote);
    // second run: the plan is AlreadyComplete, nothing is appended
    assert_eq!(
        plan_transfer(local.len() as u64, Some(remote.len() as u64)),
        TransferPlan::AlreadyComplete
    );
    assert_eq!(local, remote);
}
