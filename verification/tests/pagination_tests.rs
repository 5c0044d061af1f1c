use kemono_dl::pagination::PageAction;
use kemono_dl::pagination::Pager;

#[test]
fn pages_of_fifty_fifty_zero_terminate_cleanly() {
    // a mocked catalogue answering pages of 50, 50 and 0 posts
    let catalogue = [50usize, 50, 0];
    let mut pager = Pager::new();
    let mut fetched_offsets: Vec<usize> = Vec::new();
    let mut posts_processed = 0usize;
    let mut page_index = 0usize;
    loop {
        match pager.next_action(false) {
            PageAction::Stop => break,
            PageAction::Fetch { offset } => {
                fetched_offsets.push(offset);
                let page_len = catalogue[page_index];
                page_index += 1;
                posts_processed += page_len;
                pager.record_page(page_len);
            }
        }
    }
    // exactly two pages' worth of posts were processed
    assert_eq!(posts_processed, 100);
    // offsets were requested strictly increasing, never refetched
    assert_eq!(fetched_offsets, vec![0, 50, 100]);
    // and the run ended cleanly, not by running out of catalogue entries
    assert_eq!(page_index, 3);
}

#[test]
fn an_empty_catalogue_terminates_after_one_fetch() {
    let mut pager = Pager::new();
    match pager.next_action(false) {
        PageAction::Fetch { offset } => assert_eq!(offset, 0),
        PageAction::Stop => panic!("fresh driver must fetch"),
    }
    pager.record_page(0);
    assert_eq!(pager.next_action(false), PageAction::Stop);
}

#[test]
fn cancellation_stops_the_driver_before_the_next_fetch() {
    let mut pager = Pager::new();
    match pager.next_action(false) {
        PageAction::Fetch { offset } => assert_eq!(offset, 0),
        PageAction::Stop => panic!("fresh driver must fetch"),
    }
    pager.record_page(25);
    // the flag is observed at the loop head: no further fetch
    assert_eq!(pager.next_action(true), PageAction::Stop);
    // without the flag it would have continued at the advanced offset
    assert_eq!(pager.next_action(false), PageAction::Fetch { offset: 25 });
}

#[test]
fn a_listing_failure_ends_the_run() {
    let mut pager = Pager::new();
    pager.record_listing_failure();
    assert_eq!(pager.next_action(false), PageAction::Stop);
}
