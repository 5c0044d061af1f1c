//! The pagination driver's state: an offset that only ever grows, fetched
//! page by page until the remote catalogue answers with an empty page or
//! cancellation is observed. The driver decides; fetching itself happens
//! elsewhere.

use vstd::prelude::*;

verus! {

/// What the driver should do next.
#[derive(Clone, Copy, Debug, PartialEq, Eq, Structural)]
pub enum PageAction {
    /// Fetch the page of posts that starts at `offset`.
    Fetch { offset: usize },
    /// Stop: the catalogue is exhausted or cancellation was observed.
    Stop,
}

/// The pagination state. `finished` becomes true on the first empty page
/// and never reverts.
pub struct Pager {
    offset: usize,
    finished: bool,
}

impl Pager {
    /// The offset the next fetch would use.
    pub closed spec fn spec_offset(&self) -> int {
        self.offset as int
    }

    /// Whether the end of the catalogue has been seen.
    pub closed spec fn spec_finished(&self) -> bool {
        self.finished
    }

    /// A fresh driver starts at offset zero.
    pub fn new() -> (r: Pager)
        ensures
            r.spec_offset() == 0,
            !r.spec_finished(),
    {
        Pager { offset: 0, finished: false }
    }

    /// Decide the next step: stop once the catalogue ended or the
    /// cancellation flag is set, otherwise fetch at the current offset.
    pub fn next_action(&self, cancelled: bool) -> (a: PageAction)
        ensures
            a == PageAction::Stop <==> (cancelled || self.spec_finished()),
            a matches PageAction::Fetch { offset } ==> offset == self.spec_offset()
                && !cancelled && !self.spec_finished(),
    {
        if cancelled || self.finished {
            PageAction::Stop
        } else {
            PageAction::Fetch { offset: self.offset }
        }
    }

    /// Record a fetched page of `page_len` posts. An empty page ends the
    /// run; a non-empty page advances the offset by exactly its length,
    /// so offsets are strictly increasing and no page is refetched.
    pub fn record_page(&mut self, page_len: usize)
        requires
            !old(self).spec_finished(),
            old(self).spec_offset() + page_len <= usize::MAX,
        ensures
            page_len == 0 ==> final(self).spec_finished() && final(self).spec_offset() == old(
                self,
            ).spec_offset(),
            page_len > 0 ==> !final(self).spec_finished() && final(self).spec_offset() == old(
                self,
            ).spec_offset() + page_len,
    {
        if page_len == 0 {
            self.finished = true;
        } else {
            self.offset = self.offset + page_len;
        }
    }

    /// Record that the page fetch itself failed: fatal to the batch run,
    /// the driver stops producing offsets.
    pub fn record_listing_failure(&mut self)
        ensures
            final(self).spec_finished(),
            final(self).spec_offset() == old(self).spec_offset(),
    {
        self.finished = true;
    }
}

} // verus!
