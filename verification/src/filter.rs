//! The filter engine: whitelist / blacklist pattern sets with AND
//! semantics, applied to post titles and file names, and an optional
//! minimum publish date. A candidate is admitted exactly when it matches
//! every whitelist pattern (vacuously, when the list is empty) and no
//! blacklist pattern.

use vstd::prelude::*;
use crate::pattern::Pattern;
use crate::pattern::pattern_matches;
use crate::date::Date;
use crate::date::spec_parse_date;
use crate::date::spec_date_lt;
use crate::date::parse_date;
use crate::date::date_before;

verus! {

/// The pattern texts of a list of compiled patterns.
pub open spec fn views_of(ps: Seq<Pattern>) -> Seq<Seq<char>> {
    ps.map_values(|p: Pattern| p@)
}

/// Admission under AND semantics: `text` matches every pattern of `wl`
/// and none of `bl`.
pub open spec fn spec_admits(wl: Seq<Seq<char>>, bl: Seq<Seq<char>>, text: Seq<char>) -> bool {
    &&& forall|i: int| 0 <= i < wl.len() ==> pattern_matches(wl[i], text)
    &&& forall|i: int| 0 <= i < bl.len() ==> !pattern_matches(bl[i], text)
}

/// Evaluate the whitelist / blacklist pair against one candidate text.
/// True exactly when the text matches every whitelist pattern and no
/// blacklist pattern; an empty whitelist admits everything the blacklist
/// does not reject.
pub fn lists_admit(text: &str, whitelist: &Vec<Pattern>, blacklist: &Vec<Pattern>) -> (r: bool)
    ensures
        r == spec_admits(views_of(whitelist@), views_of(blacklist@), text@),
{
    let mut i: usize = 0;
    while i < whitelist.len()
        invariant
            i <= whitelist@.len(),
            forall|j: int| 0 <= j < i ==> pattern_matches(views_of(whitelist@)[j], text@),
        decreases whitelist@.len() - i,
    {
        if !whitelist[i].matches(text) {
            proof {
                assert(views_of(whitelist@)[i as int] == whitelist@[i as int]@);
            }
            return false;
        }
        i = i + 1;
    }
    let mut k: usize = 0;
    while k < blacklist.len()
        invariant
            k <= blacklist@.len(),
            forall|j: int| 0 <= j < whitelist@.len()
                ==> pattern_matches(views_of(whitelist@)[j], text@),
            forall|j: int| 0 <= j < k ==> !pattern_matches(views_of(blacklist@)[j], text@),
        decreases blacklist@.len() - k,
    {
        if blacklist[k].matches(text) {
            proof {
                assert(views_of(blacklist@)[k as int] == blacklist@[k as int]@);
            }
            return false;
        }
        k = k + 1;
    }
    true
}

/// The compiled filter configuration, built once and then only read.
#[derive(Debug)]
pub struct FilterSpec {
    pub whitelist_regex: Vec<Pattern>,
    pub blacklist_regex: Vec<Pattern>,
    pub whitelist_filename_regex: Vec<Pattern>,
    pub blacklist_filename_regex: Vec<Pattern>,
    pub start_date: Option<Date>,
}

/// Admission by publish date: with no threshold, or an unparseable
/// published timestamp, the post passes (fail-open); otherwise it passes
/// exactly when its date is not strictly earlier than the threshold.
pub open spec fn spec_date_admits(published: Seq<char>, threshold: Option<Date>) -> bool {
    match threshold {
        Option::None => true,
        Option::Some(t) => match spec_parse_date(published) {
            Option::None => true,
            Option::Some(p) => !spec_date_lt(p, t),
        },
    }
}

impl FilterSpec {
    /// The title check: the whitelist / blacklist pair for titles.
    pub fn title_admits(&self, title: &str) -> (r: bool)
        ensures
            r == spec_admits(
                views_of(self.whitelist_regex@),
                views_of(self.blacklist_regex@),
                title@,
            ),
    {
        lists_admit(title, &self.whitelist_regex, &self.blacklist_regex)
    }

    /// The file-name check: the whitelist / blacklist pair for file names.
    pub fn filename_admits(&self, name: &str) -> (r: bool)
        ensures
            r == spec_admits(
                views_of(self.whitelist_filename_regex@),
                views_of(self.blacklist_filename_regex@),
                name@,
            ),
    {
        lists_admit(name, &self.whitelist_filename_regex, &self.blacklist_filename_regex)
    }

    /// The date check against the published timestamp of a post.
    pub fn date_admits(&self, published: &str) -> (r: bool)
        ensures
            r == spec_date_admits(published@, self.start_date),
    {
        match &self.start_date {
            Option::None => true,
            Option::Some(t) => {
                match parse_date(published) {
                    Option::None => true,
                    Option::Some(p) => !date_before(&p, t),
                }
            },
        }
    }

    /// Whether a post of the paginated stream is processed at all:
    /// its title must be admitted and its publish date must pass the
    /// threshold. A rejected post has none of its files fetched.
    pub fn post_admits(&self, title: &str, published: &str) -> (r: bool)
        ensures
            r == (spec_admits(
                views_of(self.whitelist_regex@),
                views_of(self.blacklist_regex@),
                title@,
            ) && spec_date_admits(published@, self.start_date)),
    {
        if !self.title_admits(title) {
            return false;
        }
        self.date_admits(published)
    }
}

} // verus!
