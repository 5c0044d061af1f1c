//! Building the run configuration: compiling the four pattern lists and
//! the optional date threshold into a `FilterSpec`. A malformed pattern
//! or date value is a fatal configuration error, reported before any
//! work starts.

use vstd::prelude::*;
use crate::date::Date;
use crate::date::parse_date;
use crate::date::spec_parse_date;
use crate::error::ConfigError;
use crate::filter::FilterSpec;
use crate::pattern::Pattern;
use crate::pattern::pattern_valid;

verus! {

/// Whether every pattern text in the list compiles.
pub open spec fn spec_all_valid(sources: Seq<String>) -> bool {
    forall|i: int| 0 <= i < sources.len() ==> pattern_valid(#[trigger] sources[i]@)
}

/// The pattern texts of a compiled list equal the source texts, in order.
pub open spec fn spec_compiled_from(ps: Seq<Pattern>, sources: Seq<String>) -> bool {
    ps.len() == sources.len() && forall|i: int| 0 <= i < ps.len() ==> (#[trigger] ps[i])@
        == sources[i]@
}

/// Compile one pattern list. Succeeds exactly when every pattern text is
/// valid, and then returns the compiled patterns in order; otherwise the
/// first invalid pattern text is reported.
pub fn compile_patterns(sources: &Vec<String>) -> (r: Result<Vec<Pattern>, ConfigError>)
    ensures
        r is Ok <==> spec_all_valid(sources@),
        r matches Ok(ps) ==> spec_compiled_from(ps@, sources@),
        r matches Err(e) ==> e matches ConfigError::InvalidPattern { pattern } && exists|i: int|
            0 <= i < sources@.len() && pattern@ == (#[trigger] sources@[i])@ && !pattern_valid(
                sources@[i]@,
            ),
{
    let mut ps: Vec<Pattern> = Vec::new();
    let mut i: usize = 0;
    while i < sources.len()
        invariant
            i <= sources@.len(),
            ps@.len() == i,
            forall|j: int| 0 <= j < i ==> (#[trigger] ps@[j])@ == sources@[j]@,
            forall|j: int| 0 <= j < i ==> pattern_valid(#[trigger] sources@[j]@),
        decreases sources@.len() - i,
    {
        match Pattern::compile(sources[i].as_str()) {
            Some(p) => {
                ps.push(p);
            },
            None => {
                return Err(ConfigError::InvalidPattern { pattern: sources[i].clone() });
            },
        }
        i = i + 1;
    }
    Ok(ps)
}

/// Parse the optional minimum-publish-date value. `None` means no
/// threshold; a supplied value must be a well-formed `YYYY-MM-DD` date,
/// else it is a fatal configuration error carrying the text.
pub fn parse_start_date(text: &Option<String>) -> (r: Result<Option<Date>, ConfigError>)
    ensures
        text is None ==> (r matches Ok(d) && d is None),
        text matches Some(s) ==> match spec_parse_date(s@) {
            Some(d) => r == Result::<Option<Date>, ConfigError>::Ok(Some(d)),
            None => r matches Err(e) && e matches ConfigError::InvalidDate { text: t } && t@
                == s@,
        },
{
    match text {
        Option::None => Ok(None),
        Option::Some(s) => match parse_date(s.as_str()) {
            Option::Some(d) => Ok(Some(d)),
            Option::None => Err(ConfigError::InvalidDate { text: s.clone() }),
        },
    }
}

/// Compile the whole filter configuration: the four pattern lists with
/// AND semantics and the optional date threshold. Succeeds exactly when
/// every pattern compiles and the date value, when given, parses.
pub fn build_filter(
    whitelist_regex: &Vec<String>,
    blacklist_regex: &Vec<String>,
    whitelist_filename_regex: &Vec<String>,
    blacklist_filename_regex: &Vec<String>,
    start_date: &Option<String>,
) -> (r: Result<FilterSpec, ConfigError>)
    ensures
        r is Ok <==> (spec_all_valid(whitelist_regex@) && spec_all_valid(blacklist_regex@)
            && spec_all_valid(whitelist_filename_regex@) && spec_all_valid(
            blacklist_filename_regex@,
        ) && (start_date matches Some(s) ==> spec_parse_date(s@) is Some)),
        r matches Ok(f) ==> {
            &&& spec_compiled_from(f.whitelist_regex@, whitelist_regex@)
            &&& spec_compiled_from(f.blacklist_regex@, blacklist_regex@)
            &&& spec_compiled_from(f.whitelist_filename_regex@, whitelist_filename_regex@)
            &&& spec_compiled_from(f.blacklist_filename_regex@, blacklist_filename_regex@)
            &&& f.start_date == (match *start_date {
                Some(s) => spec_parse_date(s@),
                None => None,
            })
        },
{
    let wl = match compile_patterns(whitelist_regex) {
        Ok(ps) => ps,
        Err(e) => {
            return Err(e);
        },
    };
    let bl = match compile_patterns(blacklist_regex) {
        Ok(ps) => ps,
        Err(e) => {
            return Err(e);
        },
    };
    let wfl = match compile_patterns(whitelist_filename_regex) {
        Ok(ps) => ps,
        Err(e) => {
            return Err(e);
        },
    };
    let bfl = match compile_patterns(blacklist_filename_regex) {
        Ok(ps) => ps,
        Err(e) => {
            return Err(e);
        },
    };
    let threshold = match parse_start_date(start_date) {
        Ok(d) => d,
        Err(e) => {
            return Err(e);
        },
    };
    Ok(
        FilterSpec {
            whitelist_regex: wl,
            blacklist_regex: bl,
            whitelist_filename_regex: wfl,
            blacklist_filename_regex: bfl,
            start_date: threshold,
        },
    )
}

} // verus!
