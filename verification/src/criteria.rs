use vstd::prelude::*;

use crate::dates::{epoch_secs_of, parse_date, spec_date_valid, spec_day, spec_month, spec_year};
use crate::entry::FileEntry;
use crate::errors::SortError;
use crate::sizes::{dec_value, parse_size, spec_size_valid};
use crate::text::{pattern_matches, spec_pattern_matches};

verus! {

/// The filter configuration of one run. Every field is independently
/// optional; a present field switches its predicate on, an absent one means
/// no constraint from that attribute. Timestamps are whole seconds since
/// the Unix epoch, sizes whole (truncated) kilobytes.
#[derive(Debug)]
pub struct FilterCriteria {
    pub date_before: Option<i64>,
    pub date_after: Option<i64>,
    pub name_include: Option<String>,
    pub name_exclude: Option<String>,
    pub use_regex: bool,
    pub size_min_kb: Option<u64>,
    pub size_max_kb: Option<u64>,
    pub extension: Option<String>,
}

impl FilterCriteria {
    /// At least one predicate is switched on.
    pub open spec fn spec_active(&self) -> bool {
        ||| self.date_before is Some
        ||| self.date_after is Some
        ||| self.name_include is Some
        ||| self.name_exclude is Some
        ||| self.size_min_kb is Some
        ||| self.size_max_kb is Some
        ||| self.extension is Some
    }

    pub fn is_active(&self) -> (r: bool)
        ensures
            r == self.spec_active(),
    {
        self.date_before.is_some() || self.date_after.is_some() || self.name_include.is_some()
            || self.name_exclude.is_some() || self.size_min_kb.is_some()
            || self.size_max_kb.is_some() || self.extension.is_some()
    }

    /// The date window, inclusive on both sides, one-sided when only one
    /// bound is given.
    pub open spec fn date_ok(&self, e: FileEntry) -> bool {
        &&& (self.date_before matches Some(b) ==> e.modified_secs <= b)
        &&& (self.date_after matches Some(a) ==> e.modified_secs >= a)
    }

    /// The name patterns: an entry must hold the include pattern and must
    /// not hold the exclude pattern.
    pub open spec fn name_ok(&self, e: FileEntry) -> bool {
        &&& (self.name_include matches Some(p) ==> spec_pattern_matches(
            self.use_regex,
            p@,
            e.name@,
        ))
        &&& (self.name_exclude matches Some(p) ==> !spec_pattern_matches(
            self.use_regex,
            p@,
            e.name@,
        ))
    }

    /// The size window in truncated kilobytes, inclusive on both sides.
    pub open spec fn size_ok(&self, e: FileEntry) -> bool {
        &&& (self.size_min_kb matches Some(mn) ==> e.spec_size_kb() >= mn)
        &&& (self.size_max_kb matches Some(mx) ==> e.spec_size_kb() <= mx)
    }

    /// The extension filter: the entry's extension must equal the target,
    /// character for character; extensionless entries never qualify.
    pub open spec fn ext_ok(&self, e: FileEntry) -> bool {
        self.extension matches Some(x) ==> e.spec_extension() == Some(x@)
    }

    /// The whole filter: only regular files qualify, and every switched-on
    /// predicate must hold of the entry.
    pub open spec fn spec_matches(&self, e: FileEntry) -> bool {
        &&& e.is_file
        &&& self.date_ok(e)
        &&& self.name_ok(e)
        &&& self.size_ok(e)
        &&& self.ext_ok(e)
    }
}

/// Whether one entry passes every switched-on predicate of the filter.
pub fn matches_entry(c: &FilterCriteria, e: &FileEntry) -> (r: bool)
    ensures
        r == c.spec_matches(*e),
{
    if !e.is_file {
        return false;
    }
    if let Some(b) = &c.date_before {
        if e.modified_secs > *b {
            return false;
        }
    }
    if let Some(a) = &c.date_after {
        if e.modified_secs < *a {
            return false;
        }
    }
    if let Some(p) = &c.name_include {
        if !pattern_matches(c.use_regex, p.as_str(), e.name.as_str()) {
            return false;
        }
    }
    if let Some(p) = &c.name_exclude {
        if pattern_matches(c.use_regex, p.as_str(), e.name.as_str()) {
            return false;
        }
    }
    if let Some(mn) = &c.size_min_kb {
        if e.size_kb() < *mn {
            return false;
        }
    }
    if let Some(mx) = &c.size_max_kb {
        if e.size_kb() > *mx {
            return false;
        }
    }
    if let Some(x) = &c.extension {
        match e.extension() {
            Some(ext) => {
                if !(ext == *x) {
                    return false;
                }
            },
            None => {
                return false;
            },
        }
    }
    true
}

/// The filter arguments as the command line hands them over: raw strings,
/// not yet parsed or validated.
pub struct RawCriteria {
    pub date_before: Option<String>,
    pub date_after: Option<String>,
    pub name_include: Option<String>,
    pub name_exclude: Option<String>,
    pub use_regex: bool,
    pub size_min_kb: Option<String>,
    pub size_max_kb: Option<String>,
    pub extension: Option<String>,
}

pub open spec fn spec_raw_active(raw: RawCriteria) -> bool {
    ||| raw.date_before is Some
    ||| raw.date_after is Some
    ||| raw.name_include is Some
    ||| raw.name_exclude is Some
    ||| raw.size_min_kb is Some
    ||| raw.size_max_kb is Some
    ||| raw.extension is Some
}

/// An absent date field, or one holding a valid `YYYY-MM-DD` literal.
pub open spec fn date_field_ok(o: Option<String>) -> bool {
    o matches Some(s) ==> spec_date_valid(s@)
}

/// The timestamp a date field parses to.
pub open spec fn spec_parsed_date(o: Option<String>) -> Option<i64> {
    match o {
        Some(s) => Some(epoch_secs_of(spec_year(s@), spec_month(s@), spec_day(s@))),
        None => None,
    }
}

/// An absent size field, or one holding a plain decimal number.
pub open spec fn size_field_ok(o: Option<String>) -> bool {
    o matches Some(s) ==> spec_size_valid(s@)
}

/// The kilobyte count a size field parses to.
pub open spec fn spec_parsed_size(o: Option<String>) -> Option<u64> {
    match o {
        Some(s) => Some(dec_value(s@) as u64),
        None => None,
    }
}

/// Validate the raw arguments and build the immutable criteria, before any
/// directory is read. At least one predicate must be requested, every date
/// must be a valid calendar date and every size a plain number; the checks
/// run in that order.
pub fn build_criteria(raw: RawCriteria) -> (r: Result<FilterCriteria, SortError>)
    ensures
        (r is Ok) == (spec_raw_active(raw) && date_field_ok(raw.date_before) && date_field_ok(
            raw.date_after,
        ) && size_field_ok(raw.size_min_kb) && size_field_ok(raw.size_max_kb)),
        r matches Ok(c) ==> c == (FilterCriteria {
            date_before: spec_parsed_date(raw.date_before),
            date_after: spec_parsed_date(raw.date_after),
            name_include: raw.name_include,
            name_exclude: raw.name_exclude,
            use_regex: raw.use_regex,
            size_min_kb: spec_parsed_size(raw.size_min_kb),
            size_max_kb: spec_parsed_size(raw.size_max_kb),
            extension: raw.extension,
        }),
        r matches Err(e) ==> e == (if !spec_raw_active(raw) {
            SortError::NoFilterSpecified
        } else if !(date_field_ok(raw.date_before) && date_field_ok(raw.date_after)) {
            SortError::DateParseError
        } else {
            SortError::InvalidSize
        }),
{
    let active = raw.date_before.is_some() || raw.date_after.is_some()
        || raw.name_include.is_some() || raw.name_exclude.is_some()
        || raw.size_min_kb.is_some() || raw.size_max_kb.is_some() || raw.extension.is_some();
    if !active {
        return Err(SortError::NoFilterSpecified);
    }
    let date_before: Option<i64> = match &raw.date_before {
        Some(s) => match parse_date(s.as_str()) {
            Ok(t) => Some(t),
            Err(e) => {
                return Err(e);
            },
        },
        None => None,
    };
    let date_after: Option<i64> = match &raw.date_after {
        Some(s) => match parse_date(s.as_str()) {
            Ok(t) => Some(t),
            Err(e) => {
                return Err(e);
            },
        },
        None => None,
    };
    let size_min_kb: Option<u64> = match &raw.size_min_kb {
        Some(s) => match parse_size(s.as_str()) {
            Ok(v) => Some(v),
            Err(e) => {
                return Err(e);
            },
        },
        None => None,
    };
    let size_max_kb: Option<u64> = match &raw.size_max_kb {
        Some(s) => match parse_size(s.as_str()) {
            Ok(v) => Some(v),
            Err(e) => {
                return Err(e);
            },
        },
        None => None,
    };
    Ok(
        FilterCriteria {
            date_before,
            date_after,
            name_include: raw.name_include,
            name_exclude: raw.name_exclude,
            use_regex: raw.use_regex,
            size_min_kb,
            size_max_kb,
            extension: raw.extension,
        },
    )
}

} // verus!
