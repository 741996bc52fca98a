//! The checker: a per-run dedup guard over unit start offsets, and the
//! per-unit check that extracts a unit's header, judges it against the
//! canonical template, and describes the diagnostic for a missing header.

use std::collections::HashSet;

use vstd::prelude::*;
use vstd::utf8::{decode_utf8, valid_utf8};

use crate::header::{extract_header, trimmed, CheckError};
use crate::similarity::{edit_distance, header_acceptable, judge};
use crate::template::{canonical_template, help_message_text, help_text, missing_message,
    missing_message_text, template};

verus! {

broadcast use vstd::std_specs::hash::group_hash_axioms;

/// A diagnostic's span covers this many bytes, anchored at the start of the
/// offending unit's first declaration.
pub const DIAGNOSTIC_SPAN_WIDTH: usize = 1;

/// One source unit as the host hands it over: the raw bytes of the whole
/// file, the absolute offset at which the file starts within the host's
/// source space, and whether the unit is backed by a real file rather than
/// synthesized.
pub struct SourceUnit {
    pub text: Vec<u8>,
    pub start_offset: usize,
    pub is_real_file: bool,
}

/// The diagnostic recorded for a unit whose header is missing: a narrow
/// byte span anchored at the first declaration, the fixed message and help
/// texts, and the edit distance that tripped the verdict.
#[derive(Debug, PartialEq, Eq)]
pub struct Diagnostic {
    pub span_lo: usize,
    pub span_hi: usize,
    pub message: String,
    pub help: String,
    pub distance: usize,
}

/// One run of the header check over a codebase. It carries the set of unit
/// start offsets already processed, so that a unit is checked at most once
/// however often the host's walk revisits it.
pub struct Checker {
    seen: HashSet<usize>,
}

/// The header region of a unit: the bytes from the unit's start up to the
/// first declaration, whose absolute offset is `decl_start`.
pub open spec fn header_region(unit: SourceUnit, decl_start: int) -> Seq<u8> {
    unit.text@.subrange(0, decl_start - unit.start_offset)
}

/// A unit whose first declaration starts at the unit's own start has an
/// empty header region, and an empty header is never acceptable: such a
/// unit is always flagged.
pub proof fn lemma_empty_region_missing(unit: SourceUnit)
    ensures
        !header_acceptable(
            trimmed(decode_utf8(header_region(unit, unit.start_offset as int))),
            template(),
        ),
{
    let region = header_region(unit, unit.start_offset as int);
    assert(region =~= Seq::<u8>::empty());
    assert(decode_utf8(region) =~= Seq::<char>::empty());
    assert(trimmed(decode_utf8(region)) =~= Seq::<char>::empty());
    crate::similarity::lemma_empty_header_missing_canonical();
}

impl Checker {
    /// The start offsets of the units this run has already processed.
    pub closed spec fn seen_offsets(&self) -> Set<usize> {
        self.seen@
    }

    /// A fresh run, with no unit checked yet.
    pub fn new() -> (c: Checker)
        ensures
            c.seen_offsets() == Set::<usize>::empty(),
    {
        Checker { seen: HashSet::new() }
    }

    /// The dedup guard: records the unit with the given start offset as
    /// processed, and reports whether it already was, in which case the
    /// caller skips the unit.
    pub fn mark_checked(&mut self, start_offset: usize) -> (already: bool)
        ensures
            already == old(self).seen_offsets().contains(start_offset),
            final(self).seen_offsets() == old(self).seen_offsets().insert(start_offset),
    {
        !self.seen.insert(start_offset)
    }

    /// Checks one unit: a synthetic or already-seen unit is skipped; any
    /// other unit has its header region extracted, trimmed and judged, and
    /// a missing header yields the diagnostic to be emitted. Fails exactly
    /// when the header region is not valid UTF-8.
    pub fn check_unit(&mut self, unit: &SourceUnit, decl_start: usize) -> (r: Result<
        Option<Diagnostic>,
        CheckError,
    >)
        requires
            unit.start_offset <= decl_start,
            decl_start - unit.start_offset <= unit.text@.len(),
            decl_start < usize::MAX,
        ensures
            !unit.is_real_file ==> r == Ok::<Option<Diagnostic>, CheckError>(None)
                && final(self).seen_offsets() == old(self).seen_offsets(),
            unit.is_real_file && old(self).seen_offsets().contains(unit.start_offset) ==> r
                == Ok::<Option<Diagnostic>, CheckError>(None) && final(self).seen_offsets()
                == old(self).seen_offsets(),
            unit.is_real_file && !old(self).seen_offsets().contains(unit.start_offset) ==> {
                &&& final(self).seen_offsets() == old(self).seen_offsets().insert(
                    unit.start_offset,
                )
                &&& match r {
                    Ok(found) => {
                        &&& valid_utf8(header_region(*unit, decl_start as int))
                        &&& {
                            let header = trimmed(
                                decode_utf8(header_region(*unit, decl_start as int)),
                            );
                            match found {
                                None => header_acceptable(header, template()),
                                Some(d) => {
                                    &&& !header_acceptable(header, template())
                                    &&& d.span_lo == decl_start
                                    &&& d.span_hi == decl_start + DIAGNOSTIC_SPAN_WIDTH
                                    &&& d.distance == edit_distance(header, template())
                                    &&& d.message@ == missing_message()
                                    &&& d.help@ == help_text()
                                },
                            }
                        }
                    },
                    Err(e) => !valid_utf8(header_region(*unit, decl_start as int)) && e
                        == CheckError::InvalidEncoding,
                }
            },
    {
        if !unit.is_real_file {
            return Ok(None);
        }
        if self.mark_checked(unit.start_offset) {
            proof {
                assert(old(self).seen_offsets().insert(unit.start_offset) =~= old(
                    self,
                ).seen_offsets());
            }
            return Ok(None);
        }
        let len = decl_start - unit.start_offset;
        let header = match extract_header(unit.text.as_slice(), len) {
            Ok(h) => h,
            Err(e) => {
                return Err(e);
            },
        };
        let verdict = judge(header.as_str(), canonical_template());
        if verdict.acceptable {
            Ok(None)
        } else {
            Ok(
                Some(
                    Diagnostic {
                        span_lo: decl_start,
                        span_hi: decl_start + DIAGNOSTIC_SPAN_WIDTH,
                        message: missing_message_text().to_owned(),
                        help: help_message_text().to_owned(),
                        distance: verdict.distance,
                    },
                ),
            )
        }
    }
}

} // verus!
