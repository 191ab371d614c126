//! Properties that hold across all of the record decoders.
use crate::records::data_fix::DataFix;
use crate::records::task_info::{DeclarationTime, TaskInfo, TaskPoint};
use vstd::prelude::*;

verus! {

/// A line shorter than a record kind's minimum length is always rejected by
/// that kind's decoder, never turned into a partial or default record: each
/// decoder returns `Ok` exactly on its success predicate, and no success
/// predicate admits a line below the kind's minimum length (seven characters
/// for a data fix, eighteen for any task info record, twenty-three for a
/// declaration time record).
pub proof fn lemma_too_short_is_rejected(line: Seq<char>)
    ensures
        line.len() < 7 ==> !DataFix::spec_ok(line),
        line.len() < 18 ==> !TaskInfo::spec_ok(line),
        line.len() < 18 ==> !TaskPoint::spec_ok(line),
        line.len() < 23 ==> !DeclarationTime::spec_ok(line),
{
}

} // verus!
