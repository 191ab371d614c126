//! The "C" record decoder: a dispatcher over two leaf records that share a
//! discriminator and are told apart by a content heuristic.
use crate::error::{spec_quoted, quoted_message, IGCError};
use crate::records::util::{
    all_digits, all_digits_in, coord_err_msg, date_err_msg, spec_coordinate, spec_date, spec_time,
    time_err_msg, valid_coord_str, valid_date_str, valid_time_str, Coordinate, Date, Time,
};
use crate::StrWrapper;
use vstd::prelude::*;
use vstd::string::StrSliceExecFns;

verus! {

/// The message carried by the error for a line too short to be any kind of
/// task info record.
pub open spec fn task_info_short_msg(line: Seq<char>) -> Seq<char> {
    spec_quoted(line, "' is too short to be parsed as kind of task info record"@)
}

/// The message carried by the error for a line too short to be a
/// declaration time record.
pub open spec fn declaration_short_msg(line: Seq<char>) -> Seq<char> {
    spec_quoted(line, "' is too short to be a declaration time record"@)
}

/// The dispatch heuristic: a line is treated as a declaration time record
/// exactly when the sixteen characters at offsets one to sixteen are all
/// ASCII decimal digits (a date+time block); any non-digit there — a
/// coordinate block always contains a hemisphere letter — selects the task
/// point leaf. This is the wire format's sole disambiguation mechanism.
pub open spec fn selects_declaration(line: Seq<char>) -> bool {
    all_digits(line.subrange(1, 17))
}

/// A "C" record: either a named waypoint of a declared task or the
/// flight-declaration metadata. Exactly one variant is populated.
#[derive(Debug, Clone)]
pub enum TaskInfo {
    TaskPoint(TaskPoint),
    DeclarationTime(DeclarationTime),
}

/// A named waypoint with coordinates. `name` is present iff the source line
/// carries characters beyond the fixed coordinate block; a line of exactly
/// the block's length yields a true "no name" state, not an empty string.
#[derive(Debug, Clone)]
pub struct TaskPoint {
    pub coordinate: Coordinate,
    pub name: Option<StrWrapper>,
}

/// Flight-declaration metadata: a date, a time, and verbatim trailing text
/// reachable only through a copy-returning accessor.
#[derive(Debug, Clone)]
pub struct DeclarationTime {
    pub date: Date,
    pub time: Time,
    extra: StrWrapper,
}

impl TaskPoint {
    /// True when `line` decodes successfully as a task point: a well-formed
    /// coordinate block at offsets one to seventeen.
    pub open spec fn spec_ok(line: Seq<char>) -> bool {
        line.len() >= 18 && valid_coord_str(line.subrange(1, 18))
    }

    /// Decodes one task point line. The line must be ASCII: byte-offset
    /// slicing is undefined on multi-byte characters.
    ///
    /// A line shorter than eighteen characters is too short to carry the
    /// coordinate block and is rejected. The seventeen characters at offsets
    /// one to seventeen are the coordinate block; `name` is absent if the
    /// line is exactly eighteen characters long, otherwise the verbatim
    /// unprocessed suffix from offset eighteen onward.
    pub fn parse(line: &str) -> (r: Result<TaskPoint, IGCError>)
        requires
            line.is_ascii(),
        ensures
            r is Ok <==> Self::spec_ok(line@),
            r matches Ok(tp) ==> tp.coordinate == spec_coordinate(line@.subrange(1, 18))
                && tp.coordinate.wf() && (line@.len() == 18 ==> tp.name is None) && (line@.len()
                > 18 ==> (tp.name matches Some(nm) && nm@ == line@.subrange(
                18,
                line@.len() as int,
            ))),
            r matches Err(e) ==> ({
                if line@.len() < 18 {
                    e matches IGCError::TaskInfoInitError(m) && m@ == task_info_short_msg(line@)
                } else {
                    e matches IGCError::CoordinateInitError(m) && m@ == coord_err_msg(
                        line@.subrange(1, 18),
                    )
                }
            }),
    {
        let n = line.unicode_len();
        if n < 18 {
            return Err(
                IGCError::TaskInfoInitError(
                    quoted_message(line, "' is too short to be parsed as kind of task info record"),
                ),
            );
        }
        let coordinate = match Coordinate::parse(line.substring_ascii(1, 18)) {
            Ok(c) => c,
            Err(e) => {
                return Err(e);
            },
        };
        let name = if n != 18 {
            Some(StrWrapper(line.substring_ascii(18, n).to_owned()))
        } else {
            None
        };
        Ok(TaskPoint { coordinate, name })
    }
}

impl DeclarationTime {
    /// The record's date field, for contracts. One field of the record is
    /// private, which makes the whole record opaque in public contracts, so
    /// the public fields get spec accessors too.
    pub closed spec fn spec_date(&self) -> Date {
        self.date
    }

    /// The record's time field, for contracts.
    pub closed spec fn spec_time(&self) -> Time {
        self.time
    }

    /// The trailing text after the date and time fields, as stored.
    pub closed spec fn spec_extra(&self) -> Seq<char> {
        self.extra@
    }

    /// True when `line` decodes successfully as a declaration time record:
    /// long enough, a well-formed date at offsets one to six and a
    /// well-formed time at offsets seven to twelve.
    pub open spec fn spec_ok(line: Seq<char>) -> bool {
        line.len() >= 23 && valid_date_str(line.subrange(1, 7)) && valid_time_str(
            line.subrange(7, 13),
        )
    }

    /// Decodes one declaration time line. The line must be ASCII:
    /// byte-offset slicing is undefined on multi-byte characters.
    ///
    /// A line shorter than twenty-three characters is rejected. Offsets one
    /// to six decode as a `DDMMYY` date, offsets seven to twelve as an
    /// `HHMMSS` time; a field parser's error propagates unchanged.
    /// Everything from offset thirteen onward is stored verbatim as the
    /// trailing text.
    pub fn parse(line: &str) -> (r: Result<DeclarationTime, IGCError>)
        requires
            line.is_ascii(),
        ensures
            r is Ok <==> Self::spec_ok(line@),
            r matches Ok(d) ==> d.spec_date() == spec_date(line@.subrange(1, 7)) && d.spec_time()
                == spec_time(line@.subrange(7, 13)) && d.spec_time().wf() && d.spec_extra()
                == line@.subrange(13, line@.len() as int),
            r matches Err(e) ==> ({
                if line@.len() < 23 {
                    e matches IGCError::TaskInfoInitError(m) && m@ == declaration_short_msg(line@)
                } else if !valid_date_str(line@.subrange(1, 7)) {
                    e matches IGCError::DateInitError(m) && m@ == date_err_msg(
                        line@.subrange(1, 7),
                    )
                } else {
                    e matches IGCError::TimeInitError(m) && m@ == time_err_msg(
                        line@.subrange(7, 13),
                    )
                }
            }),
    {
        let n = line.unicode_len();
        if n < 23 {
            return Err(
                IGCError::TaskInfoInitError(
                    quoted_message(line, "' is too short to be a declaration time record"),
                ),
            );
        }
        let date = match Date::parse(line.substring_ascii(1, 7)) {
            Ok(d) => d,
            Err(e) => {
                return Err(e);
            },
        };
        let time = match Time::parse(line.substring_ascii(7, 13)) {
            Ok(t) => t,
            Err(e) => {
                return Err(e);
            },
        };
        let extra = StrWrapper(line.substring_ascii(13, n).to_owned());
        Ok(DeclarationTime { date, time, extra })
    }

    /// Builds a declaration time record from its parts. The trailing text is
    /// stored as given.
    pub fn new(date: Date, time: Time, extra: StrWrapper) -> (r: DeclarationTime)
        ensures
            r.spec_date() == date,
            r.spec_time() == time,
            r.spec_extra() == extra@,
    {
        DeclarationTime { date, time, extra }
    }

    /// Returns an independent copy of the trailing text after date and time,
    /// never the internal storage: callers cannot mutate the record's state
    /// through the returned value.
    pub fn get_extra(&self) -> (r: StrWrapper)
        ensures
            r@ == self.spec_extra(),
    {
        StrWrapper(self.extra.0.clone())
    }
}

impl TaskInfo {
    /// True when `line` decodes successfully as some task info record: long
    /// enough for either sub-kind, and the leaf the heuristic selects
    /// succeeds on it.
    pub open spec fn spec_ok(line: Seq<char>) -> bool {
        line.len() >= 18 && if selects_declaration(line) {
            DeclarationTime::spec_ok(line)
        } else {
            TaskPoint::spec_ok(line)
        }
    }

    /// Decodes one "C" record line. The line must be ASCII: byte-offset
    /// slicing is undefined on multi-byte characters.
    ///
    /// A line shorter than eighteen characters is too short for either
    /// sub-kind and is rejected. Otherwise the sixteen characters at offsets
    /// one to sixteen being all decimal digits always selects the
    /// declaration time leaf — even when a same-length numeric block could
    /// coincidentally be coordinate-shaped — and any non-digit there always
    /// selects the task point leaf. The chosen leaf's result or error is
    /// returned unchanged.
    pub fn parse(line: &str) -> (r: Result<TaskInfo, IGCError>)
        requires
            line.is_ascii(),
        ensures
            r is Ok <==> Self::spec_ok(line@),
            r matches Ok(info) ==> (info is DeclarationTime <==> selects_declaration(line@)),
            r matches Ok(info) ==> (match info {
                TaskInfo::DeclarationTime(d) => d.spec_date() == spec_date(line@.subrange(1, 7))
                    && d.spec_time() == spec_time(line@.subrange(7, 13)) && d.spec_time().wf()
                    && d.spec_extra() == line@.subrange(13, line@.len() as int),
                TaskInfo::TaskPoint(tp) => tp.coordinate == spec_coordinate(line@.subrange(1, 18))
                    && tp.coordinate.wf() && (line@.len() == 18 ==> tp.name is None) && (
                line@.len() > 18 ==> (tp.name matches Some(nm) && nm@ == line@.subrange(
                    18,
                    line@.len() as int,
                ))),
            }),
            r matches Err(e) ==> ({
                if line@.len() < 18 {
                    e matches IGCError::TaskInfoInitError(m) && m@ == task_info_short_msg(line@)
                } else if selects_declaration(line@) {
                    if line@.len() < 23 {
                        e matches IGCError::TaskInfoInitError(m) && m@ == declaration_short_msg(
                            line@,
                        )
                    } else if !valid_date_str(line@.subrange(1, 7)) {
                        e matches IGCError::DateInitError(m) && m@ == date_err_msg(
                            line@.subrange(1, 7),
                        )
                    } else {
                        e matches IGCError::TimeInitError(m) && m@ == time_err_msg(
                            line@.subrange(7, 13),
                        )
                    }
                } else {
                    e matches IGCError::CoordinateInitError(m) && m@ == coord_err_msg(
                        line@.subrange(1, 18),
                    )
                }
            }),
    {
        let n = line.unicode_len();
        if n < 18 {
            return Err(
                IGCError::TaskInfoInitError(
                    quoted_message(line, "' is too short to be parsed as kind of task info record"),
                ),
            );
        }
        if all_digits_in(line, 1, 17) {
            match DeclarationTime::parse(line) {
                Ok(d) => Ok(TaskInfo::DeclarationTime(d)),
                Err(e) => Err(e),
            }
        } else {
            match TaskPoint::parse(line) {
                Ok(tp) => Ok(TaskInfo::TaskPoint(tp)),
                Err(e) => Err(e),
            }
        }
    }
}

} // verus!
