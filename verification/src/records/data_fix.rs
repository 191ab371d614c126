//! The "F" record decoder: time-stamped free-text annotations.
use crate::error::{spec_quoted, quoted_message, IGCError};
use crate::records::util::{spec_time, time_err_msg, valid_time_str, Time};
use crate::StrWrapper;
use vstd::prelude::*;
use vstd::string::StrSliceExecFns;

verus! {

/// The message carried by the error for a line too short to be a data fix.
pub open spec fn data_fix_short_msg(line: Seq<char>) -> Seq<char> {
    spec_quoted(line, "' is too short to be parsed as a data fix"@)
}

/// A time-stamped free-text annotation record. `content` is the verbatim
/// remainder of the line after the fixed header and may be empty. The value
/// is immutable once constructed.
#[derive(Debug, Clone)]
pub struct DataFix {
    pub time: Time,
    pub content: StrWrapper,
}

impl DataFix {
    /// True when `line` decodes successfully as a data fix: long enough for
    /// the header and with a well-formed time field at offsets one to six.
    pub open spec fn spec_ok(line: Seq<char>) -> bool {
        line.len() >= 7 && valid_time_str(line.subrange(1, 7))
    }

    /// Decodes one "F" record line. The line must be ASCII: field slicing
    /// works on byte offsets, so behaviour on multi-byte characters is
    /// undefined by the wire format and excluded here.
    ///
    /// The six characters at offsets one to six are the `HHMMSS` time; all
    /// characters from offset seven onward become `content` verbatim, with
    /// no trimming and no escaping. A line shorter than seven characters is
    /// rejected; a malformed time field propagates the time parser's error
    /// unchanged.
    pub fn parse(line: &str) -> (r: Result<DataFix, IGCError>)
        requires
            line.is_ascii(),
        ensures
            r is Ok <==> Self::spec_ok(line@),
            r matches Ok(d) ==> d.time == spec_time(line@.subrange(1, 7)) && d.time.wf()
                && d.content@ == line@.subrange(7, line@.len() as int),
            r matches Err(e) ==> ({
                if line@.len() < 7 {
                    e matches IGCError::DataFixInitError(m) && m@ == data_fix_short_msg(line@)
                } else {
                    e matches IGCError::TimeInitError(m) && m@ == time_err_msg(
                        line@.subrange(1, 7),
                    )
                }
            }),
    {
        let n = line.unicode_len();
        if n < 7 {
            return Err(
                IGCError::DataFixInitError(
                    quoted_message(line, "' is too short to be parsed as a data fix"),
                ),
            );
        }
        let time = match Time::parse(line.substring_ascii(1, 7)) {
            Ok(t) => t,
            Err(e) => {
                return Err(e);
            },
        };
        let content = StrWrapper(line.substring_ascii(7, n).to_owned());
        Ok(DataFix { time, content })
    }
}

} // verus!
