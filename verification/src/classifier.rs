//! Classification of the storage engine's trace diagnostics: a numeric code
//! is mapped to a severity class, and the full printed line is pinned down
//! character by character.

use vstd::prelude::*;
use vstd::string::StringExecFns;
use crate::text::dec_int;
use crate::text::i64_to_string;

verus! {

/// The engine's canonical "no error" result code.
pub const OK_CODE: i32 = 0;

/// The engine's notice code for a successful write-ahead-log recovery after
/// an abnormal shutdown.
pub const RECOVER_WAL_CODE: i32 = 283;

/// The engine's notice code for a successful rollback-journal recovery after
/// an abnormal shutdown.
pub const RECOVER_ROLLBACK_CODE: i32 = 539;

/// Severity class of one diagnostic line.
#[derive(Clone, Copy, PartialEq, Eq, Structural, Debug)]
pub enum Severity {
    Info,
    Debug,
    Warn,
}

/// The class of a diagnostic code: the "no error" code is informational, the
/// two recovered-after-abnormal-shutdown codes are debug notices, and every
/// other code is a warning.
pub open spec fn spec_classify(code: int) -> Severity {
    if code == OK_CODE as int {
        Severity::Info
    } else if code == RECOVER_WAL_CODE as int || code == RECOVER_ROLLBACK_CODE as int {
        Severity::Debug
    } else {
        Severity::Warn
    }
}

/// Classifies one diagnostic code.
pub fn classify(code: i32) -> (s: Severity)
    ensures
        s == spec_classify(code as int),
{
    if code == OK_CODE {
        Severity::Info
    } else if code == RECOVER_WAL_CODE || code == RECOVER_ROLLBACK_CODE {
        Severity::Debug
    } else {
        Severity::Warn
    }
}

/// The printed form of each severity class.
pub open spec fn spec_tag(s: Severity) -> Seq<char> {
    match s {
        Severity::Info => "INFO"@,
        Severity::Debug => "DEBUG"@,
        Severity::Warn => "WARN"@,
    }
}

/// The severity tag that opens a diagnostic line.
pub fn tag(s: Severity) -> (t: &'static str)
    ensures
        t@ == spec_tag(s),
{
    match s {
        Severity::Info => "INFO",
        Severity::Debug => "DEBUG",
        Severity::Warn => "WARN",
    }
}

/// Everything after the severity tag in one diagnostic line: the source tag,
/// then — for the recovery notices and for warnings — the code itself, then
/// the engine's message.
pub open spec fn spec_body(code: int, msg: Seq<char>) -> Seq<char> {
    if code == OK_CODE as int {
        " [sqlite] "@ + msg
    } else if code == RECOVER_WAL_CODE as int || code == RECOVER_ROLLBACK_CODE as int {
        " [sqlite] code="@ + dec_int(code)
            + ": sqlite successfully recovered from a previous abnormal shutdown: "@ + msg
    } else {
        " [sqlite] error_code="@ + dec_int(code) + ": "@ + msg
    }
}

/// One full diagnostic line: severity tag, then the body.
pub open spec fn spec_line(code: int, msg: Seq<char>) -> Seq<char> {
    spec_tag(spec_classify(code)) + spec_body(code, msg)
}

/// Renders the part of the line that follows the severity tag.
pub fn format_body(code: i32, message: &str) -> (s: String)
    ensures
        s@ == spec_body(code as int, message@),
{
    if code == OK_CODE {
        let s = String::from_str(" [sqlite] ").concat(message);
        proof {
            assert(s@ =~= spec_body(code as int, message@));
        }
        s
    } else if code == RECOVER_WAL_CODE || code == RECOVER_ROLLBACK_CODE {
        let num = i64_to_string(code as i64);
        let s = String::from_str(" [sqlite] code=").concat(num.as_str()).concat(
            ": sqlite successfully recovered from a previous abnormal shutdown: ",
        ).concat(message);
        proof {
            assert(s@ =~= spec_body(code as int, message@));
        }
        s
    } else {
        let num = i64_to_string(code as i64);
        let s = String::from_str(" [sqlite] error_code=").concat(num.as_str()).concat(": ")
            .concat(message);
        proof {
            assert(s@ =~= spec_body(code as int, message@));
        }
        s
    }
}

/// Renders one full diagnostic line, tag included.
pub fn format_line(code: i32, message: &str) -> (s: String)
    ensures
        s@ == spec_line(code as int, message@),
{
    let t = tag(classify(code));
    let body = format_body(code, message);
    let s = String::from_str(t).concat(body.as_str());
    proof {
        assert(s@ =~= spec_line(code as int, message@));
    }
    s
}

/// Whether `needle` occurs contiguously inside `hay`.
pub open spec fn has_subrange(hay: Seq<char>, needle: Seq<char>) -> bool {
    exists|i: int|
        0 <= i && i + needle.len() <= hay.len() && #[trigger] hay.subrange(i, i + needle.len())
            == needle
}

/// Law: every diagnostic line opens with the severity tag of its code's
/// class, and for the recovery and warning classes the decimal code itself
/// occurs in the line.
pub proof fn lemma_line_severity(code: int, msg: Seq<char>)
    ensures
        spec_line(code, msg).subrange(0, spec_tag(spec_classify(code)).len() as int)
            == spec_tag(spec_classify(code)),
        spec_classify(code) != Severity::Info ==> has_subrange(spec_line(code, msg), dec_int(code)),
{
    let t = spec_tag(spec_classify(code));
    let line = spec_line(code, msg);
    assert(line.subrange(0, t.len() as int) =~= t);
    if spec_classify(code) == Severity::Debug {
        reveal_strlit("DEBUG");
        reveal_strlit(" [sqlite] code=");
        let d = dec_int(code);
        assert(line.subrange(20, 20 + d.len() as int) =~= d);
        assert(has_subrange(line, d));
    } else if spec_classify(code) == Severity::Warn {
        reveal_strlit("WARN");
        reveal_strlit(" [sqlite] error_code=");
        let d = dec_int(code);
        assert(line.subrange(25, 25 + d.len() as int) =~= d);
        assert(has_subrange(line, d));
    }
}

} // verus!
