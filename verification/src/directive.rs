//! Directive processor: maps a directive string to a result string.
//!
//! The processor never fails.  The one recognized directive, `"gettime"`,
//! is answered with the textual output of an external time action, run by
//! the caller and handed in as a [`TimeOutcome`]; a failed action is
//! answered with a fixed non-empty error text rather than an error.  Every
//! other directive is answered with the `"invalid directive"` sentinel.

use vstd::prelude::*;
use vstd::string::StringSliceAdditionalSpecFns;

verus! {

/// How the external time action went: the text it produced, or failure.
pub enum TimeOutcome {
    /// The action ran and produced this text on its standard output.
    Output(String),
    /// The action could not be run, failed, or produced unusable output.
    Failed,
}

impl View for TimeOutcome {
    type V = Option<Seq<char>>;

    open spec fn view(&self) -> Option<Seq<char>> {
        match self {
            TimeOutcome::Output(s) => Some(s@),
            TimeOutcome::Failed => None,
        }
    }
}

/// The one directive the service recognizes.
pub open spec fn spec_gettime() -> Seq<char> {
    "gettime"@
}

/// The sentinel result for an unrecognized directive.
pub open spec fn spec_invalid_directive() -> Seq<char> {
    "invalid directive"@
}

/// The degraded result when the time action fails.
pub open spec fn spec_time_failed_message() -> Seq<char> {
    "error: time unavailable"@
}

/// What the processor answers: for `"gettime"`, the time action's output
/// verbatim, or the degraded message when the action failed; for any other
/// directive, the sentinel, with the time action never consulted.
pub open spec fn spec_process(d: Seq<char>, time: Option<Seq<char>>) -> Seq<char> {
    if d == spec_gettime() {
        match time {
            Some(t) => t,
            None => spec_time_failed_message(),
        }
    } else {
        spec_invalid_directive()
    }
}

/// Every directive other than `"gettime"` is answered with the
/// `"invalid directive"` sentinel, whatever the time action would say.
pub proof fn lemma_unrecognized_directive(d: Seq<char>, time: Option<Seq<char>>)
    requires
        d != spec_gettime(),
    ensures
        spec_process(d, time) == spec_invalid_directive(),
{
}

/// The time directive always gets an answer and never a failure: the
/// action's output verbatim when it succeeded, and a fixed non-empty
/// error text when it failed.
pub proof fn lemma_gettime_always_answered(time: Option<Seq<char>>)
    ensures
        time matches Some(t) ==> spec_process(spec_gettime(), time) == t,
        time is None ==> spec_process(spec_gettime(), time).len() > 0,
{
    reveal_strlit("error: time unavailable");
}

/// Compare two byte slices for equality.
pub(crate) fn bytes_eq(a: &[u8], b: &[u8]) -> (r: bool)
    ensures
        r == (a@ == b@),
{
    if a.len() != b.len() {
        proof {
            assert(a@ != b@) by {
                if a@ == b@ {
                    assert(a@.len() == b@.len());
                }
            }
        }
        return false;
    }
    let mut i: usize = 0;
    while i < a.len()
        invariant
            i <= a@.len(),
            a@.len() == b@.len(),
            forall|j: int| 0 <= j < i ==> a@[j] == b@[j],
        decreases a@.len() - i,
    {
        if a[i] != b[i] {
            proof {
                assert(a@ != b@) by {
                    if a@ == b@ {
                        assert(a@[i as int] == b@[i as int]);
                    }
                }
            }
            return false;
        }
        i = i + 1;
    }
    proof {
        assert(a@ =~= b@);
    }
    true
}

/// Decode a byte payload as UTF-8 text.
///
/// Relies on `core::str::from_utf8`: it returns `Ok` exactly when the
/// bytes are valid UTF-8, and the returned string is backed by those
/// very bytes.
#[verifier::external_body]
pub(crate) fn try_utf8(v: &[u8]) -> (r: Option<&str>)
    ensures
        r is Some <==> vstd::utf8::valid_utf8(v@),
        r matches Some(s) ==> s.spec_bytes() == v@,
{
    core::str::from_utf8(v).ok()
}

/// Whether a directive string is exactly `"gettime"`.
pub fn is_gettime(d: &str) -> (r: bool)
    ensures
        r == (d@ == spec_gettime()),
{
    let target = "gettime";
    let r = bytes_eq(d.as_bytes(), target.as_bytes());
    proof {
        if d.spec_bytes() == target.spec_bytes() {
            vstd::utf8::encode_utf8_decode_utf8(d@);
            vstd::utf8::encode_utf8_decode_utf8(target@);
            assert(d@ == target@);
        }
    }
    r
}

/// A result string for the time directive: the action's output verbatim,
/// or the degraded error message when the action failed.
pub fn time_result(time: &TimeOutcome) -> (r: String)
    ensures
        r@ == spec_process(spec_gettime(), time@),
{
    match time {
        TimeOutcome::Output(s) => s.clone(),
        TimeOutcome::Failed => "error: time unavailable".to_owned(),
    }
}

/// The directive processor: given the directive text and the outcome of
/// the external time action (run by the caller only when the directive
/// asks for it), produce the result text.  Never fails.
pub fn process(d: &str, time: &TimeOutcome) -> (r: String)
    ensures
        r@ == spec_process(d@, time@),
{
    if is_gettime(d) {
        time_result(time)
    } else {
        "invalid directive".to_owned()
    }
}

} // verus!
