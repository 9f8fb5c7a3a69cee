use vstd::prelude::*;

verus! {

/// Relies on chrono::Local::now and its "%Y-%m-%d %H:%M:%S" formatting: the
/// current local wall-clock time rendered with zero-padded fields (the year to
/// at least four digits), hence at least 19 characters. The value itself
/// depends on the clock, so nothing more is stated of it.
#[verifier::external_body]
pub(crate) fn now_timestamp() -> (r: String)
    ensures
        r@.len() >= 19,
{
    chrono::Local::now().format("%Y-%m-%d %H:%M:%S").to_string()
}

} // verus!
