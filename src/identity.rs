use vstd::prelude::*;

verus! {

/// The length of an identifier in its hyphenated form.
pub const ID_LENGTH: usize = 36;

/// Relies on uuid's `Uuid::new_v4` and its `Display`, which writes the
/// hyphenated form of 36 characters.
#[verifier::external_body]
pub(crate) fn fresh_id() -> (r: String)
    ensures
        r@.len() == ID_LENGTH,
{
    uuid::Uuid::new_v4().to_string()
}

/// Relies on chrono's `Utc::now` and its `Display`, which writes the date and
/// time followed by " UTC".
#[verifier::external_body]
pub(crate) fn current_timestamp() -> (r: String)
    ensures
        r@.len() >= 4,
        r@.subrange(r@.len() - 4, r@.len() as int) == " UTC"@,
{
    chrono::Utc::now().to_string()
}

} // verus!
