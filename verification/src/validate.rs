//! Validation of notification requests: trimming, required fields, and
//! the content length bound.

use vstd::prelude::*;
use crate::text::{all_white, char_count, lemma_trim_all_white, trim_spec, trim_str};
use vstd::string::StrSliceExecFns;
use vstd::string::StringExecFns;

verus! {

/// Soft bound on the character count of the `content` field, leaving
/// room for the agent prefix under the notification body cap.
pub const SOFT_CONTENT_LIMIT_CHARS: usize = 950;

/// Why a notification request was rejected.  Both variants are invalid
/// input: recoverable, surfaced to the caller, never fatal.
#[derive(Clone, Copy, Debug, PartialEq, Eq, Structural)]
pub enum ValidateError {
    /// `title`, `content` or `agent` is empty after trimming.
    MissingField,
    /// `content` exceeds [`SOFT_CONTENT_LIMIT_CHARS`] characters after
    /// trimming.
    ContentTooLong,
}

impl ValidateError {
    /// The message reported to the caller for this rejection.
    pub fn message(&self) -> (m: String)
        ensures
            *self is MissingField ==> m@ == "'title', 'content', and 'agent' are required"@,
            *self is ContentTooLong ==> m@
                == "'content' is too long; keep it under 950 characters"@,
    {
        match self {
            ValidateError::MissingField => String::from_str(
                "'title', 'content', and 'agent' are required",
            ),
            ValidateError::ContentTooLong => String::from_str(
                "'content' is too long; keep it under 950 characters",
            ),
        }
    }
}

/// What validation decides for the given raw fields: the trimmed fields
/// on success, the rejection otherwise.
pub open spec fn validate_spec(title: Seq<char>, content: Seq<char>, agent: Seq<char>) -> Result<
    (Seq<char>, Seq<char>, Seq<char>),
    ValidateError,
> {
    let t = trim_spec(title);
    let c = trim_spec(content);
    let a = trim_spec(agent);
    if t.len() == 0 || c.len() == 0 || a.len() == 0 {
        Err(ValidateError::MissingField)
    } else if c.len() > SOFT_CONTENT_LIMIT_CHARS {
        Err(ValidateError::ContentTooLong)
    } else {
        Ok((t, c, a))
    }
}

/// Trims the three fields, requires each to be non-empty afterwards, and
/// bounds the content's character count; returns the trimmed fields.
pub fn validate_notification_fields(title: &str, content: &str, agent: &str) -> (r: Result<
    (String, String, String),
    ValidateError,
>)
    ensures
        match r {
            Ok(out) => validate_spec(title@, content@, agent@) matches Ok(v) && out.0@ == v.0
                && out.1@ == v.1 && out.2@ == v.2,
            Err(e) => validate_spec(title@, content@, agent@) == Err::<
                (Seq<char>, Seq<char>, Seq<char>),
                ValidateError,
            >(e),
        },
{
    let t = trim_str(title);
    let c = trim_str(content);
    let a = trim_str(agent);

    if char_count(t.as_str()) == 0 || char_count(c.as_str()) == 0 || char_count(a.as_str()) == 0 {
        return Err(ValidateError::MissingField);
    }

    if char_count(c.as_str()) > SOFT_CONTENT_LIMIT_CHARS {
        return Err(ValidateError::ContentTooLong);
    }

    Ok((t, c, a))
}

/// A request with any blank field is rejected: if `title`, `content` or
/// `agent` consists of whitespace only (or is empty), validation fails
/// with the missing-field rejection.
pub proof fn lemma_blank_fields_rejected(title: Seq<char>, content: Seq<char>, agent: Seq<char>)
    requires
        all_white(title) || all_white(content) || all_white(agent),
    ensures
        validate_spec(title, content, agent) == Err::<(Seq<char>, Seq<char>, Seq<char>),
            ValidateError,
        >(ValidateError::MissingField),
{
    if all_white(title) {
        lemma_trim_all_white(title);
    } else if all_white(content) {
        lemma_trim_all_white(content);
    } else {
        lemma_trim_all_white(agent);
    }
}

/// The content bound is tight: content over the limit (after trimming)
/// is always rejected, while content of exactly the limit passes
/// whenever the other fields do.
pub proof fn lemma_content_limit(title: Seq<char>, content: Seq<char>, agent: Seq<char>)
    ensures
        trim_spec(content).len() > SOFT_CONTENT_LIMIT_CHARS ==> validate_spec(
            title,
            content,
            agent,
        ) is Err,
        trim_spec(title).len() > 0 && trim_spec(agent).len() > 0 && trim_spec(content).len()
            == SOFT_CONTENT_LIMIT_CHARS ==> validate_spec(title, content, agent) is Ok,
{
}

} // verus!
