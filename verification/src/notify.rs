//! The dispatcher: turns a request into the bounded notification handed
//! to the platform notifier, and the plain notify endpoint's decisions.

use vstd::prelude::*;
use crate::text::{clip, clip_chars, trim_spec, trim_str, char_count};
use vstd::string::StrSliceExecFns;
use vstd::string::StringExecFns;

verus! {

/// Hard cap on the notification body's character count; platform toast
/// bodies truncate beyond roughly this size.
pub const MAX_NOTIFICATION_BODY_CHARS: usize = 1000;

/// What crosses into the platform notifier: a title and a body already
/// truncated to [`MAX_NOTIFICATION_BODY_CHARS`] characters.
pub struct Notification {
    pub title: String,
    pub body: String,
}

/// The untruncated notification body for the given agent and content:
/// `"{agent}: {content}"`.
pub open spec fn body_spec(agent: Seq<char>, content: Seq<char>) -> Seq<char> {
    agent + ": "@ + content
}

/// `n` is exactly the notification that dispatch prepares for the given
/// title, content and agent.
pub open spec fn prepared_for(
    n: Notification,
    title: Seq<char>,
    content: Seq<char>,
    agent: Seq<char>,
) -> bool {
    &&& n.title@ == title
    &&& n.body@ == clip(body_spec(agent, content), MAX_NOTIFICATION_BODY_CHARS as int)
}

/// Builds the notification for a validated request: body
/// `"{agent}: {content}"` truncated to the first
/// [`MAX_NOTIFICATION_BODY_CHARS`] characters.  Truncation counts
/// Unicode scalar values, so it never splits a multi-byte character.
pub fn prepare_notification(title: &str, content: &str, agent: &str) -> (n: Notification)
    ensures
        prepared_for(n, title@, content@, agent@),
{
    let mut body = String::from_str(agent);
    body.append(": ");
    body.append(content);
    let body = clip_chars(body, MAX_NOTIFICATION_BODY_CHARS);
    Notification { title: String::from_str(title), body }
}

/// The prepared body holds `min(|agent| + 2 + |content|, 1000)`
/// characters: the full `"{agent}: {content}"` when it fits the cap, and
/// exactly the cap otherwise.
pub proof fn lemma_body_length(agent: Seq<char>, content: Seq<char>)
    ensures
        ({
            let b = clip(body_spec(agent, content), MAX_NOTIFICATION_BODY_CHARS as int);
            b.len() == if agent.len() + 2 + content.len() <= MAX_NOTIFICATION_BODY_CHARS {
                agent.len() + 2 + content.len()
            } else {
                MAX_NOTIFICATION_BODY_CHARS as nat
            }
        }),
{
    reveal_strlit(": ");
}

/// Dispatch keeps no history: the notification prepared for a request is
/// a function of that request alone.  Two dispatches of identical input
/// therefore produce two equal, independent notifications — the second
/// is never deduplicated against the first.
pub proof fn lemma_dispatch_no_dedup(
    n1: Notification,
    n2: Notification,
    title: Seq<char>,
    content: Seq<char>,
    agent: Seq<char>,
)
    requires
        prepared_for(n1, title, content, agent),
        prepared_for(n2, title, content, agent),
    ensures
        n1.title@ == n2.title@,
        n1.body@ == n2.body@,
{
}

/// What the plain notify endpoint decides for a request.
pub enum NotifyPlan {
    /// Not listening: reject before looking at the fields.
    Unavailable,
    /// Some field is empty after trimming.
    MissingFields,
    /// Dispatch this notification.
    Dispatch(Notification),
}

/// Decides the plain notify endpoint's action: gate check first, then
/// the trim-and-non-empty check (this endpoint enforces no length cap),
/// then the prepared notification built from the trimmed fields.
pub fn plan_notify(gate_open: bool, title: &str, content: &str, agent: &str) -> (r: NotifyPlan)
    ensures
        !gate_open ==> r is Unavailable,
        gate_open && (trim_spec(title@).len() == 0 || trim_spec(content@).len() == 0 || trim_spec(
            agent@,
        ).len() == 0) ==> r is MissingFields,
        gate_open && trim_spec(title@).len() > 0 && trim_spec(content@).len() > 0 && trim_spec(
            agent@,
        ).len() > 0 ==> (r matches NotifyPlan::Dispatch(n) && prepared_for(
            n,
            trim_spec(title@),
            trim_spec(content@),
            trim_spec(agent@),
        )),
{
    if !gate_open {
        return NotifyPlan::Unavailable;
    }
    let t = trim_str(title);
    let c = trim_str(content);
    let a = trim_str(agent);
    if char_count(t.as_str()) == 0 || char_count(c.as_str()) == 0 || char_count(a.as_str()) == 0 {
        return NotifyPlan::MissingFields;
    }
    NotifyPlan::Dispatch(prepare_notification(t.as_str(), c.as_str(), a.as_str()))
}

impl NotifyPlan {
    /// The HTTP status the plain endpoint replies with, given whether a
    /// planned dispatch succeeded.
    pub fn reply_status(&self, dispatched_ok: bool) -> (s: u16)
        ensures
            *self is Unavailable ==> s == 503,
            *self is MissingFields ==> s == 400,
            *self is Dispatch && dispatched_ok ==> s == 200,
            *self is Dispatch && !dispatched_ok ==> s == 500,
    {
        match self {
            NotifyPlan::Unavailable => 503,
            NotifyPlan::MissingFields => 400,
            NotifyPlan::Dispatch(_) => if dispatched_ok {
                200
            } else {
                500
            },
        }
    }

    /// The message body of the plain endpoint's reply.  A dispatch
    /// failure is replaced with a generic message: the detail is logged
    /// locally, never returned to the caller.
    pub fn reply_message(&self, dispatched_ok: bool) -> (m: String)
        ensures
            *self is Unavailable ==> m@ == "Server is not listening"@,
            *self is MissingFields ==> m@ == "'title', 'content', and 'agent' are required"@,
            *self is Dispatch && dispatched_ok ==> m@ == "Notification dispatched"@,
            *self is Dispatch && !dispatched_ok ==> m@ == "Failed to dispatch notification"@,
    {
        match self {
            NotifyPlan::Unavailable => String::from_str("Server is not listening"),
            NotifyPlan::MissingFields => String::from_str(
                "'title', 'content', and 'agent' are required",
            ),
            NotifyPlan::Dispatch(_) => if dispatched_ok {
                String::from_str("Notification dispatched")
            } else {
                String::from_str("Failed to dispatch notification")
            },
        }
    }
}

/// The notifier permission states the platform reports.
pub enum PermissionLevel {
    Granted,
    Prompt,
    PromptWithRationale,
    Denied,
    /// The state could not be read.
    Unknown,
}

/// What to do about notification permission at startup.
#[derive(Clone, Copy, Debug, PartialEq, Eq, Structural)]
pub enum PermissionStep {
    /// Permission already granted: nothing to do.
    Nothing,
    /// Ask the platform to prompt the user.
    Request,
    /// Permission denied: report it, best effort only.
    ReportDenied,
    /// The state was unreadable: report it, best effort only.
    ReportUnreadable,
}

/// Decides the startup permission action from the reported state: prompt
/// states ask for permission, everything else is at most reported.
pub fn permission_step(level: &PermissionLevel) -> (s: PermissionStep)
    ensures
        *level is Granted ==> s == PermissionStep::Nothing,
        *level is Prompt || *level is PromptWithRationale ==> s == PermissionStep::Request,
        *level is Denied ==> s == PermissionStep::ReportDenied,
        *level is Unknown ==> s == PermissionStep::ReportUnreadable,
{
    match level {
        PermissionLevel::Granted => PermissionStep::Nothing,
        PermissionLevel::Prompt => PermissionStep::Request,
        PermissionLevel::PromptWithRationale => PermissionStep::Request,
        PermissionLevel::Denied => PermissionStep::ReportDenied,
        PermissionLevel::Unknown => PermissionStep::ReportUnreadable,
    }
}

} // verus!
