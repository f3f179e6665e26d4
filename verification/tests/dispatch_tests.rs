use agent_notifier::greet;
use agent_notifier::notify::{
    permission_step, plan_notify, prepare_notification, NotifyPlan, PermissionLevel,
    PermissionStep,
};

#[test]
fn body_is_agent_prefix_plus_content() {
    let n = prepare_notification("T", "C", "A");
    assert_eq!(n.title, "T");
    assert_eq!(n.body, "A: C");
    assert_eq!(n.body.chars().count(), 4);
}

#[test]
fn body_truncated_to_thousand_characters() {
    let content = "x".repeat(1200);
    let n = prepare_notification("t", &content, "A");
    assert_eq!(n.body.chars().count(), 1000);
    assert!(n.body.starts_with("A: "));
    assert_eq!(&n.body[3..], "x".repeat(997).as_str());
}

#[test]
fn truncation_does_not_split_multibyte_characters() {
    // Two-byte characters: a byte-level cut at 1000 would break one apart.
    let content = "\u{e9}".repeat(1200);
    let n = prepare_notification("t", &content, "A");
    assert_eq!(n.body.chars().count(), 1000);
    assert!(n.body.chars().skip(3).all(|c| c == '\u{e9}'));
    // The body is valid UTF-8 by construction; its last character is whole.
    assert_eq!(n.body.chars().last(), Some('\u{e9}'));
}

#[test]
fn short_body_is_not_padded() {
    let n = prepare_notification("t", "ok", "ci");
    assert_eq!(n.body, "ci: ok");
}

#[test]
fn dispatch_twice_gives_two_equal_independent_notifications() {
    let first = prepare_notification("T", "C", "A");
    let second = prepare_notification("T", "C", "A");
    assert_eq!(first.title, second.title);
    assert_eq!(first.body, second.body);
    // Both exist at once: nothing was deduplicated.
    assert_eq!(first.body, "A: C");
    assert_eq!(second.body, "A: C");
}

#[test]
fn notify_endpoint_dispatches_build_ok_ci() {
    let plan = plan_notify(true, "Build", "ok", "ci");
    match &plan {
        NotifyPlan::Dispatch(n) => {
            assert_eq!(n.title, "Build");
            assert_eq!(n.body, "ci: ok");
        }
        other => panic!("expected a dispatch, got {:?}", other.reply_status(true)),
    }
    assert_eq!(plan.reply_status(true), 200);
    assert_eq!(plan.reply_message(true), "Notification dispatched");
    assert_eq!(plan.reply_status(false), 500);
    assert_eq!(plan.reply_message(false), "Failed to dispatch notification");
}

#[test]
fn notify_endpoint_rejects_when_gate_closed() {
    let plan = plan_notify(false, "Build", "ok", "ci");
    assert!(matches!(plan, NotifyPlan::Unavailable));
    assert_eq!(plan.reply_status(true), 503);
    assert_eq!(plan.reply_message(true), "Server is not listening");
}

#[test]
fn notify_endpoint_rejects_blank_fields() {
    let plan = plan_notify(true, "  ", "ok", "ci");
    assert!(matches!(plan, NotifyPlan::MissingFields));
    assert_eq!(plan.reply_status(true), 400);
    assert_eq!(
        plan.reply_message(true),
        "'title', 'content', and 'agent' are required"
    );
}

#[test]
fn notify_endpoint_enforces_no_length_cap() {
    // The plain endpoint checks emptiness only; long content still
    // dispatches, truncated.
    let content = "x".repeat(2000);
    let plan = plan_notify(true, "t", &content, "a");
    match plan {
        NotifyPlan::Dispatch(n) => assert_eq!(n.body.chars().count(), 1000),
        _ => panic!("expected a dispatch"),
    }
}

#[test]
fn permission_steps() {
    assert_eq!(permission_step(&PermissionLevel::Granted), PermissionStep::Nothing);
    assert_eq!(permission_step(&PermissionLevel::Prompt), PermissionStep::Request);
    assert_eq!(
        permission_step(&PermissionLevel::PromptWithRationale),
        PermissionStep::Request
    );
    assert_eq!(permission_step(&PermissionLevel::Denied), PermissionStep::ReportDenied);
    assert_eq!(
        permission_step(&PermissionLevel::Unknown),
        PermissionStep::ReportUnreadable
    );
}

#[test]
fn greet_formats_the_name() {
    assert_eq!(greet("Verus"), "Hello, Verus! You've been greeted from Rust!");
}
