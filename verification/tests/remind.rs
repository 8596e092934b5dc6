use tenant_ar::invoices::{Invoice, Status};
use tenant_ar::remind::{
    check_remind_request, compose_reminder, format_http_error, HttpError, ReminderAction, ReminderEvent,
    ReminderState, RECIPIENT_MARKER, REMINDER_COOLDOWN_SECS,
};
use tenant_ar::tenant::{invoices_map, secrets_map};

fn invoice(status: Status, reminded_at: Option<u64>, count: u32) -> Invoice {
    Invoice {
        invoice_id: "INV-1".to_string(),
        customer_ref: "ACME".to_string(),
        amount: "10.00".to_string(),
        currency: "USD".to_string(),
        due_date: "2000-03-01".to_string(),
        status,
        created_at_epoch_secs: 0,
        reminded_at_epoch_secs: reminded_at,
        reminder_count: count,
    }
}

fn step(state: ReminderState, event: ReminderEvent) -> (ReminderState, ReminderAction) {
    assert!(state.waits_for(&event));
    state.step(event)
}

fn fail_of(action: ReminderAction) -> (String, Option<String>) {
    match action {
        ReminderAction::Fail { error, log } => (error, log),
        other => panic!("expected a failure, got {other:?}"),
    }
}

/// Runs the workflow up to the gateway call for `inv` at `now`.
fn run_to_send(inv: Invoice, now: u64, api_key: Option<&str>) -> (ReminderState, ReminderAction) {
    let (s, a) = ReminderState::start("INV-1".to_string(), now);
    assert!(matches!(a, ReminderAction::LoadInvoice(ref id) if id == "INV-1"));
    let (s, a) = step(s, ReminderEvent::InvoiceLoaded(Some(inv)));
    assert!(matches!(a, ReminderAction::ReadSecret(ref k) if k == "email_endpoint"));
    let (s, a) = step(s, ReminderEvent::SecretRead(Some("https://mail.example/send".to_string())));
    assert!(matches!(a, ReminderAction::ReadSecret(ref k) if k == "email_api_key"));
    let (s, a) = step(s, ReminderEvent::SecretRead(api_key.map(|k| k.to_string())));
    assert!(matches!(a, ReminderAction::ReadSecret(ref k) if k == "email_from"));
    step(s, ReminderEvent::SecretRead(Some("ar@tenant.example".to_string())))
}

#[test]
fn remind_rejects_non_json_and_empty_id() {
    assert!(check_remind_request("").unwrap_err().contains("must not be empty"));
    assert!(check_remind_request("INV-1").is_ok());
}

#[test]
fn successful_run_records_the_reminder() {
    let now = 11018u64 * 86400;
    let (s, a) = run_to_send(invoice(Status::Open, None, 2), now, Some("k3y"));
    let req = match a {
        ReminderAction::SendEmail(req) => req,
        other => panic!("{other:?}"),
    };
    assert_eq!(req.url, "https://mail.example/send");
    assert_eq!(req.to, vec![RECIPIENT_MARKER.to_string()]);
    assert_eq!(req.subject, "Payment reminder: invoice INV-1 (10.00 USD)");
    assert_eq!(
        req.text,
        "Dear {{profile.first_name}},\n\nThis is a friendly reminder that invoice INV-1 for 10.00 USD was due on 2000-03-01.\n\nIf you have already made this payment, please disregard this message.\n\nThank you,\nAccounts Receivable"
    );
    assert_eq!(req.from.as_deref(), Some("ar@tenant.example"));
    assert_eq!(req.headers.len(), 2);
    assert_eq!(req.headers[0], ("Content-Type".to_string(), "application/json".to_string()));
    assert_eq!(req.headers[1], ("Authorization".to_string(), "Bearer k3y".to_string()));

    let (s, a) = step(s, ReminderEvent::GatewayReplied(Ok(202)));
    let stored = match a {
        ReminderAction::StoreInvoice(inv) => inv,
        other => panic!("{other:?}"),
    };
    assert_eq!(stored.reminder_count, 3);
    assert_eq!(stored.reminded_at_epoch_secs, Some(now));
    assert_eq!(stored.amount, "10.00");
    let (s, a) = step(s, ReminderEvent::InvoiceStored);
    assert!(matches!(s, ReminderState::Done));
    match a {
        ReminderAction::Finish { response, log } => {
            assert_eq!(response.invoice_id, "INV-1");
            assert_eq!(response.email_status, 202);
            assert_eq!(response.reminder_count, 3);
            assert_eq!(log, "send-reminder: INV-1 reminder #3 accepted (HTTP 202)");
        },
        other => panic!("{other:?}"),
    }
}

#[test]
fn email_before_due_day_says_is_due_and_has_no_auth_header() {
    let now = 11017u64 * 86400 + 100; // on the due day itself
    let (_, a) = run_to_send(invoice(Status::Open, None, 0), now, None);
    match a {
        ReminderAction::SendEmail(req) => {
            assert!(req.text.contains("10.00 USD is due on 2000-03-01."));
            assert_eq!(req.headers.len(), 1);
        },
        other => panic!("{other:?}"),
    }
}

#[test]
fn missing_invoice_and_closed_invoices_are_refused() {
    let (s, _) = ReminderState::start("INV-9".to_string(), 0);
    let (s, a) = step(s, ReminderEvent::InvoiceLoaded(None));
    assert!(matches!(s, ReminderState::Done));
    assert_eq!(fail_of(a).0, "send-reminder: invoice INV-9 not found");

    let (s, _) = ReminderState::start("INV-1".to_string(), 0);
    let (_, a) = step(s, ReminderEvent::InvoiceLoaded(Some(invoice(Status::Paid, None, 0))));
    assert_eq!(fail_of(a).0, "send-reminder: invoice INV-1 is not open \u{2014} no reminder sent");
}

#[test]
fn cooldown_refuses_a_second_reminder() {
    let sent = 1_000_000u64;
    let now = sent + 5 * 3600 + 59;
    let (s, _) = ReminderState::start("INV-1".to_string(), now);
    let (_, a) = step(s, ReminderEvent::InvoiceLoaded(Some(invoice(Status::Open, Some(sent), 1))));
    assert_eq!(
        fail_of(a).0,
        "send-reminder: invoice INV-1 was reminded 5h ago \u{2014} cooldown is 20h"
    );
    // a clock that went backwards counts as no time passed
    let (s, _) = ReminderState::start("INV-1".to_string(), sent - 10);
    let (_, a) = step(s, ReminderEvent::InvoiceLoaded(Some(invoice(Status::Open, Some(sent), 1))));
    assert!(fail_of(a).0.contains("was reminded 0h ago"));
    // after the window the reminder goes out
    let (_, a) = run_to_send(invoice(Status::Open, Some(sent), 1), sent + REMINDER_COOLDOWN_SECS, None);
    assert!(matches!(a, ReminderAction::SendEmail(_)));
}

#[test]
fn missing_endpoint_is_reported() {
    let (s, _) = ReminderState::start("INV-1".to_string(), 0);
    let (s, _) = step(s, ReminderEvent::InvoiceLoaded(Some(invoice(Status::Open, None, 0))));
    let (_, a) = step(s, ReminderEvent::SecretRead(None));
    assert_eq!(
        fail_of(a).0,
        "email_endpoint not found in z:<tid>:secrets \u{2014} populate it via the tenant SDK"
    );
}

#[test]
fn gateway_failures_are_reported() {
    let (s, _) = run_to_send(invoice(Status::Open, None, 0), 0, None);
    let (_, a) = step(s, ReminderEvent::GatewayReplied(Ok(401)));
    let (error, log) = fail_of(a);
    assert_eq!(
        error,
        "send-reminder: email gateway returned HTTP 401 \u{2014} check the gateway credentials and payload shape (response body withheld: it can echo recipient details)"
    );
    assert_eq!(log.as_deref(), Some("send-reminder: INV-1 gateway returned HTTP 401"));

    let (s, _) = run_to_send(invoice(Status::Open, None, 0), 0, None);
    let (_, a) = step(s, ReminderEvent::GatewayReplied(Err(HttpError::EgressDenied("mail.example".to_string()))));
    let (error, log) = fail_of(a);
    assert_eq!(error, "send-reminder: email gateway: egress denied for host mail.example");
    assert!(log.is_none());
}

#[test]
fn http_errors_render() {
    assert_eq!(format_http_error(HttpError::EgressDenied("h".to_string())), "egress denied for host h");
    assert_eq!(format_http_error(HttpError::PlaceholderDenied("m".to_string())), "placeholder not permitted: m");
    assert_eq!(format_http_error(HttpError::PlaceholderUnknown("f".to_string())), "user profile missing field: f");
    assert_eq!(
        format_http_error(HttpError::PlaceholderNoUserContext),
        "no user context bound for placeholder resolution"
    );
    assert_eq!(format_http_error(HttpError::UpstreamError("r".to_string())), "upstream: r");
}

#[test]
fn state_waits_only_for_its_own_event() {
    let (s, _) = ReminderState::start("INV-1".to_string(), 0);
    assert!(!s.waits_for(&ReminderEvent::InvoiceStored));
    assert!(!s.waits_for(&ReminderEvent::SecretRead(None)));
    let (s, _) = run_to_send(invoice(Status::Open, None, u32::MAX), 0, None);
    assert!(!s.waits_for(&ReminderEvent::GatewayReplied(Ok(200))));
    assert!(s.waits_for(&ReminderEvent::GatewayReplied(Ok(500))));
}

#[test]
fn compose_keeps_recipient_marker() {
    let inv = invoice(Status::Open, None, 0);
    let req = compose_reminder(&inv, 0, "u".to_string(), None, None);
    assert_eq!(req.to, vec!["{{profile.verified_contacts.email.value}}".to_string()]);
    assert!(req.from.is_none());
}

#[test]
fn map_names_use_lowercase_hex_of_the_tenant() {
    assert_eq!(invoices_map(&[0xde, 0xad, 0x01]), "z:dead01:invoices");
    assert_eq!(secrets_map(b"did:x"), "z:6469643a78:secrets");
    assert_eq!(invoices_map(&[]), "z::invoices");
}
