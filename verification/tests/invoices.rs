use tenant_ar::invoices::{is_overdue, merge_upsert, parse_due_date, validate, Invoice, Status, UpsertReq};
use tenant_ar::CONTRACT_VERSION;

fn valid() -> UpsertReq {
    UpsertReq {
        invoice_id: "INV-2026-001".to_string(),
        customer_ref: "ACME-0042".to_string(),
        amount: "1250.00".to_string(),
        currency: "USD".to_string(),
        due_date: "2026-09-30".to_string(),
        status: None,
    }
}

fn invoice(due_date: &str, status: Status) -> Invoice {
    Invoice {
        invoice_id: "INV-1".to_string(),
        customer_ref: "ACME".to_string(),
        amount: "10.00".to_string(),
        currency: "USD".to_string(),
        due_date: due_date.to_string(),
        status,
        created_at_epoch_secs: 0,
        reminded_at_epoch_secs: None,
        reminder_count: 0,
    }
}

#[test]
fn upsert_rejects_email_as_customer_ref() {
    let mut input = valid();
    input.customer_ref = "jane@example.com".to_string();
    let err = validate(&input).unwrap_err();
    assert!(err.contains("not an email address"), "{err}");
}

#[test]
fn upsert_rejects_float_amounts_and_bad_currency() {
    for (field, bad_value) in [
        ("amount", "12,50"),
        ("amount", ""),
        ("amount", "1.23456"),
        ("currency", "usd"),
        ("currency", "USDC"),
        ("due_date", "2026-02-30"),
        ("due_date", "30-09-2026"),
    ] {
        let mut input = valid();
        match field {
            "amount" => input.amount = bad_value.to_string(),
            "currency" => input.currency = bad_value.to_string(),
            _ => input.due_date = bad_value.to_string(),
        }
        let err = validate(&input).unwrap_err();
        assert!(err.contains("bad input"), "{field}={bad_value}: {err}");
    }
}

// Anchors verified independently: 1970-01-01 is epoch day 0;
// 2000-01-01 is day 10957 (30*365 + 7 leap days); 2000 is a leap year,
// so 2000-03-01 = 10957 + 31 + 29 = 11017.
#[test]
fn civil_date_anchors() {
    assert_eq!(parse_due_date("1970-01-01").unwrap(), 0);
    assert_eq!(parse_due_date("2000-01-01").unwrap(), 10957);
    assert_eq!(parse_due_date("2000-03-01").unwrap(), 11017);
}

#[test]
fn overdue_is_strictly_past_due_date() {
    let mut inv = invoice("2000-03-01", Status::Open);
    let due_midnight = 11017u64 * 86400;
    assert!(!is_overdue(&inv, due_midnight + 86399)); // still the due day
    assert!(is_overdue(&inv, due_midnight + 86400)); // first second past it
    inv.status = Status::Paid;
    assert!(!is_overdue(&inv, due_midnight + 86400));
}

#[test]
fn contract_version_is_semver() {
    let parts: Vec<&str> = CONTRACT_VERSION.split('.').collect();
    assert_eq!(parts.len(), 3, "CONTRACT_VERSION must be MAJOR.MINOR.PATCH");
    for part in parts {
        assert!(part.parse::<u32>().is_ok(), "each part must be a number");
    }
}

#[test]
fn valid_request_passes() {
    assert!(validate(&valid()).is_ok());
    let mut input = valid();
    input.amount = "7".to_string();
    assert!(validate(&input).is_ok());
    input.amount = "0.1234".to_string();
    assert!(validate(&input).is_ok());
    input.amount = "12345678901234567890".to_string();
    assert!(validate(&input).is_ok());
    input.invoice_id = "a".repeat(64);
    assert!(validate(&input).is_ok());
    input.customer_ref = "é".repeat(64); // 128 bytes
    assert!(validate(&input).is_ok());
}

#[test]
fn each_rejection_names_its_rule() {
    let mut input = valid();
    input.invoice_id = String::new();
    assert_eq!(
        validate(&input).unwrap_err(),
        "upsert-invoice: bad input: invoice_id must be 1-64 chars of [A-Za-z0-9._-]"
    );
    input.invoice_id = "a".repeat(65);
    assert!(validate(&input).unwrap_err().contains("invoice_id must be 1-64 chars"));
    input.invoice_id = "INV/1".to_string();
    assert!(validate(&input).unwrap_err().contains("invoice_id must be 1-64 chars"));
    input.invoice_id = "INVé".to_string();
    assert!(validate(&input).unwrap_err().contains("invoice_id must be 1-64 chars"));

    let mut input = valid();
    input.customer_ref = String::new();
    assert_eq!(validate(&input).unwrap_err(), "upsert-invoice: bad input: customer_ref must be 1-128 chars");
    input.customer_ref = "é".repeat(65); // 130 bytes, 65 chars
    assert!(validate(&input).unwrap_err().contains("customer_ref must be 1-128 chars"));
    input.customer_ref = "a@b".to_string();
    assert_eq!(
        validate(&input).unwrap_err(),
        "upsert-invoice: bad input: customer_ref must be an opaque business reference, not an email address \u{2014} customer contact details live in the user profile and never enter this contract"
    );

    let mut input = valid();
    input.amount = "1.".to_string();
    assert_eq!(
        validate(&input).unwrap_err(),
        "upsert-invoice: bad input: amount must be a decimal string like \"1250.00\", got \"1.\""
    );
    for bad in [".5", "1.2.3", "123456789012345678901", "-1", "1e5", "１"] {
        input.amount = bad.to_string();
        assert!(validate(&input).unwrap_err().contains("amount must be a decimal string"), "{bad}");
    }

    let mut input = valid();
    input.currency = "US".to_string();
    assert_eq!(
        validate(&input).unwrap_err(),
        "upsert-invoice: bad input: currency must be a 3-letter uppercase code, got \"US\""
    );

    let mut input = valid();
    input.due_date = "2025-02-29".to_string();
    assert_eq!(
        validate(&input).unwrap_err(),
        "upsert-invoice: bad input: bad due_date \"2025-02-29\": must be a valid YYYY-MM-DD"
    );
}

#[test]
fn first_failing_rule_wins() {
    let mut input = valid();
    input.invoice_id = String::new();
    input.customer_ref = "a@b".to_string();
    input.amount = "x".to_string();
    assert!(validate(&input).unwrap_err().contains("invoice_id"));
    input.invoice_id = "ok".to_string();
    assert!(validate(&input).unwrap_err().contains("not an email address"));
}

#[test]
fn due_date_bounds_and_leap_years() {
    assert!(parse_due_date("1969-12-31").is_err());
    assert!(parse_due_date("2201-01-01").is_err());
    assert!(parse_due_date("2200-12-31").is_ok());
    assert!(parse_due_date("2024-02-29").is_ok());
    assert!(parse_due_date("2100-02-29").is_err());
    assert!(parse_due_date("2000-02-29").is_ok());
    assert!(parse_due_date("2026-04-31").is_err());
    assert!(parse_due_date("2026-13-01").is_err());
    assert!(parse_due_date("2026-00-10").is_err());
    assert!(parse_due_date("2026-01-00").is_err());
    assert!(parse_due_date("2026-1-01").is_err());
    assert!(parse_due_date("2026/01/01").is_err());
    assert!(parse_due_date("20é6-01-01").is_err());
    assert_eq!(
        parse_due_date("x").unwrap_err(),
        "bad due_date \"x\": must be a valid YYYY-MM-DD"
    );
    assert_eq!(parse_due_date("1970-12-31").unwrap(), 364);
    assert_eq!(parse_due_date("1971-01-01").unwrap(), 365);
    assert_eq!(parse_due_date("2026-09-30").unwrap(), 20726);
    assert_eq!(parse_due_date("2200-12-31").unwrap(), 84370);
}

#[test]
fn consecutive_days_have_consecutive_numbers() {
    let pairs = [
        ("2024-02-28", "2024-02-29"),
        ("2024-02-29", "2024-03-01"),
        ("2023-02-28", "2023-03-01"),
        ("2025-12-31", "2026-01-01"),
        ("2000-04-30", "2000-05-01"),
    ];
    for (a, b) in pairs {
        assert_eq!(parse_due_date(a).unwrap() + 1, parse_due_date(b).unwrap(), "{a} {b}");
    }
    assert!(parse_due_date("2026-01-31").unwrap() < parse_due_date("2026-02-01").unwrap());
    assert!(parse_due_date("2025-12-31").unwrap() < parse_due_date("2026-01-01").unwrap());
}

#[test]
fn overdue_stays_overdue_and_needs_valid_date() {
    let inv = invoice("2000-03-01", Status::Open);
    let later = 11018u64 * 86400;
    assert!(is_overdue(&inv, later));
    assert!(is_overdue(&inv, later * 2));
    let broken = invoice("not-a-date", Status::Open);
    assert!(!is_overdue(&broken, u64::MAX));
    let void = invoice("2000-03-01", Status::Void);
    assert!(!is_overdue(&void, later));
}

#[test]
fn upsert_creates_then_updates_keeping_bookkeeping() {
    let (created, is_new) = merge_upsert(valid(), None, 1000);
    assert!(is_new);
    assert_eq!(created.status, Status::Open);
    assert_eq!(created.created_at_epoch_secs, 1000);
    assert_eq!(created.reminder_count, 0);
    assert_eq!(created.reminded_at_epoch_secs, None);

    let mut prev = created;
    prev.reminder_count = 3;
    prev.reminded_at_epoch_secs = Some(5000);
    prev.status = Status::Paid;
    let mut req = valid();
    req.amount = "99.99".to_string();
    let (updated, is_new) = merge_upsert(req, Some(prev), 9000);
    assert!(!is_new);
    assert_eq!(updated.amount, "99.99");
    assert_eq!(updated.created_at_epoch_secs, 1000);
    assert_eq!(updated.reminder_count, 3);
    assert_eq!(updated.reminded_at_epoch_secs, Some(5000));
    assert_eq!(updated.status, Status::Paid); // no status in the request: kept

    let mut req = valid();
    req.status = Some(Status::Void);
    let (updated2, _) = merge_upsert(req, Some(updated), 9999);
    assert_eq!(updated2.status, Status::Void);
    assert_eq!(updated2.created_at_epoch_secs, 1000);
}

#[test]
fn repeated_upsert_changes_nothing() {
    let (first, _) = merge_upsert(valid(), None, 42);
    let (second, is_new) = merge_upsert(valid(), Some(first), 77);
    assert!(!is_new);
    assert_eq!(second.created_at_epoch_secs, 42);
    assert_eq!(second.status, Status::Open);
    assert_eq!(second.amount, "1250.00");
    assert_eq!(second.invoice_id, "INV-2026-001");
}
