use tenant_ar::invoices::{Invoice, Status};
use tenant_ar::listing::{keeps, parse_list_filter, InvoiceScan, ListFilter, SCAN_BATCH};

fn invoice(id: &str, due_date: &str, status: Status) -> Invoice {
    Invoice {
        invoice_id: id.to_string(),
        customer_ref: "ACME".to_string(),
        amount: "10.00".to_string(),
        currency: "USD".to_string(),
        due_date: due_date.to_string(),
        status,
        created_at_epoch_secs: 0,
        reminded_at_epoch_secs: None,
        reminder_count: 0,
    }
}

#[test]
fn list_rejects_unknown_filter() {
    let err = parse_list_filter(Some("unpaid".to_string())).unwrap_err();
    assert!(err.contains("all|open|overdue"), "{err}");
    assert_eq!(err, "list-invoices: bad input: filter must be all|open|overdue, got \"unpaid\"");
}

#[test]
fn filter_names() {
    assert_eq!(parse_list_filter(None).unwrap(), ListFilter::All);
    assert_eq!(parse_list_filter(Some("all".to_string())).unwrap(), ListFilter::All);
    assert_eq!(parse_list_filter(Some("open".to_string())).unwrap(), ListFilter::Open);
    assert_eq!(parse_list_filter(Some("overdue".to_string())).unwrap(), ListFilter::Overdue);
    assert!(parse_list_filter(Some("Open".to_string())).is_err());
    assert!(parse_list_filter(Some("".to_string())).is_err());
}

#[test]
fn filters_keep_what_they_name() {
    let now = 11018u64 * 86400;
    let overdue = invoice("a", "2000-03-01", Status::Open);
    let future = invoice("b", "2100-01-01", Status::Open);
    let paid = invoice("c", "2000-03-01", Status::Paid);
    assert!(keeps(ListFilter::Overdue, &overdue, now));
    assert!(keeps(ListFilter::Open, &overdue, now));
    assert!(!keeps(ListFilter::Overdue, &future, now));
    assert!(keeps(ListFilter::Open, &future, now));
    assert!(!keeps(ListFilter::Open, &paid, now));
    assert!(!keeps(ListFilter::Overdue, &paid, now));
    assert!(keeps(ListFilter::All, &paid, now));
}

#[test]
fn scan_collects_in_order_and_resumes_past_last_key() {
    let now = 11018u64 * 86400;
    let mut scan = InvoiceScan::new(ListFilter::Open, now);
    assert!(scan.start.is_empty());
    let batch = vec![
        (b"a".to_vec(), invoice("a", "2000-03-01", Status::Open)),
        (b"b".to_vec(), invoice("b", "2000-03-01", Status::Paid)),
        (b"c".to_vec(), invoice("c", "2100-01-01", Status::Open)),
    ];
    scan.absorb(batch);
    assert!(scan.finished);
    assert_eq!(scan.start, b"c\0".to_vec());
    let ids: Vec<&str> = scan.invoices.iter().map(|i| i.invoice_id.as_str()).collect();
    assert_eq!(ids, vec!["a", "c"]);
}

#[test]
fn full_batch_continues_and_empty_batch_ends() {
    let mut scan = InvoiceScan::new(ListFilter::All, 0);
    let batch: Vec<(Vec<u8>, Invoice)> = (0..SCAN_BATCH)
        .map(|i| (format!("k{i:04}").into_bytes(), invoice("x", "2000-01-01", Status::Open)))
        .collect();
    scan.absorb(batch);
    assert!(!scan.finished);
    assert_eq!(scan.invoices.len(), SCAN_BATCH as usize);
    assert_eq!(scan.start, b"k0499\0".to_vec());
    scan.absorb(Vec::new());
    assert!(scan.finished);
    assert_eq!(scan.start, b"k0499\0".to_vec());
    assert_eq!(scan.invoices.len(), SCAN_BATCH as usize);
}
