//! The reminder workflow: emails the customer of one open invoice through the
//! host's placeholder-resolving HTTP interface.
//!
//! The recipient address and greeting name are `{{profile.<field>}}` markers
//! resolved host-side from the calling user's profile: the request carries
//! just an invoice id, and plaintext contact details never enter the
//! contract. The workflow is a state machine: each step takes what the host
//! answered and says what to ask the host next.

use vstd::prelude::*;

use crate::invoices::{self, is_overdue, Invoice, Status};
use crate::text::{self, push_decimal};

verus! {

/// Refuse a second reminder inside this window, so a double-fired cron or a
/// retried agent run cannot spam the customer.
pub const REMINDER_COOLDOWN_SECS: u64 = 20 * 3600;

/// Host-resolved marker for the recipient's verified email address.
pub const RECIPIENT_MARKER: &'static str = "{{profile.verified_contacts.email.value}}";

/// Secret that holds the email gateway URL.
pub const SECRET_ENDPOINT: &'static str = "email_endpoint";

/// Secret that holds the gateway's API key (optional).
pub const SECRET_API_KEY: &'static str = "email_api_key";

/// Secret that holds the sender address (optional).
pub const SECRET_FROM: &'static str = "email_from";

/// Why the host refused or failed an HTTP call.
#[derive(Debug)]
pub enum HttpError {
    EgressDenied(String),
    PlaceholderDenied(String),
    PlaceholderUnknown(String),
    PlaceholderNoUserContext,
    UpstreamError(String),
}

/// An email for the gateway: a JSON POST to `url` whose body holds
/// `to`, `subject`, `text` and, when set, `from`.
#[derive(Debug)]
pub struct EmailRequest {
    pub url: String,
    pub headers: Vec<(String, String)>,
    pub to: Vec<String>,
    pub subject: String,
    pub text: String,
    pub from: Option<String>,
}

/// What a successful reminder reports.
#[derive(Debug)]
pub struct RemindResp {
    pub invoice_id: String,
    pub email_status: u16,
    pub reminder_count: u32,
}

// ---------------------------------------------------------------------------
// Messages
// ---------------------------------------------------------------------------

pub open spec fn msg_empty_invoice_id() -> Seq<char> {
    "send-reminder: bad input: invoice_id must not be empty"@
}

pub open spec fn msg_not_found(id: Seq<char>) -> Seq<char> {
    "send-reminder: invoice "@ + id + " not found"@
}

pub open spec fn msg_not_open(id: Seq<char>) -> Seq<char> {
    "send-reminder: invoice "@ + id + " is not open \u{2014} no reminder sent"@
}

pub open spec fn msg_cooldown(id: Seq<char>, since: u64) -> Seq<char> {
    "send-reminder: invoice "@ + id + " was reminded "@ + text::decimal_text((since / 3600) as nat)
        + "h ago \u{2014} cooldown is "@ + text::decimal_text((REMINDER_COOLDOWN_SECS / 3600) as nat) + "h"@
}

pub open spec fn msg_missing_endpoint() -> Seq<char> {
    "email_endpoint not found in z:<tid>:secrets \u{2014} populate it via the tenant SDK"@
}

pub open spec fn http_error_text(e: HttpError) -> Seq<char> {
    match e {
        HttpError::EgressDenied(host) => "egress denied for host "@ + host@,
        HttpError::PlaceholderDenied(marker) => "placeholder not permitted: "@ + marker@,
        HttpError::PlaceholderUnknown(field) => "user profile missing field: "@ + field@,
        HttpError::PlaceholderNoUserContext => "no user context bound for placeholder resolution"@,
        HttpError::UpstreamError(reason) => "upstream: "@ + reason@,
    }
}

pub open spec fn msg_gateway_error(e: HttpError) -> Seq<char> {
    "send-reminder: email gateway: "@ + http_error_text(e)
}

pub open spec fn msg_gateway_status(code: u16) -> Seq<char> {
    "send-reminder: email gateway returned HTTP "@ + text::decimal_text(code as nat)
        + " \u{2014} check the gateway credentials and payload shape (response body withheld: it can echo recipient details)"@
}

pub open spec fn log_gateway_status(id: Seq<char>, code: u16) -> Seq<char> {
    "send-reminder: "@ + id + " gateway returned HTTP "@ + text::decimal_text(code as nat)
}

pub open spec fn log_accepted(id: Seq<char>, count: u32, code: u16) -> Seq<char> {
    "send-reminder: "@ + id + " reminder #"@ + text::decimal_text(count as nat) + " accepted (HTTP "@
        + text::decimal_text(code as nat) + ")"@
}

/// Renders a host HTTP error for the caller.
pub fn format_http_error(e: HttpError) -> (msg: String)
    ensures
        msg@ == http_error_text(e),
{
    match e {
        HttpError::EgressDenied(host) => {
            let mut msg = "egress denied for host ".to_owned();
            msg.append(host.as_str());
            msg
        },
        HttpError::PlaceholderDenied(marker) => {
            let mut msg = "placeholder not permitted: ".to_owned();
            msg.append(marker.as_str());
            msg
        },
        HttpError::PlaceholderUnknown(field) => {
            let mut msg = "user profile missing field: ".to_owned();
            msg.append(field.as_str());
            msg
        },
        HttpError::PlaceholderNoUserContext => "no user context bound for placeholder resolution".to_owned(),
        HttpError::UpstreamError(reason) => {
            let mut msg = "upstream: ".to_owned();
            msg.append(reason.as_str());
            msg
        },
    }
}

/// The reminder request names an invoice.
pub fn check_remind_request(invoice_id: &str) -> (r: Result<(), String>)
    ensures
        invoice_id@.len() != 0 ==> r is Ok,
        invoice_id@.len() == 0 ==> (r matches Err(e) && e@ == msg_empty_invoice_id()),
{
    if invoice_id.is_empty() {
        return Err("send-reminder: bad input: invoice_id must not be empty".to_owned());
    }
    Ok(())
}

// ---------------------------------------------------------------------------
// Who may be reminded, and what the email says
// ---------------------------------------------------------------------------

/// `now - last`, or 0 when `last` lies in the future.
pub open spec fn secs_since(now: u64, last: u64) -> u64 {
    if now >= last { (now - last) as u64 } else { 0 }
}

/// Why no reminder may be sent for `inv` at time `now`, if any: it is not
/// open, or the last reminder lies within the cooldown window.
pub open spec fn reminder_refusal(inv: Invoice, now: u64) -> Option<Seq<char>> {
    if inv.status != Status::Open {
        Some(msg_not_open(inv.invoice_id@))
    } else {
        match inv.reminded_at_epoch_secs {
            Some(last) => if secs_since(now, last) < REMINDER_COOLDOWN_SECS {
                Some(msg_cooldown(inv.invoice_id@, secs_since(now, last)))
            } else {
                None
            },
            None => None,
        }
    }
}

fn refusal(inv: &Invoice, now: u64) -> (r: Option<String>)
    ensures
        match reminder_refusal(*inv, now) {
            None => r is None,
            Some(m) => r matches Some(s) && s@ == m,
        },
{
    if inv.status != Status::Open {
        let mut msg = "send-reminder: invoice ".to_owned();
        msg.append(inv.invoice_id.as_str());
        msg.append(" is not open \u{2014} no reminder sent");
        return Some(msg);
    }
    if let Some(last) = inv.reminded_at_epoch_secs {
        let since = now.saturating_sub(last);
        if since < REMINDER_COOLDOWN_SECS {
            let mut msg = "send-reminder: invoice ".to_owned();
            msg.append(inv.invoice_id.as_str());
            msg.append(" was reminded ");
            push_decimal(&mut msg, since / 3600);
            msg.append("h ago \u{2014} cooldown is ");
            push_decimal(&mut msg, REMINDER_COOLDOWN_SECS / 3600);
            msg.append("h");
            return Some(msg);
        }
    }
    None
}

pub open spec fn reminder_subject(inv: Invoice) -> Seq<char> {
    "Payment reminder: invoice "@ + inv.invoice_id@ + " ("@ + inv.amount@ + " "@ + inv.currency@ + ")"@
}

pub open spec fn reminder_text(inv: Invoice, overdue: bool) -> Seq<char> {
    "Dear {{profile.first_name}},\n\nThis is a friendly reminder that invoice "@ + inv.invoice_id@ + " for "@
        + inv.amount@ + " "@ + inv.currency@ + " "@ + (if overdue { "was due"@ } else { "is due"@ }) + " on "@
        + inv.due_date@
        + ".\n\nIf you have already made this payment, please disregard this message.\n\nThank you,\nAccounts Receivable"@
}

/// The gateway headers: JSON content, plus a bearer token when an API key is set.
pub open spec fn reminder_headers_ok(headers: Seq<(String, String)>, api_key: Option<String>) -> bool {
    &&& headers.len() == (if api_key is Some { 2int } else { 1int })
    &&& headers[0].0@ == "Content-Type"@
    &&& headers[0].1@ == "application/json"@
    &&& api_key matches Some(key) ==> headers[1].0@ == "Authorization"@ && headers[1].1@ == "Bearer "@ + key@
}

/// The email reminding the customer of `inv` at time `now`. The recipient is
/// always the host-resolved profile marker; everything else is the
/// invoice's business data and the tenant's gateway settings.
pub open spec fn is_reminder_email(
    req: EmailRequest,
    inv: Invoice,
    now: u64,
    endpoint: String,
    api_key: Option<String>,
    from: Option<String>,
) -> bool {
    &&& req.url == endpoint
    &&& reminder_headers_ok(req.headers@, api_key)
    &&& req.to@.len() == 1
    &&& req.to@[0]@ == RECIPIENT_MARKER@
    &&& req.subject@ == reminder_subject(inv)
    &&& req.text@ == reminder_text(inv, invoices::invoice_is_overdue(inv, now))
    &&& req.from == from
}

/// Builds the reminder email for `inv`.
pub fn compose_reminder(
    inv: &Invoice,
    now: u64,
    endpoint: String,
    api_key: Option<String>,
    from: Option<String>,
) -> (req: EmailRequest)
    ensures
        is_reminder_email(req, *inv, now, endpoint, api_key, from),
{
    let overdue = is_overdue(inv, now);
    let mut subject = "Payment reminder: invoice ".to_owned();
    subject.append(inv.invoice_id.as_str());
    subject.append(" (");
    subject.append(inv.amount.as_str());
    subject.append(" ");
    subject.append(inv.currency.as_str());
    subject.append(")");

    let mut text = "Dear {{profile.first_name}},\n\nThis is a friendly reminder that invoice ".to_owned();
    text.append(inv.invoice_id.as_str());
    text.append(" for ");
    text.append(inv.amount.as_str());
    text.append(" ");
    text.append(inv.currency.as_str());
    text.append(" ");
    text.append(if overdue { "was due" } else { "is due" });
    text.append(" on ");
    text.append(inv.due_date.as_str());
    text.append(
        ".\n\nIf you have already made this payment, please disregard this message.\n\nThank you,\nAccounts Receivable",
    );

    let mut headers: Vec<(String, String)> = Vec::new();
    headers.push(("Content-Type".to_owned(), "application/json".to_owned()));
    if let Some(key) = &api_key {
        let mut bearer = "Bearer ".to_owned();
        bearer.append(key.as_str());
        headers.push(("Authorization".to_owned(), bearer));
    }

    let mut to: Vec<String> = Vec::new();
    to.push(RECIPIENT_MARKER.to_owned());

    EmailRequest { url: endpoint, headers, to, subject, text, from }
}

/// The invoice after a reminder at `now` was accepted by the gateway.
pub open spec fn reminded(inv: Invoice, now: u64) -> Invoice {
    Invoice {
        reminded_at_epoch_secs: Some(now),
        reminder_count: (inv.reminder_count + 1) as u32,
        ..inv
    }
}


// ---------------------------------------------------------------------------
// The workflow
// ---------------------------------------------------------------------------

/// Where a reminder run stands, between two requests to the host.
#[derive(Debug)]
pub enum ReminderState {
    /// Waiting for the stored invoice.
    LoadingInvoice { invoice_id: String, now: u64 },
    /// Waiting for the `email_endpoint` secret.
    ReadingEndpoint { invoice: Invoice, now: u64 },
    /// Waiting for the `email_api_key` secret.
    ReadingApiKey { invoice: Invoice, now: u64, endpoint: String },
    /// Waiting for the `email_from` secret.
    ReadingSender { invoice: Invoice, now: u64, endpoint: String, api_key: Option<String> },
    /// Waiting for the gateway's answer.
    Sending { invoice: Invoice, now: u64 },
    /// Waiting for the updated invoice to be stored.
    Storing { response: RemindResp },
    /// The run is over.
    Done,
}

/// What the host answered to the last request.
#[derive(Debug)]
pub enum ReminderEvent {
    InvoiceLoaded(Option<Invoice>),
    SecretRead(Option<String>),
    GatewayReplied(Result<u16, HttpError>),
    InvoiceStored,
}

/// What to ask of the host next, or how the run ends.
#[derive(Debug)]
pub enum ReminderAction {
    /// Read the invoice stored under this id.
    LoadInvoice(String),
    /// Read this key of the tenant's secrets map.
    ReadSecret(String),
    /// POST this email to the gateway.
    SendEmail(EmailRequest),
    /// Store this invoice under its id.
    StoreInvoice(Invoice),
    /// The run fails with `error`; `log` is a line for the host's error log.
    Fail { error: String, log: Option<String> },
    /// The run succeeds with `response`; `log` is a line for the host's info log.
    Finish { response: RemindResp, log: String },
}

/// Whether `state` waits for `event`; a 2xx gateway answer is only taken for
/// an invoice whose reminder count can still grow.
pub open spec fn accepts_event(state: ReminderState, event: ReminderEvent) -> bool {
    match state {
        ReminderState::LoadingInvoice { .. } => event is InvoiceLoaded,
        ReminderState::ReadingEndpoint { .. } => event is SecretRead,
        ReminderState::ReadingApiKey { .. } => event is SecretRead,
        ReminderState::ReadingSender { .. } => event is SecretRead,
        ReminderState::Sending { invoice, .. } => match event {
            ReminderEvent::GatewayReplied(Ok(code)) => 200 <= code < 300 ==> invoice.reminder_count < u32::MAX,
            ReminderEvent::GatewayReplied(Err(_)) => true,
            _ => false,
        },
        ReminderState::Storing { .. } => event is InvoiceStored,
        ReminderState::Done => false,
    }
}

pub open spec fn fails_with(
    next: ReminderState,
    action: ReminderAction,
    error: Seq<char>,
    log: Option<Seq<char>>,
) -> bool {
    &&& next is Done
    &&& action matches ReminderAction::Fail { error: e, log: l }
    &&& e@ == error
    &&& match log {
        None => l is None,
        Some(line) => l matches Some(x) && x@ == line,
    }
}

/// One step of the workflow: from `state`, on `event`, to `next` with `action`.
pub open spec fn reminder_step(
    state: ReminderState,
    event: ReminderEvent,
    next: ReminderState,
    action: ReminderAction,
) -> bool {
    match state {
        ReminderState::LoadingInvoice { invoice_id, now } => match event {
            ReminderEvent::InvoiceLoaded(None) => fails_with(next, action, msg_not_found(invoice_id@), None),
            ReminderEvent::InvoiceLoaded(Some(inv)) => match reminder_refusal(inv, now) {
                Some(m) => fails_with(next, action, m, None),
                None => {
                    &&& next == (ReminderState::ReadingEndpoint { invoice: inv, now })
                    &&& action matches ReminderAction::ReadSecret(k) && k@ == SECRET_ENDPOINT@
                },
            },
            _ => false,
        },
        ReminderState::ReadingEndpoint { invoice, now } => match event {
            ReminderEvent::SecretRead(None) => fails_with(next, action, msg_missing_endpoint(), None),
            ReminderEvent::SecretRead(Some(endpoint)) => {
                &&& next == (ReminderState::ReadingApiKey { invoice, now, endpoint })
                &&& action matches ReminderAction::ReadSecret(k) && k@ == SECRET_API_KEY@
            },
            _ => false,
        },
        ReminderState::ReadingApiKey { invoice, now, endpoint } => match event {
            ReminderEvent::SecretRead(api_key) => {
                &&& next == (ReminderState::ReadingSender { invoice, now, endpoint, api_key })
                &&& action matches ReminderAction::ReadSecret(k) && k@ == SECRET_FROM@
            },
            _ => false,
        },
        ReminderState::ReadingSender { invoice, now, endpoint, api_key } => match event {
            ReminderEvent::SecretRead(from) => {
                &&& next == (ReminderState::Sending { invoice, now })
                &&& action matches ReminderAction::SendEmail(req)
                    && is_reminder_email(req, invoice, now, endpoint, api_key, from)
            },
            _ => false,
        },
        ReminderState::Sending { invoice, now } => match event {
            ReminderEvent::GatewayReplied(Err(e)) => fails_with(next, action, msg_gateway_error(e), None),
            ReminderEvent::GatewayReplied(Ok(code)) => if 200 <= code < 300 {
                &&& action == ReminderAction::StoreInvoice(reminded(invoice, now))
                &&& next == (ReminderState::Storing {
                    response: RemindResp {
                        invoice_id: invoice.invoice_id,
                        email_status: code,
                        reminder_count: (invoice.reminder_count + 1) as u32,
                    },
                })
            } else {
                fails_with(
                    next,
                    action,
                    msg_gateway_status(code),
                    Some(log_gateway_status(invoice.invoice_id@, code)),
                )
            },
            _ => false,
        },
        ReminderState::Storing { response } => match event {
            ReminderEvent::InvoiceStored => {
                &&& next is Done
                &&& action matches ReminderAction::Finish { response: r, log } && r == response
                    && log@ == log_accepted(response.invoice_id@, response.reminder_count, response.email_status)
            },
            _ => false,
        },
        ReminderState::Done => false,
    }
}

fn fail(error: String) -> (res: (ReminderState, ReminderAction))
    ensures
        fails_with(res.0, res.1, error@, None),
{
    (ReminderState::Done, ReminderAction::Fail { error, log: None })
}

impl ReminderState {
    /// Starts a run for `invoice_id` at cluster time `now`: first load the invoice.
    pub fn start(invoice_id: String, now: u64) -> (res: (ReminderState, ReminderAction))
        ensures
            res.0 == (ReminderState::LoadingInvoice { invoice_id, now }),
            res.1 matches ReminderAction::LoadInvoice(id) && id == invoice_id,
    {
        let id = invoice_id.clone();
        (ReminderState::LoadingInvoice { invoice_id, now }, ReminderAction::LoadInvoice(id))
    }

    /// Whether this state waits for `event`.
    pub fn waits_for(&self, event: &ReminderEvent) -> (r: bool)
        ensures
            r == accepts_event(*self, *event),
    {
        match self {
            ReminderState::LoadingInvoice { .. } => matches!(event, ReminderEvent::InvoiceLoaded(_)),
            ReminderState::ReadingEndpoint { .. } => matches!(event, ReminderEvent::SecretRead(_)),
            ReminderState::ReadingApiKey { .. } => matches!(event, ReminderEvent::SecretRead(_)),
            ReminderState::ReadingSender { .. } => matches!(event, ReminderEvent::SecretRead(_)),
            ReminderState::Sending { invoice, .. } => match event {
                ReminderEvent::GatewayReplied(Ok(code)) => !(200 <= *code && *code < 300)
                    || invoice.reminder_count < u32::MAX,
                ReminderEvent::GatewayReplied(Err(_)) => true,
                _ => false,
            },
            ReminderState::Storing { .. } => matches!(event, ReminderEvent::InvoiceStored),
            ReminderState::Done => false,
        }
    }

    /// Takes the host's answer and says what to do next.
    pub fn step(self, event: ReminderEvent) -> (res: (ReminderState, ReminderAction))
        requires
            accepts_event(self, event),
        ensures
            reminder_step(self, event, res.0, res.1),
            self matches ReminderState::Sending { invoice, now } ==> (event matches ReminderEvent::GatewayReplied(
                Ok(code),
            ) ==> (200 <= code < 300 <==> res.1 is StoreInvoice)),
    {
        match self {
            ReminderState::LoadingInvoice { invoice_id, now } => match event {
                ReminderEvent::InvoiceLoaded(None) => {
                    let mut msg = "send-reminder: invoice ".to_owned();
                    msg.append(invoice_id.as_str());
                    msg.append(" not found");
                    fail(msg)
                },
                ReminderEvent::InvoiceLoaded(Some(invoice)) => match refusal(&invoice, now) {
                    Some(msg) => fail(msg),
                    None => (
                        ReminderState::ReadingEndpoint { invoice, now },
                        ReminderAction::ReadSecret(SECRET_ENDPOINT.to_owned()),
                    ),
                },
                _ => vstd::pervasive::unreached(),
            },
            ReminderState::ReadingEndpoint { invoice, now } => match event {
                ReminderEvent::SecretRead(None) => fail(
                    "email_endpoint not found in z:<tid>:secrets \u{2014} populate it via the tenant SDK".to_owned(),
                ),
                ReminderEvent::SecretRead(Some(endpoint)) => (
                    ReminderState::ReadingApiKey { invoice, now, endpoint },
                    ReminderAction::ReadSecret(SECRET_API_KEY.to_owned()),
                ),
                _ => vstd::pervasive::unreached(),
            },
            ReminderState::ReadingApiKey { invoice, now, endpoint } => match event {
                ReminderEvent::SecretRead(api_key) => (
                    ReminderState::ReadingSender { invoice, now, endpoint, api_key },
                    ReminderAction::ReadSecret(SECRET_FROM.to_owned()),
                ),
                _ => vstd::pervasive::unreached(),
            },
            ReminderState::ReadingSender { invoice, now, endpoint, api_key } => match event {
                ReminderEvent::SecretRead(from) => {
                    let req = compose_reminder(&invoice, now, endpoint, api_key, from);
                    (ReminderState::Sending { invoice, now }, ReminderAction::SendEmail(req))
                },
                _ => vstd::pervasive::unreached(),
            },
            ReminderState::Sending { invoice, now } => match event {
                ReminderEvent::GatewayReplied(Err(e)) => {
                    let mut msg = "send-reminder: email gateway: ".to_owned();
                    msg.append(format_http_error(e).as_str());
                    fail(msg)
                },
                ReminderEvent::GatewayReplied(Ok(code)) => {
                    if !(200 <= code && code < 300) {
                        let mut log = "send-reminder: ".to_owned();
                        log.append(invoice.invoice_id.as_str());
                        log.append(" gateway returned HTTP ");
                        push_decimal(&mut log, code as u64);
                        let mut msg = "send-reminder: email gateway returned HTTP ".to_owned();
                        push_decimal(&mut msg, code as u64);
                        msg.append(
                            " \u{2014} check the gateway credentials and payload shape (response body withheld: it can echo recipient details)",
                        );
                        return (ReminderState::Done, ReminderAction::Fail { error: msg, log: Some(log) });
                    }
                    let mut invoice = invoice;
                    invoice.reminded_at_epoch_secs = Some(now);
                    invoice.reminder_count = invoice.reminder_count + 1;
                    let response = RemindResp {
                        invoice_id: invoice.invoice_id.clone(),
                        email_status: code,
                        reminder_count: invoice.reminder_count,
                    };
                    (ReminderState::Storing { response }, ReminderAction::StoreInvoice(invoice))
                },
                _ => vstd::pervasive::unreached(),
            },
            ReminderState::Storing { response } => {
                let mut log = "send-reminder: ".to_owned();
                log.append(response.invoice_id.as_str());
                log.append(" reminder #");
                push_decimal(&mut log, response.reminder_count as u64);
                log.append(" accepted (HTTP ");
                push_decimal(&mut log, response.email_status as u64);
                log.append(")");
                (ReminderState::Done, ReminderAction::Finish { response, log })
            },
            ReminderState::Done => vstd::pervasive::unreached(),
        }
    }
}


// ---------------------------------------------------------------------------
// Laws
// ---------------------------------------------------------------------------

/// Within the cooldown window after an accepted reminder, another run for
/// the same record is refused.
pub proof fn law_cooldown_refuses_repeat(inv: Invoice, sent_at: u64, now: u64)
    requires
        inv.status == Status::Open,
        now < sent_at + REMINDER_COOLDOWN_SECS,
    ensures
        reminder_refusal(reminded(inv, sent_at), now) is Some,
{
}

/// Once the cooldown has passed, an open invoice may be reminded again.
pub proof fn law_cooldown_expires(inv: Invoice, sent_at: u64, now: u64)
    requires
        inv.status == Status::Open,
        now >= sent_at + REMINDER_COOLDOWN_SECS,
    ensures
        reminder_refusal(reminded(inv, sent_at), now) is None,
{
}

/// Paid and void invoices are never reminded.
pub proof fn law_only_open_invoices(inv: Invoice, now: u64)
    requires
        inv.status != Status::Open,
    ensures
        reminder_refusal(inv, now) is Some,
{
}

/// The invoice that a run holds, once loaded, is admitted: it is open
/// and outside the cooldown window.
pub open spec fn holds_admitted_invoice(state: ReminderState) -> bool {
    match state {
        ReminderState::LoadingInvoice { .. } => true,
        ReminderState::ReadingEndpoint { invoice, now } => reminder_refusal(invoice, now) is None,
        ReminderState::ReadingApiKey { invoice, now, .. } => reminder_refusal(invoice, now) is None,
        ReminderState::ReadingSender { invoice, now, .. } => reminder_refusal(invoice, now) is None,
        ReminderState::Sending { invoice, now } => reminder_refusal(invoice, now) is None,
        ReminderState::Storing { .. } => true,
        ReminderState::Done => true,
    }
}

/// Every step keeps a run on admitted invoices only; an email goes out only
/// for an open invoice outside the cooldown, and only to the host-resolved
/// profile marker, never to an address the caller supplied.
pub proof fn law_email_only_for_admitted_invoice(
    state: ReminderState,
    event: ReminderEvent,
    next: ReminderState,
    action: ReminderAction,
)
    requires
        holds_admitted_invoice(state),
        reminder_step(state, event, next, action),
    ensures
        holds_admitted_invoice(next),
        action is SendEmail ==> (state matches ReminderState::ReadingSender { invoice, .. } && invoice.status
            == Status::Open),
        action matches ReminderAction::SendEmail(req) ==> req.to@.len() == 1 && req.to@[0]@ == RECIPIENT_MARKER@,
{
}

/// A run stores an invoice only after the gateway accepted the email, and the
/// stored record differs from the loaded one only in its reminder history:
/// the count grows by one and the time of the last reminder is now.
pub proof fn law_store_follows_accepted_email(
    state: ReminderState,
    event: ReminderEvent,
    next: ReminderState,
    action: ReminderAction,
)
    requires
        reminder_step(state, event, next, action),
        action is StoreInvoice,
    ensures
        state matches ReminderState::Sending { invoice, now } && event matches ReminderEvent::GatewayReplied(
            Ok(code),
        ) && 200 <= code < 300 && action == ReminderAction::StoreInvoice(reminded(invoice, now)),
{
}


/// A 2xx answer from the gateway counts the reminder as sent, whatever the
/// exact code: the loaded invoice is stored with its count one higher, the
/// time of the last reminder set to now and every other field unchanged, and
/// the run goes on to report that count and code for the invoice. Any other
/// code fails the run and stores nothing.
pub proof fn law_accepted_email_is_recorded(
    invoice: Invoice,
    now: u64,
    code: u16,
    next: ReminderState,
    action: ReminderAction,
)
    requires
        invoice.reminder_count < u32::MAX,
        reminder_step(
            ReminderState::Sending { invoice, now },
            ReminderEvent::GatewayReplied(Ok(code)),
            next,
            action,
        ),
    ensures
        200 <= code < 300 ==> {
            &&& action matches ReminderAction::StoreInvoice(stored)
            &&& stored.reminder_count == invoice.reminder_count + 1
            &&& stored.reminded_at_epoch_secs == Some(now)
            &&& stored.invoice_id == invoice.invoice_id
            &&& stored.customer_ref == invoice.customer_ref
            &&& stored.amount == invoice.amount
            &&& stored.currency == invoice.currency
            &&& stored.due_date == invoice.due_date
            &&& stored.status == invoice.status
            &&& stored.created_at_epoch_secs == invoice.created_at_epoch_secs
            &&& next matches ReminderState::Storing { response }
            &&& response.invoice_id == invoice.invoice_id
            &&& response.email_status == code
            &&& response.reminder_count == invoice.reminder_count + 1
        },
        !(200 <= code < 300) ==> (next is Done && action is Fail),
{
}

/// The stored reminder history after an accepted reminder: one more
/// reminder, the last one now, for every starting count below the maximum.
pub proof fn law_reminded_counts_one_more(inv: Invoice, now: u64)
    requires
        inv.reminder_count < u32::MAX,
    ensures
        reminded(inv, now).reminder_count == inv.reminder_count + 1,
        reminded(inv, now).reminded_at_epoch_secs == Some(now),
        reminded(inv, now).status == inv.status,
        reminded(inv, now).invoice_id == inv.invoice_id,
{
}

/// Every 2xx code leads from a sendable state to storing the reminder and
/// then to a successful finish that reports the code and the new count.
pub proof fn law_two_hundreds_finish_the_run(
    invoice: Invoice,
    now: u64,
    code: u16,
    mid: ReminderState,
    store: ReminderAction,
    last: ReminderState,
    finish: ReminderAction,
)
    requires
        200 <= code < 300,
        invoice.reminder_count < u32::MAX,
        reminder_step(ReminderState::Sending { invoice, now }, ReminderEvent::GatewayReplied(Ok(code)), mid, store),
        reminder_step(mid, ReminderEvent::InvoiceStored, last, finish),
    ensures
        last is Done,
        finish matches ReminderAction::Finish { response, .. } && response.invoice_id == invoice.invoice_id
            && response.email_status == code && response.reminder_count == invoice.reminder_count + 1,
{
}


/// The order of a run: a missing invoice or a refused one ends it; an
/// admitted one leads to reading the endpoint, then the API key, then the
/// sender; a missing endpoint ends the run; the sender read sends the email.
pub proof fn law_run_order(state: ReminderState, event: ReminderEvent, next: ReminderState, action: ReminderAction)
    requires
        reminder_step(state, event, next, action),
    ensures
        (state is LoadingInvoice && event == ReminderEvent::InvoiceLoaded(None)) ==> (next is Done && action is Fail),
        (state is LoadingInvoice && event is InvoiceLoaded && event->InvoiceLoaded_0 is Some
            && event->InvoiceLoaded_0->Some_0.status != Status::Open) ==> (next is Done && action is Fail),
        (state is LoadingInvoice && event is InvoiceLoaded && event->InvoiceLoaded_0 is Some
            && event->InvoiceLoaded_0->Some_0.status == Status::Open
            && event->InvoiceLoaded_0->Some_0.reminded_at_epoch_secs is None) ==> (next is ReadingEndpoint
            && action is ReadSecret && action->ReadSecret_0@ == "email_endpoint"@),
        (state is ReadingEndpoint && event == ReminderEvent::SecretRead(None)) ==> (next is Done && action is Fail),
        (state is ReadingEndpoint && event is SecretRead && event->SecretRead_0 is Some) ==> (next is ReadingApiKey
            && action is ReadSecret && action->ReadSecret_0@ == "email_api_key"@),
        state is ReadingApiKey ==> (next is ReadingSender && action is ReadSecret && action->ReadSecret_0@
            == "email_from"@),
        state is ReadingSender ==> (next is Sending && action is SendEmail),
        (state is Sending && event is GatewayReplied && event->GatewayReplied_0 is Err) ==> (next is Done
            && action is Fail),
        state is Storing ==> (next is Done && action is Finish),
{
}

} // verus!
