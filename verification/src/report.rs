//! What the page of an abuse report shows: which lines, under which
//! labels, and which of them are left out.
use vstd::prelude::*;
use vstd::string::StringExecFns;
use chrono::DateTime;
use crate::schema::strings;

verus! {

/// What a report complains of.
#[derive(Clone, Copy, Debug, PartialEq, Eq)]
pub enum FeedbackType {
    Abuse,
    AuthFailure,
    Fraud,
    NotSpam,
    Other,
    Virus,
}

/// Which check of the sender failed.
#[derive(Clone, Copy, Debug, PartialEq, Eq)]
pub enum AuthFailureType {
    Adsp,
    BodyHash,
    Revoked,
    Signature,
    Spf,
    Dmarc,
    Unspecified,
}

/// What became of the message.
#[derive(Clone, Copy, Debug, PartialEq, Eq)]
pub enum DeliveryResult {
    Delivered,
    Spam,
    Policy,
    Reject,
    Other,
    Unspecified,
}

/// Which identities of the message agree with its sender.
#[derive(Clone, Copy, Debug, PartialEq, Eq)]
pub enum IdentityAlignment {
    /// Neither of the two.
    Neither,
    Spf,
    Dkim,
    DkimSpf,
    Unspecified,
}

impl FeedbackType {
    /// The name as the page shows it.
    pub open spec fn label(self) -> Seq<char> {
        match self {
            FeedbackType::Abuse => "Abuse"@,
            FeedbackType::AuthFailure => "Authentication Failure"@,
            FeedbackType::Fraud => "Fraud"@,
            FeedbackType::NotSpam => "Not Spam"@,
            FeedbackType::Other => "Other"@,
            FeedbackType::Virus => "Virus"@,
        }
    }

    /// The name of the kind of report, as the page shows it.
    pub fn name(&self) -> (r: &'static str)
        ensures
            r@ == self.label(),
    {
        match self {
            FeedbackType::Abuse => "Abuse",
            FeedbackType::AuthFailure => "Authentication Failure",
            FeedbackType::Fraud => "Fraud",
            FeedbackType::NotSpam => "Not Spam",
            FeedbackType::Other => "Other",
            FeedbackType::Virus => "Virus",
        }
    }
}

impl AuthFailureType {
    /// The name as the page shows it.
    pub open spec fn label(self) -> Seq<char> {
        match self {
            AuthFailureType::Adsp => "ADSP"@,
            AuthFailureType::BodyHash => "Body Hash"@,
            AuthFailureType::Revoked => "Revoked"@,
            AuthFailureType::Signature => "Signature"@,
            AuthFailureType::Spf => "SPF"@,
            AuthFailureType::Dmarc => "DMARC"@,
            AuthFailureType::Unspecified => "Unspecified"@,
        }
    }

    /// The name of the failed check, as the page shows it.
    pub fn name(&self) -> (r: &'static str)
        ensures
            r@ == self.label(),
    {
        match self {
            AuthFailureType::Adsp => "ADSP",
            AuthFailureType::BodyHash => "Body Hash",
            AuthFailureType::Revoked => "Revoked",
            AuthFailureType::Signature => "Signature",
            AuthFailureType::Spf => "SPF",
            AuthFailureType::Dmarc => "DMARC",
            AuthFailureType::Unspecified => "Unspecified",
        }
    }
}

impl DeliveryResult {
    /// The name as the page shows it.
    pub open spec fn label(self) -> Seq<char> {
        match self {
            DeliveryResult::Delivered => "Delivered"@,
            DeliveryResult::Spam => "Spam"@,
            DeliveryResult::Policy => "Policy"@,
            DeliveryResult::Reject => "Reject"@,
            DeliveryResult::Other => "Other"@,
            DeliveryResult::Unspecified => "Unspecified"@,
        }
    }

    /// The name of the outcome, as the page shows it.
    pub fn name(&self) -> (r: &'static str)
        ensures
            r@ == self.label(),
    {
        match self {
            DeliveryResult::Delivered => "Delivered",
            DeliveryResult::Spam => "Spam",
            DeliveryResult::Policy => "Policy",
            DeliveryResult::Reject => "Reject",
            DeliveryResult::Other => "Other",
            DeliveryResult::Unspecified => "Unspecified",
        }
    }
}

impl IdentityAlignment {
    /// The name as the page shows it.
    pub open spec fn label(self) -> Seq<char> {
        match self {
            IdentityAlignment::Neither => "None"@,
            IdentityAlignment::Spf => "SPF"@,
            IdentityAlignment::Dkim => "DKIM"@,
            IdentityAlignment::DkimSpf => "DKIM and SPF"@,
            IdentityAlignment::Unspecified => "Unspecified"@,
        }
    }

    /// The name of the alignment, as the page shows it.
    pub fn name(&self) -> (r: &'static str)
        ensures
            r@ == self.label(),
    {
        match self {
            IdentityAlignment::Neither => "None",
            IdentityAlignment::Spf => "SPF",
            IdentityAlignment::Dkim => "DKIM",
            IdentityAlignment::DkimSpf => "DKIM and SPF",
            IdentityAlignment::Unspecified => "Unspecified",
        }
    }
}

/// An abuse report, as far as its page shows it. Times are seconds since
/// the first of January 1970, and the address of the source is text.
#[derive(Clone, Debug, PartialEq, Eq)]
pub struct Feedback {
    pub feedback_type: FeedbackType,
    pub arrival_date: Option<i64>,
    pub authentication_results: Vec<String>,
    pub incidents: u32,
    pub original_envelope_id: Option<String>,
    pub original_mail_from: Option<String>,
    pub original_rcpt_to: Option<String>,
    pub reported_domain: Vec<String>,
    pub reported_uri: Vec<String>,
    pub reporting_mta: Option<String>,
    pub source_ip: Option<String>,
    pub user_agent: Option<String>,
    pub source_port: u32,
    pub auth_failure: AuthFailureType,
    pub delivery_result: DeliveryResult,
    pub dkim_adsp_dns: Option<String>,
    pub dkim_canonicalized_body: Option<String>,
    pub dkim_canonicalized_header: Option<String>,
    pub dkim_domain: Option<String>,
    pub dkim_identity: Option<String>,
    pub dkim_selector: Option<String>,
    pub dkim_selector_dns: Option<String>,
    pub spf_dns: Option<String>,
    pub identity_alignment: IdentityAlignment,
}

/// What stands beside a label: text, or a number.
#[derive(Clone, Debug, PartialEq, Eq)]
pub enum ItemValue {
    Text(String),
    Number(u32),
}

/// The model of an [`ItemValue`].
pub enum ItemValueView {
    Text(Seq<char>),
    Number(u32),
}

impl View for ItemValue {
    type V = ItemValueView;

    open spec fn view(&self) -> ItemValueView {
        match self {
            ItemValue::Text(s) => ItemValueView::Text(s@),
            ItemValue::Number(n) => ItemValueView::Number(*n),
        }
    }
}

/// One line of a report: a label, what stands beside it, and whether the
/// page leaves the line out.
#[derive(Clone, Debug, PartialEq, Eq)]
pub struct ReportItem {
    pub label: String,
    pub value: ItemValue,
    pub hide: bool,
}

/// The model of a [`ReportItem`].
pub struct ItemView {
    pub label: Seq<char>,
    pub value: ItemValueView,
    pub hide: bool,
}

impl View for ReportItem {
    type V = ItemView;

    open spec fn view(&self) -> ItemView {
        ItemView { label: self.label@, value: self.value@, hide: self.hide }
    }
}

/// The views of the elements of `items`.
pub open spec fn item_views(items: Seq<ReportItem>) -> Seq<ItemView> {
    Seq::new(items.len(), |i: int| items[i]@)
}

/// A line of text that is shown.
pub open spec fn text_item(label: Seq<char>, value: Seq<char>) -> ItemView {
    ItemView { label, value: ItemValueView::Text(value), hide: false }
}

/// The line for a text that a report may lack: empty and left out where
/// the report lacks it.
pub open spec fn optional_item(label: Seq<char>, value: Option<String>) -> ItemView {
    match value {
        Some(s) => ItemView { label, value: ItemValueView::Text(s@), hide: false },
        None => ItemView { label, value: ItemValueView::Text(Seq::empty()), hide: true },
    }
}

/// The line for a list: its entries with `sep` between them, left out
/// where the list is empty.
pub open spec fn list_item(label: Seq<char>, values: Vec<String>, sep: Seq<char>) -> ItemView {
    ItemView {
        label,
        value: ItemValueView::Text(joined(strings(values@), sep)),
        hide: values@.len() == 0,
    }
}

/// The lines of `xs`, one after the other, with `sep` between each two.
pub open spec fn joined(xs: Seq<Seq<char>>, sep: Seq<char>) -> Seq<char>
    decreases xs.len(),
{
    if xs.len() == 0 {
        Seq::empty()
    } else if xs.len() == 1 {
        xs[0]
    } else {
        joined(xs.drop_last(), sep) + sep + xs.last()
    }
}

/// The entries of `xs` with `sep` between them.
pub fn join(xs: &Vec<String>, sep: &str) -> (r: String)
    ensures
        r@ == joined(strings(xs@), sep@),
{
    let mut out = String::new();
    let mut i: usize = 0;
    while i < xs.len()
        invariant
            i <= xs.len(),
            out@ == joined(strings(xs@).take(i as int), sep@),
        decreases xs.len() - i,
    {
        proof {
            let next = strings(xs@).take(i + 1);
            assert(next.drop_last() =~= strings(xs@).take(i as int));
            assert(next.last() == xs@[i as int]@);
            if i == 0 {
                assert(out@ + xs@[i as int]@ =~= xs@[i as int]@);
            }
        }
        if i > 0 {
            out.append(sep);
        }
        out.append(xs[i].as_str());
        i += 1;
    }
    proof {
        assert(strings(xs@).take(i as int) =~= strings(xs@));
    }
    out
}

/// Whether chrono can hold the moment `secs` seconds after the first of
/// January 1970 in a `DateTime`.
pub uninterp spec fn timestamp_in_range(secs: i64) -> bool;

/// `DateTime::from_timestamp` of chrono, asked for a whole second: it gives
/// a `DateTime` or, for a number of seconds out of its range, nothing.
/// Which of the two depends on the number alone; the result here says
/// which.
#[verifier::external_body]
fn in_range(secs: i64) -> (r: bool)
    ensures
        r == timestamp_in_range(secs),
{
    DateTime::from_timestamp(secs, 0).is_some()
}

/// The moment at which the reported message arrived, given whether the
/// moment the report names is one that can be shown: that moment where it
/// names one that can, else the moment at which the report was received.
pub open spec fn arrival_of(arrival_date: Option<i64>, in_range: bool, received: i64) -> i64 {
    match arrival_date {
        Some(date) if in_range => date,
        _ => received,
    }
}

/// The moment to show as the arrival: see [`arrival_of`]. `in_range` says
/// whether the moment the report names can be shown.
pub fn choose_arrival(arrival_date: Option<i64>, in_range: bool, received: i64) -> (r: i64)
    ensures
        r == arrival_of(arrival_date, in_range, received),
{
    match arrival_date {
        Some(date) => if in_range {
            date
        } else {
            received
        },
        None => received,
    }
}

/// The moment to show as the arrival of the reported message: the one
/// the report names, where it names one that can be shown, else the
/// moment at which the report was received.
pub fn arrival(arrival_date: Option<i64>, received: i64) -> (r: i64)
    ensures
        r == arrival_of(
            arrival_date,
            arrival_date is Some && timestamp_in_range(arrival_date.unwrap()),
            received,
        ),
{
    let ok = match arrival_date {
        Some(date) => in_range(date),
        None => false,
    };
    choose_arrival(arrival_date, ok, received)
}

/// How many incidents the page shows: those the report counts, and one
/// where it counts none.
pub fn shown_incidents(incidents: u32) -> (r: u32)
    ensures
        r == (if incidents >= 1 {
            incidents
        } else {
            1
        }),
{
    if incidents >= 1 {
        incidents
    } else {
        1
    }
}

/// The lines that the pairs `extra` add to the details: one for each pair
/// whose value is not empty, in their order.
pub open spec fn extra_items(extra: Seq<(String, String)>) -> Seq<ItemView>
    decreases extra.len(),
{
    if extra.len() == 0 {
        Seq::empty()
    } else if extra.last().1@.len() == 0 {
        extra_items(extra.drop_last())
    } else {
        extra_items(extra.drop_last()).push(text_item(extra.last().0@, extra.last().1@))
    }
}

/// The lines of `entries` that have a value, in their order.
pub open spec fn present_items(entries: Seq<(Seq<char>, Option<Seq<char>>)>) -> Seq<ItemView>
    decreases entries.len(),
{
    if entries.len() == 0 {
        Seq::empty()
    } else {
        match entries.last().1 {
            Some(value) => present_items(entries.drop_last()).push(
                text_item(entries.last().0, value),
            ),
            None => present_items(entries.drop_last()),
        }
    }
}

/// The view of an optional string.
pub open spec fn text_of(s: Option<String>) -> Option<Seq<char>> {
    match s {
        Some(s) => Some(s@),
        None => None,
    }
}

/// The details of a report that every kind of report has, in the order
/// of the page. A list is left out where it is empty and a text where the
/// report lacks it; the line of the port is left out where the report
/// names a port.
pub open spec fn fixed_details(report: Feedback) -> Seq<ItemView> {
    seq![
        list_item("Reported Domain"@, report.reported_domain, ","@),
        list_item("Reported URI"@, report.reported_uri, ","@),
        list_item("Authentication Results"@, report.authentication_results, ", "@),
        optional_item("Original Mail From"@, report.original_mail_from),
        optional_item("Original Rcpt To"@, report.original_rcpt_to),
        optional_item("Original Envelope Id"@, report.original_envelope_id),
        optional_item("Reporting MTA"@, report.reporting_mta),
        optional_item("Source IP"@, report.source_ip),
        ItemView {
            label: "Source Port"@,
            value: ItemValueView::Number(report.source_port),
            hide: report.source_port > 0,
        },
        optional_item("User Agent"@, report.user_agent),
    ]
}

/// What a report says of a failed authentication, each with its label; a
/// result or an alignment that is not specified counts as not said.
pub open spec fn auth_failure_entries(report: Feedback) -> Seq<(Seq<char>, Option<Seq<char>>)> {
    seq![
        ("Failure Type"@, Some(report.auth_failure.label())),
        (
            "Delivery Result"@,
            if report.delivery_result != DeliveryResult::Unspecified {
                Some(report.delivery_result.label())
            } else {
                None
            },
        ),
        ("DKIM ADSP DNS"@, text_of(report.dkim_adsp_dns)),
        ("DKIM Canonicalized Body"@, text_of(report.dkim_canonicalized_body)),
        ("DKIM Canonicalized Header"@, text_of(report.dkim_canonicalized_header)),
        ("DKIM Domain"@, text_of(report.dkim_domain)),
        ("DKIM Identity"@, text_of(report.dkim_identity)),
        ("DKIM Selector"@, text_of(report.dkim_selector)),
        ("DKIM Selector DNS"@, text_of(report.dkim_selector_dns)),
        ("SPF DNS"@, text_of(report.spf_dns)),
        (
            "Identity Alignment"@,
            if report.identity_alignment != IdentityAlignment::Unspecified {
                Some(report.identity_alignment.label())
            } else {
                None
            },
        ),
    ]
}

/// The section on the failed authentication: only a report of such a
/// failure has one, and it holds what the report says of it.
pub open spec fn auth_failure_items(report: Feedback) -> Option<Seq<ItemView>> {
    if report.feedback_type == FeedbackType::AuthFailure {
        Some(present_items(auth_failure_entries(report)))
    } else {
        None
    }
}

/// What the page of a report shows.
#[derive(Clone, Debug, PartialEq, Eq)]
pub struct ArfReport {
    /// The kind of the report.
    pub report_type: String,
    pub incidents: u32,
    /// When the reported message arrived.
    pub arrival: i64,
    /// The details, line by line.
    pub details: Vec<ReportItem>,
    /// The section on the failed authentication, where there is one.
    pub auth_failure: Option<Vec<ReportItem>>,
}

/// The line for a text that a report may lack.
fn optional(label: &str, value: &Option<String>) -> (r: ReportItem)
    ensures
        r@ == optional_item(label@, *value),
{
    match value {
        Some(s) => ReportItem { label: label.to_owned(), value: ItemValue::Text(s.clone()), hide: false },
        None => ReportItem { label: label.to_owned(), value: ItemValue::Text(String::new()), hide: true },
    }
}

/// The line for a list.
fn list(label: &str, values: &Vec<String>, sep: &str) -> (r: ReportItem)
    ensures
        r@ == list_item(label@, *values, sep@),
{
    ReportItem {
        label: label.to_owned(),
        value: ItemValue::Text(join(values, sep)),
        hide: values.len() == 0,
    }
}

/// The details of a report: those every report has, then one line for
/// each pair of `extra` whose value is not empty.
pub fn details(report: &Feedback, extra: &Vec<(String, String)>) -> (r: Vec<ReportItem>)
    ensures
        item_views(r@) == fixed_details(*report) + extra_items(extra@),
{
    let mut out: Vec<ReportItem> = Vec::new();
    out.push(list("Reported Domain", &report.reported_domain, ","));
    out.push(list("Reported URI", &report.reported_uri, ","));
    out.push(list("Authentication Results", &report.authentication_results, ", "));
    out.push(optional("Original Mail From", &report.original_mail_from));
    out.push(optional("Original Rcpt To", &report.original_rcpt_to));
    out.push(optional("Original Envelope Id", &report.original_envelope_id));
    out.push(optional("Reporting MTA", &report.reporting_mta));
    out.push(optional("Source IP", &report.source_ip));
    out.push(
        ReportItem {
            label: "Source Port".to_owned(),
            value: ItemValue::Number(report.source_port),
            hide: report.source_port > 0,
        },
    );
    out.push(optional("User Agent", &report.user_agent));
    proof {
        assert(item_views(out@) =~= fixed_details(*report));
    }
    let mut i: usize = 0;
    while i < extra.len()
        invariant
            i <= extra.len(),
            item_views(out@) == fixed_details(*report) + extra_items(extra@.take(i as int)),
        decreases extra.len() - i,
    {
        let ghost before = item_views(out@);
        proof {
            assert(extra@.take(i + 1).drop_last() =~= extra@.take(i as int));
            assert(extra@.take(i + 1).last() == extra@[i as int]);
        }
        if !extra[i].1.as_str().is_empty() {
            let item = ReportItem {
                label: extra[i].0.clone(),
                value: ItemValue::Text(extra[i].1.clone()),
                hide: false,
            };
            let ghost added = item@;
            out.push(item);
            proof {
                assert(item_views(out@) =~= before.push(added));
                assert(before.push(added) =~= fixed_details(*report) + extra_items(
                    extra@.take(i + 1),
                ));
            }
        }
        i += 1;
    }
    proof {
        assert(extra@.take(i as int) =~= extra@);
    }
    out
}

/// The view of an entry.
pub open spec fn entry_views(entries: Seq<(String, Option<String>)>) -> Seq<
    (Seq<char>, Option<Seq<char>>),
> {
    Seq::new(entries.len(), |i: int| (entries[i].0@, text_of(entries[i].1)))
}

/// The lines for the entries that have a value.
fn present(entries: &Vec<(String, Option<String>)>) -> (r: Vec<ReportItem>)
    ensures
        item_views(r@) == present_items(entry_views(entries@)),
{
    let mut out: Vec<ReportItem> = Vec::new();
    let mut i: usize = 0;
    proof {
        assert(item_views(out@) =~= Seq::<ItemView>::empty());
    }
    while i < entries.len()
        invariant
            i <= entries.len(),
            item_views(out@) == present_items(entry_views(entries@).take(i as int)),
        decreases entries.len() - i,
    {
        let ghost before = item_views(out@);
        proof {
            let next = entry_views(entries@).take(i + 1);
            assert(next.drop_last() =~= entry_views(entries@).take(i as int));
            assert(next.last() == (entries@[i as int].0@, text_of(entries@[i as int].1)));
        }
        match &entries[i].1 {
            Some(value) => {
                let item = ReportItem {
                    label: entries[i].0.clone(),
                    value: ItemValue::Text(value.clone()),
                    hide: false,
                };
                let ghost added = item@;
                out.push(item);
                proof {
                    assert(item_views(out@) =~= before.push(added));
                }
            },
            None => {},
        }
        i += 1;
    }
    proof {
        assert(entry_views(entries@).take(i as int) =~= entry_views(entries@));
    }
    out
}

/// A copy of an optional string.
fn copied(s: &Option<String>) -> (r: Option<String>)
    ensures
        text_of(r) == text_of(*s),
{
    match s {
        Some(s) => Some(s.clone()),
        None => None,
    }
}

/// The section on the failed authentication, where the report has one.
pub fn auth_failure(report: &Feedback) -> (r: Option<Vec<ReportItem>>)
    ensures
        match auth_failure_items(*report) {
            Some(items) => r is Some && item_views(r.unwrap()@) == items,
            None => r is None,
        },
{
    match report.feedback_type {
        FeedbackType::AuthFailure => {
            let delivery = match report.delivery_result {
                DeliveryResult::Unspecified => None,
                _ => Some(report.delivery_result.name().to_owned()),
            };
            let alignment = match report.identity_alignment {
                IdentityAlignment::Unspecified => None,
                _ => Some(report.identity_alignment.name().to_owned()),
            };
            let mut entries: Vec<(String, Option<String>)> = Vec::new();
            entries.push(("Failure Type".to_owned(), Some(report.auth_failure.name().to_owned())));
            entries.push(("Delivery Result".to_owned(), delivery));
            entries.push(("DKIM ADSP DNS".to_owned(), copied(&report.dkim_adsp_dns)));
            entries.push(
                ("DKIM Canonicalized Body".to_owned(), copied(&report.dkim_canonicalized_body)),
            );
            entries.push(
                ("DKIM Canonicalized Header".to_owned(), copied(&report.dkim_canonicalized_header)),
            );
            entries.push(("DKIM Domain".to_owned(), copied(&report.dkim_domain)));
            entries.push(("DKIM Identity".to_owned(), copied(&report.dkim_identity)));
            entries.push(("DKIM Selector".to_owned(), copied(&report.dkim_selector)));
            entries.push(("DKIM Selector DNS".to_owned(), copied(&report.dkim_selector_dns)));
            entries.push(("SPF DNS".to_owned(), copied(&report.spf_dns)));
            entries.push(("Identity Alignment".to_owned(), alignment));
            proof {
                assert(entry_views(entries@) =~= auth_failure_entries(*report));
            }
            Some(present(&entries))
        },
        _ => None,
    }
}

/// What the page of the report shows: the kind of the report, how many
/// incidents, when the message arrived, the details and, for a failed
/// authentication, the section on it. `received` is when the report came
/// in, and `extra` are further details as pairs of label and value.
pub fn arf_report(report: &Feedback, received: i64, extra: &Vec<(String, String)>) -> (r: ArfReport)
    ensures
        r.report_type@ == report.feedback_type.label(),
        r.incidents == (if report.incidents >= 1 {
            report.incidents
        } else {
            1
        }),
        r.arrival == arrival_of(
            report.arrival_date,
            report.arrival_date is Some && timestamp_in_range(report.arrival_date.unwrap()),
            received,
        ),
        item_views(r.details@) == fixed_details(*report) + extra_items(extra@),
        match auth_failure_items(*report) {
            Some(items) => r.auth_failure is Some && item_views(r.auth_failure.unwrap()@) == items,
            None => r.auth_failure is None,
        },
{
    ArfReport {
        report_type: report.feedback_type.name().to_owned(),
        incidents: shown_incidents(report.incidents),
        arrival: arrival(report.arrival_date, received),
        details: details(report, extra),
        auth_failure: auth_failure(report),
    }
}

} // verus!
