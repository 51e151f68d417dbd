use webadmin::report::{
    arf_report, arrival, auth_failure, choose_arrival, details, join, shown_incidents,
    AuthFailureType, DeliveryResult, Feedback, FeedbackType, IdentityAlignment, ItemValue,
    ReportItem,
};

fn report() -> Feedback {
    Feedback {
        feedback_type: FeedbackType::Abuse,
        arrival_date: None,
        authentication_results: Vec::new(),
        incidents: 0,
        original_envelope_id: None,
        original_mail_from: None,
        original_rcpt_to: None,
        reported_domain: Vec::new(),
        reported_uri: Vec::new(),
        reporting_mta: None,
        source_ip: None,
        user_agent: None,
        source_port: 0,
        auth_failure: AuthFailureType::Unspecified,
        delivery_result: DeliveryResult::Unspecified,
        dkim_adsp_dns: None,
        dkim_canonicalized_body: None,
        dkim_canonicalized_header: None,
        dkim_domain: None,
        dkim_identity: None,
        dkim_selector: None,
        dkim_selector_dns: None,
        spf_dns: None,
        identity_alignment: IdentityAlignment::Unspecified,
    }
}

fn text(label: &str, value: &str, hide: bool) -> ReportItem {
    ReportItem { label: label.to_string(), value: ItemValue::Text(value.to_string()), hide }
}

#[test]
fn the_arrival_is_the_one_named_where_it_can_be_shown() {
    assert_eq!(arrival(Some(1431648000), 1700000000), 1431648000);
    assert_eq!(arrival(Some(0), 1700000000), 0);
    assert_eq!(arrival(Some(-86400), 1700000000), -86400);
    assert_eq!(arrival(None, 1700000000), 1700000000);
    assert_eq!(arrival(Some(i64::MAX), 1700000000), 1700000000);
    assert_eq!(arrival(Some(i64::MIN), 1700000000), 1700000000);
}

#[test]
fn the_arrival_follows_the_answer_it_is_given() {
    assert_eq!(choose_arrival(Some(5), true, 9), 5);
    assert_eq!(choose_arrival(Some(5), false, 9), 9);
    assert_eq!(choose_arrival(None, true, 9), 9);
    assert_eq!(choose_arrival(None, false, 9), 9);
}

#[test]
fn at_least_one_incident_is_shown() {
    assert_eq!(shown_incidents(0), 1);
    assert_eq!(shown_incidents(1), 1);
    assert_eq!(shown_incidents(7), 7);
    assert_eq!(shown_incidents(u32::MAX), u32::MAX);
}

#[test]
fn lists_are_joined_with_the_separator_between() {
    let items = |xs: &[&str]| xs.iter().map(|s| s.to_string()).collect::<Vec<String>>();
    assert_eq!(join(&items(&[]), ","), "");
    assert_eq!(join(&items(&["a"]), ","), "a");
    assert_eq!(join(&items(&["a", "b", "c"]), ", "), "a, b, c");
    assert_eq!(join(&items(&["", ""]), "-"), "-");
}

#[test]
fn an_empty_report_hides_what_it_lacks() {
    let items = details(&report(), &Vec::new());
    assert_eq!(
        items,
        vec![
            text("Reported Domain", "", true),
            text("Reported URI", "", true),
            text("Authentication Results", "", true),
            text("Original Mail From", "", true),
            text("Original Rcpt To", "", true),
            text("Original Envelope Id", "", true),
            text("Reporting MTA", "", true),
            text("Source IP", "", true),
            ReportItem { label: "Source Port".to_string(), value: ItemValue::Number(0), hide: false },
            text("User Agent", "", true),
        ]
    );
}

#[test]
fn details_come_in_the_order_of_the_page() {
    let mut r = report();
    r.reported_domain = vec!["example.org".to_string(), "example.com".to_string()];
    r.reported_uri = vec!["http://a".to_string()];
    r.authentication_results = vec!["dkim=pass".to_string(), "spf=fail".to_string()];
    r.original_mail_from = Some("a@example.org".to_string());
    r.source_ip = Some("192.0.2.1".to_string());
    r.source_port = 25;
    r.user_agent = Some("agent/1.0".to_string());
    let extra = vec![
        ("Kept".to_string(), "yes".to_string()),
        ("Dropped".to_string(), String::new()),
        ("Also kept".to_string(), " ".to_string()),
    ];
    let items = details(&r, &extra);
    assert_eq!(
        items,
        vec![
            text("Reported Domain", "example.org,example.com", false),
            text("Reported URI", "http://a", false),
            text("Authentication Results", "dkim=pass, spf=fail", false),
            text("Original Mail From", "a@example.org", false),
            text("Original Rcpt To", "", true),
            text("Original Envelope Id", "", true),
            text("Reporting MTA", "", true),
            text("Source IP", "192.0.2.1", false),
            ReportItem { label: "Source Port".to_string(), value: ItemValue::Number(25), hide: true },
            text("User Agent", "agent/1.0", false),
            text("Kept", "yes", false),
            text("Also kept", " ", false),
        ]
    );
}

#[test]
fn only_a_failed_authentication_has_its_section() {
    assert_eq!(auth_failure(&report()), None);
    let mut r = report();
    r.feedback_type = FeedbackType::AuthFailure;
    assert_eq!(auth_failure(&r), Some(vec![text("Failure Type", "Unspecified", false)]));
    r.auth_failure = AuthFailureType::Dmarc;
    r.delivery_result = DeliveryResult::Reject;
    r.dkim_domain = Some("example.org".to_string());
    r.dkim_selector = Some("s1".to_string());
    r.spf_dns = Some(String::new());
    r.identity_alignment = IdentityAlignment::DkimSpf;
    assert_eq!(
        auth_failure(&r),
        Some(vec![
            text("Failure Type", "DMARC", false),
            text("Delivery Result", "Reject", false),
            text("DKIM Domain", "example.org", false),
            text("DKIM Selector", "s1", false),
            text("SPF DNS", "", false),
            text("Identity Alignment", "DKIM and SPF", false),
        ])
    );
    r.identity_alignment = IdentityAlignment::Neither;
    assert_eq!(auth_failure(&r).unwrap().last().unwrap(), &text("Identity Alignment", "None", false));
}

#[test]
fn the_page_of_a_report() {
    let mut r = report();
    r.feedback_type = FeedbackType::AuthFailure;
    r.arrival_date = Some(1431648000);
    r.incidents = 3;
    let page = arf_report(&r, 1700000000, &vec![("Note".to_string(), "x".to_string())]);
    assert_eq!(page.report_type, "Authentication Failure");
    assert_eq!(page.incidents, 3);
    assert_eq!(page.arrival, 1431648000);
    assert_eq!(page.details.len(), 11);
    assert_eq!(page.details[10], text("Note", "x", false));
    assert_eq!(page.auth_failure, Some(vec![text("Failure Type", "Unspecified", false)]));
    let page = arf_report(&report(), 1700000000, &Vec::new());
    assert_eq!(page.report_type, "Abuse");
    assert_eq!(page.incidents, 1);
    assert_eq!(page.arrival, 1700000000);
    assert_eq!(page.auth_failure, None);
}

#[test]
fn every_kind_has_its_name() {
    assert_eq!(FeedbackType::Abuse.name(), "Abuse");
    assert_eq!(FeedbackType::Fraud.name(), "Fraud");
    assert_eq!(FeedbackType::NotSpam.name(), "Not Spam");
    assert_eq!(FeedbackType::Other.name(), "Other");
    assert_eq!(FeedbackType::Virus.name(), "Virus");
    assert_eq!(AuthFailureType::Adsp.name(), "ADSP");
    assert_eq!(AuthFailureType::BodyHash.name(), "Body Hash");
    assert_eq!(AuthFailureType::Revoked.name(), "Revoked");
    assert_eq!(AuthFailureType::Signature.name(), "Signature");
    assert_eq!(AuthFailureType::Spf.name(), "SPF");
    assert_eq!(DeliveryResult::Delivered.name(), "Delivered");
    assert_eq!(DeliveryResult::Spam.name(), "Spam");
    assert_eq!(DeliveryResult::Policy.name(), "Policy");
    assert_eq!(DeliveryResult::Other.name(), "Other");
    assert_eq!(IdentityAlignment::Spf.name(), "SPF");
    assert_eq!(IdentityAlignment::Dkim.name(), "DKIM");
}
