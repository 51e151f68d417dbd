use webadmin::form::{FieldState, FormError, FormValue, Reason};
use webadmin::schema::{Schemas, Source, Type};
use webadmin::transform::Transformer;
use webadmin::validate::Validator;

fn schemas() -> Schemas {
    Schemas::builder().build_login().build_listener().build()
}

fn strings(items: &[&str]) -> Vec<String> {
    items.iter().map(|s| s.to_string()).collect()
}

#[test]
fn defaults_of_optional_fields_pass() {
    let schemas = Schemas::builder()
        .new_schema("optional")
        .new_field("url")
        .input_check(&[Transformer::Trim], &[Validator::IsUrl])
        .build()
        .new_field("tags")
        .typ(Type::Array)
        .input_check(&[Transformer::Trim], &[Validator::MinLength(2)])
        .build()
        .new_field("enabled")
        .typ(Type::Boolean)
        .default("false")
        .build()
        .new_field("kind")
        .typ(Type::Select { multi: false, source: Source::of(&[("a", "A"), ("b", "B")]) })
        .build()
        .build()
        .build();
    let mut form = schemas.build_form("optional");
    assert!(form.validate_form());
    for id in ["url", "tags", "enabled", "kind"] {
        assert_eq!(form.state(id), Some(FieldState::Valid));
        assert_eq!(form.error(id), None);
    }
}

#[test]
fn a_form_starts_with_its_defaults_and_unvalidated() {
    let form = schemas().build_form("listener");
    assert_eq!(form.value("protocol"), Some("smtp".to_string()));
    assert_eq!(form.value("proxy.override"), Some("false".to_string()));
    assert_eq!(form.value("socket.backlog"), Some("1024".to_string()));
    assert_eq!(form.value("_id"), Some(String::new()));
    assert_eq!(form.array_value("bind"), Some(Vec::new()));
    assert_eq!(form.value("bind"), None);
    assert_eq!(form.array_value("protocol"), None);
    assert_eq!(form.state("protocol"), Some(FieldState::Unvalidated));
    assert_eq!(form.value("no-such-field"), None);
    assert_eq!(form.state("no-such-field"), None);
}

#[test]
fn the_default_protocol_is_required_and_among_the_options() {
    let mut form = schemas()
        .build_form("listener")
        .with_array("bind", strings(&["0.0.0.0:25"]));
    assert!(form.validate_form());
    assert_eq!(form.value("protocol"), Some("smtp".to_string()));
    assert_eq!(form.state("protocol"), Some(FieldState::Valid));
    assert!(Validator::Required.accepts_str("smtp"));
    let listener = schemas().get("listener").unwrap();
    let protocol = &listener.fields[listener.field_index("protocol").unwrap()];
    match &protocol.typ {
        Type::Select { multi, source: Source::Static(options) } => {
            assert!(!*multi);
            let values: Vec<&str> = options.iter().map(|o| o.0.as_str()).collect();
            assert_eq!(values, vec!["smtp", "lmtp", "http", "imap", "pop3", "managesieve"]);
            assert!(values.contains(&"smtp"));
        }
        _ => panic!("the protocol is a selection from a fixed list"),
    }
}

#[test]
fn the_first_bad_bind_address_is_reported_after_trimming() {
    let mut form = schemas()
        .build_form("listener")
        .with_array("bind", strings(&[" 0.0.0.0:25 ", "bad-address"]));
    assert!(!form.validate_form());
    assert_eq!(
        form.error("bind"),
        Some(FormError { reason: Reason::Failed(Validator::IsSocketAddr), index: Some(1) })
    );
    assert_eq!(form.array_value("bind"), Some(strings(&["0.0.0.0:25", "bad-address"])));
}

#[test]
fn of_several_bad_elements_the_lowest_is_reported() {
    let mut form = schemas()
        .build_form("listener")
        .with_array("bind", strings(&["[::]:25", "x", "", "y"]));
    assert!(!form.validate_form());
    assert_eq!(
        form.error("bind"),
        Some(FormError { reason: Reason::Failed(Validator::IsSocketAddr), index: Some(1) })
    );
    let mut form = schemas()
        .build_form("listener")
        .with_array("bind", strings(&["  ", "x"]));
    assert!(!form.validate_form());
    assert_eq!(
        form.error("bind"),
        Some(FormError { reason: Reason::Failed(Validator::Required), index: Some(0) })
    );
}

#[test]
fn an_empty_list_fails_where_a_value_is_asked_for() {
    let mut form = schemas().build_form("listener");
    assert!(!form.validate_form());
    assert_eq!(
        form.error("bind"),
        Some(FormError { reason: Reason::Failed(Validator::Required), index: None })
    );
    assert_eq!(form.state("proxy.trusted-networks"), Some(FieldState::Valid));
}

#[test]
fn the_login_is_normalised_and_passes() {
    let mut form = schemas()
        .build_form("login")
        .with_value("login", " John.Doe@EXAMPLE.org ".to_string())
        .with_value("password", "secret".to_string());
    assert!(form.validate_form());
    assert_eq!(form.value("login"), Some("john.doe@example.org".to_string()));
    assert_eq!(form.state("login"), Some(FieldState::Valid));
    assert_eq!(form.value("password"), Some("secret".to_string()));
    assert_eq!(form.value("base-url"), Some(String::new()));
}

#[test]
fn every_field_is_validated_and_every_error_kept() {
    let mut form = schemas()
        .build_form("login")
        .with_value("base-url", " not a url ".to_string());
    assert!(!form.validate_form());
    assert_eq!(
        form.error("login"),
        Some(FormError { reason: Reason::Failed(Validator::Required), index: None })
    );
    assert_eq!(
        form.error("password"),
        Some(FormError { reason: Reason::Failed(Validator::Required), index: None })
    );
    assert_eq!(
        form.error("base-url"),
        Some(FormError { reason: Reason::Failed(Validator::IsUrl), index: None })
    );
    assert_eq!(form.value("base-url"), Some("not a url".to_string()));
}

#[test]
fn validating_twice_is_validating_once() {
    let mut form = schemas()
        .build_form("login")
        .with_value("login", " A b ".to_string())
        .with_value("base-url", " https://mail.example.org ".to_string());
    let first = form.validate_form();
    let values: Vec<Option<String>> =
        ["login", "password", "base-url"].iter().map(|id| form.value(id)).collect();
    let states: Vec<Option<FieldState>> =
        ["login", "password", "base-url"].iter().map(|id| form.state(id)).collect();
    let second = form.validate_form();
    assert_eq!(first, second);
    assert!(!first);
    assert_eq!(values, ["login", "password", "base-url"].iter().map(|id| form.value(id)).collect::<Vec<_>>());
    assert_eq!(states, ["login", "password", "base-url"].iter().map(|id| form.state(id)).collect::<Vec<_>>());
    assert_eq!(form.value("login"), Some("ab".to_string()));
    assert_eq!(form.value("base-url"), Some("https://mail.example.org".to_string()));
}

#[test]
fn two_forms_of_one_schema_are_independent() {
    let schemas = schemas();
    let mut first = schemas.build_form("login");
    let mut second = schemas.build_form("login");
    first.update("login", "alice".to_string());
    first.update("password", "secret".to_string());
    assert_eq!(second.value("login"), Some(String::new()));
    assert_eq!(second.value("password"), Some(String::new()));
    assert!(first.validate_form());
    assert_eq!(second.state("login"), Some(FieldState::Unvalidated));
    assert!(!second.validate_form());
    assert_eq!(first.state("login"), Some(FieldState::Valid));
    assert_eq!(first.value("login"), Some("alice".to_string()));
    second.update("login", "bob".to_string());
    assert_eq!(first.value("login"), Some("alice".to_string()));
}

#[test]
fn an_unknown_schema_is_never_an_empty_one() {
    let schemas = schemas();
    assert!(schemas.get("no-such-schema").is_none());
    assert!(schemas.try_build_form("no-such-schema").is_none());
    assert!(!schemas.has("no-such-schema"));
    assert!(!schemas.has("Login"));
    assert!(schemas.has("login"));
    assert!(schemas.try_build_form("listener").is_some());
    assert_eq!(schemas.len(), 2);
}

#[test]
fn a_value_outside_the_options_is_an_invalid_selection() {
    let mut form = schemas()
        .build_form("listener")
        .with_array("bind", strings(&["0.0.0.0:25"]))
        .with_value("protocol", "ftp".to_string());
    assert!(!form.validate_form());
    assert_eq!(
        form.error("protocol"),
        Some(FormError { reason: Reason::InvalidSelection, index: None })
    );
    form.update("protocol", "imap".to_string());
    assert!(form.validate_form());
    form.update_array("tls.disable-protocols", strings(&["TLSv1.2", "SSLv3"]));
    assert!(!form.validate_form());
    assert_eq!(
        form.error("tls.disable-protocols"),
        Some(FormError { reason: Reason::InvalidSelection, index: Some(1) })
    );
    form.update("protocol", String::new());
    form.update_array("tls.disable-protocols", strings(&["TLSv1.3"]));
    assert!(!form.validate_form());
    assert_eq!(
        form.error("protocol"),
        Some(FormError { reason: Reason::Failed(Validator::Required), index: None })
    );
    assert_eq!(form.error("tls.disable-protocols"), None);
}

#[test]
fn input_makes_a_field_unvalidated_again() {
    let mut form = schemas().build_form("login");
    assert_eq!(form.state("login"), Some(FieldState::Unvalidated));
    form.validate_form();
    assert!(matches!(form.state("login"), Some(FieldState::Invalid(_))));
    form.update("login", "alice".to_string());
    assert_eq!(form.state("login"), Some(FieldState::Unvalidated));
    assert_eq!(form.error("login"), None);
    assert!(matches!(form.state("password"), Some(FieldState::Invalid(_))));
    form.validate_form();
    assert_eq!(form.state("login"), Some(FieldState::Valid));
}

#[test]
fn a_name_that_is_no_field_changes_nothing() {
    let mut form = schemas().build_form("login").with_value("nothing", "x".to_string());
    assert_eq!(form.value("nothing"), None);
    form.set("nothing", FormValue::Array(strings(&["x"])));
    assert_eq!(form.array_value("nothing"), None);
    assert_eq!(form.value("login"), Some(String::new()));
}

#[test]
fn options_resolved_outside_are_enforced_once_they_are_known() {
    let schemas = Schemas::builder()
        .new_schema("account")
        .new_field("group")
        .typ(Type::Select { multi: false, source: Source::Dynamic("groups".to_string()) })
        .build()
        .new_field("name")
        .build()
        .build()
        .build();
    let mut form = schemas.build_form("account").with_value("group", "staff".to_string());
    assert!(form.validate_form());
    assert_eq!(form.state("group"), Some(FieldState::Valid));
    form.resolve_source("group", strings(&["admins", "users"]));
    assert_eq!(form.state("group"), Some(FieldState::Unvalidated));
    assert!(!form.validate_form());
    assert_eq!(
        form.error("group"),
        Some(FormError { reason: Reason::InvalidSelection, index: None })
    );
    form.update("group", "users".to_string());
    assert!(form.validate_form());
    form.resolve_source("name", strings(&["x"]));
    form.update("name", "anything".to_string());
    assert!(form.validate_form());
}

#[test]
fn numbers_are_read_from_lines() {
    let mut form = schemas().build_form("listener");
    assert_eq!(form.value_as_int("socket.backlog"), Some(1024));
    form.update("socket.backlog", "-7".to_string());
    assert_eq!(form.value_as_int("socket.backlog"), Some(-7));
    form.update("socket.backlog", "many".to_string());
    assert_eq!(form.value_as_int("socket.backlog"), None);
    assert_eq!(form.value_as_int("bind"), None);
    assert_eq!(form.value_as_int("no-such-field"), None);
    form.update("socket.ttl", " 300 ".to_string());
    form.update_array("bind", strings(&["0.0.0.0:25"]));
    assert!(!form.validate_form());
    assert_eq!(
        form.error("socket.ttl"),
        Some(FormError { reason: Reason::Failed(Validator::MaxValue(255)), index: None })
    );
    assert_eq!(
        form.error("socket.backlog"),
        Some(FormError { reason: Reason::Failed(Validator::MinValue(1)), index: None })
    );
    assert_eq!(form.value("socket.ttl"), Some("300".to_string()));
}

#[test]
fn the_name_of_an_existing_entity_is_locked() {
    let mut form = schemas()
        .build_form("listener")
        .with_value("_id", "  Smtp In ".to_string())
        .with_array("bind", strings(&["0.0.0.0:25"]))
        .editing();
    assert!(form.is_editing());
    form.update("_id", "other".to_string());
    assert_eq!(form.value("_id"), Some("  Smtp In ".to_string()));
    form.update("protocol", "imap".to_string());
    assert_eq!(form.value("protocol"), Some("imap".to_string()));
    assert!(form.validate_form());
    assert_eq!(form.value("_id"), Some("  Smtp In ".to_string()));
    assert_eq!(form.state("_id"), Some(FieldState::Valid));
    let mut fresh = schemas().build_form("listener");
    assert!(!fresh.is_editing());
    fresh.update("_id", "other".to_string());
    assert_eq!(fresh.value("_id"), Some("other".to_string()));
}

#[test]
fn yes_and_no_are_read_from_lines() {
    let mut form = schemas().build_form("listener");
    assert_eq!(form.value_as_bool("tls.implicit"), Some(false));
    assert_eq!(form.value_as_bool("socket.nodelay"), Some(true));
    form.update("tls.implicit", "true".to_string());
    assert_eq!(form.value_as_bool("tls.implicit"), Some(true));
    form.update("tls.implicit", "yes".to_string());
    assert_eq!(form.value_as_bool("tls.implicit"), None);
    assert_eq!(form.value_as_bool("bind"), None);
    assert_eq!(form.value_as_bool("no-such-field"), None);
}

#[test]
fn every_reason_has_its_words() {
    assert_eq!(Reason::Failed(Validator::Required).message(), "This field is required");
    assert_eq!(Reason::Failed(Validator::IsEmail).message(), "Invalid email address");
    assert_eq!(Reason::Failed(Validator::IsUrl).message(), "Invalid URL");
    assert_eq!(Reason::Failed(Validator::IsSocketAddr).message(), "Invalid socket address");
    assert_eq!(Reason::Failed(Validator::IsIpOrMask).message(), "Invalid IP address or network");
    assert_eq!(Reason::Failed(Validator::MinLength(3)).message(), "Value is too short");
    assert_eq!(Reason::Failed(Validator::MaxLength(3)).message(), "Value is too long");
    assert_eq!(Reason::Failed(Validator::MinValue(3)).message(), "Value is too small");
    assert_eq!(Reason::Failed(Validator::MaxValue(3)).message(), "Value is too large");
    assert_eq!(Reason::InvalidSelection.message(), "Invalid selection");
}

#[test]
fn a_bad_network_is_reported_at_its_place() {
    let mut form = schemas()
        .build_form("listener")
        .with_array("bind", strings(&["0.0.0.0:25"]))
        .with_array("proxy.trusted-networks", strings(&[" 10.0.0.0/8", "::1 ", "10.0.0.0/40"]));
    assert!(!form.validate_form());
    assert_eq!(
        form.error("proxy.trusted-networks"),
        Some(FormError { reason: Reason::Failed(Validator::IsIpOrMask), index: Some(2) })
    );
    assert_eq!(
        form.array_value("proxy.trusted-networks"),
        Some(strings(&["10.0.0.0/8", "::1", "10.0.0.0/40"]))
    );
    assert_eq!(form.error("bind"), None);
}
