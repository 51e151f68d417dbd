use webadmin::builder::knows_fields;
use webadmin::schema::{Schemas, Source, Type};
use webadmin::transform::Transformer;
use webadmin::validate::Validator;

#[test]
fn the_listener_schema_has_its_fields_in_order() {
    let schemas = Schemas::builder().build_listener().build();
    let listener = schemas.get("listener").unwrap();
    assert_eq!(listener.id, "listener");
    assert_eq!(listener.name_singular, "listener");
    assert_eq!(listener.name_plural, "listeners");
    assert_eq!(listener.prefix.as_deref(), Some("server.listener"));
    assert_eq!(listener.suffix.as_deref(), Some("protocol"));
    let ids: Vec<&str> = listener.fields.iter().map(|f| f.id.as_str()).collect();
    assert_eq!(
        ids,
        vec![
            "_id",
            "protocol",
            "bind",
            "proxy.override",
            "socket.override",
            "tls.override",
            "tls.implicit",
            "proxy.trusted-networks",
            "socket.backlog",
            "socket.ttl",
            "socket.linger",
            "socket.tos",
            "socket.send-buffer-size",
            "socket.recv-buffer-size",
            "socket.nodelay",
            "socket.reuse-addr",
            "socket.reuse-port",
            "tls.disable-protocols",
            "tls.disable-ciphers",
            "tls.timeout",
            "tls.ignore-client-order",
        ]
    );
    assert!(listener.fields[0].is_id);
    assert_eq!(listener.fields.iter().filter(|f| f.is_id).count(), 1);
    assert_eq!(listener.fields[0].label, "Listener Id");
    assert_eq!(listener.fields[0].help, "Unique identifier for the listener");
    assert!(listener.has_id_field());
}

#[test]
fn the_bind_field_is_a_list_of_trimmed_socket_addresses() {
    let schemas = Schemas::builder().build_listener().build();
    let listener = schemas.get("listener").unwrap();
    let bind = &listener.fields[listener.field_index("bind").unwrap()];
    assert!(matches!(bind.typ, Type::Array));
    assert!(bind.typ.is_list());
    assert_eq!(bind.transformers, vec![Transformer::Trim]);
    assert_eq!(bind.validators, vec![Validator::Required, Validator::IsSocketAddr]);
    assert_eq!(bind.default, None);
    assert_eq!(bind.label, "Bind addresses");
}

#[test]
fn the_listener_form_has_four_sections_and_a_list() {
    let schemas = Schemas::builder().build_listener().build();
    let listener = schemas.get("listener").unwrap();
    let titles: Vec<&str> = listener.forms.iter().map(|f| f.title.as_str()).collect();
    assert_eq!(titles, vec!["Listener settings", "TLS options", "Proxy protocol", "Socket options"]);
    assert_eq!(listener.forms[0].fields, vec!["_id", "protocol", "bind"]);
    assert_eq!(listener.forms[2].fields, vec!["proxy.override", "proxy.trusted-networks"]);
    assert_eq!(listener.forms[3].fields.len(), 10);
    assert_eq!(listener.list.title, "Listeners");
    assert_eq!(listener.list.subtitle, "Manage SMTP, IMAP, HTTP, and other listeners");
    assert_eq!(listener.list.fields, vec!["_id", "protocol", "bind", "tls.implicit"]);
    for form in listener.forms.iter() {
        for id in form.fields.iter() {
            assert!(listener.has_field(id));
        }
    }
}

#[test]
fn the_login_schema_has_three_fields() {
    let schemas = Schemas::builder().build_login().build();
    let login = schemas.get("login").unwrap();
    let ids: Vec<&str> = login.fields.iter().map(|f| f.id.as_str()).collect();
    assert_eq!(ids, vec!["login", "password", "base-url"]);
    assert!(matches!(login.fields[0].typ, Type::Input));
    assert_eq!(login.fields[0].transformers, vec![Transformer::RemoveSpaces, Transformer::Lowercase]);
    assert_eq!(login.fields[0].validators, vec![Validator::Required]);
    assert!(matches!(login.fields[1].typ, Type::Secret));
    assert!(login.fields[1].transformers.is_empty());
    assert_eq!(login.fields[2].transformers, vec![Transformer::Trim]);
    assert_eq!(login.fields[2].validators, vec![Validator::IsUrl]);
    assert!(!login.has_id_field());
    assert!(login.forms.is_empty());
}

#[test]
fn the_builder_says_what_it_would_refuse() {
    let builder = Schemas::builder().build_login();
    assert!(!builder.can_add("login"));
    assert!(builder.can_add("listener"));
    let schema = builder.new_schema("thing").new_field("name").build();
    assert!(!schema.can_add_field("name"));
    assert!(!schema.can_add_field(""));
    assert!(schema.can_add_field("other"));
    assert!(knows_fields(&schema.item, &["name"]));
    assert!(!knows_fields(&schema.item, &["name", "other"]));
    assert!(knows_fields(&schema.item, &[]));
}

#[test]
fn a_schema_is_found_under_its_own_name_only() {
    let schemas = Schemas::builder()
        .new_schema("a")
        .new_field("x")
        .default("1")
        .build()
        .build()
        .new_schema("b")
        .new_field("y")
        .typ(Type::Select { multi: true, source: Source::of(&[("one", "One")]) })
        .build()
        .build()
        .build();
    assert_eq!(schemas.len(), 2);
    assert_eq!(schemas.get("a").unwrap().fields[0].id, "x");
    assert_eq!(schemas.get("b").unwrap().fields[0].id, "y");
    assert_eq!(schemas.get("a").unwrap().fields[0].default.as_deref(), Some("1"));
    assert!(schemas.get("b").unwrap().fields[0].typ.is_list());
    assert!(schemas.get("c").is_none());
    assert_eq!(Schemas::builder().build().len(), 0);
}

#[test]
fn a_default_has_to_fit_the_type() {
    assert!(Type::Boolean.admits("true"));
    assert!(Type::Boolean.admits("false"));
    assert!(!Type::Boolean.admits("yes"));
    assert!(!Type::Boolean.admits(""));
    assert!(Type::Input.admits("anything"));
    assert!(Type::Array.admits("anything"));
    let select = Type::Select { multi: false, source: Source::of(&[("a", "A"), ("b", "B")]) };
    assert!(select.admits("a"));
    assert!(select.admits("b"));
    assert!(!select.admits("A"));
    let open = Type::Select { multi: false, source: Source::Dynamic("groups".to_string()) };
    assert!(open.admits("whatever"));
    let field = Schemas::builder().new_schema("s").new_field("flag").typ(Type::Boolean);
    assert!(field.can_build());
    let field = field.default("maybe");
    assert!(!field.can_build());
    assert!(!field.item.default_fits());
    let field = field.default("true");
    assert!(field.can_build());
    let schemas = Schemas::builder().build_listener().build();
    for field in schemas.get("listener").unwrap().fields.iter() {
        assert!(field.default_fits());
    }
}
