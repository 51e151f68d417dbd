//! The schema of a listener: a socket on which the server accepts
//! connections, and the protocol it speaks there.
use vstd::prelude::*;
use crate::builder::Builder;
use crate::schema::{
    str_views, FieldView, FormView, Schema, SchemaView, Schemas, Source, SourceView, Type, TypeView,
};
use crate::transform::Transformer;
use crate::validate::Validator;

verus! {

/// The protocols a listener can speak. Each has the value that is stored and the label
/// that is shown.
pub open spec fn protocols() -> Seq<(Seq<char>, Seq<char>)> {
    seq![
        ("smtp"@, "SMTP"@),
        ("lmtp"@, "LMTP"@),
        ("http"@, "HTTP"@),
        ("imap"@, "IMAP4"@),
        ("pop3"@, "POP3"@),
        ("managesieve"@, "ManageSieve"@),
    ]
}

/// The versions of TLS that can be switched off. Each has the value that is stored and the label
/// that is shown.
pub open spec fn tls_versions() -> Seq<(Seq<char>, Seq<char>)> {
    seq![
        ("TLSv1.2"@, "TLSv1.2"@),
        ("TLSv1.3"@, "TLSv1.3"@),
    ]
}

/// The cipher suites that can be switched off. Each has the value that is stored and the label
/// that is shown.
pub open spec fn ciphers() -> Seq<(Seq<char>, Seq<char>)> {
    seq![
        ("TLS13_AES_256_GCM_SHA384"@, "TLS13_AES_256_GCM_SHA384"@),
        ("TLS13_AES_128_GCM_SHA256"@, "TLS13_AES_128_GCM_SHA256"@),
        ("TLS13_CHACHA20_POLY1305_SHA256"@, "TLS13_CHACHA20_POLY1305_SHA256"@),
        ("TLS_ECDHE_ECDSA_WITH_AES_256_GCM_SHA384"@, "TLS_ECDHE_ECDSA_WITH_AES_256_GCM_SHA384"@),
        ("TLS_ECDHE_ECDSA_WITH_AES_128_GCM_SHA256"@, "TLS_ECDHE_ECDSA_WITH_AES_128_GCM_SHA256"@),
        (
            "TLS_ECDHE_ECDSA_WITH_CHACHA20_POLY1305_SHA256"@,
            "TLS_ECDHE_ECDSA_WITH_CHACHA20_POLY1305_SHA256"@,
        ),
        ("TLS_ECDHE_RSA_WITH_AES_256_GCM_SHA384"@, "TLS_ECDHE_RSA_WITH_AES_256_GCM_SHA384"@),
        ("TLS_ECDHE_RSA_WITH_AES_128_GCM_SHA256"@, "TLS_ECDHE_RSA_WITH_AES_128_GCM_SHA256"@),
        (
            "TLS_ECDHE_RSA_WITH_CHACHA20_POLY1305_SHA256"@,
            "TLS_ECDHE_RSA_WITH_CHACHA20_POLY1305_SHA256"@,
        ),
    ]
}

/// `schema` with the fields of the network options after its own: the
/// networks whose connections come through a proxy, and the options of
/// the socket.
pub open spec fn network_fields(schema: SchemaView) -> SchemaView {
    schema
        .with_field(
            FieldView::new("proxy.trusted-networks"@)
                .with_label("Proxy networks"@)
                .with_help("Enable proxy protocol for connections from these networks"@)
                .with_type(TypeView::Array)
                .with_checks(seq![Transformer::Trim], seq![Validator::IsIpOrMask]),
        )
        .with_field(
            FieldView::new("socket.backlog"@)
                .with_label("Backlog"@)
                .with_help(
                    "The maximum number of incoming connections that can be pending in the backlog queue"@,
                )
                .with_type(TypeView::Input)
                .with_checks(seq![Transformer::Trim], seq![Validator::MinValue(1)])
                .with_default("1024"@),
        )
        .with_field(
            FieldView::new("socket.ttl"@)
                .with_label("Time-to-live"@)
                .with_help("How many hops a packet can make before it is discarded"@)
                .with_type(TypeView::Input)
                .with_checks(
                    seq![Transformer::Trim],
                    seq![Validator::MinValue(1), Validator::MaxValue(255)],
                ),
        )
        .with_field(
            FieldView::new("socket.linger"@)
                .with_label("Linger duration"@)
                .with_help(
                    "The time to wait before closing a socket when there is still unsent data"@,
                )
                .with_type(TypeView::Input)
                .with_checks(seq![Transformer::Trim], Seq::empty()),
        )
        .with_field(
            FieldView::new("socket.tos"@)
                .with_label("Type of service"@)
                .with_help("The priority of the packets that the socket sends"@)
                .with_type(TypeView::Input)
                .with_checks(
                    seq![Transformer::Trim],
                    seq![Validator::MinValue(0), Validator::MaxValue(255)],
                ),
        )
        .with_field(
            FieldView::new("socket.send-buffer-size"@)
                .with_label("Send buffer"@)
                .with_help("The size of the buffer used for sending data"@)
                .with_type(TypeView::Input)
                .with_checks(seq![Transformer::Trim], seq![Validator::MinValue(1)]),
        )
        .with_field(
            FieldView::new("socket.recv-buffer-size"@)
                .with_label("Receive buffer"@)
                .with_help("The size of the buffer used for receiving data"@)
                .with_type(TypeView::Input)
                .with_checks(seq![Transformer::Trim], seq![Validator::MinValue(1)]),
        )
        .with_field(
            FieldView::new("socket.nodelay"@)
                .with_label("No delay"@)
                .with_help("Whether to send packets as soon as they are ready"@)
                .with_type(TypeView::Boolean)
                .with_default("true"@),
        )
        .with_field(
            FieldView::new("socket.reuse-addr"@)
                .with_label("Reuse address"@)
                .with_help("Whether the address can be bound again while it lingers"@)
                .with_type(TypeView::Boolean)
                .with_default("true"@),
        )
        .with_field(
            FieldView::new("socket.reuse-port"@)
                .with_label("Reuse port"@)
                .with_help("Whether several sockets can listen on the same port"@)
                .with_type(TypeView::Boolean)
                .with_default("true"@),
        )
}

/// `schema` with the fields of the TLS options after its own.
pub open spec fn tls_fields(schema: SchemaView) -> SchemaView {
    schema
        .with_field(
            FieldView::new("tls.disable-protocols"@)
                .with_label("Disabled protocols"@)
                .with_help("Which TLS protocols to disable"@)
                .with_type(
                    TypeView::Select { multi: true, source: SourceView::Static(tls_versions()) },
                ),
        )
        .with_field(
            FieldView::new("tls.disable-ciphers"@)
                .with_label("Disabled cipher suites"@)
                .with_help("Which cipher suites to disable"@)
                .with_type(
                    TypeView::Select { multi: true, source: SourceView::Static(ciphers()) },
                ),
        )
        .with_field(
            FieldView::new("tls.timeout"@)
                .with_label("Handshake timeout"@)
                .with_help("How long a TLS handshake may take"@)
                .with_type(TypeView::Input)
                .with_checks(seq![Transformer::Trim], seq![Validator::Required])
                .with_default("1m"@),
        )
        .with_field(
            FieldView::new("tls.ignore-client-order"@)
                .with_label("Ignore client order"@)
                .with_help(
                    "Whether to ignore the order in which the client prefers the cipher suites"@,
                )
                .with_type(TypeView::Boolean)
                .with_default("true"@),
        )
}

/// `schema` with the fields that only a listener has after its own: its
/// name, its protocol, the addresses it binds to, and the switches that
/// let it keep options of its own.
pub open spec fn listener_fields(schema: SchemaView) -> SchemaView {
    schema
        .with_field(
            FieldView::new_id()
                .with_label("Listener Id"@)
                .with_help("Unique identifier for the listener"@),
        )
        .with_field(
            FieldView::new("protocol"@)
                .with_type(
                    TypeView::Select { multi: false, source: SourceView::Static(protocols()) },
                )
                .with_label("Protocol"@)
                .with_help("The protocol used by the listener"@)
                .with_checks(Seq::empty(), seq![Validator::Required])
                .with_default("smtp"@),
        )
        .with_field(
            FieldView::new("bind"@)
                .with_label("Bind addresses"@)
                .with_help("The addresses the listener will bind to"@)
                .with_type(TypeView::Array)
                .with_checks(
                    seq![Transformer::Trim],
                    seq![Validator::Required, Validator::IsSocketAddr],
                ),
        )
        .with_field(
            FieldView::new("proxy.override"@)
                .with_label("Override proxy networks"@)
                .with_help("Override the default proxy protocol networks"@)
                .with_type(TypeView::Boolean)
                .with_default("false"@),
        )
        .with_field(
            FieldView::new("socket.override"@)
                .with_label("Override socket options"@)
                .with_help("Override the default socket options"@)
                .with_type(TypeView::Boolean)
                .with_default("false"@),
        )
        .with_field(
            FieldView::new("tls.override"@)
                .with_label("Override TLS options"@)
                .with_help("Override the default TLS options"@)
                .with_type(TypeView::Boolean)
                .with_default("false"@),
        )
        .with_field(
            FieldView::new("tls.implicit"@)
                .with_label("Implicit TLS"@)
                .with_help("Whether to use implicit TLS"@)
                .with_type(TypeView::Boolean)
                .with_default("false"@),
        )
}

/// `schema` with the sections of the form of a listener after its own,
/// and with the list of the listeners.
pub open spec fn listener_layout(schema: SchemaView) -> SchemaView {
    schema
        .with_form(
            FormView::new()
                .with_title("Listener settings"@)
                .with_fields(
                    seq![
                        "_id"@,
                        "protocol"@,
                        "bind"@,
                    ],
                ),
        )
        .with_form(
            FormView::new()
                .with_title("TLS options"@)
                .with_fields(
                    seq![
                        "tls.implicit"@,
                        "tls.override"@,
                        "tls.disable-protocols"@,
                        "tls.disable-ciphers"@,
                        "tls.timeout"@,
                        "tls.ignore-client-order"@,
                    ],
                ),
        )
        .with_form(
            FormView::new()
                .with_title("Proxy protocol"@)
                .with_fields(
                    seq![
                        "proxy.override"@,
                        "proxy.trusted-networks"@,
                    ],
                ),
        )
        .with_form(
            FormView::new()
                .with_title("Socket options"@)
                .with_fields(
                    seq![
                        "socket.override"@,
                        "socket.backlog"@,
                        "socket.ttl"@,
                        "socket.linger"@,
                        "socket.tos"@,
                        "socket.send-buffer-size"@,
                        "socket.recv-buffer-size"@,
                        "socket.nodelay"@,
                        "socket.reuse-addr"@,
                        "socket.reuse-port"@,
                    ],
                ),
        )
        .with_list_title("Listeners"@)
        .with_list_subtitle("Manage SMTP, IMAP, HTTP, and other listeners"@)
        .with_list_fields(seq!["_id"@, "protocol"@, "bind"@, "tls.implicit"@])
}

/// The schema of a listener.
pub open spec fn listener_schema() -> SchemaView {
    listener_layout(
        tls_fields(
            network_fields(
                listener_fields(
                    SchemaView::new("listener"@)
                        .with_names("listener"@, "listeners"@)
                        .with_prefix("server.listener"@)
                        .with_suffix("protocol"@),
                ),
            ),
        ),
    )
}

impl Builder<Schemas, Schema> {
    /// Adds the fields of the network options, none of which the schema
    /// has yet.
    pub fn add_network_fields(self) -> (r: Builder<Schemas, Schema>)
        requires
            self.wf(),
            !self.item@.field_ids().contains("proxy.trusted-networks"@),
            !self.item@.field_ids().contains("socket.backlog"@),
            !self.item@.field_ids().contains("socket.ttl"@),
            !self.item@.field_ids().contains("socket.linger"@),
            !self.item@.field_ids().contains("socket.tos"@),
            !self.item@.field_ids().contains("socket.send-buffer-size"@),
            !self.item@.field_ids().contains("socket.recv-buffer-size"@),
            !self.item@.field_ids().contains("socket.nodelay"@),
            !self.item@.field_ids().contains("socket.reuse-addr"@),
            !self.item@.field_ids().contains("socket.reuse-port"@),
        ensures
            r.wf(),
            r.parent@ == self.parent@,
            r.item@ == network_fields(self.item@),
            r.item@.field_ids() == self.item@.field_ids()
                .insert("proxy.trusted-networks"@)
                .insert("socket.backlog"@)
                .insert("socket.ttl"@)
                .insert("socket.linger"@)
                .insert("socket.tos"@)
                .insert("socket.send-buffer-size"@)
                .insert("socket.recv-buffer-size"@)
                .insert("socket.nodelay"@)
                .insert("socket.reuse-addr"@)
                .insert("socket.reuse-port"@),
            r.item@.has_id_field() == self.item@.has_id_field(),
    {
        let trim: [Transformer; 1] = [Transformer::Trim];
        let is_ip_or_mask: [Validator; 1] = [Validator::IsIpOrMask];
        let min_value_1: [Validator; 1] = [Validator::MinValue(1)];
        let min_value_1_and_max_value_255: [Validator; 2] = [
            Validator::MinValue(1),
            Validator::MaxValue(255),
        ];
        let no_validators: [Validator; 0] = [];
        let min_value_0_and_max_value_255: [Validator; 2] = [
            Validator::MinValue(0),
            Validator::MaxValue(255),
        ];
        proof {
            reveal_strlit("proxy.trusted-networks");
            reveal_strlit("socket.backlog");
            reveal_strlit("socket.ttl");
            reveal_strlit("socket.linger");
            reveal_strlit("socket.tos");
            reveal_strlit("socket.send-buffer-size");
            reveal_strlit("socket.recv-buffer-size");
            reveal_strlit("socket.nodelay");
            reveal_strlit("socket.reuse-addr");
            reveal_strlit("socket.reuse-port");
            assert("proxy.trusted-networks"@.len() == 22);
            assert("socket.backlog"@.len() == 14 && "socket.backlog"@[7] == 'b');
            assert("socket.ttl"@.len() == 10 && "socket.ttl"@[8] == 't');
            assert("socket.linger"@.len() == 13);
            assert("socket.tos"@.len() == 10 && "socket.tos"@[8] == 'o');
            assert("socket.send-buffer-size"@.len() == 23
                && "socket.send-buffer-size"@[7] == 's');
            assert("socket.recv-buffer-size"@.len() == 23
                && "socket.recv-buffer-size"@[7] == 'r');
            assert("socket.nodelay"@.len() == 14 && "socket.nodelay"@[7] == 'n');
            assert("socket.reuse-addr"@.len() == 17 && "socket.reuse-addr"@[13] == 'a');
            assert("socket.reuse-port"@.len() == 17 && "socket.reuse-port"@[13] == 'p');
            assert(trim@ =~= seq![Transformer::Trim]);
            assert(is_ip_or_mask@ =~= seq![Validator::IsIpOrMask]);
            assert(min_value_1@ =~= seq![Validator::MinValue(1)]);
            assert(min_value_1_and_max_value_255@
                =~= seq![Validator::MinValue(1), Validator::MaxValue(255)]);
            assert(no_validators@ =~= Seq::<Validator>::empty());
            assert(min_value_0_and_max_value_255@
                =~= seq![Validator::MinValue(0), Validator::MaxValue(255)]);
        }
        self
            .new_field("proxy.trusted-networks")
            .label("Proxy networks")
            .help("Enable proxy protocol for connections from these networks")
            .typ(Type::Array)
            .input_check(trim.as_slice(), is_ip_or_mask.as_slice())
            .build()
            .new_field("socket.backlog")
            .label("Backlog")
            .help(
                "The maximum number of incoming connections that can be pending in the backlog queue",
            )
            .typ(Type::Input)
            .input_check(trim.as_slice(), min_value_1.as_slice())
            .default("1024")
            .build()
            .new_field("socket.ttl")
            .label("Time-to-live")
            .help("How many hops a packet can make before it is discarded")
            .typ(Type::Input)
            .input_check(trim.as_slice(), min_value_1_and_max_value_255.as_slice())
            .build()
            .new_field("socket.linger")
            .label("Linger duration")
            .help("The time to wait before closing a socket when there is still unsent data")
            .typ(Type::Input)
            .input_check(trim.as_slice(), no_validators.as_slice())
            .build()
            .new_field("socket.tos")
            .label("Type of service")
            .help("The priority of the packets that the socket sends")
            .typ(Type::Input)
            .input_check(trim.as_slice(), min_value_0_and_max_value_255.as_slice())
            .build()
            .new_field("socket.send-buffer-size")
            .label("Send buffer")
            .help("The size of the buffer used for sending data")
            .typ(Type::Input)
            .input_check(trim.as_slice(), min_value_1.as_slice())
            .build()
            .new_field("socket.recv-buffer-size")
            .label("Receive buffer")
            .help("The size of the buffer used for receiving data")
            .typ(Type::Input)
            .input_check(trim.as_slice(), min_value_1.as_slice())
            .build()
            .new_field("socket.nodelay")
            .label("No delay")
            .help("Whether to send packets as soon as they are ready")
            .typ(Type::Boolean)
            .default("true")
            .build()
            .new_field("socket.reuse-addr")
            .label("Reuse address")
            .help("Whether the address can be bound again while it lingers")
            .typ(Type::Boolean)
            .default("true")
            .build()
            .new_field("socket.reuse-port")
            .label("Reuse port")
            .help("Whether several sockets can listen on the same port")
            .typ(Type::Boolean)
            .default("true")
            .build()
    }
}

impl Builder<Schemas, Schema> {
    /// Adds the fields of the TLS options, none of which the schema has
    /// yet.
    pub fn add_tls_fields(self) -> (r: Builder<Schemas, Schema>)
        requires
            self.wf(),
            !self.item@.field_ids().contains("tls.disable-protocols"@),
            !self.item@.field_ids().contains("tls.disable-ciphers"@),
            !self.item@.field_ids().contains("tls.timeout"@),
            !self.item@.field_ids().contains("tls.ignore-client-order"@),
        ensures
            r.wf(),
            r.parent@ == self.parent@,
            r.item@ == tls_fields(self.item@),
            r.item@.field_ids() == self.item@.field_ids()
                .insert("tls.disable-protocols"@)
                .insert("tls.disable-ciphers"@)
                .insert("tls.timeout"@)
                .insert("tls.ignore-client-order"@),
            r.item@.has_id_field() == self.item@.has_id_field(),
    {
        let tls_versions_list: [(&str, &str); 2] = [
            ("TLSv1.2", "TLSv1.2"),
            ("TLSv1.3", "TLSv1.3"),
        ];
        let ciphers_list: [(&str, &str); 9] = [
            ("TLS13_AES_256_GCM_SHA384", "TLS13_AES_256_GCM_SHA384"),
            ("TLS13_AES_128_GCM_SHA256", "TLS13_AES_128_GCM_SHA256"),
            ("TLS13_CHACHA20_POLY1305_SHA256", "TLS13_CHACHA20_POLY1305_SHA256"),
            ("TLS_ECDHE_ECDSA_WITH_AES_256_GCM_SHA384", "TLS_ECDHE_ECDSA_WITH_AES_256_GCM_SHA384"),
            ("TLS_ECDHE_ECDSA_WITH_AES_128_GCM_SHA256", "TLS_ECDHE_ECDSA_WITH_AES_128_GCM_SHA256"),
            ("TLS_ECDHE_ECDSA_WITH_CHACHA20_POLY1305_SHA256", "TLS_ECDHE_ECDSA_WITH_CHACHA20_POLY1305_SHA256"),
            ("TLS_ECDHE_RSA_WITH_AES_256_GCM_SHA384", "TLS_ECDHE_RSA_WITH_AES_256_GCM_SHA384"),
            ("TLS_ECDHE_RSA_WITH_AES_128_GCM_SHA256", "TLS_ECDHE_RSA_WITH_AES_128_GCM_SHA256"),
            ("TLS_ECDHE_RSA_WITH_CHACHA20_POLY1305_SHA256", "TLS_ECDHE_RSA_WITH_CHACHA20_POLY1305_SHA256"),
        ];
        let trim: [Transformer; 1] = [Transformer::Trim];
        let required: [Validator; 1] = [Validator::Required];
        proof {
            reveal_strlit("tls.disable-protocols");
            reveal_strlit("tls.disable-ciphers");
            reveal_strlit("tls.timeout");
            reveal_strlit("tls.ignore-client-order");
            assert("tls.disable-protocols"@.len() == 21);
            assert("tls.disable-ciphers"@.len() == 19);
            assert("tls.timeout"@.len() == 11);
            assert("tls.ignore-client-order"@.len() == 23);
            assert(Seq::new(tls_versions_list@.len(), |i: int| (tls_versions_list@[i].0@, tls_versions_list@[i].1@))
                =~= tls_versions());
            assert(Seq::new(ciphers_list@.len(), |i: int| (ciphers_list@[i].0@, ciphers_list@[i].1@))
                =~= ciphers());
            assert(trim@ =~= seq![Transformer::Trim]);
            assert(required@ =~= seq![Validator::Required]);
        }
        self
            .new_field("tls.disable-protocols")
            .label("Disabled protocols")
            .help("Which TLS protocols to disable")
            .typ(Type::Select { multi: true, source: Source::of(tls_versions_list.as_slice()) })
            .build()
            .new_field("tls.disable-ciphers")
            .label("Disabled cipher suites")
            .help("Which cipher suites to disable")
            .typ(Type::Select { multi: true, source: Source::of(ciphers_list.as_slice()) })
            .build()
            .new_field("tls.timeout")
            .label("Handshake timeout")
            .help("How long a TLS handshake may take")
            .typ(Type::Input)
            .input_check(trim.as_slice(), required.as_slice())
            .default("1m")
            .build()
            .new_field("tls.ignore-client-order")
            .label("Ignore client order")
            .help("Whether to ignore the order in which the client prefers the cipher suites")
            .typ(Type::Boolean)
            .default("true")
            .build()
    }
}

impl Builder<Schemas, Schema> {
    /// Adds the fields that only a listener has, to a schema that has none
    /// of them yet and no field that names the entity.
    fn add_listener_fields(self) -> (r: Builder<Schemas, Schema>)
        requires
            self.wf(),
            !self.item@.has_id_field(),
            !self.item@.field_ids().contains("_id"@),
            !self.item@.field_ids().contains("protocol"@),
            !self.item@.field_ids().contains("bind"@),
            !self.item@.field_ids().contains("proxy.override"@),
            !self.item@.field_ids().contains("socket.override"@),
            !self.item@.field_ids().contains("tls.override"@),
            !self.item@.field_ids().contains("tls.implicit"@),
        ensures
            r.wf(),
            r.parent@ == self.parent@,
            r.item@ == listener_fields(self.item@),
            r.item@.field_ids() == self.item@.field_ids()
                .insert("_id"@)
                .insert("protocol"@)
                .insert("bind"@)
                .insert("proxy.override"@)
                .insert("socket.override"@)
                .insert("tls.override"@)
                .insert("tls.implicit"@),
    {
        let protocols_list: [(&str, &str); 6] = [
            ("smtp", "SMTP"),
            ("lmtp", "LMTP"),
            ("http", "HTTP"),
            ("imap", "IMAP4"),
            ("pop3", "POP3"),
            ("managesieve", "ManageSieve"),
        ];
        let no_transformers: [Transformer; 0] = [];
        let required: [Validator; 1] = [Validator::Required];
        let trim: [Transformer; 1] = [Transformer::Trim];
        let required_and_is_socket_addr: [Validator; 2] = [
            Validator::Required,
            Validator::IsSocketAddr,
        ];
        proof {
            reveal_strlit("_id");
            reveal_strlit("protocol");
            reveal_strlit("bind");
            reveal_strlit("proxy.override");
            reveal_strlit("socket.override");
            reveal_strlit("tls.override");
            reveal_strlit("tls.implicit");
            assert("_id"@.len() == 3);
            assert("protocol"@.len() == 8);
            assert("bind"@.len() == 4);
            assert("proxy.override"@.len() == 14);
            assert("socket.override"@.len() == 15);
            assert("tls.override"@.len() == 12 && "tls.override"@[4] == 'o');
            assert("tls.implicit"@.len() == 12 && "tls.implicit"@[4] == 'i');
            assert(Seq::new(protocols_list@.len(), |i: int| (protocols_list@[i].0@, protocols_list@[i].1@))
                =~= protocols());
            assert(no_transformers@ =~= Seq::<Transformer>::empty());
            assert(required@ =~= seq![Validator::Required]);
            assert(trim@ =~= seq![Transformer::Trim]);
            assert(required_and_is_socket_addr@
                =~= seq![Validator::Required, Validator::IsSocketAddr]);
            assert(Seq::new(protocols().len(), |i: int| protocols()[i].0)[0] == "smtp"@);
        }
        self
            .new_id_field()
            .label("Listener Id")
            .help("Unique identifier for the listener")
            .build()
            .new_field("protocol")
            .typ(Type::Select { multi: false, source: Source::of(protocols_list.as_slice()) })
            .label("Protocol")
            .help("The protocol used by the listener")
            .input_check(no_transformers.as_slice(), required.as_slice())
            .default("smtp")
            .build()
            .new_field("bind")
            .label("Bind addresses")
            .help("The addresses the listener will bind to")
            .typ(Type::Array)
            .input_check(trim.as_slice(), required_and_is_socket_addr.as_slice())
            .build()
            .new_field("proxy.override")
            .label("Override proxy networks")
            .help("Override the default proxy protocol networks")
            .typ(Type::Boolean)
            .default("false")
            .build()
            .new_field("socket.override")
            .label("Override socket options")
            .help("Override the default socket options")
            .typ(Type::Boolean)
            .default("false")
            .build()
            .new_field("tls.override")
            .label("Override TLS options")
            .help("Override the default TLS options")
            .typ(Type::Boolean)
            .default("false")
            .build()
            .new_field("tls.implicit")
            .label("Implicit TLS")
            .help("Whether to use implicit TLS")
            .typ(Type::Boolean)
            .default("false")
            .build()
    }
}

impl Builder<Schemas, Schema> {
    /// Adds the sections of the form of a listener and the list of the
    /// listeners, to a schema that has every field of a listener.
    fn add_listener_layout(self) -> (r: Builder<Schemas, Schema>)
        requires
            self.wf(),
            self.item@.field_ids().contains("_id"@),
            self.item@.field_ids().contains("protocol"@),
            self.item@.field_ids().contains("bind"@),
            self.item@.field_ids().contains("proxy.override"@),
            self.item@.field_ids().contains("socket.override"@),
            self.item@.field_ids().contains("tls.override"@),
            self.item@.field_ids().contains("tls.implicit"@),
            self.item@.field_ids().contains("proxy.trusted-networks"@),
            self.item@.field_ids().contains("socket.backlog"@),
            self.item@.field_ids().contains("socket.ttl"@),
            self.item@.field_ids().contains("socket.linger"@),
            self.item@.field_ids().contains("socket.tos"@),
            self.item@.field_ids().contains("socket.send-buffer-size"@),
            self.item@.field_ids().contains("socket.recv-buffer-size"@),
            self.item@.field_ids().contains("socket.nodelay"@),
            self.item@.field_ids().contains("socket.reuse-addr"@),
            self.item@.field_ids().contains("socket.reuse-port"@),
            self.item@.field_ids().contains("tls.disable-protocols"@),
            self.item@.field_ids().contains("tls.disable-ciphers"@),
            self.item@.field_ids().contains("tls.timeout"@),
            self.item@.field_ids().contains("tls.ignore-client-order"@),
        ensures
            r.wf(),
            r.parent@ == self.parent@,
            r.item@ == listener_layout(self.item@),
    {
        let settings_section: [&str; 3] = ["_id", "protocol", "bind"];
        let tls_section: [&str; 6] = [
            "tls.implicit",
            "tls.override",
            "tls.disable-protocols",
            "tls.disable-ciphers",
            "tls.timeout",
            "tls.ignore-client-order",
        ];
        let proxy_section: [&str; 2] = ["proxy.override", "proxy.trusted-networks"];
        let socket_section: [&str; 10] = [
            "socket.override",
            "socket.backlog",
            "socket.ttl",
            "socket.linger",
            "socket.tos",
            "socket.send-buffer-size",
            "socket.recv-buffer-size",
            "socket.nodelay",
            "socket.reuse-addr",
            "socket.reuse-port",
        ];
        let columns: [&str; 4] = ["_id", "protocol", "bind", "tls.implicit"];
        proof {
            assert(str_views(settings_section@) =~= seq!["_id"@, "protocol"@, "bind"@]);
            assert(str_views(tls_section@) =~= seq![
                "tls.implicit"@,
                "tls.override"@,
                "tls.disable-protocols"@,
                "tls.disable-ciphers"@,
                "tls.timeout"@,
                "tls.ignore-client-order"@,
            ]);
            assert(str_views(proxy_section@)
                =~= seq!["proxy.override"@, "proxy.trusted-networks"@]);
            assert(str_views(socket_section@) =~= seq![
                "socket.override"@,
                "socket.backlog"@,
                "socket.ttl"@,
                "socket.linger"@,
                "socket.tos"@,
                "socket.send-buffer-size"@,
                "socket.recv-buffer-size"@,
                "socket.nodelay"@,
                "socket.reuse-addr"@,
                "socket.reuse-port"@,
            ]);
            assert(str_views(columns@) =~= seq!["_id"@, "protocol"@, "bind"@, "tls.implicit"@]);
        }
        self
            .new_form_section()
            .title("Listener settings")
            .fields(settings_section.as_slice())
            .build()
            .new_form_section()
            .title("TLS options")
            .fields(tls_section.as_slice())
            .build()
            .new_form_section()
            .title("Proxy protocol")
            .fields(proxy_section.as_slice())
            .build()
            .new_form_section()
            .title("Socket options")
            .fields(socket_section.as_slice())
            .build()
            .list_title("Listeners")
            .list_subtitle("Manage SMTP, IMAP, HTTP, and other listeners")
            .list_fields(columns.as_slice())
    }
}

impl Builder<Schemas, ()> {
    /// Registers the schema of a listener, under the name `listener`,
    /// which must be free.
    pub fn build_listener(self) -> (r: Builder<Schemas, ()>)
        requires
            self.wf(),
            !self.parent.contains("listener"@),
        ensures
            r.wf(),
            r.parent@ == self.parent@.push(listener_schema()),
    {
        proof {
            reveal_strlit("_id");
            reveal_strlit("protocol");
            reveal_strlit("bind");
            reveal_strlit("proxy.override");
            reveal_strlit("socket.override");
            reveal_strlit("tls.override");
            reveal_strlit("tls.implicit");
            reveal_strlit("proxy.trusted-networks");
            reveal_strlit("socket.backlog");
            reveal_strlit("socket.ttl");
            reveal_strlit("socket.linger");
            reveal_strlit("socket.tos");
            reveal_strlit("socket.send-buffer-size");
            reveal_strlit("socket.recv-buffer-size");
            reveal_strlit("socket.nodelay");
            reveal_strlit("socket.reuse-addr");
            reveal_strlit("socket.reuse-port");
            reveal_strlit("tls.disable-protocols");
            reveal_strlit("tls.disable-ciphers");
            reveal_strlit("tls.timeout");
            reveal_strlit("tls.ignore-client-order");
            assert("_id"@.len() == 3);
            assert("protocol"@.len() == 8);
            assert("bind"@.len() == 4);
            assert("proxy.override"@.len() == 14 && "proxy.override"@[0] == 'p');
            assert("socket.override"@.len() == 15);
            assert("tls.override"@.len() == 12 && "tls.override"@[4] == 'o');
            assert("tls.implicit"@.len() == 12 && "tls.implicit"@[4] == 'i');
            assert("proxy.trusted-networks"@.len() == 22);
            assert("socket.backlog"@.len() == 14
                && "socket.backlog"@[0] == 's'
                && "socket.backlog"@[7] == 'b');
            assert("socket.ttl"@.len() == 10 && "socket.ttl"@[8] == 't');
            assert("socket.linger"@.len() == 13);
            assert("socket.tos"@.len() == 10 && "socket.tos"@[8] == 'o');
            assert("socket.send-buffer-size"@.len() == 23
                && "socket.send-buffer-size"@[0] == 's'
                && "socket.send-buffer-size"@[7] == 's');
            assert("socket.recv-buffer-size"@.len() == 23
                && "socket.recv-buffer-size"@[0] == 's'
                && "socket.recv-buffer-size"@[7] == 'r');
            assert("socket.nodelay"@.len() == 14
                && "socket.nodelay"@[0] == 's'
                && "socket.nodelay"@[7] == 'n');
            assert("socket.reuse-addr"@.len() == 17 && "socket.reuse-addr"@[13] == 'a');
            assert("socket.reuse-port"@.len() == 17 && "socket.reuse-port"@[13] == 'p');
            assert("tls.disable-protocols"@.len() == 21);
            assert("tls.disable-ciphers"@.len() == 19);
            assert("tls.timeout"@.len() == 11);
            assert("tls.ignore-client-order"@.len() == 23
                && "tls.ignore-client-order"@[0] == 't');
        }
        self.new_schema("listener")
            .names("listener", "listeners")
            .prefix("server.listener")
            .suffix("protocol")
            .add_listener_fields()
            .add_network_fields()
            .add_tls_fields()
            .add_listener_layout()
            .build()
    }
}

} // verus!
