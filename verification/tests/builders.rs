use trader::config::{SocketBuilder, SocketOp, SocketType};
use trader::derive::{has_attr, only_has_inner_socket, socket_derive, DataShape, DeriveShape, FieldShape, FieldsShape, TypeShape};
use trader::includedir::{as_key, as_key_backslashed, start};

fn describe(ops: &[SocketOp]) -> Vec<String> {
    ops.iter()
        .map(|op| match op {
            SocketOp::Create(k) => format!("create {:?}", k),
            SocketOp::SetIdentity(i) => format!("identity {:?}", i),
            SocketOp::Customize => "customize".to_string(),
            SocketOp::Bind(a) => format!("bind {}", a),
            SocketOp::Connect(a) => format!("connect {}", a),
            SocketOp::Subscribe(f) => format!("subscribe {:?}", f),
        })
        .collect()
}

#[test]
fn sock_config_plan_in_order() {
    let b = SocketBuilder::new(SocketType::Router, ()).identity(b"c1".to_vec());
    let c = b.bind("tcp://*:5672".to_string()).bind("ipc://x".to_string()).connect("tcp://localhost:5673".to_string());
    let (ops, _) = c.do_build();
    assert_eq!(
        describe(&ops),
        vec![
            "create Router",
            "identity [99, 49]",
            "customize",
            "bind tcp://*:5672",
            "bind ipc://x",
            "connect tcp://localhost:5673"
        ]
    );
}

#[test]
fn sub_config_subscribes_last() {
    let c = SocketBuilder::new(SocketType::Sub, ()).connect("tcp://localhost:5569".to_string());
    let s = c.filter(b"".to_vec()).filter(b"x".to_vec());
    assert_eq!(
        describe(&s.do_build()),
        vec!["create Sub", "connect tcp://localhost:5569", "subscribe []", "subscribe [120]"]
    );
}

#[test]
fn pair_config_binds_or_connects() {
    let c = SocketBuilder::new(SocketType::Pair, ()).bind("ignored".to_string());
    let p = c.pair("inproc://p".to_string(), false);
    assert_eq!(describe(&p.do_build()), vec!["create Pair", "connect inproc://p"]);
    let c = SocketBuilder::new(SocketType::Pair, ()).identity(vec![1]).connect("ignored".to_string());
    let p = c.pair("inproc://p".to_string(), true);
    assert_eq!(describe(&p.do_build()), vec!["create Pair", "identity [1]", "bind inproc://p"]);
}

#[test]
fn customizer_is_carried() {
    let b = SocketBuilder::new(SocketType::Push, 0u8).customize(7u8);
    let (_, custom) = b.connect("a".to_string()).do_build();
    assert_eq!(custom, 7);
}

fn wrapper(name: &str, attrs: &[&str]) -> DeriveShape {
    DeriveShape {
        name: name.to_string(),
        attrs: attrs.iter().map(|a| vec![a.to_string()]).collect(),
        data: DataShape::Struct(FieldsShape::Named(vec![FieldShape {
            ident: Some("inner".to_string()),
            ty: TypeShape::Path(vec!["crate".to_string(), "Socket".to_string()]),
        }])),
    }
}

#[test]
fn derive_pair_and_sub() {
    let p = socket_derive(&wrapper("Pair", &["stream", "sink"]));
    assert!(p.pair && !p.sub && p.stream && p.sink);
    assert_eq!(p.kind, "PAIR");
    let s = socket_derive(&wrapper("Sub", &["stream"]));
    assert!(!s.pair && s.sub && s.stream && !s.sink);
    assert_eq!(s.kind, "SUB");
    let d = socket_derive(&wrapper("Dealer", &["stream", "sink"]));
    assert!(!d.pair && !d.sub);
    assert_eq!(d.kind, "DEALER");
    assert_eq!(d.name, "Dealer");
}

#[test]
fn derive_rejects_other_shapes() {
    let mut w = wrapper("Pub", &[]);
    w.data = DataShape::Enum;
    assert!(!only_has_inner_socket(&w.data));
    let two = DataShape::Struct(FieldsShape::Named(vec![
        FieldShape { ident: Some("inner".to_string()), ty: TypeShape::Path(vec!["Socket".to_string()]) },
        FieldShape { ident: Some("other".to_string()), ty: TypeShape::Other },
    ]));
    assert!(!only_has_inner_socket(&two));
    let wrong_name = DataShape::Struct(FieldsShape::Named(vec![FieldShape {
        ident: Some("sock".to_string()),
        ty: TypeShape::Path(vec!["Socket".to_string()]),
    }]));
    assert!(!only_has_inner_socket(&wrong_name));
    let wrong_type = DataShape::Struct(FieldsShape::Named(vec![FieldShape {
        ident: Some("inner".to_string()),
        ty: TypeShape::Path(vec!["Socket".to_string(), "Inner".to_string()]),
    }]));
    assert!(!only_has_inner_socket(&wrong_type));
    assert!(!only_has_inner_socket(&DataShape::Struct(FieldsShape::Unit)));
}

#[test]
fn attributes_by_last_segment() {
    let attrs = vec![vec!["async_zmq".to_string(), "sink".to_string()], vec![]];
    assert!(has_attr(&attrs, "sink"));
    assert!(!has_attr(&attrs, "stream"));
}

#[test]
fn include_dir_files_by_relative_key() {
    let mut d = start("/base/assets");
    d.name("static").passthrough(false).compress(false);
    assert_eq!(d.collection(), "static");
    assert_eq!(d.base(), "/base/assets");
    assert!(!d.reads_at_run_time());
    d.file("/base/assets/css/site.css");
    assert_eq!(d.relative_key("/base/assets/js/app.js"), Some("js/app.js".to_string()));
    assert!(d.try_file("/base/assets/js/app.js"));
    assert!(!d.try_file("/elsewhere/x.js"));
    assert!(!d.try_file("/base/assetsX/y.js"));
    d.file("/base/assets/css/site.css");
    let mut e = d.entries();
    e.sort();
    assert_eq!(
        e,
        vec![
            ("css/site.css".to_string(), "/base/assets/css/site.css".to_string()),
            ("js/app.js".to_string(), "/base/assets/js/app.js".to_string())
        ]
    );
}

#[test]
fn include_dir_compresses_when_asked() {
    let mut d = start("/b");
    assert_eq!(d.embedded_bytes(b"hello"), b"hello".to_vec());
    d.compress(true);
    assert!(d.compresses());
    let z = d.embedded_bytes(b"hello hello hello");
    assert_eq!(&z[..3], &[0x1f, 0x8b, 8]);
    assert_ne!(z, b"hello hello hello".to_vec());
    let mut decoded = Vec::new();
    std::io::Read::read_to_end(&mut flate2::read::GzDecoder::new(&z[..]), &mut decoded).unwrap();
    assert_eq!(decoded, b"hello hello hello".to_vec());
}

#[test]
fn keys_from_paths() {
    assert_eq!(as_key("css/site.css"), "css/site.css");
    assert_eq!(as_key_backslashed("css\\site.css"), "css/site.css");
    assert_eq!(as_key_backslashed("plain"), "plain");
}
