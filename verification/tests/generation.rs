use enumerate::enumerate;
use enumerate::generate::MethodBody;
use enumerate::model::{FnArg, InterfaceDef, IsSelf, MethodSig, Visibility};
use enumerate::parse::Token;

fn id(s: &str) -> Token {
    Token::Ident(s.to_string())
}

fn shape_interface() -> InterfaceDef {
    InterfaceDef {
        name: "Shape".to_string(),
        vis: Visibility::Public,
        methods: vec![
            MethodSig {
                name: "area".to_string(),
                inputs: vec![FnArg::SelfRef],
                output: Some("f64".to_string()),
            },
            MethodSig {
                name: "unit".to_string(),
                inputs: vec![],
                output: Some("Shape".to_string()),
            },
        ],
    }
}

#[test]
fn same_name_scenario_wraps_bundle_in_namespace() {
    let attr = vec![id("Shape"), Token::Colon, id("Circle"), Token::Comma, id("Square"), Token::As, id("Sq")];
    let exp = enumerate(&attr, shape_interface()).unwrap();
    let b = &exp.bundle;

    assert_eq!(exp.interface.name, "Shape");
    assert_eq!(b.enum_def.name, "Shape");
    assert_eq!(b.vis, Visibility::Public);
    assert_eq!(b.namespace, Some("shape_enm".to_string()));

    assert_eq!(b.enum_def.variants.len(), 2);
    assert_eq!(b.enum_def.variants[0].tag, "Circle");
    assert_eq!(b.enum_def.variants[0].payload.segments, vec!["Circle".to_string()]);
    assert!(b.enum_def.variants[0].payload.enclosing);
    assert_eq!(b.enum_def.variants[1].tag, "Sq");
    assert_eq!(b.enum_def.variants[1].payload.segments, vec!["Square".to_string()]);
    assert!(b.enum_def.variants[1].payload.enclosing);

    assert_eq!(b.dispatch.interface.name, "Shape");
    assert!(b.dispatch.interface.enclosing);
    assert_eq!(b.dispatch.enum_name, "Shape");
    assert_eq!(b.dispatch.methods.len(), 2);

    assert_eq!(b.dispatch.methods[0].sig.name, "area");
    match &b.dispatch.methods[0].body {
        MethodBody::Dispatch { arms } => {
            assert_eq!(arms.len(), 2);
            assert_eq!(arms[0].tag, "Circle");
            assert_eq!(arms[0].method, "area");
            assert!(arms[0].args.is_empty());
            assert_eq!(arms[1].tag, "Sq");
            assert_eq!(arms[1].method, "area");
            assert!(arms[1].args.is_empty());
        }
        MethodBody::Fault { .. } => panic!("a receiver method must dispatch"),
    }

    assert_eq!(b.dispatch.methods[1].sig.name, "unit");
    match &b.dispatch.methods[1].body {
        MethodBody::Fault { enum_name, method } => {
            assert_eq!(enum_name, "Shape");
            assert_eq!(method, "unit");
        }
        MethodBody::Dispatch { .. } => panic!("a receiver-less method must fault"),
    }

    assert_eq!(b.conversions.len(), 2);
    assert_eq!(b.conversions[0].tag, "Circle");
    assert_eq!(b.conversions[0].source.segments, vec!["Circle".to_string()]);
    assert!(b.conversions[0].source.enclosing);
    assert_eq!(b.conversions[0].enum_name, "Shape");
    assert_eq!(b.conversions[1].tag, "Sq");
    assert_eq!(b.conversions[1].source.segments, vec!["Square".to_string()]);
}

#[test]
fn distinct_override_name_emits_flat_bundle() {
    let attr = vec![id("AnyShape"), Token::Colon, id("Circle"), Token::Comma, id("Square"), Token::As, id("Sq")];
    let exp = enumerate(&attr, shape_interface()).unwrap();
    let b = &exp.bundle;

    assert_eq!(b.enum_def.name, "AnyShape");
    assert_eq!(b.namespace, None);
    assert!(!b.enum_def.variants[0].payload.enclosing);
    assert!(!b.enum_def.variants[1].payload.enclosing);
    assert!(!b.dispatch.interface.enclosing);
    assert_eq!(b.dispatch.enum_name, "AnyShape");
    assert_eq!(b.conversions[0].enum_name, "AnyShape");
    assert!(!b.conversions[0].source.enclosing);
}

#[test]
fn no_override_defaults_to_interface_name_and_nests() {
    let attr = vec![id("Circle"), Token::Comma, id("Square"), Token::As, id("Sq")];
    let exp = enumerate(&attr, shape_interface()).unwrap();
    let b = &exp.bundle;
    assert_eq!(b.enum_def.name, "Shape");
    assert_eq!(b.namespace, Some("shape_enm".to_string()));
    assert!(b.enum_def.variants[0].payload.enclosing);
}

#[test]
fn explicit_arguments_are_forwarded_in_order() {
    let iface = InterfaceDef {
        name: "Scaler".to_string(),
        vis: Visibility::Private,
        methods: vec![MethodSig {
            name: "scale".to_string(),
            inputs: vec![
                FnArg::SelfRef,
                FnArg::Captured { pattern: "factor".to_string(), ty: "u32".to_string() },
                FnArg::Captured { pattern: "offset".to_string(), ty: "i64".to_string() },
            ],
            output: Some("u32".to_string()),
        }],
    };
    let attr = vec![id("AnyScaler"), Token::Colon, id("Linear")];
    let exp = enumerate(&attr, iface).unwrap();
    let gm = &exp.bundle.dispatch.methods[0];
    assert_eq!(gm.sig.name, "scale");
    assert_eq!(gm.sig.output, Some("u32".to_string()));
    assert!(matches!(gm.sig.inputs[0], FnArg::SelfRef));
    match &gm.sig.inputs[1] {
        FnArg::Captured { pattern, ty } => {
            assert_eq!(pattern, "factor");
            assert_eq!(ty, "u32");
        }
        _ => panic!("the second parameter must be preserved as declared"),
    }
    match &gm.body {
        MethodBody::Dispatch { arms } => {
            assert_eq!(arms.len(), 1);
            assert_eq!(arms[0].args, vec!["factor".to_string(), "offset".to_string()]);
        }
        MethodBody::Fault { .. } => panic!("a receiver method must dispatch"),
    }
}

#[test]
fn receiver_by_value_also_dispatches() {
    let iface = InterfaceDef {
        name: "Sink".to_string(),
        vis: Visibility::Crate,
        methods: vec![MethodSig {
            name: "consume".to_string(),
            inputs: vec![FnArg::SelfValue],
            output: None,
        }],
    };
    let attr = vec![id("AnySink"), Token::Colon, id("Null")];
    let exp = enumerate(&attr, iface).unwrap();
    assert_eq!(exp.bundle.vis, Visibility::Crate);
    match &exp.bundle.dispatch.methods[0].body {
        MethodBody::Dispatch { arms } => assert_eq!(arms[0].method, "consume"),
        MethodBody::Fault { .. } => panic!("a receiver method must dispatch"),
    }
}

#[test]
fn empty_implementer_list_yields_degenerate_bundle() {
    let attr = vec![];
    let exp = enumerate(&attr, shape_interface()).unwrap();
    let b = &exp.bundle;
    assert_eq!(b.enum_def.name, "Shape");
    assert!(b.enum_def.variants.is_empty());
    assert!(b.conversions.is_empty());
    assert_eq!(b.namespace, Some("shape_enm".to_string()));
    match &b.dispatch.methods[0].body {
        MethodBody::Dispatch { arms } => assert!(arms.is_empty()),
        MethodBody::Fault { .. } => panic!("a receiver method must dispatch"),
    }
}

#[test]
fn malformed_arguments_abort_the_expansion() {
    let attr = vec![id("Circle"), Token::Comma];
    let e = enumerate(&attr, shape_interface()).unwrap_err();
    assert_eq!(e.pos, 2);
}

#[test]
fn is_self_distinguishes_receivers_from_arguments() {
    assert!(FnArg::SelfRef.is_self());
    assert!(FnArg::SelfValue.is_self());
    assert!(!FnArg::Captured { pattern: "x".to_string(), ty: "u8".to_string() }.is_self());
}
