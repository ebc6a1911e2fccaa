use web_ns::WebNS;
use web_ns::WebNamespace;
use web_ns::fold::constant_ident;
use web_ns::table::{AttrType, BuildError, RawAttribute, SymbolTable};

fn raw(name: &str, property: &str, flags: u32) -> RawAttribute {
    RawAttribute {
        name: name.to_string(),
        property: property.to_string(),
        attr_type: AttrType(flags),
    }
}

#[test]
fn duplicate_name_under_folding_is_rejected() {
    let defs = vec![
        raw("class", "class_name", 0x1),
        raw("href", "href", 0x2),
        raw("CLASS", "other_class", 0x1),
    ];
    match SymbolTable::build(WebNS::HTML5, defs) {
        Err(BuildError::DuplicateName(n)) => assert_eq!(n, "CLASS"),
        other => panic!("expected a duplicate-name error, got {:?}", other),
    }
}

#[test]
fn duplicate_property_is_rejected() {
    let defs = vec![
        raw("class", "class_name", 0x1),
        raw("className", "class_name", 0x1),
    ];
    match SymbolTable::build(WebNS::HTML5, defs) {
        Err(BuildError::DuplicateProperty(p)) => assert_eq!(p, "class_name"),
        other => panic!("expected a duplicate-property error, got {:?}", other),
    }
}

#[test]
fn property_uniqueness_is_exact_not_folded() {
    // Properties that differ only in ASCII case are distinct keys.
    let defs = vec![raw("a", "x", 0), raw("b", "X", 0)];
    assert!(SymbolTable::build(WebNS::HTML5, defs).is_ok());
}

#[test]
fn constant_ident_derivation() {
    assert_eq!(constant_ident("class"), "CLASS");
    assert_eq!(constant_ident("accept-charset"), "ACCEPT_CHARSET");
    assert_eq!(constant_ident("http-equiv"), "HTTP_EQUIV");
    assert_eq!(constant_ident("viewBox"), "VIEWBOX");
    assert_eq!(constant_ident(""), "");
    // Non-ASCII characters pass through unchanged.
    assert_eq!(constant_ident("na\u{00ef}ve"), "NA\u{00ef}VE");
}

#[test]
fn constant_idents_in_identifier_order() {
    let defs = vec![
        raw("class", "class_name", 0x1),
        raw("accept-charset", "accept_charset", 0x2),
        raw("href", "href", 0x2),
    ];
    let table = SymbolTable::build(WebNS::HTML5, defs).unwrap();
    let idents = table.constant_idents().unwrap();
    assert_eq!(idents, ["CLASS", "ACCEPT_CHARSET", "HREF"]);
}

#[test]
fn constant_ident_collision_is_rejected() {
    // Distinct names, distinct under folding, same normalized identifier.
    let defs = vec![raw("a-b", "p1", 0), raw("a_b", "p2", 0)];
    let table = SymbolTable::build(WebNS::HTML5, defs).unwrap();
    match table.constant_idents() {
        Err(BuildError::DuplicateConstantIdent(n)) => assert_eq!(n, "A_B"),
        other => panic!("expected an identifier collision, got {:?}", other),
    }
}

#[test]
fn stability_under_rebuild() {
    let mk = || {
        vec![
            raw("class", "class_name", 0x1),
            raw("accept-charset", "accept_charset", 0x2),
            raw("href", "href", 0x2),
        ]
    };
    let t1 = SymbolTable::build(WebNS::HTML5, mk()).unwrap();
    let t2 = SymbolTable::build(WebNS::HTML5, mk()).unwrap();
    assert_eq!(t1.len(), t2.len());
    for name in ["class", "accept-charset", "href"] {
        let s1 = t1.resolve_attribute_by_name(name).unwrap();
        let s2 = t2.resolve_attribute_by_name(name).unwrap();
        assert_eq!(s1, s2);
        assert_eq!(s1.definition().name, s2.definition().name);
        assert_eq!(s1.definition().property, s2.definition().property);
        assert_eq!(s1.definition().attr_type, s2.definition().attr_type);
    }
    assert_eq!(t1.constant_idents().unwrap(), t2.constant_idents().unwrap());
}

#[test]
fn empty_list_builds_an_empty_table() {
    let table = SymbolTable::build(WebNS::HTML5, Vec::new()).unwrap();
    assert_eq!(table.len(), 0);
    assert!(table.resolve_attribute_by_name("class").is_none());
    assert!(table.constant_idents().unwrap().is_empty());
}

#[test]
fn namespace_handle() {
    let ns = WebNS::HTML5.web_namespace();
    assert_eq!(ns, WebNS::HTML5);
    assert_eq!(ns.name(), "html5");
    let table = SymbolTable::build(WebNS::HTML5, Vec::new()).unwrap();
    assert_eq!(table.web_ns(), WebNS::HTML5);
}

#[test]
fn tag_loading_and_lookup() {
    let raw_tags = vec![
        web_ns::tags::RawTag { name: "div".to_string(), is_void: false },
        web_ns::tags::RawTag { name: "br".to_string(), is_void: true },
        web_ns::tags::RawTag { name: "img".to_string(), is_void: true },
    ];
    let tags = web_ns::tags::load_tags(WebNS::HTML5, raw_tags).unwrap();
    assert_eq!(tags.len(), 3);
    assert_eq!(tags[1].name, "br");
    assert!(tags[1].is_void);
    assert!(!tags[0].is_void);
    assert_eq!(web_ns::tags::tag_by_name(&tags, "DIV"), Some(0));
    assert_eq!(web_ns::tags::tag_by_name(&tags, "br"), Some(1));
    assert_eq!(web_ns::tags::tag_by_name(&tags, "video"), None);
}

#[test]
fn duplicate_tag_name_is_rejected() {
    let raw_tags = vec![
        web_ns::tags::RawTag { name: "div".to_string(), is_void: false },
        web_ns::tags::RawTag { name: "DIV".to_string(), is_void: false },
    ];
    match web_ns::tags::load_tags(WebNS::HTML5, raw_tags) {
        Err(BuildError::DuplicateName(n)) => assert_eq!(n, "DIV"),
        other => panic!("expected a duplicate-name error, got {:?}", other),
    }
}

#[test]
fn error_variants_exist() {
    let e = web_ns::Error::InvalidAttribute;
    assert!(matches!(e, web_ns::Error::InvalidAttribute));
    let e = web_ns::Error::InvalidAttributeValue;
    assert!(matches!(e, web_ns::Error::InvalidAttributeValue));
}
