use web_ns::WebNS;
use web_ns::{LocalName, PropertyName};
use web_ns::html::{internal_attr_by_name, internal_attr_by_property};
use web_ns::table::{AttrType, RawAttribute, SymbolTable};

fn raw(name: &str, property: &str, flags: u32) -> RawAttribute {
    RawAttribute {
        name: name.to_string(),
        property: property.to_string(),
        attr_type: AttrType(flags),
    }
}

fn sample_table() -> SymbolTable {
    let defs = vec![
        raw("accept", "accept", 0x2),
        raw("accept-charset", "accept_charset", 0x2),
        raw("action", "action", 0x2),
        raw("autocapitalize", "autocapitalize", 0x8),
        raw("autocomplete", "autocomplete", 0x10),
        raw("autofocus", "autofocus", 0x8),
        raw("autoplay", "autoplay", 0x8),
        raw("class", "class_name", 0x1),
        raw("href", "href", 0x2),
    ];
    SymbolTable::build(WebNS::HTML5, defs).unwrap()
}

#[test]
fn end_to_end_example() {
    let table = sample_table();
    let upper = table.resolve_attribute_by_name("CLASS").unwrap();
    let lower = table.resolve_attribute_by_name("class").unwrap();
    assert_eq!(upper, lower);
    assert_eq!(upper.property(), "class_name");
    assert_eq!(upper.attr_type(), AttrType(0x1));
    let by_prop = table.resolve_attribute_by_property("class_name").unwrap();
    assert_eq!(by_prop.definition().name, "class");
    assert!(table.resolve_attribute_by_name("classx").is_none());
}

#[test]
fn folding_consistency() {
    let table = sample_table();
    let plain = table.resolve_attribute_by_name("href").unwrap();
    for variant in ["HREF", "Href", "hReF", "href"] {
        let sym = table.resolve_attribute_by_name(variant).unwrap();
        assert_eq!(sym, plain);
        assert_eq!(sym.name(), "href");
    }
}

#[test]
fn property_lookup_is_exact() {
    let table = sample_table();
    assert!(table.resolve_attribute_by_property("class_name").is_some());
    assert!(table.resolve_attribute_by_property("CLASS_NAME").is_none());
    assert!(table.resolve_attribute_by_property("Class_Name").is_none());
}

#[test]
fn non_ascii_bytes_do_not_fold() {
    let defs = vec![raw("na\u{00ef}ve", "naive", 0)];
    let table = SymbolTable::build(WebNS::HTML5, defs).unwrap();
    assert!(table.resolve_attribute_by_name("na\u{00ef}ve").is_some());
    // Only ASCII A-Z folds: an uppercase I-with-diaeresis is a different key.
    assert!(table.resolve_attribute_by_name("na\u{00cf}ve").is_none());
    // ASCII letters around the non-ASCII one still fold.
    assert!(table.resolve_attribute_by_name("NA\u{00ef}VE").is_some());
}

#[test]
fn completeness_every_definition_is_found() {
    let table = sample_table();
    let names = [
        "accept",
        "accept-charset",
        "action",
        "autocapitalize",
        "autocomplete",
        "autofocus",
        "autoplay",
        "class",
        "href",
    ];
    let properties = [
        "accept",
        "accept_charset",
        "action",
        "autocapitalize",
        "autocomplete",
        "autofocus",
        "autoplay",
        "class_name",
        "href",
    ];
    assert_eq!(table.len(), names.len());
    for i in 0..names.len() {
        let by_name = table.resolve_attribute_by_name(names[i]).unwrap();
        let by_prop = table.resolve_attribute_by_property(properties[i]).unwrap();
        assert_eq!(by_name, by_prop);
        assert_eq!(by_name.definition().name, names[i]);
        assert_eq!(by_name.definition().property, properties[i]);
        assert_eq!(by_name.web_ns(), WebNS::HTML5);
    }
}

#[test]
fn rejection_of_unknowns() {
    let table = sample_table();
    assert!(table.resolve_attribute_by_name("classx").is_none());
    assert!(table.resolve_attribute_by_name("CLASSX").is_none());
    assert!(table.resolve_attribute_by_name("clas").is_none());
    assert!(table.resolve_attribute_by_name("").is_none());
    assert!(table.resolve_attribute_by_property("classx").is_none());
}

#[test]
fn symbol_identity() {
    let table = sample_table();
    let one = table.resolve_attribute_by_name("class").unwrap();
    let two = table.resolve_attribute_by_name("CLASS").unwrap();
    assert_eq!(one, two);
    let other = table.resolve_attribute_by_name("href").unwrap();
    assert!(one != other);
}

#[test]
fn public_constant_symbols() {
    let table = sample_table();
    // "class" was loaded at position 7, so its identifier is 7.
    let class_const = table.symbol_at(7).unwrap();
    let by_name = table.resolve_attribute_by_name("class").unwrap();
    assert_eq!(class_const, by_name);
    assert_eq!(class_const.name(), "class");
    assert_eq!(class_const.property(), "class_name");
    assert!(table.symbol_at(table.len()).is_none());
}

#[test]
fn internal_attr_lookups() {
    let table = sample_table();
    let def = internal_attr_by_name(&table, "Accept-Charset").unwrap();
    assert_eq!(def.name, "accept-charset");
    assert_eq!(def.property, "accept_charset");
    let def = internal_attr_by_property(&table, "accept_charset").unwrap();
    assert_eq!(def.name, "accept-charset");
    assert!(internal_attr_by_name(&table, "accept_charset").is_none());
    assert!(internal_attr_by_property(&table, "Accept-Charset").is_none());
}

#[test]
fn name_traits_project_through_the_definition() {
    let table = sample_table();
    let sym = table.resolve_attribute_by_name("class").unwrap();
    assert_eq!(sym.local_name(), "class");
    assert_eq!(sym.property_name(), "class_name");
    let def = sym.definition();
    assert_eq!(def.local_name(), "class");
    assert_eq!(def.property_name(), "class_name");
}
