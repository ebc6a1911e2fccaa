//! Lookups in the shape of the per-dialect vocabulary interface: resolve a
//! definition record directly, by name or by property.

use vstd::prelude::*;

use crate::table::{AttributeDef, SymbolTable, resolves_to, resolves_property_to};

verus! {

/// Looks up an attribute definition by markup name, ASCII
/// case-insensitively.
pub fn internal_attr_by_name<'a>(table: &'a SymbolTable, attribute: &str) -> (r: Option<
    &'a AttributeDef,
>)
    ensures
        match r {
            Some(d) => exists|i: int|
                resolves_to(table.spec_defs(), attribute@, Some(i)) && *d == table.spec_defs()[i],
            None => resolves_to(table.spec_defs(), attribute@, None::<int>),
        },
{
    match table.resolve_attribute_by_name(attribute) {
        Some(sym) => {
            let d = sym.definition();
            proof {
                assert(resolves_to(table.spec_defs(), attribute@, Some(sym.spec_index())) && *d
                    == table.spec_defs()[sym.spec_index()]);
            }
            Some(d)
        },
        None => None,
    }
}

/// Looks up an attribute definition by its internal property name, by exact
/// string equality.
pub fn internal_attr_by_property<'a>(table: &'a SymbolTable, property: &str) -> (r: Option<
    &'a AttributeDef,
>)
    ensures
        match r {
            Some(d) => exists|i: int|
                resolves_property_to(table.spec_defs(), property@, Some(i)) && *d
                    == table.spec_defs()[i],
            None => resolves_property_to(table.spec_defs(), property@, None::<int>),
        },
{
    match table.resolve_attribute_by_property(property) {
        Some(sym) => {
            let d = sym.definition();
            proof {
                assert(resolves_property_to(table.spec_defs(), property@, Some(sym.spec_index()))
                    && *d == table.spec_defs()[sym.spec_index()]);
            }
            Some(d)
        },
        None => None,
    }
}

} // verus!
