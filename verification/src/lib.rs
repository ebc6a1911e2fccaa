//! Web namespaces: static symbol tables for markup vocabularies.
//!
//! A namespace owns an immutable table of attribute definitions. Lookups by
//! attribute name are ASCII case-insensitive; lookups by property name are
//! exact. A successful lookup yields a [`table::Symbol`], an identity-comparable
//! reference into the table.

use vstd::prelude::*;

pub mod fold;
pub mod table;
pub mod tags;
pub mod html;

verus! {

/// The closed set of web namespaces. Namespace identity is by variant, so the
/// value is freely copyable and comparable.
#[derive(Clone, Copy, PartialEq, Eq, Structural, Debug)]
pub enum WebNS {
    HTML5,
}

impl WebNS {
    /// The namespace value itself, as the common handle that implements
    /// [`WebNamespace`].
    pub fn web_namespace(&self) -> (r: WebNS)
        ensures
            r == *self,
    {
        match self {
            WebNS::HTML5 => WebNS::HTML5,
        }
    }
}

/// A value that carries a markup-facing local name.
pub trait LocalName {
    fn local_name(&self) -> &str;
}

/// A value that carries an internal property name.
pub trait PropertyName {
    fn property_name(&self) -> &str;
}

/// A web namespace.
pub trait WebNamespace {
    /// The name of this namespace.
    fn name(&self) -> &'static str;
}

impl WebNamespace for WebNS {
    fn name(&self) -> (r: &'static str)
        ensures
            r@ == "html5"@,
    {
        match self {
            WebNS::HTML5 => "html5",
        }
    }
}

/// A namespace with a typed element and attribute vocabulary. The typed
/// wrappers around the generic symbol table live with the callers that
/// define those vocabularies; the engine itself only declares the interface.
pub trait TypedWebNamespace: WebNamespace {
    type Element;

    type Attribute;

    fn element_by_local_name(&self, local_name: &str) -> Result<Self::Element, Error>;

    fn attribute_by_local_name(
        &self,
        element: &Self::Element,
        local_name: &str,
    ) -> Result<Self::Attribute, Error>;
}

/// Run-time lookup failure of the typed interface.
#[derive(Debug)]
pub enum Error {
    InvalidAttribute,
    InvalidAttributeValue,
}

} // verus!
