//! The per-namespace symbol table: the build-time loader that turns a raw
//! definition list into an immutable table, and the run-time lookups that
//! resolve names and properties to identity-bearing symbols.
//!
//! Identifiers are positions: record `i` of a table is the definition with
//! identifier `i`, assigned by the loader in input order and never
//! renumbered. The loader rejects lists whose names collide under ASCII case
//! folding, or whose properties collide exactly, so a lookup hit is unique.

use vstd::prelude::*;
use vstd::std_specs::cmp::PartialEqSpec;
use vstd::string::StringExecFns;

use crate::WebNS;
use crate::fold::{ascii_case_eq, unicase_ascii_eq, ident_of, constant_ident};

verus! {

/// An opaque attribute-type bitset, owned by the vocabulary supplier. The
/// table stores and returns it, never interprets it.
#[derive(Clone, Copy, PartialEq, Eq, Structural, Debug)]
pub struct AttrType(pub u32);

/// One attribute definition: the markup-facing name, the internal property
/// it maps to, and its type flags, within one namespace.
#[derive(Debug)]
pub struct AttributeDef {
    pub web_ns: WebNS,
    pub name: String,
    pub property: String,
    pub attr_type: AttrType,
}

/// A raw definition as supplied by the external vocabulary list, before an
/// identifier is assigned.
#[derive(Debug)]
pub struct RawAttribute {
    pub name: String,
    pub property: String,
    pub attr_type: AttrType,
}

/// A build-time failure. All are fatal: the offending list must be fixed,
/// never silently deduplicated.
#[derive(Debug)]
pub enum BuildError {
    /// Two names collide under ASCII case folding; carries the later name.
    DuplicateName(String),
    /// Two properties collide exactly; carries the later property.
    DuplicateProperty(String),
    /// Two constant identifiers collide after normalization; carries the
    /// later identifier.
    DuplicateConstantIdent(String),
}

/// No two names are equivalent under ASCII case folding.
pub open spec fn names_unique(defs: Seq<AttributeDef>) -> bool {
    forall|i: int, j: int|
        0 <= i < j < defs.len() ==> !ascii_case_eq(defs[i].name@, defs[j].name@)
}

/// No two properties are equal.
pub open spec fn properties_unique(defs: Seq<AttributeDef>) -> bool {
    forall|i: int, j: int|
        0 <= i < j < defs.len() ==> defs[i].property@ != defs[j].property@
}

/// Every record carries the table's namespace.
pub open spec fn all_in_namespace(defs: Seq<AttributeDef>, web_ns: WebNS) -> bool {
    forall|i: int| 0 <= i < defs.len() ==> defs[i].web_ns == web_ns
}

/// No two raw names are equivalent under ASCII case folding.
pub open spec fn raw_names_unique(raw: Seq<RawAttribute>) -> bool {
    forall|i: int, j: int|
        0 <= i < j < raw.len() ==> !ascii_case_eq(raw[i].name@, raw[j].name@)
}

/// No two raw properties are equal.
pub open spec fn raw_properties_unique(raw: Seq<RawAttribute>) -> bool {
    forall|i: int, j: int|
        0 <= i < j < raw.len() ==> raw[i].property@ != raw[j].property@
}

/// What the loader guarantees of a table built from `raw` for `web_ns`:
/// the input was free of collisions, and the table transcribes it record
/// for record, in order, with identifier `i` = position `i`.
pub open spec fn built_from(t: SymbolTable, web_ns: WebNS, raw: Seq<RawAttribute>) -> bool {
    &&& raw_names_unique(raw)
    &&& raw_properties_unique(raw)
    &&& t.spec_ns() == web_ns
    &&& t.spec_defs().len() == raw.len()
    &&& forall|i: int|
        #![trigger t.spec_defs()[i]]
        0 <= i < raw.len() ==> {
            &&& t.spec_defs()[i].web_ns == web_ns
            &&& t.spec_defs()[i].name@ == raw[i].name@
            &&& t.spec_defs()[i].property@ == raw[i].property@
            &&& t.spec_defs()[i].attr_type == raw[i].attr_type
        }
}

/// What it means for a name lookup of `q` to answer `r`: a hit is the first
/// record whose name is equivalent to `q` under ASCII case folding, a miss
/// means no record matches.
pub open spec fn resolves_to(defs: Seq<AttributeDef>, q: Seq<char>, r: Option<int>) -> bool {
    match r {
        Some(i) => {
            &&& 0 <= i < defs.len()
            &&& ascii_case_eq(defs[i].name@, q)
            &&& forall|j: int| 0 <= j < i ==> !ascii_case_eq(defs[j].name@, q)
        },
        None => forall|i: int| 0 <= i < defs.len() ==> !ascii_case_eq(defs[i].name@, q),
    }
}

/// What it means for a property lookup of `q` to answer `r`: as
/// [`resolves_to`], but under exact equality.
pub open spec fn resolves_property_to(defs: Seq<AttributeDef>, q: Seq<char>, r: Option<int>) -> bool {
    match r {
        Some(i) => {
            &&& 0 <= i < defs.len()
            &&& defs[i].property@ == q
            &&& forall|j: int| 0 <= j < i ==> defs[j].property@ != q
        },
        None => forall|i: int| 0 <= i < defs.len() ==> defs[i].property@ != q,
    }
}

/// A namespace's symbol table: the flat definition array, immutable once
/// built. Record `i` is the definition with identifier `i`.
#[derive(Debug)]
pub struct SymbolTable {
    web_ns: WebNS,
    defs: Vec<AttributeDef>,
}

/// An identity-comparable reference to one definition within one
/// namespace's table: the table and an identifier into it. Two symbols are
/// equal exactly when they name the same namespace and the same identifier;
/// no string comparison is ever involved.
#[derive(Clone, Copy, Debug)]
pub struct Symbol<'a> {
    table: &'a SymbolTable,
    index: usize,
}

fn string_eq(a: &String, b: &String) -> (r: bool)
    ensures
        r == (a@ == b@),
{
    a.eq(b)
}

impl SymbolTable {
    /// The namespace this table belongs to.
    pub closed spec fn spec_ns(self) -> WebNS {
        self.web_ns
    }

    /// The definitions, in identifier order.
    pub closed spec fn spec_defs(self) -> Seq<AttributeDef> {
        self.defs@
    }

    #[verifier::type_invariant]
    spec fn inv(self) -> bool {
        &&& names_unique(self.defs@)
        &&& properties_unique(self.defs@)
        &&& all_in_namespace(self.defs@, self.web_ns)
    }

    /// Loads a raw definition list: assigns each entry the identifier equal
    /// to its position, after rejecting names that collide under ASCII case
    /// folding and properties that collide exactly.
    pub fn build(web_ns: WebNS, raw: Vec<RawAttribute>) -> (r: Result<SymbolTable, BuildError>)
        ensures
            match r {
                Ok(t) => built_from(t, web_ns, raw@),
                Err(e) => match e {
                    BuildError::DuplicateName(n) => {
                        &&& !raw_names_unique(raw@)
                        &&& exists|i: int, j: int|
                            #![trigger ascii_case_eq(raw@[i].name@, raw@[j].name@)]
                            0 <= i < j < raw@.len() && ascii_case_eq(raw@[i].name@, raw@[j].name@)
                                && n@ == raw@[j].name@
                    },
                    BuildError::DuplicateProperty(p) => {
                        &&& raw_names_unique(raw@)
                        &&& !raw_properties_unique(raw@)
                        &&& exists|i: int, j: int|
                            #![trigger raw@[i].property@, raw@[j].property@]
                            0 <= i < j < raw@.len() && raw@[i].property@ == raw@[j].property@
                                && p@ == raw@[j].property@
                    },
                    BuildError::DuplicateConstantIdent(_) => false,
                },
            },
    {
        let n = raw.len();
        let mut j: usize = 0;
        while j < n
            invariant
                j <= n,
                n == raw@.len(),
                forall|a: int, b: int|
                    0 <= a < b < j ==> !ascii_case_eq(raw@[a].name@, raw@[b].name@),
            decreases n - j,
        {
            let mut i: usize = 0;
            while i < j
                invariant
                    i <= j < n,
                    n == raw@.len(),
                    forall|a: int, b: int|
                        0 <= a < b < j ==> !ascii_case_eq(raw@[a].name@, raw@[b].name@),
                    forall|a: int| 0 <= a < i ==> !ascii_case_eq(raw@[a].name@, raw@[j as int].name@),
                decreases j - i,
            {
                if unicase_ascii_eq(raw[i].name.as_str(), raw[j].name.as_str()) {
                    proof {
                        assert(!raw_names_unique(raw@));
                    }
                    return Err(BuildError::DuplicateName(raw[j].name.clone()));
                }
                i += 1;
            }
            j += 1;
        }
        let mut j: usize = 0;
        while j < n
            invariant
                j <= n,
                n == raw@.len(),
                raw_names_unique(raw@),
                forall|a: int, b: int| 0 <= a < b < j ==> raw@[a].property@ != raw@[b].property@,
            decreases n - j,
        {
            let mut i: usize = 0;
            while i < j
                invariant
                    i <= j < n,
                    n == raw@.len(),
                    raw_names_unique(raw@),
                    forall|a: int, b: int|
                        0 <= a < b < j ==> raw@[a].property@ != raw@[b].property@,
                    forall|a: int| 0 <= a < i ==> raw@[a].property@ != raw@[j as int].property@,
                decreases j - i,
            {
                if string_eq(&raw[i].property, &raw[j].property) {
                    proof {
                        assert(!raw_properties_unique(raw@));
                    }
                    return Err(BuildError::DuplicateProperty(raw[j].property.clone()));
                }
                i += 1;
            }
            j += 1;
        }
        let mut defs: Vec<AttributeDef> = Vec::new();
        let mut k: usize = 0;
        while k < n
            invariant
                k <= n,
                n == raw@.len(),
                defs@.len() == k as int,
                forall|i: int|
                    #![trigger defs@[i]]
                    0 <= i < k ==> {
                        &&& defs@[i].web_ns == web_ns
                        &&& defs@[i].name@ == raw@[i].name@
                        &&& defs@[i].property@ == raw@[i].property@
                        &&& defs@[i].attr_type == raw@[i].attr_type
                    },
            decreases n - k,
        {
            let d = AttributeDef {
                web_ns,
                name: raw[k].name.clone(),
                property: raw[k].property.clone(),
                attr_type: raw[k].attr_type,
            };
            defs.push(d);
            k += 1;
        }
        proof {
            assert forall|a: int, b: int| 0 <= a < b < defs@.len() implies !ascii_case_eq(
                defs@[a].name@,
                defs@[b].name@,
            ) by {
                assert(defs@[a].name@ == raw@[a].name@);
                assert(defs@[b].name@ == raw@[b].name@);
            }
            assert forall|a: int, b: int| 0 <= a < b < defs@.len() implies defs@[a].property@
                != defs@[b].property@ by {
                assert(defs@[a].property@ == raw@[a].property@);
                assert(defs@[b].property@ == raw@[b].property@);
            }
        }
        Ok(SymbolTable { web_ns, defs })
    }

    /// A built table is well formed: names unique under ASCII case folding,
    /// properties unique exactly, every record in the table's namespace.
    pub fn table_properties(&self)
        ensures
            names_unique(self.spec_defs()),
            properties_unique(self.spec_defs()),
            all_in_namespace(self.spec_defs(), self.spec_ns()),
    {
        proof {
            use_type_invariant(&*self);
        }
    }

    /// The number of definitions loaded into this table.
    pub fn len(&self) -> (r: usize)
        ensures
            r == self.spec_defs().len(),
    {
        self.defs.len()
    }

    /// The namespace this table serves.
    pub fn web_ns(&self) -> (r: WebNS)
        ensures
            r == self.spec_ns(),
    {
        self.web_ns
    }

    /// The symbol with identifier `index`, if the table has one: the value
    /// that a per-attribute public constant carries.
    pub fn symbol_at<'a>(&'a self, index: usize) -> (r: Option<Symbol<'a>>)
        ensures
            match r {
                Some(s) => {
                    &&& s.spec_table() == *self
                    &&& s.spec_index() == index as int
                    &&& (index as int) < self.spec_defs().len()
                },
                None => self.spec_defs().len() <= index as int,
            },
    {
        if index < self.defs.len() {
            Some(Symbol { table: self, index })
        } else {
            None
        }
    }

    /// Looks up an attribute by markup name, ASCII case-insensitively. A hit
    /// is checked by character equivalence against the stored name, so an
    /// unknown name is rejected even if it resembles a known one. The query
    /// is only borrowed for the duration of the call — the table never
    /// stores it, so a short-lived string probes a long-lived table without
    /// being copied.
    pub fn resolve_attribute_by_name<'a>(&'a self, name: &str) -> (r: Option<Symbol<'a>>)
        ensures
            match r {
                Some(s) => s.spec_table() == *self && resolves_to(
                    self.spec_defs(),
                    name@,
                    Some(s.spec_index()),
                ),
                None => resolves_to(self.spec_defs(), name@, None::<int>),
            },
    {
        let n = self.defs.len();
        let mut i: usize = 0;
        while i < n
            invariant
                i <= n,
                n == self.defs@.len(),
                forall|j: int| 0 <= j < i ==> !ascii_case_eq(self.defs@[j].name@, name@),
            decreases n - i,
        {
            if unicase_ascii_eq(self.defs[i].name.as_str(), name) {
                return Some(Symbol { table: self, index: i });
            }
            i += 1;
        }
        None
    }

    /// Looks up an attribute by its internal property name, by exact string
    /// equality.
    pub fn resolve_attribute_by_property<'a>(&'a self, property: &str) -> (r: Option<Symbol<'a>>)
        ensures
            match r {
                Some(s) => s.spec_table() == *self && resolves_property_to(
                    self.spec_defs(),
                    property@,
                    Some(s.spec_index()),
                ),
                None => resolves_property_to(self.spec_defs(), property@, None::<int>),
            },
    {
        let p = String::from_str(property);
        let n = self.defs.len();
        let mut i: usize = 0;
        while i < n
            invariant
                i <= n,
                n == self.defs@.len(),
                p@ == property@,
                forall|j: int| 0 <= j < i ==> self.defs@[j].property@ != property@,
            decreases n - i,
        {
            if string_eq(&self.defs[i].property, &p) {
                return Some(Symbol { table: self, index: i });
            }
            i += 1;
        }
        None
    }

    /// Emits the public constant identifiers, one per definition, in
    /// identifier order. Name uniqueness alone does not guarantee that the
    /// normalized identifiers stay distinct, so collisions are re-checked
    /// here and abort the build.
    pub fn constant_idents(&self) -> (r: Result<Vec<String>, BuildError>)
        ensures
            match r {
                Ok(ids) => {
                    &&& ids@.len() == self.spec_defs().len()
                    &&& forall|i: int|
                        0 <= i < ids@.len() ==> #[trigger] ids@[i]@ == ident_of(
                            self.spec_defs()[i].name@,
                        )
                    &&& forall|i: int, j: int| 0 <= i < j < ids@.len() ==> ids@[i]@ != ids@[j]@
                },
                Err(e) => match e {
                    BuildError::DuplicateConstantIdent(n) => exists|i: int, j: int|
                        #![trigger ident_of(self.spec_defs()[i].name@), ident_of(self.spec_defs()[j].name@)]
                        0 <= i < j < self.spec_defs().len() && ident_of(self.spec_defs()[i].name@)
                            == ident_of(self.spec_defs()[j].name@) && n@ == ident_of(
                            self.spec_defs()[j].name@,
                        ),
                    _ => false,
                },
            },
    {
        let n = self.defs.len();
        let mut ids: Vec<String> = Vec::new();
        let mut j: usize = 0;
        while j < n
            invariant
                j <= n,
                n == self.defs@.len(),
                ids@.len() == j as int,
                forall|i: int|
                    0 <= i < j ==> #[trigger] ids@[i]@ == ident_of(self.defs@[i].name@),
                forall|a: int, b: int| 0 <= a < b < j ==> ids@[a]@ != ids@[b]@,
            decreases n - j,
        {
            let ident = constant_ident(self.defs[j].name.as_str());
            let mut i: usize = 0;
            while i < j
                invariant
                    i <= j < n,
                    n == self.defs@.len(),
                    ids@.len() == j as int,
                    ident@ == ident_of(self.defs@[j as int].name@),
                    forall|a: int|
                        0 <= a < j ==> #[trigger] ids@[a]@ == ident_of(self.defs@[a].name@),
                    forall|a: int, b: int| 0 <= a < b < j ==> ids@[a]@ != ids@[b]@,
                    forall|a: int| 0 <= a < i ==> ids@[a]@ != ident@,
                decreases j - i,
            {
                if string_eq(&ids[i], &ident) {
                    proof {
                        assert(ident_of(self.spec_defs()[i as int].name@) == ident_of(
                            self.spec_defs()[j as int].name@,
                        ));
                    }
                    return Err(BuildError::DuplicateConstantIdent(ident));
                }
                i += 1;
            }
            ids.push(ident);
            j += 1;
        }
        Ok(ids)
    }
}

impl<'a> Symbol<'a> {
    /// The table this symbol points into.
    pub closed spec fn spec_table(self) -> SymbolTable {
        *self.table
    }

    /// The identifier of the definition within the table.
    pub closed spec fn spec_index(self) -> int {
        self.index as int
    }

    #[verifier::type_invariant]
    spec fn inv(self) -> bool {
        self.index < self.table.defs@.len()
    }

    /// The definition this symbol identifies: an array access at the
    /// identifier. Never fails, because a symbol is only ever constructed
    /// from a valid identifier.
    pub fn definition(&self) -> (r: &'a AttributeDef)
        ensures
            0 <= self.spec_index() < self.spec_table().spec_defs().len(),
            *r == self.spec_table().spec_defs()[self.spec_index()],
    {
        proof {
            use_type_invariant(*self);
        }
        &self.table.defs[self.index]
    }

    /// The markup-facing name of the definition.
    pub fn name(&self) -> (r: &'a str)
        ensures
            0 <= self.spec_index() < self.spec_table().spec_defs().len(),
            r@ == self.spec_table().spec_defs()[self.spec_index()].name@,
    {
        self.definition().name.as_str()
    }

    /// The internal property name of the definition.
    pub fn property(&self) -> (r: &'a str)
        ensures
            0 <= self.spec_index() < self.spec_table().spec_defs().len(),
            r@ == self.spec_table().spec_defs()[self.spec_index()].property@,
    {
        self.definition().property.as_str()
    }

    /// The opaque attribute-type flags of the definition.
    pub fn attr_type(&self) -> (r: AttrType)
        ensures
            0 <= self.spec_index() < self.spec_table().spec_defs().len(),
            r == self.spec_table().spec_defs()[self.spec_index()].attr_type,
    {
        self.definition().attr_type
    }

    /// The namespace of the table this symbol points into.
    pub fn web_ns(&self) -> (r: WebNS)
        ensures
            r == self.spec_table().spec_ns(),
    {
        self.table.web_ns
    }
}

impl crate::LocalName for AttributeDef {
    fn local_name(&self) -> (r: &str)
        ensures
            r@ == self.name@,
    {
        self.name.as_str()
    }
}

impl crate::PropertyName for AttributeDef {
    fn property_name(&self) -> (r: &str)
        ensures
            r@ == self.property@,
    {
        self.property.as_str()
    }
}

impl<'a> crate::LocalName for Symbol<'a> {
    fn local_name(&self) -> (r: &str)
        ensures
            0 <= self.spec_index() < self.spec_table().spec_defs().len(),
            r@ == self.spec_table().spec_defs()[self.spec_index()].name@,
    {
        self.name()
    }
}

impl<'a> crate::PropertyName for Symbol<'a> {
    fn property_name(&self) -> (r: &str)
        ensures
            0 <= self.spec_index() < self.spec_table().spec_defs().len(),
            r@ == self.spec_table().spec_defs()[self.spec_index()].property@,
    {
        self.property()
    }
}

impl<'a> PartialEq for Symbol<'a> {
    /// Symbol equality is identity: same namespace, same identifier.
    fn eq(&self, other: &Symbol<'a>) -> (r: bool) {
        self.table.web_ns == other.table.web_ns && self.index == other.index
    }
}

impl<'a> vstd::std_specs::cmp::PartialEqSpecImpl for Symbol<'a> {
    open spec fn obeys_eq_spec() -> bool {
        true
    }

    open spec fn eq_spec(&self, other: &Symbol<'a>) -> bool {
        self.spec_table().spec_ns() == other.spec_table().spec_ns() && self.spec_index()
            == other.spec_index()
    }
}

/// Resolution answers are unique: any two answers to the same lookup agree.
pub proof fn lemma_resolution_deterministic(
    defs: Seq<AttributeDef>,
    q: Seq<char>,
    r1: Option<int>,
    r2: Option<int>,
)
    requires
        resolves_to(defs, q, r1),
        resolves_to(defs, q, r2),
    ensures
        r1 == r2,
{
    match (r1, r2) {
        (Some(i1), Some(i2)) => {
            if i1 < i2 {
                assert(!ascii_case_eq(defs[i1].name@, q));
            }
            if i2 < i1 {
                assert(!ascii_case_eq(defs[i2].name@, q));
            }
        },
        (Some(i1), None) => {
            assert(!ascii_case_eq(defs[i1].name@, q));
        },
        (None, Some(i2)) => {
            assert(!ascii_case_eq(defs[i2].name@, q));
        },
        (None, None) => {},
    }
}

/// Folding consistency: two queries that agree under ASCII case folding
/// resolve to the same identifier, or both to none.
pub proof fn lemma_fold_consistency(
    defs: Seq<AttributeDef>,
    q1: Seq<char>,
    q2: Seq<char>,
    r1: Option<int>,
    r2: Option<int>,
)
    requires
        ascii_case_eq(q1, q2),
        resolves_to(defs, q1, r1),
        resolves_to(defs, q2, r2),
    ensures
        r1 == r2,
{
    match r1 {
        Some(i) => {
            assert(ascii_case_eq(defs[i].name@, q2));
            assert forall|j: int| 0 <= j < i implies !ascii_case_eq(defs[j].name@, q2) by {
                if ascii_case_eq(defs[j].name@, q2) {
                    assert(ascii_case_eq(defs[j].name@, q1));
                }
            }
            assert(resolves_to(defs, q2, r1));
        },
        None => {
            assert forall|i: int| 0 <= i < defs.len() implies !ascii_case_eq(
                defs[i].name@,
                q2,
            ) by {
                if ascii_case_eq(defs[i].name@, q2) {
                    assert(ascii_case_eq(defs[i].name@, q1));
                }
            }
            assert(resolves_to(defs, q2, r1));
        },
    }
    lemma_resolution_deterministic(defs, q2, r1, r2);
}

/// Completeness: in a well-formed table, every definition is found again by
/// its own name and by its own property, at its own identifier.
pub proof fn lemma_completeness(
    defs: Seq<AttributeDef>,
    i: int,
    rn: Option<int>,
    rp: Option<int>,
)
    requires
        names_unique(defs),
        properties_unique(defs),
        0 <= i < defs.len(),
        resolves_to(defs, defs[i].name@, rn),
        resolves_property_to(defs, defs[i].property@, rp),
    ensures
        rn == Some(i),
        rp == Some(i),
{
    assert(ascii_case_eq(defs[i].name@, defs[i].name@));
    match rn {
        Some(k) => {
            if k < i {
                assert(!ascii_case_eq(defs[k].name@, defs[i].name@));
            }
            if i < k {
                assert(!ascii_case_eq(defs[i].name@, defs[i].name@));
            }
        },
        None => {
            assert(!ascii_case_eq(defs[i].name@, defs[i].name@));
        },
    }
    match rp {
        Some(k) => {
            if k < i {
                assert(defs[k].property@ != defs[i].property@);
            }
            if i < k {
                assert(defs[i].property@ != defs[i].property@);
            }
        },
        None => {
            assert(defs[i].property@ != defs[i].property@);
        },
    }
}

/// Symbol identity: two symbols resolved from the same table for the same
/// query are equal.
pub proof fn lemma_symbol_identity<'a>(s1: Symbol<'a>, s2: Symbol<'a>, q: Seq<char>)
    requires
        s1.spec_table() == s2.spec_table(),
        resolves_to(s1.spec_table().spec_defs(), q, Some(s1.spec_index())),
        resolves_to(s2.spec_table().spec_defs(), q, Some(s2.spec_index())),
    ensures
        s1.eq_spec(&s2),
{
    lemma_resolution_deterministic(
        s1.spec_table().spec_defs(),
        q,
        Some(s1.spec_index()),
        Some(s2.spec_index()),
    );
}

/// Symbols of tables of different namespaces are never equal, whatever
/// their names.
pub proof fn lemma_symbol_namespace_distinct<'a>(s1: Symbol<'a>, s2: Symbol<'a>)
    requires
        s1.spec_table().spec_ns() != s2.spec_table().spec_ns(),
    ensures
        !s1.eq_spec(&s2),
{
}

/// Stability under rebuild: two tables built from the same raw list agree
/// record for record — identifiers, names, properties and flags — and
/// yield the same constant identifiers.
pub proof fn lemma_build_stable(
    web_ns: WebNS,
    raw: Seq<RawAttribute>,
    t1: SymbolTable,
    t2: SymbolTable,
)
    requires
        built_from(t1, web_ns, raw),
        built_from(t2, web_ns, raw),
    ensures
        t1.spec_defs().len() == t2.spec_defs().len(),
        forall|i: int|
            #![trigger t1.spec_defs()[i]]
            0 <= i < raw.len() ==> {
                &&& t1.spec_defs()[i].web_ns == t2.spec_defs()[i].web_ns
                &&& t1.spec_defs()[i].name@ == t2.spec_defs()[i].name@
                &&& t1.spec_defs()[i].property@ == t2.spec_defs()[i].property@
                &&& t1.spec_defs()[i].attr_type == t2.spec_defs()[i].attr_type
                &&& ident_of(t1.spec_defs()[i].name@) == ident_of(t2.spec_defs()[i].name@)
            },
{
}

} // verus!
