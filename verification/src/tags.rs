//! The tag-list side of the build phase: loads the raw `(name, is_void)`
//! element list of a namespace, assigns identifiers by position, and rejects
//! names that collide under ASCII case folding. Element lookups answer with
//! the identifier; the typed per-dialect element API wraps it elsewhere.

use vstd::prelude::*;

use crate::WebNS;
use crate::fold::{ascii_case_eq, unicase_ascii_eq};

verus! {

/// A raw element entry as supplied by the external vocabulary list.
#[derive(Debug)]
pub struct RawTag {
    pub name: String,
    pub is_void: bool,
}

/// One element definition: the tag name and whether the element is void,
/// within one namespace. Record `i` of a loaded list is the definition with
/// identifier `i`.
#[derive(Debug)]
pub struct TagDef {
    pub web_ns: WebNS,
    pub name: String,
    pub is_void: bool,
}

/// No two tag names are equivalent under ASCII case folding.
pub open spec fn tag_names_unique(tags: Seq<TagDef>) -> bool {
    forall|i: int, j: int|
        0 <= i < j < tags.len() ==> !ascii_case_eq(tags[i].name@, tags[j].name@)
}

/// No two raw tag names are equivalent under ASCII case folding.
pub open spec fn raw_tag_names_unique(raw: Seq<RawTag>) -> bool {
    forall|i: int, j: int|
        0 <= i < j < raw.len() ==> !ascii_case_eq(raw[i].name@, raw[j].name@)
}

/// What it means for an element lookup of `q` to answer `r`: a hit is the
/// first tag whose name is equivalent to `q` under ASCII case folding.
pub open spec fn tag_resolves_to(tags: Seq<TagDef>, q: Seq<char>, r: Option<int>) -> bool {
    match r {
        Some(i) => {
            &&& 0 <= i < tags.len()
            &&& ascii_case_eq(tags[i].name@, q)
            &&& forall|j: int| 0 <= j < i ==> !ascii_case_eq(tags[j].name@, q)
        },
        None => forall|i: int| 0 <= i < tags.len() ==> !ascii_case_eq(tags[i].name@, q),
    }
}

/// Loads the raw element list of a namespace: assigns each entry the
/// identifier equal to its position, after rejecting tag names that collide
/// under ASCII case folding.
pub fn load_tags(web_ns: WebNS, raw: Vec<RawTag>) -> (r: Result<
    Vec<TagDef>,
    crate::table::BuildError,
>)
    ensures
        match r {
            Ok(tags) => {
                &&& raw_tag_names_unique(raw@)
                &&& tag_names_unique(tags@)
                &&& tags@.len() == raw@.len()
                &&& forall|i: int|
                    #![trigger tags@[i]]
                    0 <= i < raw@.len() ==> {
                        &&& tags@[i].web_ns == web_ns
                        &&& tags@[i].name@ == raw@[i].name@
                        &&& tags@[i].is_void == raw@[i].is_void
                    }
            },
            Err(e) => match e {
                crate::table::BuildError::DuplicateName(n) => {
                    &&& !raw_tag_names_unique(raw@)
                    &&& exists|i: int, j: int|
                        #![trigger ascii_case_eq(raw@[i].name@, raw@[j].name@)]
                        0 <= i < j < raw@.len() && ascii_case_eq(raw@[i].name@, raw@[j].name@)
                            && n@ == raw@[j].name@
                },
                _ => false,
            },
        },
{
    let n = raw.len();
    let mut j: usize = 0;
    while j < n
        invariant
            j <= n,
            n == raw@.len(),
            forall|a: int, b: int| 0 <= a < b < j ==> !ascii_case_eq(raw@[a].name@, raw@[b].name@),
        decreases n - j,
    {
        let mut i: usize = 0;
        while i < j
            invariant
                i <= j < n,
                n == raw@.len(),
                forall|a: int, b: int|
                    0 <= a < b < j ==> !ascii_case_eq(raw@[a].name@, raw@[b].name@),
                forall|a: int| 0 <= a < i ==> !ascii_case_eq(raw@[a].name@, raw@[j as int].name@),
            decreases j - i,
        {
            if unicase_ascii_eq(raw[i].name.as_str(), raw[j].name.as_str()) {
                proof {
                    assert(!raw_tag_names_unique(raw@));
                }
                return Err(crate::table::BuildError::DuplicateName(raw[j].name.clone()));
            }
            i += 1;
        }
        j += 1;
    }
    let mut tags: Vec<TagDef> = Vec::new();
    let mut k: usize = 0;
    while k < n
        invariant
            k <= n,
            n == raw@.len(),
            tags@.len() == k as int,
            forall|i: int|
                #![trigger tags@[i]]
                0 <= i < k ==> {
                    &&& tags@[i].web_ns == web_ns
                    &&& tags@[i].name@ == raw@[i].name@
                    &&& tags@[i].is_void == raw@[i].is_void
                },
        decreases n - k,
    {
        let d = TagDef { web_ns, name: raw[k].name.clone(), is_void: raw[k].is_void };
        tags.push(d);
        k += 1;
    }
    proof {
        assert forall|a: int, b: int| 0 <= a < b < tags@.len() implies !ascii_case_eq(
            tags@[a].name@,
            tags@[b].name@,
        ) by {
            assert(tags@[a].name@ == raw@[a].name@);
            assert(tags@[b].name@ == raw@[b].name@);
        }
    }
    Ok(tags)
}

/// Looks up an element by tag name, ASCII case-insensitively, answering its
/// identifier.
pub fn tag_by_name(tags: &Vec<TagDef>, name: &str) -> (r: Option<usize>)
    ensures
        match r {
            Some(i) => tag_resolves_to(tags@, name@, Some(i as int)),
            None => tag_resolves_to(tags@, name@, None::<int>),
        },
{
    let n = tags.len();
    let mut i: usize = 0;
    while i < n
        invariant
            i <= n,
            n == tags@.len(),
            forall|j: int| 0 <= j < i ==> !ascii_case_eq(tags@[j].name@, name@),
        decreases n - i,
    {
        if unicase_ascii_eq(tags[i].name.as_str(), name) {
            return Some(i);
        }
        i += 1;
    }
    None
}

} // verus!
