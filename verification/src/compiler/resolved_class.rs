use vstd::prelude::*;

use crate::java::class::slashed;
use crate::java::class_loader::{last_dot, lemma_last_dot_bounds};

verus! {

/// What a bare type name written in source resolves to, for descriptor
/// printing: a dotted name becomes its slashed form, and the known
/// `java.lang` types resolve under that package.
pub open spec fn spec_resolved_class(name: Seq<char>) -> Option<Seq<char>> {
    if last_dot(name) is Some {
        Some(slashed(name))
    } else if name == "String"@ {
        Some("java/lang/"@ + name)
    } else {
        None
    }
}

/// A class name in binary (slashed) form, or one that could not be
/// qualified.
#[derive(Debug)]
pub enum ResolvedClass {
    FullyQualified(String),
    Unqualified(String),
}

impl ResolvedClass {
    /// Qualifies a source type name, if it denotes a class: by its own dots,
    /// or through the implicit `java.lang` types.
    pub fn from_name(name: &String) -> (r: Option<ResolvedClass>)
        ensures
            match spec_resolved_class(name@) {
                None => r is None,
                Some(q) => {
                    &&& r is Some
                    &&& r.unwrap() matches ResolvedClass::FullyQualified(p) && p@ == q
                },
            },
    {
        proof {
            lemma_last_dot_bounds(name@);
        }
        if crate::java::class_loader::contains_dot(name) {
            return Some(ResolvedClass::FullyQualified(crate::java::class::slashed_of(name)));
        }
        if *name == String::from_str("String") {
            let qualified = String::from_str("java/lang/").concat(name.as_str());
            return Some(ResolvedClass::FullyQualified(qualified));
        }
        None
    }

    /// The qualified path this resolution carries.
    pub fn fully_qualified(&self) -> (r: &String)
        ensures
            match self {
                ResolvedClass::FullyQualified(p) => r == p,
                ResolvedClass::Unqualified(p) => r == p,
            },
    {
        match self {
            ResolvedClass::FullyQualified(path) => path,
            ResolvedClass::Unqualified(path) => path,
        }
    }
}

} // verus!
