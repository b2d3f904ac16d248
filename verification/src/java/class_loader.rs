use vstd::prelude::*;

use crate::java::class::JavaClass;
use crate::java::class::JavaClassV;
use crate::java::package::{find_class_v, Package, PackageV};
use crate::java::{java_io, java_lang};

verus! {

/// The position of the last dot of a dotted name, if any.
pub open spec fn last_dot(s: Seq<char>) -> Option<int>
    decreases s.len(),
{
    if s.len() == 0 {
        None
    } else if s.last() == '.' {
        Some(s.len() - 1)
    } else {
        last_dot(s.drop_last())
    }
}

/// A found last dot lies inside the name, on a dot.
pub proof fn lemma_last_dot_bounds(s: Seq<char>)
    ensures
        last_dot(s) matches Some(i) ==> 0 <= i < s.len() && s[i] == '.',
    decreases s.len(),
{
    if s.len() > 0 && s.last() != '.' {
        lemma_last_dot_bounds(s.drop_last());
        if let Some(i) = last_dot(s.drop_last()) {
            assert(s.drop_last()[i] == s[i]);
        }
    }
}

/// The first package of that dotted name, if any.
pub open spec fn find_package_v(ps: Seq<PackageV>, name: Seq<char>) -> Option<PackageV>
    decreases ps.len(),
{
    if ps.len() == 0 {
        None
    } else if ps[0].name == name {
        Some(ps[0])
    } else {
        find_package_v(ps.drop_first(), name)
    }
}

/// How a name splits into package and class: at its last dot if it has one;
/// a bare name belongs to `java.lang` when that implicit package has it, and
/// to no package otherwise.
pub open spec fn spec_packagify(ps: Seq<PackageV>, name: Seq<char>) -> (Seq<char>, Seq<char>) {
    match last_dot(name) {
        Some(i) => (name.subrange(0, i), name.subrange(i + 1, name.len() as int)),
        None => match find_package_v(ps, "java.lang"@) {
            Some(p) => if find_class_v(p.classes, name) is Some {
                ("java.lang"@, name)
            } else {
                (""@, name)
            },
            None => (""@, name),
        },
    }
}

/// What looking a fully qualified (or implicitly `java.lang`) name up in the
/// catalog yields.
pub open spec fn spec_load(ps: Seq<PackageV>, name: Seq<char>) -> Option<JavaClassV> {
    let (package_name, class_name) = spec_packagify(ps, name);
    match find_package_v(ps, package_name) {
        None => None,
        Some(p) => find_class_v(p.classes, class_name),
    }
}

/// The catalog of built-in standard-library classes, keyed by package:
/// constructed once per compilation session and consulted by resolution.
#[derive(Debug)]
pub struct ClassLoader {
    pub packages: Vec<Package>,
}

impl View for ClassLoader {
    type V = Seq<PackageV>;

    open spec fn view(&self) -> Seq<PackageV> {
        self.packages@.map_values(|p: Package| p@)
    }
}

/// The character position of the last `.` of the name, if any.
#[verifier::loop_isolation(false)]
pub fn last_dot_index(name: &String) -> (r: Option<usize>)
    ensures
        match last_dot(name@) {
            None => r is None,
            Some(i) => r == Some(i as usize),
        },
{
    let n = name.as_str().unicode_len();
    let mut i = n;
    proof {
        assert(name@.subrange(0, n as int) =~= name@);
    }
    while i > 0
        invariant
            i <= n,
            n == name@.len(),
            last_dot(name@) == last_dot(name@.subrange(0, i as int)),
        decreases i,
    {
        let c = name.as_str().get_char(i - 1);
        proof {
            assert(name@.subrange(0, i as int).last() == name@[i - 1]);
            assert(name@.subrange(0, i as int).drop_last() =~= name@.subrange(0, i - 1));
        }
        if c == '.' {
            return Some(i - 1);
        }
        i = i - 1;
    }
    proof {
        assert(name@.subrange(0, 0) =~= Seq::<char>::empty());
    }
    None
}

/// Whether the name contains a dot.
pub fn contains_dot(name: &String) -> (r: bool)
    ensures
        r == (last_dot(name@) is Some),
{
    last_dot_index(name).is_some()
}

impl ClassLoader {
    /// The whole catalog, constructed eagerly: the implicit `java.lang`
    /// package and the `java.io` package.
    pub fn new() -> (l: ClassLoader)
        ensures
            l@ == seq![
                crate::java::java_lang::java_lang_package_v(),
                crate::java::java_io::java_io_package_v(),
            ],
    {
        let mut packages: Vec<Package> = Vec::new();
        packages.push(java_lang::build());
        packages.push(java_io::build());
        let l = ClassLoader { packages };
        proof {
            assert(l@ =~= seq![
                crate::java::java_lang::java_lang_package_v(),
                crate::java::java_io::java_io_package_v(),
            ]);
        }
        l
    }

    /// Splits a name into its package part and its class part.
    pub fn packagify(&self, name: &String) -> (r: (String, String))
        ensures
            (r.0@, r.1@) == spec_packagify(self@, name@),
    {
        proof {
            lemma_last_dot_bounds(name@);
        }
        match last_dot_index(name) {
            Some(i) => {
                let n = name.as_str().unicode_len();
                let package_name = String::from_str(name.as_str().substring_char(0, i));
                let class_name = String::from_str(name.as_str().substring_char(i + 1, n));
                (package_name, class_name)
            },
            None => {
                let java_lang_name = String::from_str("java.lang");
                match self.package_named(&java_lang_name) {
                    Some(p) => {
                        if p.class_named(name).is_some() {
                            (java_lang_name, name.clone())
                        } else {
                            proof {
                                reveal_strlit("");
                                assert(""@ =~= Seq::<char>::empty());
                            }
                            (String::new(), name.clone())
                        }
                    },
                    None => {
                        proof {
                            reveal_strlit("");
                            assert(""@ =~= Seq::<char>::empty());
                        }
                        (String::new(), name.clone())
                    },
                }
            },
        }
    }

    /// The package of that dotted name, if the catalog holds one.
    #[verifier::loop_isolation(false)]
    pub fn package_named(&self, package_name: &String) -> (r: Option<&Package>)
        ensures
            match find_package_v(self@, package_name@) {
                None => r is None,
                Some(pv) => r is Some && r.unwrap()@ == pv,
            },
    {
        let ghost ps = self@;
        let n = self.packages.len();
        proof {
            assert(ps.skip(0) =~= ps);
        }
        for i in 0..n
            invariant
                n == self.packages@.len(),
                ps == self@,
                find_package_v(ps, package_name@) == find_package_v(
                    ps.skip(i as int),
                    package_name@,
                ),
        {
            proof {
                assert(ps.skip(i as int)[0] == ps[i as int]);
                assert(ps[i as int] == self.packages@[i as int]@);
                assert(ps.skip(i as int).drop_first() =~= ps.skip(i + 1));
            }
            if self.packages[i].name == *package_name {
                return Some(&self.packages[i]);
            }
        }
        proof {
            assert(ps.skip(n as int) =~= Seq::<PackageV>::empty());
        }
        None
    }

    /// Looks a class up by fully qualified name, or by bare name for the
    /// implicit `java.lang` package.
    pub fn load(&self, fully_qualified_class_name: &String) -> (r: Option<&JavaClass>)
        ensures
            match spec_load(self@, fully_qualified_class_name@) {
                None => r is None,
                Some(cv) => r is Some && r.unwrap()@ == cv,
            },
    {
        let (package_name, class_name) = self.packagify(fully_qualified_class_name);
        match self.package_named(&package_name) {
            Some(p) => p.class_named(&class_name),
            None => None,
        }
    }
}

/// A catalog for one compilation session.
pub fn new_class_loader() -> (l: ClassLoader)
    ensures
        l@ == seq![
            crate::java::java_lang::java_lang_package_v(),
            crate::java::java_io::java_io_package_v(),
        ],
{
    ClassLoader::new()
}

} // verus!
