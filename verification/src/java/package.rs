use vstd::prelude::*;

use crate::java::class::{JavaClass, JavaClassV};

verus! {

/// The mathematical shape of a package.
#[verifier::ext_equal]
pub struct PackageV {
    pub name: Seq<char>,
    pub classes: Seq<JavaClassV>,
}

/// The first class of that simple name, if any.
pub open spec fn find_class_v(cs: Seq<JavaClassV>, name: Seq<char>) -> Option<JavaClassV>
    decreases cs.len(),
{
    if cs.len() == 0 {
        None
    } else if cs[0].name == name {
        Some(cs[0])
    } else {
        find_class_v(cs.drop_first(), name)
    }
}

/// One package of the catalog: its dotted name and its classes.
#[derive(Debug)]
pub struct Package {
    pub name: String,
    pub classes: Vec<JavaClass>,
}

impl View for Package {
    type V = PackageV;

    open spec fn view(&self) -> PackageV {
        PackageV { name: self.name@, classes: self.classes@.map_values(|c: JavaClass| c@) }
    }
}

impl Package {
    pub fn new(name: String) -> (p: Package)
        ensures
            p@.name == name@,
            p@.classes == Seq::<JavaClassV>::empty(),
    {
        let p = Package { name, classes: Vec::new() };
        proof {
            assert(p.classes@.map_values(|c: JavaClass| c@) =~= Seq::<JavaClassV>::empty());
        }
        p
    }

    pub fn name(&self) -> (r: &String)
        ensures
            r@ == self@.name,
    {
        &self.name
    }

    pub fn add_class(&mut self, class: JavaClass)
        ensures
            final(self)@.name == old(self)@.name,
            final(self)@.classes == old(self)@.classes.push(class@),
    {
        let ghost pre = self.classes@;
        self.classes.push(class);
        proof {
            assert(self.classes@.map_values(|c: JavaClass| c@) =~= pre.map_values(
                |c: JavaClass| c@,
            ).push(self.classes@.last()@));
        }
    }

    /// The class of that simple name, if the package holds one.
    #[verifier::loop_isolation(false)]
    pub fn class_named(&self, class_name: &String) -> (r: Option<&JavaClass>)
        ensures
            match find_class_v(self@.classes, class_name@) {
                None => r is None,
                Some(cv) => r is Some && r.unwrap()@ == cv,
            },
    {
        let ghost cs = self@.classes;
        let n = self.classes.len();
        proof {
            assert(cs.skip(0) =~= cs);
        }
        for i in 0..n
            invariant
                n == self.classes@.len(),
                cs == self@.classes,
                find_class_v(cs, class_name@) == find_class_v(cs.skip(i as int), class_name@),
        {
            proof {
                assert(cs.skip(i as int)[0] == cs[i as int]);
                assert(cs[i as int] == self.classes@[i as int]@);
                assert(cs.skip(i as int).drop_first() =~= cs.skip(i + 1));
            }
            if self.classes[i].name == *class_name {
                return Some(&self.classes[i]);
            }
        }
        proof {
            assert(cs.skip(n as int) =~= Seq::<JavaClassV>::empty());
        }
        None
    }
}

} // verus!
