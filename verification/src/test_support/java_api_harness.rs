use vstd::prelude::*;

use crate::java::class::JavaClass;
use crate::java::class_loader::{new_class_loader, spec_load, ClassLoader};

verus! {

/// A thin handle on the built-in class catalog, for exercising its lookup
/// surface directly.
pub struct JavaApiHarness {
    pub packages: ClassLoader,
}

impl JavaApiHarness {
    pub fn new() -> (h: JavaApiHarness)
        ensures
            h.packages@ == seq![
                crate::java::java_lang::java_lang_package_v(),
                crate::java::java_io::java_io_package_v(),
            ],
    {
        JavaApiHarness { packages: new_class_loader() }
    }

    /// Looks a class up by its fully qualified name.
    pub fn load_class(&self, fq_class_name: &String) -> (r: Option<&JavaClass>)
        ensures
            match spec_load(self.packages@, fq_class_name@) {
                None => r is None,
                Some(cv) => r is Some && r.unwrap()@ == cv,
            },
    {
        self.packages.load(fq_class_name)
    }
}

} // verus!
