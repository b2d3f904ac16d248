use vstd::prelude::*;

use crate::java::class::{JavaClass, JavaClassV};
use crate::java::field::JavaFieldV;
use crate::java::method::{JavaMethod, JavaMethodV};
use crate::java::package::{Package, PackageV};

verus! {

/// The catalog's `java.io.PrintStream` class, with the one method the
/// compiler resolves calls against.
pub open spec fn print_stream_class_v() -> JavaClassV {
    JavaClassV {
        name: "PrintStream"@,
        path: "java.io.PrintStream"@,
        descriptor: "Ljava/io/PrintStream;"@,
        methods: seq![
            JavaMethodV {
                name: "println"@,
                return_type: "void"@,
                descriptor: "(Ljava/lang/String;)V"@,
            },
        ],
        fields: Seq::<JavaFieldV>::empty(),
    }
}

/// The `java.io` package of the catalog.
pub open spec fn java_io_package_v() -> PackageV {
    PackageV { name: "java.io"@, classes: seq![print_stream_class_v()] }
}

/// Whether `java.io` offers a class of this simple name.
pub fn contains_class(name: &String) -> (r: bool)
    ensures
        r == (name@ == "PrintStream"@),
{
    *name == String::from_str("PrintStream")
}

/// The named `java.io` class; only the print stream exists.
pub fn load_class(name: &String) -> (c: JavaClass)
    requires
        name@ == "PrintStream"@,
    ensures
        c@ == print_stream_class_v(),
{
    let mut methods: Vec<JavaMethod> = Vec::new();
    methods.push(
        JavaMethod::new(
            String::from_str("println"),
            String::from_str("void"),
            String::from_str("(Ljava/lang/String;)V"),
        ),
    );
    let c = JavaClass::new(
        String::from_str("PrintStream"),
        String::from_str("java.io.PrintStream"),
        String::from_str("Ljava/io/PrintStream;"),
        methods,
        Vec::new(),
    );
    proof {
        assert(c@ =~~= print_stream_class_v());
    }
    c
}

/// The `java.io` package, with the classes the compiler resolves against.
pub fn build() -> (p: Package)
    ensures
        p@ == java_io_package_v(),
{
    let mut package = Package::new(String::from_str("java.io"));
    let name = String::from_str("PrintStream");
    package.add_class(load_class(&name));
    proof {
        assert(package@ =~~= java_io_package_v());
    }
    package
}

} // verus!
