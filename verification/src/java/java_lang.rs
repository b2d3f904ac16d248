use vstd::prelude::*;

use crate::java::class::{JavaClass, JavaClassV};
use crate::java::field::{JavaField, JavaFieldV};
use crate::java::method::JavaMethodV;
use crate::java::package::{Package, PackageV};

verus! {

/// The catalog's `java.lang.System` class: no callable methods, and the two
/// console print streams as static fields.
pub open spec fn system_class_v() -> JavaClassV {
    JavaClassV {
        name: "System"@,
        path: "java.lang.System"@,
        descriptor: "Ljava/lang/System;"@,
        methods: Seq::<JavaMethodV>::empty(),
        fields: seq![
            JavaFieldV { name: "out"@, owner_class: "java.io.PrintStream"@ },
            JavaFieldV { name: "err"@, owner_class: "java.io.PrintStream"@ },
        ],
    }
}

/// The catalog's `java.lang.String` class: only its identity matters here.
pub open spec fn string_class_v() -> JavaClassV {
    JavaClassV {
        name: "String"@,
        path: "java.lang.String"@,
        descriptor: "Ljava/lang/String;"@,
        methods: Seq::<JavaMethodV>::empty(),
        fields: Seq::<JavaFieldV>::empty(),
    }
}

/// The implicit package every class may refer to without qualification.
pub open spec fn java_lang_package_v() -> PackageV {
    PackageV { name: "java.lang"@, classes: seq![system_class_v(), string_class_v()] }
}

pub fn load_system() -> (c: JavaClass)
    ensures
        c@ == system_class_v(),
{
    let mut fields: Vec<JavaField> = Vec::new();
    fields.push(
        JavaField::new(String::from_str("out"), String::from_str("java.io.PrintStream")),
    );
    fields.push(
        JavaField::new(String::from_str("err"), String::from_str("java.io.PrintStream")),
    );
    let c = JavaClass::new(
        String::from_str("System"),
        String::from_str("java.lang.System"),
        String::from_str("Ljava/lang/System;"),
        Vec::new(),
        fields,
    );
    proof {
        assert(c@ =~~= system_class_v());
    }
    c
}

pub fn load_string() -> (c: JavaClass)
    ensures
        c@ == string_class_v(),
{
    let c = JavaClass::new(
        String::from_str("String"),
        String::from_str("java.lang.String"),
        String::from_str("Ljava/lang/String;"),
        Vec::new(),
        Vec::new(),
    );
    proof {
        assert(c@ =~~= string_class_v());
    }
    c
}

/// The implicit `java.lang` package, with the classes the compiler resolves
/// against.
pub fn build() -> (p: Package)
    ensures
        p@ == java_lang_package_v(),
{
    let mut package = Package::new(String::from_str("java.lang"));
    package.add_class(load_system());
    package.add_class(load_string());
    proof {
        assert(package@ =~~= java_lang_package_v());
    }
    package
}

} // verus!
