use java_compiler::test_support::java_api_harness::JavaApiHarness;

#[test]
fn should_load_system_class() {
    let harness = JavaApiHarness::new();

    let system_class = harness.load_class(&"java.lang.System".to_string()).unwrap();
    let sys_out = system_class.field_named(&"out".to_string()).unwrap();
    assert_eq!("out", sys_out.name());
    assert_eq!("java.io.PrintStream", sys_out.owner_class());
}

#[test]
fn bare_names_resolve_through_the_implicit_package() {
    let harness = JavaApiHarness::new();
    let system_class = harness.load_class(&"System".to_string()).unwrap();
    assert_eq!("java.lang.System", system_class.path());
    assert_eq!("Ljava/lang/System;", system_class.descriptor());
    assert_eq!("java/lang/System", system_class.full_name());
}

#[test]
fn print_stream_offers_println() {
    let harness = JavaApiHarness::new();
    let ps = harness.load_class(&"java.io.PrintStream".to_string()).unwrap();
    let println = ps.method_named(&"println".to_string()).unwrap();
    assert_eq!("println", println.name());
    assert_eq!("void", println.return_type());
    assert_eq!("(Ljava/lang/String;)V", println.descriptor());
}

#[test]
fn unknown_names_resolve_to_nothing() {
    let harness = JavaApiHarness::new();
    assert!(harness.load_class(&"Foo".to_string()).is_none());
    assert!(harness.load_class(&"java.lang.Unknown".to_string()).is_none());
    assert!(harness.load_class(&"java.util.List".to_string()).is_none());
}
