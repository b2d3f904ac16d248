use java_compiler::ast::class::{AstClass, AstMethod, AstParameter, AstScope};
use java_compiler::ast::expression::Expression;
use java_compiler::ast::statement::Statement;
use java_compiler::compiler::compile;
use java_compiler::compiler::result::CompileError;
use java_compiler::compiler::instructions;
use java_compiler::compiler::resolver::Resolver;
use java_compiler::compiler::state_stack::StateStack;
use java_compiler::compiler::symbol_table::{DataType, MethodSymbol, SymbolTable};
use java_compiler::compiler::CompilationContext;
use ristretto_classfile::attributes::{Attribute, Instruction};

fn main_method(statements: Vec<Statement>) -> AstMethod {
    AstMethod::new(
        "main".to_string(),
        AstScope::Public,
        false,
        true,
        "void".to_string(),
        false,
        vec![AstParameter::new("args".to_string(), "String".to_string(), true)],
        statements,
    )
}

fn class_with(name: &str, methods: Vec<AstMethod>) -> AstClass {
    AstClass::new(name.to_string(), AstScope::Public, false, false, methods)
}

fn println_statement(argument: Expression) -> Statement {
    Statement::new_expression_statement(Expression::new_object_expression(
        Expression::new_static_identifier("System".to_string()),
        Expression::new_object_expression(
            Expression::new_static_identifier("out".to_string()),
            Expression::new_call("println".to_string(), vec![argument]),
        ),
    ))
}

fn code_of(class_file: &ristretto_classfile::ClassFile, method: usize) -> (Vec<Instruction>, u16, u16) {
    match &class_file.methods[method].attributes[0] {
        Attribute::Code { code, max_stack, max_locals, .. } => {
            (code.clone(), *max_stack, *max_locals)
        }
        other => panic!("expected a code attribute, got {:?}", other),
    }
}

#[test]
fn hello_world_compiles_to_the_expected_code() {
    let class = class_with(
        "Simple",
        vec![main_method(vec![println_statement(Expression::new_string_literal(
            "Hello World".to_string(),
        ))])],
    );

    let class_file = compile(&class).unwrap();

    assert_eq!(class_file.this_class, 2);
    assert_eq!(class_file.super_class, 4);
    assert_eq!(class_file.constant_pool.try_get_class(2).unwrap(), "Simple");
    assert_eq!(class_file.constant_pool.try_get_class(4).unwrap(), "java/lang/Object");

    let (code, max_stack, max_locals) = code_of(&class_file, 0);
    assert_eq!(
        code,
        vec![
            Instruction::Getstatic(13),
            Instruction::Ldc_w(19),
            Instruction::Invokevirtual(17),
            Instruction::Return,
        ]
    );
    assert_eq!(max_stack, 2);
    assert_eq!(max_locals, 1);

    // the static field read resolves to System.out of type PrintStream
    let (field_class, field_nat) = class_file.constant_pool.try_get_field_ref(13).unwrap();
    assert_eq!(class_file.constant_pool.try_get_class(*field_class).unwrap(), "java/lang/System");
    let (nat_name, nat_desc) = class_file.constant_pool.try_get_name_and_type(*field_nat).unwrap();
    assert_eq!(class_file.constant_pool.try_get_utf8(*nat_name).unwrap(), "out");
    assert_eq!(
        class_file.constant_pool.try_get_utf8(*nat_desc).unwrap(),
        "Ljava/io/PrintStream;"
    );

    // the call resolves to println on PrintStream
    let (method_class, method_nat) = class_file.constant_pool.try_get_method_ref(17).unwrap();
    assert_eq!(
        class_file.constant_pool.try_get_class(*method_class).unwrap(),
        "java/io/PrintStream"
    );
    let (m_name, m_desc) = class_file.constant_pool.try_get_name_and_type(*method_nat).unwrap();
    assert_eq!(class_file.constant_pool.try_get_utf8(*m_name).unwrap(), "println");
    assert_eq!(
        class_file.constant_pool.try_get_utf8(*m_desc).unwrap(),
        "(Ljava/lang/String;)V"
    );

    // the printed literal
    assert_eq!(class_file.constant_pool.try_get_string(19).unwrap(), "Hello World");

    // the method's own names
    assert_eq!(
        class_file.constant_pool.try_get_utf8(class_file.methods[0].name_index).unwrap(),
        "main"
    );
    assert_eq!(
        class_file
            .constant_pool
            .try_get_utf8(class_file.methods[0].descriptor_index)
            .unwrap(),
        "([Ljava/lang/String;)V"
    );
}

#[test]
fn string_variable_assignment_compiles_to_the_expected_code() {
    let class = class_with(
        "StringVariableAssignment",
        vec![main_method(vec![
            Statement::new_var_assignment(
                "message".to_string(),
                Some("String".to_string()),
                false,
                Some(Expression::new_string_literal("a string variable".to_string())),
            ),
            println_statement(Expression::new_static_identifier("message".to_string())),
        ])],
    );

    let class_file = compile(&class).unwrap();
    let (code, _max_stack, max_locals) = code_of(&class_file, 0);

    // the store lands right after the literal load, the print reads the
    // field, loads the variable's slot and invokes
    assert_eq!(
        code,
        vec![
            Instruction::Ldc_w(7),
            Instruction::Astore(1),
            Instruction::Getstatic(15),
            Instruction::Aload(1),
            Instruction::Invokevirtual(19),
            Instruction::Return,
        ]
    );
    assert_eq!(max_locals, 2);
    assert_eq!(class_file.constant_pool.try_get_string(7).unwrap(), "a string variable");
}

#[test]
fn undeclared_class_fails_without_touching_the_pool() {
    let statement = Statement::new_expression_statement(Expression::new_object_expression(
        Expression::new_static_identifier("Foo".to_string()),
        Expression::new_call("bar".to_string(), vec![]),
    ));

    let mut context = CompilationContext {
        resolver: Resolver,
        constant_pool: java_compiler::compiler::pool::new_constant_pool(),
        class_loader: java_compiler::java::class_loader::new_class_loader(),
        this_class: None,
        scoped_object: None,
        stack: StateStack::new(),
        symbol_table: SymbolTable::new(),
    };
    context.register_this_class("Simple".to_string(), 2);

    let entries_before = context.constant_pool.len();
    let mut emitted: Vec<instructions::JvmInstruction> = Vec::new();
    let r = instructions::from(&statement, &mut context, &mut emitted);

    assert!(matches!(r, Err(CompileError::ResolutionFailure)));
    assert_eq!(context.constant_pool.len(), entries_before);
    assert_eq!(emitted.len(), 0);

    // the same failure through the whole pipeline
    let class = class_with(
        "Simple",
        vec![main_method(vec![Statement::new_expression_statement(
            Expression::new_object_expression(
                Expression::new_static_identifier("Foo".to_string()),
                Expression::new_call("bar".to_string(), vec![]),
            ),
        )])],
    );
    assert!(matches!(compile(&class), Err(CompileError::ResolutionFailure)));
}

#[test]
fn duplicate_method_names_are_rejected() {
    let class = class_with(
        "Simple",
        vec![main_method(vec![]), main_method(vec![])],
    );
    match compile(&class) {
        Err(CompileError::DuplicateMethod { method }) => assert_eq!(method, "main"),
        other => panic!("expected a duplicate-method failure, got {:?}", other.map(|_| ())),
    }
}

#[test]
fn unknown_parameter_type_is_reported() {
    let mut method = main_method(vec![]);
    method.parameters = vec![AstParameter::new("x".to_string(), "Foo".to_string(), false)];
    let class = class_with("Simple", vec![method]);
    match compile(&class) {
        Err(CompileError::UnknownClass(name)) => assert_eq!(name, "Foo"),
        other => panic!("expected an unknown-class failure, got {:?}", other.map(|_| ())),
    }
}

#[test]
fn unknown_method_on_scoped_class_is_reported() {
    let class = class_with(
        "Simple",
        vec![main_method(vec![Statement::new_expression_statement(
            Expression::new_object_expression(
                Expression::new_static_identifier("System".to_string()),
                Expression::new_call("nope".to_string(), vec![]),
            ),
        )])],
    );
    match compile(&class) {
        Err(CompileError::UnknownMethod { class_name, method }) => {
            assert_eq!(class_name, "java.lang.System");
            assert_eq!(method, "nope");
        }
        other => panic!("expected an unknown-method failure, got {:?}", other.map(|_| ())),
    }
}

#[test]
fn unknown_field_on_scoped_class_is_reported() {
    let class = class_with(
        "Simple",
        vec![main_method(vec![Statement::new_expression_statement(
            Expression::new_object_expression(
                Expression::new_static_identifier("System".to_string()),
                Expression::new_static_identifier("missing".to_string()),
            ),
        )])],
    );
    match compile(&class) {
        Err(CompileError::UnknownField { class_name, field }) => {
            assert_eq!(class_name, "java.lang.System");
            assert_eq!(field, "missing");
        }
        other => panic!("expected an unknown-field failure, got {:?}", other.map(|_| ())),
    }
}

#[test]
fn uninitialised_variable_is_reported() {
    let class = class_with(
        "Simple",
        vec![main_method(vec![Statement::new_var_assignment(
            "x".to_string(),
            Some("String".to_string()),
            false,
            None,
        )])],
    );
    match compile(&class) {
        Err(CompileError::UninitialisedVariable { name }) => assert_eq!(name, "x"),
        other => panic!("expected an uninitialised-variable failure, got {:?}", other.map(|_| ())),
    }
}

#[test]
fn too_many_variables_are_reported() {
    let mut statements = Vec::new();
    for i in 0..256 {
        statements.push(Statement::new_var_assignment(
            format!("v{}", i),
            Some("String".to_string()),
            false,
            Some(Expression::new_string_literal("x".to_string())),
        ));
    }
    let class = class_with("Simple", vec![main_method(statements)]);
    assert!(matches!(compile(&class), Err(CompileError::TooManyVariables)));
}

#[test]
fn local_method_invocation_emits_a_static_call() {
    // main calls the class's own helper through the symbol table
    let helper = AstMethod::new(
        "helper".to_string(),
        AstScope::Public,
        false,
        true,
        "void".to_string(),
        false,
        vec![],
        vec![],
    );
    let class = class_with(
        "Simple",
        vec![
            main_method(vec![Statement::new_expression_statement(Expression::new_call(
                "helper".to_string(),
                vec![],
            ))]),
            helper,
        ],
    );

    let mut context = CompilationContext {
        resolver: Resolver,
        constant_pool: java_compiler::compiler::pool::new_constant_pool(),
        class_loader: java_compiler::java::class_loader::new_class_loader(),
        this_class: None,
        scoped_object: None,
        stack: StateStack::new(),
        symbol_table: SymbolTable::new(),
    };
    java_compiler::compiler::build_symbol_table(&class, &mut context).unwrap();
    context.register_this_class("Simple".to_string(), 2);

    let methods = java_compiler::compiler::class_file_builder::map_methods(&class, &mut context)
        .unwrap();
    assert_eq!(methods.len(), 2);
    assert_eq!(
        methods[0].instructions,
        vec![instructions::JvmInstruction::Invokestatic(5)]
    );
    assert_eq!(methods[0].access_flags, 9);
    assert_eq!(methods[0].max_locals, 1);
    assert_eq!(methods[1].instructions.len(), 0);

    // the static call resolves to the class's own helper with its
    // symbol-table descriptor
    let (ref_class, ref_nat) = context.constant_pool.try_get_method_ref(5).unwrap();
    assert_eq!(*ref_class, 2);
    let (nat_name, nat_desc) = context.constant_pool.try_get_name_and_type(*ref_nat).unwrap();
    assert_eq!(context.constant_pool.try_get_utf8(*nat_name).unwrap(), "helper");
    assert_eq!(context.constant_pool.try_get_utf8(*nat_desc).unwrap(), "()V");
}

#[test]
fn method_descriptors_print_exactly() {
    let symbol = MethodSymbol {
        return_type: DataType::Void,
        parameters: vec![
            DataType::Object("java.lang.String".to_string()),
            DataType::Array(Box::new(DataType::IntPrimitive)),
            DataType::BooleanPrimitive,
        ],
    };
    assert_eq!(symbol.descriptor(), "(Ljava/lang/String;[IZ)V");
}

#[test]
fn scope_allocator_assigns_stable_slots() {
    let mut stack = StateStack::new();
    assert_eq!(stack.push(&"a".to_string()), 1);
    assert_eq!(stack.push(&"b".to_string()), 2);
    assert_eq!(stack.get(&"a".to_string()), 1);
    assert_eq!(stack.get(&"b".to_string()), 2);
    assert!(stack.contains(&"a".to_string()));
    assert!(!stack.contains(&"c".to_string()));

    stack.new_layer();
    assert_eq!(stack.push(&"c".to_string()), 1);
    assert_eq!(stack.get(&"c".to_string()), 1);
    // outer declarations stay visible, at their own slots
    assert_eq!(stack.get(&"a".to_string()), 1);
    assert_eq!(stack.count(), 1);

    stack.drop_layer();
    assert!(!stack.contains(&"c".to_string()));
    assert_eq!(stack.count(), 2);
}

#[test]
fn fixed_demonstration_class_is_accepted() {
    let (pool, this_class, super_class, method) =
        java_compiler::spike::hello_world_class_description("Spike").unwrap();
    assert_eq!(this_class, 2);
    assert_eq!(super_class, 4);
    assert_eq!(pool.try_get_class(2).unwrap(), "Spike");
    assert_eq!(pool.try_get_string(20).unwrap(), "Hello World");
    assert_eq!(method.access_flags, 9);
    assert_eq!(
        method.instructions,
        vec![
            java_compiler::compiler::instructions::JvmInstruction::Getstatic(14),
            java_compiler::compiler::instructions::JvmInstruction::LdcW(20),
            java_compiler::compiler::instructions::JvmInstruction::Invokevirtual(18),
            java_compiler::compiler::instructions::JvmInstruction::Return,
        ]
    );

    assert!(java_compiler::spike::do_compile_and_verify("Spike").is_ok());
}

#[test]
fn compiled_class_serialises_to_loadable_bytes() {
    let class = class_with(
        "Simple",
        vec![main_method(vec![println_statement(Expression::new_string_literal(
            "Hello World".to_string(),
        ))])],
    );
    let class_file = compile(&class).unwrap();
    let mut buffer = Vec::new();
    class_file.to_bytes(&mut buffer).unwrap();
    // a class file starts with the magic number
    assert_eq!(&buffer[0..4], &[0xCA, 0xFE, 0xBA, 0xBE]);
}
