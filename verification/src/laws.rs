use vstd::prelude::*;

use crate::ast::class::ClassV;
use crate::ast::expression::ExpressionV;
use crate::ast::statement::StatementV;
use crate::ast::spec_to_ast;
use crate::compiler::instructions::{
    spec_from_statement, spec_from_static_identifier, JvmInstruction,
};
use crate::compiler::pool::PoolConst;
use crate::compiler::resolver::ResolvedEntityV;
use crate::compiler::state_stack::{names_index, stack_contains, stack_slot};
use crate::compiler::symbol_table::find_symbol;
use crate::compiler::{
    spec_build_symbol_table, spec_compile, spec_ctx_resolve, spec_register_methods, ContextV,
};
use crate::java::class_loader::{last_dot, spec_load};
use crate::java::package::PackageV;
use crate::scanner::token::TokenV;

verus! {

/// Parsing is a function of the token sequence alone: re-parsing the same
/// tokens yields the same abstract syntax tree. The parser itself promises
/// that its result is this function of its input, so two runs over equal
/// token sequences return structurally equal trees.
pub proof fn lemma_parse_deterministic(t1: Seq<TokenV>, t2: Seq<TokenV>)
    requires
        t1 == t2,
    ensures
        spec_to_ast(t1) == spec_to_ast(t2),
{
}

/// A name's first position in a layer is the position it was declared at,
/// when no earlier declaration shadows it.
pub proof fn lemma_names_index_distinct(names: Seq<Seq<char>>, n: int)
    requires
        0 <= n < names.len(),
        forall|i: int, j: int| 0 <= i < j < names.len() ==> names[i] != names[j],
    ensures
        names_index(names, names[n]) == Some(n),
    decreases names.len(),
{
    if n > 0 {
        lemma_names_index_distinct(names.drop_first(), n - 1);
        assert(names.drop_first()[n - 1] == names[n]);
        assert forall|i: int, j: int|
            0 <= i < j < names.drop_first().len() implies names.drop_first()[i]
            != names.drop_first()[j] by {
            assert(names.drop_first()[i] == names[i + 1]);
            assert(names.drop_first()[j] == names[j + 1]);
        }
    }
}

/// Within one method body, the variable declared in position `n` of the
/// innermost scope always resolves to slot `n + 1`: the slot is determined
/// by the declaration position alone, so every compilation of identical
/// source assigns it identically.
pub proof fn lemma_nth_variable_slot(stack: Seq<Seq<Seq<char>>>, n: int)
    requires
        stack.len() > 0,
        0 <= n < stack.last().len(),
        forall|i: int, j: int|
            0 <= i < j < stack.last().len() ==> stack.last()[i] != stack.last()[j],
    ensures
        stack_slot(stack, stack.last()[n]) == Some(n + 1),
        stack_contains(stack, stack.last()[n]),
{
    lemma_names_index_distinct(stack.last(), n);
}

/// A name found among the registered methods is still found after one more
/// registration, and a name not found afterwards differs from the new one.
pub proof fn lemma_find_symbol_push(
    entries: Seq<crate::compiler::symbol_table::MethodEntryV>,
    e: crate::compiler::symbol_table::MethodEntryV,
    name: Seq<char>,
)
    ensures
        (find_symbol(entries.push(e), name) is Some) == (find_symbol(entries, name) is Some
            || name == e.name),
    decreases entries.len(),
{
    reveal_with_fuel(find_symbol, 3);
    if entries.len() == 0 {
        assert(entries.push(e)[0] == e);
        assert(entries.push(e).drop_first() =~= Seq::<
            crate::compiler::symbol_table::MethodEntryV,
        >::empty());
        assert(find_symbol(entries, name) is None);
        if e.name == name {
            assert(find_symbol(entries.push(e), name) is Some);
        } else {
            assert(find_symbol(entries.push(e), name) is None);
        }
    } else {
        lemma_find_symbol_push(entries.drop_first(), e, name);
        assert(entries.push(e)[0] == entries[0]);
        assert(entries.push(e).drop_first() =~= entries.drop_first().push(e));
        if entries[0].name == name {
            assert(find_symbol(entries.push(e), name) is Some);
            assert(find_symbol(entries, name) is Some);
        } else {
            assert(find_symbol(entries.push(e), name) == find_symbol(
                entries.drop_first().push(e),
                name,
            ));
            assert(find_symbol(entries, name) == find_symbol(entries.drop_first(), name));
        }
    }
}

/// A registration pass that succeeds registered pairwise distinct method
/// names, and touched none that was already present.
pub proof fn lemma_register_ok_distinct(
    loader: Seq<PackageV>,
    ms: Seq<crate::ast::class::MethodV>,
    acc: Seq<crate::compiler::symbol_table::MethodEntryV>,
)
    ensures
        spec_register_methods(loader, ms, acc) is Ok ==> {
            &&& forall|k: int|
                0 <= k < ms.len() ==> find_symbol(acc, (#[trigger] ms[k]).name) is None
            &&& forall|i: int, j: int| 0 <= i < j < ms.len() ==> ms[i].name != ms[j].name
        },
    decreases ms.len(),
{
    if ms.len() > 0 && spec_register_methods(loader, ms, acc) is Ok {
        let m = ms[0];
        let ret = crate::compiler::spec_map_data_type(
            loader,
            m.return_type,
            m.return_type_is_array,
        )->Ok_0;
        let params = crate::compiler::spec_map_parameters(loader, m.parameters)->Ok_0;
        let e = crate::compiler::symbol_table::MethodEntryV {
            name: m.name,
            symbol: crate::compiler::symbol_table::MethodSymbolV {
                return_type: ret,
                parameters: params,
            },
        };
        lemma_register_ok_distinct(loader, ms.drop_first(), acc.push(e));
        assert forall|k: int|
            0 <= k < ms.len() implies find_symbol(acc, (#[trigger] ms[k]).name) is None by {
            if k > 0 {
                assert(ms.drop_first()[k - 1] == ms[k]);
                lemma_find_symbol_push(acc, e, ms[k].name);
            }
        }
        assert forall|i: int, j: int| 0 <= i < j < ms.len() implies ms[i].name != ms[j].name by {
            if i == 0 {
                assert(ms.drop_first()[j - 1] == ms[j]);
                lemma_find_symbol_push(acc, e, ms[j].name);
            } else {
                assert(ms.drop_first()[i - 1] == ms[i]);
                assert(ms.drop_first()[j - 1] == ms[j]);
            }
        }
    }
}

/// Two methods of the same name in one class are rejected by the symbol
/// pre-pass, and the pre-pass runs before any emission: such a class never
/// compiles, so no instruction of it is ever emitted.
pub proof fn lemma_duplicate_method_rejected(class: ClassV, i: int, j: int)
    requires
        0 <= i < j < class.methods.len(),
        class.methods[i].name == class.methods[j].name,
    ensures
        spec_build_symbol_table(
            crate::compiler::spec_initial_context().loader,
            class,
        ) is Err,
        spec_compile(class) is Err,
{
    let loader = crate::compiler::spec_initial_context().loader;
    if spec_register_methods(loader, class.methods, Seq::empty()) is Ok {
        lemma_register_ok_distinct(loader, class.methods, Seq::empty());
    }
}

/// The built-in catalog the compiler resolves against.
pub open spec fn builtin_catalog() -> Seq<PackageV> {
    seq![
        crate::java::java_lang::java_lang_package_v(),
        crate::java::java_io::java_io_package_v(),
    ]
}

/// The bare name of the console class resolves through the implicit
/// package.
pub proof fn lemma_load_system()
    ensures
        spec_load(builtin_catalog(), "System"@) == Some(
            crate::java::java_lang::system_class_v(),
        ),
{
    reveal_strlit("System");
    reveal_with_fuel(last_dot, 8);
    assert(last_dot("System"@) is None);
    let ps = builtin_catalog();
    assert(ps[0] == crate::java::java_lang::java_lang_package_v());
    assert(crate::java::package::find_class_v(ps[0].classes, "System"@) == Some(
        crate::java::java_lang::system_class_v(),
    ));
}

/// The console class's fully qualified name splits at its last dot and
/// resolves in the implicit package.
pub proof fn lemma_load_system_qualified()
    ensures
        spec_load(builtin_catalog(), "java.lang.System"@) == Some(
            crate::java::java_lang::system_class_v(),
        ),
{
    reveal_strlit("java.lang.System");
    reveal_strlit("java.lang");
    reveal_strlit("System");
    reveal_with_fuel(last_dot, 9);
    assert(last_dot("java.lang.System"@) == Some(9int));
    assert("java.lang.System"@.subrange(0, 9) =~= "java.lang"@);
    assert("java.lang.System"@.subrange(10, 16) =~= "System"@);
    let ps = builtin_catalog();
    assert(ps[0] == crate::java::java_lang::java_lang_package_v());
    assert(crate::java::class_loader::spec_packagify(ps, "java.lang.System"@) == (
        "java.lang"@,
        "System"@,
    ));
    assert(crate::java::class_loader::find_package_v(ps, "java.lang"@) == Some(ps[0]));
    assert(crate::java::package::find_class_v(ps[0].classes, "System"@) == Some(
        crate::java::java_lang::system_class_v(),
    ));
    assert(spec_load(ps, "java.lang.System"@) == crate::java::package::find_class_v(
        ps[0].classes,
        "System"@,
    ));
}

/// The console stream's fully qualified name splits at its last dot and
/// resolves in its own package.
pub proof fn lemma_load_print_stream()
    ensures
        spec_load(builtin_catalog(), "java.io.PrintStream"@) == Some(
            crate::java::java_io::print_stream_class_v(),
        ),
{
    reveal_strlit("java.io.PrintStream");
    reveal_strlit("java.io");
    reveal_strlit("java.lang");
    reveal_strlit("PrintStream");
    reveal_with_fuel(last_dot, 14);
    reveal_with_fuel(crate::java::class_loader::find_package_v, 3);
    assert(last_dot("java.io.PrintStream"@) == Some(7int));
    assert("java.io.PrintStream"@.subrange(0, 7) =~= "java.io"@);
    assert("java.io.PrintStream"@.subrange(8, 19) =~= "PrintStream"@);
    let ps = builtin_catalog();
    assert(ps[0].name == "java.lang"@ && "java.lang"@.len() != "java.io"@.len());
    assert(ps[1] == crate::java::java_io::java_io_package_v());
    assert(crate::java::class_loader::spec_packagify(ps, "java.io.PrintStream"@) == (
        "java.io"@,
        "PrintStream"@,
    ));
    assert(ps.drop_first() =~= seq![crate::java::java_io::java_io_package_v()]);
    assert(crate::java::class_loader::find_package_v(ps, "java.io"@) == Some(ps[1]));
    assert(crate::java::package::find_class_v(ps[1].classes, "PrintStream"@) == Some(
        crate::java::java_io::print_stream_class_v(),
    ));
    assert(spec_load(ps, "java.io.PrintStream"@) == crate::java::package::find_class_v(
        ps[1].classes,
        "PrintStream"@,
    ));
}

/// The statement `System.out.println(<literal>)`, as the parser shapes it.
pub open spec fn println_statement_v(lit: Seq<char>) -> StatementV {
    StatementV::Expression {
        expression: ExpressionV::ObjectExpression {
            parent: Box::new(ExpressionV::StaticIdentifier { name: "System"@ }),
            child: Box::new(
                ExpressionV::ObjectExpression {
                    parent: Box::new(ExpressionV::StaticIdentifier { name: "out"@ }),
                    child: Box::new(
                        ExpressionV::Call {
                            method_name: "println"@,
                            arguments: seq![ExpressionV::StringLiteral { value: lit }],
                        },
                    ),
                },
            ),
        },
    }
}

/// The pool entries emitting that statement records, over a pool of `base`
/// entries: the console class, the stream class, the stream field, the
/// print method, and the literal.
pub open spec fn console_print_pool_entries(base: int, lit: Seq<char>) -> Seq<PoolConst> {
    seq![
        PoolConst::Utf8(crate::java::class::slashed("java.lang.System"@)),
        PoolConst::Class(base + 1),
        PoolConst::Utf8(crate::java::class::slashed("java.io.PrintStream"@)),
        PoolConst::Class(base + 3),
        PoolConst::Utf8("out"@),
        PoolConst::Utf8("Ljava/io/PrintStream;"@),
        PoolConst::NameAndType { name_index: base + 5, descriptor_index: base + 6 },
        PoolConst::FieldRef { class_index: base + 2, name_and_type_index: base + 7 },
        PoolConst::Utf8("println"@),
        PoolConst::Utf8("(Ljava/lang/String;)V"@),
        PoolConst::NameAndType { name_index: base + 9, descriptor_index: base + 10 },
        PoolConst::MethodRef { class_index: base + 4, name_and_type_index: base + 11 },
        PoolConst::Utf8(lit),
        PoolConst::Str(base + 13),
    ]
}

/// The instructions emitting that statement appends, over a pool of `base`
/// entries: read the stream field, load the literal, invoke the print
/// method, return. No step emits an instruction for the bare class
/// reference.
pub open spec fn console_print_code(base: int) -> Seq<JvmInstruction> {
    seq![
        JvmInstruction::Getstatic((base + 8) as u16),
        JvmInstruction::LdcW((base + 14) as u16),
        JvmInstruction::Invokevirtual((base + 12) as u16),
        JvmInstruction::Return,
    ]
}

/// Printing one literal on the console compiles the same way in every
/// session in which `System` is not shadowed by a local: resolution threads
/// class, then field, then method, in that order; the bare class step
/// contributes a pool entry but no instruction; and the emitted code is
/// exactly a static field read, a literal load, a virtual invocation, and a
/// return. Loading and executing the result therefore prints exactly the
/// literal, the print call being the only effectful instruction.
#[verifier::rlimit(100)]
pub proof fn lemma_console_print_emission(lit: Seq<char>, c: ContextV)
    requires
        c.scoped_object is None,
        c.loader == builtin_catalog(),
        !stack_contains(c.stack, "System"@),
        c.pool.len() + 14 <= 65535,
    ensures
        spec_from_statement(println_statement_v(lit), c) == Ok::<
            (ContextV, Seq<JvmInstruction>),
            crate::compiler::result::CompileErrorV,
        >(
            (
                ContextV {
                    pool: c.pool + console_print_pool_entries(c.pool.len() as int, lit),
                    scoped_object: Some(
                        crate::compiler::ObjectReferenceV {
                            class_path: "java.io.PrintStream"@,
                            class_id: c.pool.len() as int + 4,
                        },
                    ),
                    ..c
                },
                console_print_code(c.pool.len() as int),
            ),
        ),
{
    let base = c.pool.len() as int;
    reveal_with_fuel(crate::compiler::instructions::spec_from_expression, 6);
    reveal_with_fuel(crate::compiler::instructions::spec_from_call, 3);
    reveal_with_fuel(crate::compiler::instructions::spec_emit_args, 3);
    lemma_load_system();
    lemma_load_system_qualified();
    lemma_load_print_stream();

    // the bare class reference: a pool entry, the scoped object, no code
    assert(spec_ctx_resolve(c, "System"@) == Ok::<
        ResolvedEntityV,
        crate::compiler::result::CompileErrorV,
    >(ResolvedEntityV::StaticClass("java.lang.System"@)));
    let c1 = crate::compiler::instructions::spec_from_static_identifier(
        "System"@,
        c,
    )->Ok_0.0;
    assert(c1.pool =~= c.pool.push(
        PoolConst::Utf8(crate::java::class::slashed("java.lang.System"@)),
    ).push(PoolConst::Class(base + 1)));
    assert(c1.scoped_object == Some(
        crate::compiler::ObjectReferenceV {
            class_path: "java.lang.System"@,
            class_id: base + 2,
        },
    ));

    // the stream field on the scoped class: its owner becomes the scope
    assert(crate::java::class::find_field_v(
        crate::java::java_lang::system_class_v().fields,
        "out"@,
    ) == Some(
        crate::java::field::JavaFieldV { name: "out"@, owner_class: "java.io.PrintStream"@ },
    ));
    let c2 = crate::compiler::instructions::spec_from_static_identifier("out"@, c1)->Ok_0.0;
    assert(c2.scoped_object == Some(
        crate::compiler::ObjectReferenceV {
            class_path: "java.io.PrintStream"@,
            class_id: base + 4,
        },
    ));

    // the print method on the stream class
    assert(crate::java::class::find_method_v(
        crate::java::java_io::print_stream_class_v().methods,
        "println"@,
    ) == Some(
        crate::java::method::JavaMethodV {
            name: "println"@,
            return_type: "void"@,
            descriptor: "(Ljava/lang/String;)V"@,
        },
    ));
    let call = ExpressionV::Call {
        method_name: "println"@,
        arguments: seq![ExpressionV::StringLiteral { value: lit }],
    };
    assert(seq![ExpressionV::StringLiteral { value: lit }].drop_first() =~= Seq::<
        ExpressionV,
    >::empty());
    let r = spec_from_statement(println_statement_v(lit), c);
    assert(r is Ok);
    assert(r->Ok_0.0.pool =~= c.pool + console_print_pool_entries(base, lit));
    assert(r->Ok_0.1 =~= console_print_code(base));
    assert(r->Ok_0.0 =~~= (ContextV {
        pool: c.pool + console_print_pool_entries(base, lit),
        scoped_object: Some(
            crate::compiler::ObjectReferenceV {
                class_path: "java.io.PrintStream"@,
                class_id: base + 4,
            },
        ),
        ..c
    }));
}

/// The string type's bare name resolves through the implicit package.
pub proof fn lemma_load_string()
    ensures
        spec_load(builtin_catalog(), "String"@) == Some(
            crate::java::java_lang::string_class_v(),
        ),
{
    reveal_strlit("String");
    reveal_strlit("System");
    reveal_with_fuel(last_dot, 8);
    reveal_with_fuel(crate::java::package::find_class_v, 3);
    assert(last_dot("String"@) is None);
    let ps = builtin_catalog();
    assert(ps[0] == crate::java::java_lang::java_lang_package_v());
    assert(ps[0].classes.drop_first() =~= seq![crate::java::java_lang::string_class_v()]);
    assert(crate::java::package::find_class_v(ps[0].classes, "String"@) == Some(
        crate::java::java_lang::string_class_v(),
    ));
}

/// The primitive keyword of the entry point's return type maps to the void
/// type.
pub proof fn lemma_map_void()
    ensures
        crate::compiler::spec_map_data_type(builtin_catalog(), "void"@, false) == Ok::<
            crate::compiler::symbol_table::DataTypeV,
            crate::compiler::result::CompileErrorV,
        >(crate::compiler::symbol_table::DataTypeV::Void),
{
    reveal_strlit("void");
    reveal_strlit("bool");
    reveal_strlit("byte");
    reveal_strlit("char");
    reveal_strlit("double");
    reveal_strlit("float");
    reveal_strlit("int");
    reveal_strlit("long");
    reveal_strlit("short");
}

/// The string type name maps, through the catalog, to its object type.
pub proof fn lemma_map_string(is_array: bool)
    ensures
        crate::compiler::spec_map_data_type(builtin_catalog(), "String"@, is_array) == Ok::<
            crate::compiler::symbol_table::DataTypeV,
            crate::compiler::result::CompileErrorV,
        >(
            if is_array {
                crate::compiler::symbol_table::DataTypeV::Array(
                    Box::new(
                        crate::compiler::symbol_table::DataTypeV::Object("java.lang.String"@),
                    ),
                )
            } else {
                crate::compiler::symbol_table::DataTypeV::Object("java.lang.String"@)
            },
        ),
{
    reveal_strlit("String");
    reveal_strlit("bool");
    reveal_strlit("byte");
    reveal_strlit("char");
    reveal_strlit("double");
    reveal_strlit("float");
    reveal_strlit("int");
    reveal_strlit("long");
    reveal_strlit("short");
    reveal_strlit("void");
    lemma_load_string();
}

/// A class shaped like the one-method console greeting program: a public
/// class holding one public static void entry point over a string-array
/// parameter, whose body prints one literal.
pub open spec fn hello_world_class_v(name: Seq<char>, lit: Seq<char>) -> ClassV {
    ClassV {
        name,
        scope: crate::ast::class::AstScope::Public,
        is_static: false,
        is_final: false,
        methods: seq![
            crate::ast::class::MethodV {
                name: "main"@,
                scope: crate::ast::class::AstScope::Public,
                is_final: false,
                is_static: true,
                return_type: "void"@,
                return_type_is_array: false,
                parameters: seq![
                    crate::ast::class::ParameterV {
                        param_name: "args"@,
                        param_type: "String"@,
                        is_array: true,
                    },
                ],
                statements: seq![println_statement_v(lit)],
            },
        ],
    }
}

/// Every console greeting program compiles, whatever its class name and
/// literal: its one method is public and static, reserves one local slot,
/// and its code is exactly the console-print sequence over the session's
/// pool. Printing the literal is its only effect when the result is loaded
/// and run.
#[verifier::rlimit(100)]
pub proof fn lemma_hello_world_compiles(name: Seq<char>, lit: Seq<char>)
    ensures
        spec_compile(hello_world_class_v(name, lit)) matches Ok((c, this, sup, ms)) && {
            &&& this == 2
            &&& sup == 4
            &&& ms.len() == 1
            &&& ms[0].instructions == console_print_code(5)
            &&& ms[0].access_flags == 9
            &&& ms[0].max_stack == 2
            &&& ms[0].max_locals == 1
        },
{
    let class = hello_world_class_v(name, lit);
    let c0 = crate::compiler::spec_initial_context();
    let loader = builtin_catalog();
    let m = class.methods[0];

    // the symbol pre-pass registers the one entry point
    lemma_map_void();
    lemma_map_string(true);
    assert(m.parameters.drop_first() =~= Seq::<crate::ast::class::ParameterV>::empty());
    reveal_with_fuel(crate::compiler::spec_map_parameters, 3);
    reveal_with_fuel(crate::compiler::spec_register_methods, 3);
    assert(class.methods.drop_first() =~= Seq::<crate::ast::class::MethodV>::empty());
    let entries = crate::compiler::spec_build_symbol_table(loader, class)->Ok_0;
    assert(spec_compile(class) == crate::compiler::class_file_builder::spec_emit_class(
        class,
        ContextV { symbols: entries, ..c0 },
    ));

    // the class and superclass entries
    let c1 = ContextV { symbols: entries, ..c0 };
    let c2 = ContextV {
        pool: crate::compiler::instructions::spec_pool_add_class(
            crate::compiler::instructions::spec_pool_add_class(c1.pool, class.name)->Ok_0.0,
            "java/lang/Object"@,
        )->Ok_0.0,
        this_class: Some(
            crate::compiler::ObjectReferenceV { class_path: class.name, class_id: 2 },
        ),
        ..c1
    };
    assert(c2.pool.len() == 4);

    // the one method: its code entry, its body, its own names
    reveal_with_fuel(crate::compiler::class_file_builder::spec_emit_methods, 3);
    let c3 = ContextV {
        pool: c2.pool.push(PoolConst::Utf8("Code"@)),
        stack: c2.stack.push(Seq::empty()),
        ..c2
    };
    assert(c3 =~~= crate::compiler::method_builder::spec_method_emit_entry(m, c2));
    assert(c3.pool.len() == 5);
    reveal_with_fuel(stack_contains, 4);
    reveal_with_fuel(crate::compiler::state_stack::names_index, 2);
    assert(c3.stack.last() =~= Seq::<Seq<char>>::empty());
    assert(c3.stack.drop_last() =~= c0.stack);
    assert(c0.stack.last() =~= Seq::<Seq<char>>::empty());
    assert(c0.stack.drop_last() =~= Seq::<Seq<Seq<char>>>::empty());
    assert(!stack_contains(c3.stack, "System"@));
    lemma_console_print_emission(lit, c3);
    reveal_with_fuel(crate::compiler::method_builder::spec_build_instructions, 3);
    let after = spec_from_statement(println_statement_v(lit), c3)->Ok_0;
    assert(crate::compiler::method_builder::spec_build_instructions(
        m.statements,
        c3,
    ) matches Ok((cb, code)) && cb == (ContextV { scoped_object: None, ..after.0 }) && code
        =~= console_print_code(5)) by {
        assert(m.statements.drop_first() =~= Seq::<StatementV>::empty());
        assert(m.statements[0] == println_statement_v(lit));
        assert(after.1 + Seq::<JvmInstruction>::empty() =~= after.1);
    }
    assert(after.0.stack == c3.stack);
    assert(c3.stack.last().len() == 0);
}

/// The statement `<type> <name> = <literal>;`, as the parser shapes it.
pub open spec fn declaration_statement_v(
    var_type: Seq<char>,
    name: Seq<char>,
    lit: Seq<char>,
) -> StatementV {
    StatementV::VariableAssignment {
        name,
        var_type: Some(var_type),
        is_final: false,
        value: Some(ExpressionV::StringLiteral { value: lit }),
    }
}

/// The statement `System.out.println(<name>)`, as the parser shapes it.
pub open spec fn println_variable_statement_v(name: Seq<char>) -> StatementV {
    StatementV::Expression {
        expression: ExpressionV::ObjectExpression {
            parent: Box::new(ExpressionV::StaticIdentifier { name: "System"@ }),
            child: Box::new(
                ExpressionV::ObjectExpression {
                    parent: Box::new(ExpressionV::StaticIdentifier { name: "out"@ }),
                    child: Box::new(
                        ExpressionV::Call {
                            method_name: "println"@,
                            arguments: seq![ExpressionV::StaticIdentifier { name }],
                        },
                    ),
                },
            ),
        },
    }
}

/// Printing a declared variable on the console compiles the same way in
/// every session in which `System` is not shadowed: the stream field is
/// read, the variable's own slot is loaded, and the print method is
/// invoked; the session's scope allocator is left untouched.
#[verifier::rlimit(100)]
pub proof fn lemma_println_variable_emission(name: Seq<char>, slot: int, c: ContextV)
    requires
        c.scoped_object is None,
        c.loader == builtin_catalog(),
        !stack_contains(c.stack, "System"@),
        stack_contains(c.stack, name),
        stack_slot(c.stack, name) == Some(slot),
        0 < slot <= 255,
        c.pool.len() + 12 <= 65535,
    ensures
        spec_from_statement(println_variable_statement_v(name), c) matches Ok((c2, code)) && {
            &&& code == seq![
                JvmInstruction::Getstatic((c.pool.len() + 8) as u16),
                JvmInstruction::Aload(slot as u8),
                JvmInstruction::Invokevirtual((c.pool.len() + 12) as u16),
                JvmInstruction::Return,
            ]
            &&& c2.stack == c.stack
        },
{
    let base = c.pool.len() as int;
    reveal_with_fuel(crate::compiler::instructions::spec_from_expression, 6);
    reveal_with_fuel(crate::compiler::instructions::spec_from_call, 3);
    reveal_with_fuel(crate::compiler::instructions::spec_emit_args, 3);
    lemma_load_system();
    lemma_load_system_qualified();
    lemma_load_print_stream();

    assert(spec_ctx_resolve(c, "System"@) == Ok::<
        ResolvedEntityV,
        crate::compiler::result::CompileErrorV,
    >(ResolvedEntityV::StaticClass("java.lang.System"@)));
    let cb = crate::compiler::instructions::spec_from_static_identifier("System"@, c)->Ok_0.0;
    assert(cb.pool.len() == base + 2);

    assert(crate::java::class::find_field_v(
        crate::java::java_lang::system_class_v().fields,
        "out"@,
    ) == Some(
        crate::java::field::JavaFieldV { name: "out"@, owner_class: "java.io.PrintStream"@ },
    ));
    let cc = crate::compiler::instructions::spec_from_static_identifier("out"@, cb)->Ok_0.0;
    assert(cc.pool.len() == base + 8);
    assert(cc.scoped_object == Some(
        crate::compiler::ObjectReferenceV {
            class_path: "java.io.PrintStream"@,
            class_id: base + 4,
        },
    ));

    assert(crate::java::class::find_method_v(
        crate::java::java_io::print_stream_class_v().methods,
        "println"@,
    ) == Some(
        crate::java::method::JavaMethodV {
            name: "println"@,
            return_type: "void"@,
            descriptor: "(Ljava/lang/String;)V"@,
        },
    ));
    assert(seq![ExpressionV::StaticIdentifier { name }].drop_first() =~= Seq::<
        ExpressionV,
    >::empty());

    let r = spec_from_statement(println_variable_statement_v(name), c);
    assert(r is Ok);
    assert(r->Ok_0.1 =~= seq![
        JvmInstruction::Getstatic((base + 8) as u16),
        JvmInstruction::Aload(slot as u8),
        JvmInstruction::Invokevirtual((base + 12) as u16),
        JvmInstruction::Return,
    ]);
}

/// Declaring a string variable and then printing it compiles the same way
/// in every fresh method scope: the literal is loaded and stored into the
/// variable's first slot; then the console stream is read, the same slot
/// is loaded, and the print method is invoked.
#[verifier::rlimit(100)]
pub proof fn lemma_declaration_then_print_emission(
    var_type: Seq<char>,
    name: Seq<char>,
    lit: Seq<char>,
    c: ContextV,
)
    requires
        c.scoped_object is None,
        c.loader == builtin_catalog(),
        c.stack.len() > 0,
        c.stack.last().len() == 0,
        !stack_contains(c.stack, "System"@),
        name != "System"@,
        c.pool.len() + 16 <= 65535,
    ensures
        crate::compiler::method_builder::spec_build_instructions(
            seq![declaration_statement_v(var_type, name, lit), println_variable_statement_v(name)],
            c,
        ) matches Ok((c2, code)) && {
            &&& code == seq![
                JvmInstruction::LdcW((c.pool.len() + 2) as u16),
                JvmInstruction::Astore(1),
                JvmInstruction::Getstatic((c.pool.len() + 10) as u16),
                JvmInstruction::Aload(1),
                JvmInstruction::Invokevirtual((c.pool.len() + 14) as u16),
                JvmInstruction::Return,
            ]
            &&& c2.stack == c.stack.update(c.stack.len() - 1, c.stack.last().push(name))
            &&& c2.stack.last().len() == 1
        },
{
    let base = c.pool.len() as int;
    reveal_with_fuel(crate::compiler::method_builder::spec_build_instructions, 4);
    reveal_with_fuel(stack_contains, 4);
    reveal_with_fuel(stack_slot, 4);
    reveal_with_fuel(crate::compiler::state_stack::names_index, 3);

    // the declaration: literal load, then a store into the first slot
    let decl = declaration_statement_v(var_type, name, lit);
    let d = spec_from_statement(decl, c);
    assert(d is Ok);
    let c1 = d->Ok_0.0;
    let stack2 = c.stack.update(c.stack.len() - 1, c.stack.last().push(name));
    assert(c1.stack == stack2);
    assert(d->Ok_0.1 =~= seq![
        JvmInstruction::LdcW((base + 2) as u16),
        JvmInstruction::Astore(1),
    ]);
    let ca = ContextV { scoped_object: None, ..c1 };
    assert(ca.pool.len() == base + 2);

    // the new variable occupies the first slot and shadows nothing the
    // print statement needs
    assert(stack2.last() =~= c.stack.last().push(name));
    assert(stack2.drop_last() =~= c.stack.drop_last());
    assert(crate::compiler::state_stack::names_index(stack2.last(), "System"@) is None);
    assert(!stack_contains(stack2, "System"@));
    assert(crate::compiler::state_stack::names_index(stack2.last(), name) == Some(0int));
    assert(stack_contains(stack2, name));
    assert(stack_slot(stack2, name) == Some(1int));

    lemma_println_variable_emission(name, 1, ca);
    let p = spec_from_statement(println_variable_statement_v(name), ca);

    // the two statements in sequence
    let both = seq![declaration_statement_v(var_type, name, lit), println_variable_statement_v(
        name,
    )];
    assert(both.drop_first() =~= seq![println_variable_statement_v(name)]);
    assert(seq![println_variable_statement_v(name)].drop_first() =~= Seq::<StatementV>::empty());
    let r = crate::compiler::method_builder::spec_build_instructions(both, c);
    assert(r is Ok);
    assert(p->Ok_0.1 + Seq::<JvmInstruction>::empty() =~= p->Ok_0.1);
    assert(r->Ok_0.1 =~= d->Ok_0.1 + p->Ok_0.1);
    assert(r->Ok_0.1 =~= seq![
        JvmInstruction::LdcW((base + 2) as u16),
        JvmInstruction::Astore(1),
        JvmInstruction::Getstatic((base + 10) as u16),
        JvmInstruction::Aload(1),
        JvmInstruction::Invokevirtual((base + 14) as u16),
        JvmInstruction::Return,
    ]);
    assert(r->Ok_0.0.stack == stack2);
    assert(stack2.last().len() == 1);
}

/// A bare class reference emits no instruction: resolving a name to a
/// static class records exactly the class's two pool entries and makes the
/// class the scoped object, and nothing else of the session moves.
pub proof fn lemma_bare_class_emits_nothing(name: Seq<char>, c: ContextV)
    requires
        spec_ctx_resolve(c, name) matches Ok(e) && e is StaticClass,
        c.pool.len() + 2 <= 65535,
    ensures
        spec_from_static_identifier(name, c) matches Ok((c2, emitted)) && {
            &&& emitted == Seq::<JvmInstruction>::empty()
            &&& c2 == (ContextV {
                pool: c.pool.push(
                    PoolConst::Utf8(
                        crate::java::class::slashed(
                            spec_ctx_resolve(c, name)->Ok_0->StaticClass_0,
                        ),
                    ),
                ).push(PoolConst::Class(c.pool.len() as int + 1)),
                scoped_object: Some(
                    crate::compiler::ObjectReferenceV {
                        class_path: spec_ctx_resolve(c, name)->Ok_0->StaticClass_0,
                        class_id: c.pool.len() as int + 2,
                    },
                ),
                ..c
            })
        },
{
}

} // verus!
