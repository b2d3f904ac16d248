use vstd::prelude::*;

use crate::ast::class::{AstMethod, AstScope, MethodV, ParameterV};
use crate::ast::statement::{stmt_view, Statement, StatementV};
use crate::compiler::instructions::{spec_from_statement, stmt_size, JvmInstruction};
use crate::compiler::pool::{pool_add_utf8, PoolConst};
use crate::compiler::resolved_class::spec_resolved_class;
use crate::compiler::result::{wrap, CompileErrorV, CompileResult};
use crate::compiler::{ctx_wf, CompilationContext, ContextV};

verus! {

/// One emitted method, before it is handed to the class-file library: its
/// access flags, the pool indices of its names, its code sizes, and its
/// instructions.
#[derive(Debug)]
pub struct EmittedMethod {
    pub access_flags: u16,
    pub name_index: u16,
    pub descriptor_index: u16,
    pub code_name_index: u16,
    pub max_stack: u16,
    pub max_locals: u16,
    pub instructions: Vec<JvmInstruction>,
}

/// The mathematical shape of an emitted method.
#[verifier::ext_equal]
pub struct EmittedMethodV {
    pub access_flags: int,
    pub name_index: int,
    pub descriptor_index: int,
    pub code_name_index: int,
    pub max_stack: int,
    pub max_locals: int,
    pub instructions: Seq<JvmInstruction>,
}

/// The views of a sequence of emitted methods.
pub open spec fn emitted_methods_view(ms: Seq<EmittedMethod>) -> Seq<EmittedMethodV> {
    ms.map_values(|m: EmittedMethod| m@)
}

impl View for EmittedMethod {
    type V = EmittedMethodV;

    open spec fn view(&self) -> EmittedMethodV {
        EmittedMethodV {
            access_flags: self.access_flags as int,
            name_index: self.name_index as int,
            descriptor_index: self.descriptor_index as int,
            code_name_index: self.code_name_index as int,
            max_stack: self.max_stack as int,
            max_locals: self.max_locals as int,
            instructions: self.instructions@,
        }
    }
}

/// The JVM access-flag word of a method: its visibility bit, plus the
/// static and final bits.
pub open spec fn spec_method_access_flags(scope: AstScope, is_static: bool, is_final: bool) -> int {
    (match scope {
        AstScope::Public => 1int,
        AstScope::Private => 2int,
        AstScope::Protected => 4int,
        AstScope::Default => 0int,
    }) + (if is_static {
        8int
    } else {
        0int
    }) + (if is_final {
        16int
    } else {
        0int
    })
}

/// Adds the static bit.
pub fn append_static_flag_from(is_static: bool, method_access_flags: u16) -> (r: u16)
    requires
        method_access_flags <= 1024,
    ensures
        r == method_access_flags + if is_static {
            8int
        } else {
            0int
        },
{
    if is_static {
        method_access_flags + 8
    } else {
        method_access_flags
    }
}

/// Adds the final bit.
pub fn append_final_flag_from(is_final: bool, method_access_flags: u16) -> (r: u16)
    requires
        method_access_flags <= 1024,
    ensures
        r == method_access_flags + if is_final {
            16int
        } else {
            0int
        },
{
    if is_final {
        method_access_flags + 16
    } else {
        method_access_flags
    }
}

/// Adds the visibility bit.
pub fn append_scope_flag_from(scope: AstScope, method_access_flags: u16) -> (r: u16)
    requires
        method_access_flags <= 1024,
    ensures
        r == method_access_flags + (match scope {
            AstScope::Public => 1int,
            AstScope::Private => 2int,
            AstScope::Protected => 4int,
            AstScope::Default => 0int,
        }),
{
    match scope {
        AstScope::Public => method_access_flags + 1,
        AstScope::Protected => method_access_flags + 4,
        AstScope::Private => method_access_flags + 2,
        AstScope::Default => method_access_flags,
    }
}

/// The descriptor fragment of one source type name: the primitive letters,
/// or the qualified object form for a name the descriptor printer can
/// qualify; an unknown bare name prints nothing.
pub open spec fn spec_parameter_str_after(s: Seq<char>) -> Seq<char> {
    if s == "bool"@ {
        seq!['Z']
    } else if s == "byte"@ {
        seq!['B']
    } else if s == "char"@ {
        seq!['C']
    } else if s == "short"@ {
        seq!['S']
    } else if s == "int"@ {
        seq!['I']
    } else if s == "long"@ {
        seq!['J']
    } else if s == "float"@ {
        seq!['F']
    } else if s == "double"@ {
        seq!['D']
    } else if s == "void"@ {
        seq!['V']
    } else {
        match spec_resolved_class(s) {
            Some(q) => seq!['L'] + q + seq![';'],
            None => Seq::empty(),
        }
    }
}

/// The descriptor fragment of one parameter, with its array marker.
pub open spec fn spec_parameter_str(t: Seq<char>, is_array: bool) -> Seq<char> {
    (if is_array {
        seq!['[']
    } else {
        Seq::<char>::empty()
    }) + spec_parameter_str_after(t)
}

/// The concatenated descriptor fragments of a parameter list.
pub open spec fn spec_params_str(ps: Seq<ParameterV>) -> Seq<char>
    decreases ps.len(),
{
    if ps.len() == 0 {
        Seq::empty()
    } else {
        spec_parameter_str(ps[0].param_type, ps[0].is_array) + spec_params_str(ps.drop_first())
    }
}

/// The method descriptor printed from the method's source-level header.
pub open spec fn spec_method_parameters_str(m: MethodV) -> Seq<char> {
    seq!['('] + spec_params_str(m.parameters) + seq![')'] + spec_parameter_str(
        m.return_type,
        false,
    )
}

/// Appends one type's descriptor fragment, without array resolution.
pub fn parameter_str_after_array_resolution(param_type: &String, result: &mut String)
    ensures
        final(result)@ == old(result)@ + spec_parameter_str_after(param_type@),
{
    if *param_type == String::from_str("bool") {
        result.append("Z");
        proof {
            reveal_strlit("Z");
            assert("Z"@ =~= seq!['Z']);
        }
    } else if *param_type == String::from_str("byte") {
        result.append("B");
        proof {
            reveal_strlit("B");
            assert("B"@ =~= seq!['B']);
        }
    } else if *param_type == String::from_str("char") {
        result.append("C");
        proof {
            reveal_strlit("C");
            assert("C"@ =~= seq!['C']);
        }
    } else if *param_type == String::from_str("short") {
        result.append("S");
        proof {
            reveal_strlit("S");
            assert("S"@ =~= seq!['S']);
        }
    } else if *param_type == String::from_str("int") {
        result.append("I");
        proof {
            reveal_strlit("I");
            assert("I"@ =~= seq!['I']);
        }
    } else if *param_type == String::from_str("long") {
        result.append("J");
        proof {
            reveal_strlit("J");
            assert("J"@ =~= seq!['J']);
        }
    } else if *param_type == String::from_str("float") {
        result.append("F");
        proof {
            reveal_strlit("F");
            assert("F"@ =~= seq!['F']);
        }
    } else if *param_type == String::from_str("double") {
        result.append("D");
        proof {
            reveal_strlit("D");
            assert("D"@ =~= seq!['D']);
        }
    } else if *param_type == String::from_str("void") {
        result.append("V");
        proof {
            reveal_strlit("V");
            assert("V"@ =~= seq!['V']);
        }
    } else {
        handle_non_primitive(param_type, result);
    }
}

/// Appends the object-type descriptor of a qualifiable class name; an
/// unqualifiable name appends nothing.
pub fn handle_non_primitive(s: &String, result: &mut String)
    ensures
        final(result)@ == old(result)@ + (match spec_resolved_class(s@) {
            Some(q) => seq!['L'] + q + seq![';'],
            None => Seq::<char>::empty(),
        }),
{
    if let Some(class) = crate::compiler::resolved_class::ResolvedClass::from_name(s) {
        result.append("L");
        result.append(class.fully_qualified().as_str());
        result.append(";");
        proof {
            reveal_strlit("L");
            reveal_strlit(";");
            assert("L"@ =~= seq!['L']);
            assert(";"@ =~= seq![';']);
            if let Some(q) = spec_resolved_class(s@) {
                assert(((old(result)@ + "L"@) + q) + ";"@ =~= old(result)@ + (seq!['L'] + q
                    + seq![';']));
            }
        }
    } else {
        proof {
            assert(old(result)@ + Seq::<char>::empty() =~= old(result)@);
        }
    }
}

/// Appends one parameter's descriptor fragment, with its array marker.
pub fn parameter_str(param_type: &String, is_array: bool, result: &mut String)
    ensures
        final(result)@ == old(result)@ + spec_parameter_str(param_type@, is_array),
{
    if is_array {
        result.append("[");
        proof {
            reveal_strlit("[");
            assert("["@ =~= seq!['[']);
        }
    }
    parameter_str_after_array_resolution(param_type, result);
    proof {
        assert(result@ =~= old(result)@ + spec_parameter_str(param_type@, is_array));
    }
}

/// Prints the method descriptor from the method's source-level header. The
/// return type is printed without an array marker.
#[verifier::loop_isolation(false)]
pub fn method_parameters_str(ast_method: &AstMethod) -> (r: String)
    ensures
        r@ == spec_method_parameters_str(ast_method@),
{
    let ghost ps = ast_method@.parameters;
    let mut result = String::new();
    result.append("(");
    proof {
        reveal_strlit("(");
        assert("("@ =~= seq!['(']);
        assert(ps.skip(0) =~= ps);
        assert(result@ =~= seq!['('] + Seq::<char>::empty());
    }
    let n = ast_method.parameters.len();
    let ghost mut done: Seq<char> = Seq::empty();
    for i in 0..n
        invariant
            n == ast_method.parameters@.len(),
            ps == ast_method@.parameters,
            result@ == seq!['('] + done,
            spec_params_str(ps) == done + spec_params_str(ps.skip(i as int)),
    {
        proof {
            assert(ps.skip(i as int)[0] == ps[i as int]);
            assert(ps[i as int] == ast_method.parameters@[i as int]@);
            assert(ps.skip(i as int).drop_first() =~= ps.skip(i + 1));
        }
        let ghost done_pre = done;
        parameter_str(
            &ast_method.parameters[i].param_type,
            ast_method.parameters[i].is_array,
            &mut result,
        );
        proof {
            done = done_pre + spec_parameter_str(ps[i as int].param_type, ps[i as int].is_array);
            assert(result@ =~= seq!['('] + done);
            assert(done_pre + (spec_parameter_str(ps[i as int].param_type, ps[i as int].is_array)
                + spec_params_str(ps.skip(i + 1))) =~= done + spec_params_str(ps.skip(i + 1)));
        }
    }
    result.append(")");
    parameter_str(&ast_method.return_type, false, &mut result);
    proof {
        reveal_strlit(")");
        assert(")"@ =~= seq![')']);
        assert(ps.skip(n as int) =~= Seq::<ParameterV>::empty());
        assert(done + Seq::<char>::empty() =~= done);
        assert(result@ =~= spec_method_parameters_str(ast_method@));
    }
    result
}

/// Appending one UTF-8 entry to the pool, as method assembly sees it.
pub open spec fn spec_pool_add_utf8(pool: Seq<PoolConst>, value: Seq<char>) -> Result<
    (Seq<PoolConst>, int),
    CompileErrorV,
> {
    if pool.len() + 1 <= 65535 {
        Ok((pool.push(PoolConst::Utf8(value)), pool.len() as int + 1))
    } else {
        Err(CompileErrorV::Ristretto)
    }
}

/// One method body's emission keeps the number of open scope layers.
pub proof fn lemma_build_instructions_stack_len(ss: Seq<StatementV>, c: ContextV)
    ensures
        spec_build_instructions(ss, c) matches Ok((c2, i)) ==> c2.stack.len() == c.stack.len(),
    decreases ss.len(),
{
    if ss.len() > 0 {
        crate::compiler::instructions::lemma_from_statement_stack_len(ss[0], c);
        if let Ok((c1, i1)) = spec_from_statement(ss[0], c) {
            lemma_build_instructions_stack_len(
                ss.drop_first(),
                ContextV { scoped_object: None, ..c1 },
            );
        }
    }
}

/// What emitting one method body's statements does: each statement in
/// order, the scoped object cleared after each one.
pub open spec fn spec_build_instructions(ss: Seq<StatementV>, c: ContextV) -> Result<
    (ContextV, Seq<JvmInstruction>),
    CompileErrorV,
>
    decreases ss.len(),
{
    if ss.len() == 0 {
        Ok((c, Seq::empty()))
    } else {
        match spec_from_statement(ss[0], c) {
            Err(e) => Err(e),
            Ok((c1, i1)) => match spec_build_instructions(
                ss.drop_first(),
                ContextV { scoped_object: None, ..c1 },
            ) {
                Err(e) => Err(e),
                Ok((c2, i2)) => Ok((c2, i1 + i2)),
            },
        }
    }
}

/// The session a method body's emission starts from: the code-attribute
/// entry recorded and a fresh scope layer opened.
pub open spec fn spec_method_emit_entry(m: MethodV, c: ContextV) -> ContextV {
    ContextV {
        pool: spec_pool_add_utf8(c.pool, "Code"@)->Ok_0.0,
        stack: c.stack.push(Seq::empty()),
        ..c
    }
}

/// What emitting one whole method does: the code attribute's name entry,
/// a fresh scope layer for the body, the body's instructions, then the
/// method's own name and descriptor entries. The local-variable count is
/// one reserved argument slot plus the body's declarations.
pub open spec fn spec_method_emit(m: MethodV, c: ContextV) -> Result<
    (ContextV, EmittedMethodV),
    CompileErrorV,
> {
    match spec_pool_add_utf8(c.pool, "Code"@) {
        Err(e) => Err(e),
        Ok((pool1, code_idx)) => {
            let c1 = spec_method_emit_entry(m, c);
            match spec_build_instructions(m.statements, c1) {
                Err(e) => Err(e),
                Ok((c2, instrs)) => if c2.stack.len() == 0 {
                    Err(CompileErrorV::TooManyVariables)
                } else {
                    let num_fields = c2.stack.last().len();
                    let c3 = ContextV { stack: c2.stack.drop_last(), ..c2 };
                    match spec_pool_add_utf8(c3.pool, m.name) {
                        Err(e) => Err(e),
                        Ok((pool2, name_idx)) => match spec_pool_add_utf8(
                            pool2,
                            spec_method_parameters_str(m),
                        ) {
                            Err(e) => Err(e),
                            Ok((pool3, desc_idx)) => Ok(
                                (
                                    ContextV { pool: pool3, ..c3 },
                                    EmittedMethodV {
                                        access_flags: spec_method_access_flags(
                                            m.scope,
                                            m.is_static,
                                            m.is_final,
                                        ),
                                        name_index: name_idx,
                                        descriptor_index: desc_idx,
                                        code_name_index: code_idx,
                                        max_stack: 2,
                                        max_locals: 1 + num_fields as int,
                                        instructions: instrs,
                                    },
                                ),
                            ),
                        },
                    }
                },
            }
        },
    }
}

/// Emits one method body's statements into the given list, clearing the
/// transient scoped object after every statement.
#[verifier::loop_isolation(false)]
pub fn build_instructions(
    method: &AstMethod,
    compilation_context: &mut CompilationContext,
    instructions: &mut Vec<JvmInstruction>,
) -> (r: CompileResult<()>)
    requires
        ctx_wf(old(compilation_context)@),
        old(compilation_context)@.this_class is Some,
    ensures
        crate::compiler::instructions::emit_frame(
            old(compilation_context)@,
            final(compilation_context)@,
        ),
        match spec_build_instructions(
            crate::ast::statement::stmts_view(method.statements@),
            old(compilation_context)@,
        ) {
            Ok((c2, emitted)) => {
                &&& r is Ok
                &&& final(compilation_context)@ == c2
                &&& final(instructions)@ == old(instructions)@ + emitted
                &&& ctx_wf(final(compilation_context)@)
            },
            Err(ev) => r is Err && r->Err_0@ == ev,
        },
{
    let ghost ss = crate::ast::statement::stmts_view(method.statements@);
    let n = method.statements.len();
    let ghost instrs0 = instructions@;
    let ghost mut done: Seq<JvmInstruction> = Seq::empty();
    proof {
        assert(ss.skip(0) =~= ss);
        assert(instructions@ =~= instrs0 + done);
    }
    for i in 0..n
        invariant
            n == method.statements@.len(),
            ss == crate::ast::statement::stmts_view(method.statements@),
            ctx_wf(compilation_context@),
            compilation_context@.this_class is Some,
            crate::compiler::instructions::emit_frame(
                old(compilation_context)@,
                compilation_context@,
            ),
            instructions@ == instrs0 + done,
            spec_build_instructions(ss, old(compilation_context)@) == (match spec_build_instructions(
                ss.skip(i as int),
                compilation_context@,
            ) {
                Err(e) => Err::<(ContextV, Seq<JvmInstruction>), CompileErrorV>(e),
                Ok((c2, rest)) => Ok((c2, done + rest)),
            }),
    {
        proof {
            assert(ss.skip(i as int)[0] == ss[i as int]);
            assert(ss[i as int] == stmt_view(method.statements@[i as int]));
            assert(ss.skip(i as int).drop_first() =~= ss.skip(i + 1));
        }
        let ghost ctx_pre = compilation_context@;
        let ghost done_pre = done;
        match crate::compiler::instructions::from(
            &method.statements[i],
            compilation_context,
            instructions,
        ) {
            Ok(_) => {},
            Err(e) => {
                return Err(e);
            },
        }
        compilation_context.clear_scoped_object();
        proof {
            let step = spec_from_statement(ss[i as int], ctx_pre);
            done = done_pre + step->Ok_0.1;
            assert(instructions@ =~= instrs0 + done);
            assert(compilation_context@ =~= (ContextV {
                scoped_object: None,
                ..step->Ok_0.0
            }));
            if let Ok((c2, rest)) = spec_build_instructions(
                ss.skip(i + 1),
                compilation_context@,
            ) {
                assert(done_pre + (step->Ok_0.1 + rest) =~= done + rest);
            }
        }
    }
    proof {
        assert(ss.skip(n as int) =~= Seq::<StatementV>::empty());
        assert(done + Seq::<JvmInstruction>::empty() =~= done);
    }
    Ok(())
}

/// Emits one whole method: flags, pool entries for its names, a fresh
/// scope layer for its body, its instructions, and its code sizes.
pub fn from(ast_method: &AstMethod, compilation_context: &mut CompilationContext) -> (r:
    CompileResult<EmittedMethod>)
    requires
        ctx_wf(old(compilation_context)@),
        old(compilation_context)@.this_class is Some,
    ensures
        crate::compiler::instructions::emit_frame(
            old(compilation_context)@,
            final(compilation_context)@,
        ),
        match spec_method_emit(ast_method@, old(compilation_context)@) {
            Ok((c2, mv)) => {
                &&& r is Ok
                &&& final(compilation_context)@ == c2
                &&& r.unwrap()@ == mv
                &&& ctx_wf(final(compilation_context)@)
            },
            Err(ev) => r is Err && r->Err_0@ == ev,
        },
{
    let method_access_flags = append_scope_flag_from(
        ast_method.scope(),
        append_final_flag_from(
            ast_method.is_final(),
            append_static_flag_from(ast_method.is_static(), 0),
        ),
    );

    let main_method_code = match wrap(
        pool_add_utf8(&mut compilation_context.constant_pool, "Code"),
    ) {
        Ok(idx) => idx,
        Err(e) => {
            return Err(e);
        },
    };

    compilation_context.stack.new_layer();
    let mut instructions: Vec<JvmInstruction> = Vec::new();
    match build_instructions(ast_method, compilation_context, &mut instructions) {
        Ok(_) => {},
        Err(e) => {
            return Err(e);
        },
    }

    proof {
        lemma_build_instructions_stack_len(
            crate::ast::statement::stmts_view(ast_method.statements@),
            spec_method_emit_entry(ast_method@, old(compilation_context)@),
        );
    }
    let num_fields_in_stack = compilation_context.stack.count();

    compilation_context.stack.drop_layer();

    let num_method_arguments: u16 = 1;

    let name_index = match wrap(
        pool_add_utf8(&mut compilation_context.constant_pool, ast_method.name().as_str()),
    ) {
        Ok(idx) => idx,
        Err(e) => {
            return Err(e);
        },
    };
    let descriptor_string = method_parameters_str(ast_method);
    let descriptor_index = match wrap(
        pool_add_utf8(&mut compilation_context.constant_pool, descriptor_string.as_str()),
    ) {
        Ok(idx) => idx,
        Err(e) => {
            return Err(e);
        },
    };

    Ok(
        EmittedMethod {
            access_flags: method_access_flags,
            name_index,
            descriptor_index,
            code_name_index: main_method_code,
            max_stack: 2,
            max_locals: num_method_arguments + num_fields_in_stack,
            instructions,
        },
    )
}

} // verus!
