use vstd::prelude::*;

use crate::ast::expression::{expr_view, exprs_view, lemma_exprs_view, Expression, ExpressionV};
use crate::ast::statement::{stmt_view, Statement, StatementV};
use crate::compiler::pool::{
    pool_add_class, pool_add_field_ref, pool_add_method_ref, pool_add_string, PoolConst,
};
use crate::compiler::resolver::ResolvedEntityV;
use crate::compiler::result::{wrap, CompileError, CompileErrorV, EmptyCompileResult};
use crate::compiler::symbol_table::{find_symbol, spec_method_descriptor};
use crate::compiler::{
    ctx_wf, spec_ctx_resolve, CompilationContext, ContextV, ObjectReferenceV,
};
use crate::java::class::{find_method_v, slashed, slashed_of};
use crate::java::class_loader::spec_load;
use crate::java::package::PackageV;

verus! {

/// The JVM instructions this compiler emits.
#[derive(Copy, Clone, Debug, PartialEq, Eq, Structural)]
pub enum JvmInstruction {
    Aload(u8),
    Astore(u8),
    LdcW(u16),
    Getstatic(u16),
    Invokevirtual(u16),
    Invokestatic(u16),
    Areturn,
    Return,
}

/// Appending a class entry to the pool, as emission sees it.
pub open spec fn spec_pool_add_class(pool: Seq<PoolConst>, name: Seq<char>) -> Result<
    (Seq<PoolConst>, int),
    CompileErrorV,
> {
    if pool.len() + 2 <= 65535 {
        Ok(
            (
                pool.push(PoolConst::Utf8(name)).push(PoolConst::Class(pool.len() as int + 1)),
                pool.len() as int + 2,
            ),
        )
    } else {
        Err(CompileErrorV::Ristretto)
    }
}

/// Appending a string entry to the pool, as emission sees it.
pub open spec fn spec_pool_add_string(pool: Seq<PoolConst>, value: Seq<char>) -> Result<
    (Seq<PoolConst>, int),
    CompileErrorV,
> {
    if pool.len() + 2 <= 65535 {
        Ok(
            (
                pool.push(PoolConst::Utf8(value)).push(PoolConst::Str(pool.len() as int + 1)),
                pool.len() as int + 2,
            ),
        )
    } else {
        Err(CompileErrorV::Ristretto)
    }
}

/// Appending a field reference (with its name-and-type entries) to the pool.
pub open spec fn spec_pool_add_field_ref(
    pool: Seq<PoolConst>,
    class_index: int,
    name: Seq<char>,
    descriptor: Seq<char>,
) -> Result<(Seq<PoolConst>, int), CompileErrorV> {
    if pool.len() + 4 <= 65535 {
        Ok(
            (
                pool.push(PoolConst::Utf8(name)).push(PoolConst::Utf8(descriptor)).push(
                    PoolConst::NameAndType {
                        name_index: pool.len() as int + 1,
                        descriptor_index: pool.len() as int + 2,
                    },
                ).push(
                    PoolConst::FieldRef {
                        class_index,
                        name_and_type_index: pool.len() as int + 3,
                    },
                ),
                pool.len() as int + 4,
            ),
        )
    } else {
        Err(CompileErrorV::Ristretto)
    }
}

/// Appending a method reference (with its name-and-type entries) to the
/// pool.
pub open spec fn spec_pool_add_method_ref(
    pool: Seq<PoolConst>,
    class_index: int,
    name: Seq<char>,
    descriptor: Seq<char>,
) -> Result<(Seq<PoolConst>, int), CompileErrorV> {
    if pool.len() + 4 <= 65535 {
        Ok(
            (
                pool.push(PoolConst::Utf8(name)).push(PoolConst::Utf8(descriptor)).push(
                    PoolConst::NameAndType {
                        name_index: pool.len() as int + 1,
                        descriptor_index: pool.len() as int + 2,
                    },
                ).push(
                    PoolConst::MethodRef {
                        class_index,
                        name_and_type_index: pool.len() as int + 3,
                    },
                ),
                pool.len() as int + 4,
            ),
        )
    } else {
        Err(CompileErrorV::Ristretto)
    }
}

/// What emitting a static identifier does. A local variable loads its slot;
/// a bare class reference records a pool entry and becomes the scoped
/// object, emitting no instruction; a field of the scoped class emits a
/// static field read and its owner becomes the scoped object.
pub open spec fn spec_from_static_identifier(name: Seq<char>, c: ContextV) -> Result<
    (ContextV, Seq<JvmInstruction>),
    CompileErrorV,
> {
    match spec_ctx_resolve(c, name) {
        Err(e) => Err(e),
        Ok(ResolvedEntityV::VariableOnStack(slot)) => Ok(
            (c, seq![JvmInstruction::Aload(slot as u8)]),
        ),
        Ok(ResolvedEntityV::StaticClass(class_path)) => match spec_pool_add_class(
            c.pool,
            slashed(class_path),
        ) {
            Err(e) => Err(e),
            Ok((pool2, class_id)) => Ok(
                (
                    ContextV {
                        pool: pool2,
                        scoped_object: Some(ObjectReferenceV { class_path, class_id }),
                        ..c
                    },
                    Seq::empty(),
                ),
            ),
        },
        Ok(
            ResolvedEntityV::StaticFieldReference { parent_id, path, full_name, descriptor },
        ) => match spec_pool_add_class(c.pool, full_name) {
            Err(e) => Err(e),
            Ok((pool2, field_class_id)) => match spec_pool_add_field_ref(
                pool2,
                parent_id,
                name,
                descriptor,
            ) {
                Err(e) => Err(e),
                Ok((pool3, field_ref)) => Ok(
                    (
                        ContextV {
                            pool: pool3,
                            scoped_object: Some(
                                ObjectReferenceV { class_path: path, class_id: field_class_id },
                            ),
                            ..c
                        },
                        seq![JvmInstruction::Getstatic(field_ref as u16)],
                    ),
                ),
            },
        },
    }
}

/// What emitting a string literal does: a pool entry and a load of it.
pub open spec fn spec_from_string_literal(value: Seq<char>, c: ContextV) -> Result<
    (ContextV, Seq<JvmInstruction>),
    CompileErrorV,
> {
    match spec_pool_add_string(c.pool, value) {
        Err(e) => Err(e),
        Ok((pool2, index)) => Ok(
            (ContextV { pool: pool2, ..c }, seq![JvmInstruction::LdcW(index as u16)]),
        ),
    }
}

/// The descriptor a scoped call resolves to, on the scoped class.
pub open spec fn spec_lookup_method_descriptor(
    loader: Seq<PackageV>,
    class_path: Seq<char>,
    method_name: Seq<char>,
) -> Result<Seq<char>, CompileErrorV> {
    match spec_load(loader, class_path) {
        None => Err(CompileErrorV::UnknownMethod { class_name: class_path, method: method_name }),
        Some(cls) => match find_method_v(cls.methods, method_name) {
            None => Err(
                CompileErrorV::UnknownMethod { class_name: class_path, method: method_name },
            ),
            Some(m) => Ok(m.descriptor),
        },
    }
}

/// The size of an expression tree, for termination measures.
pub open spec fn expr_size(e: ExpressionV) -> nat
    decreases e,
{
    match e {
        ExpressionV::Call { method_name, arguments } => 1 + exprs_size(arguments),
        ExpressionV::ObjectExpression { parent, child } => 1 + expr_size(*parent) + expr_size(
            *child,
        ),
        ExpressionV::ChildIdentifier { parent, name } => 1 + expr_size(*parent),
        ExpressionV::Assignment { name, type_def, value } => 1 + expr_size(*value),
        _ => 1,
    }
}

/// The combined size of an expression list.
pub open spec fn exprs_size(es: Seq<ExpressionV>) -> nat
    decreases es,
{
    if es.len() == 0 {
        0
    } else {
        expr_size(es[0]) + 1 + exprs_size(es.drop_first())
    }
}

/// Every expression has positive size.
pub proof fn lemma_expr_size_pos(e: ExpressionV)
    ensures
        expr_size(e) >= 1,
{
    match e {
        ExpressionV::Call { .. } => {},
        ExpressionV::StringLiteral { .. } => {},
        ExpressionV::Variable { .. } => {},
        ExpressionV::StaticIdentifier { .. } => {},
        ExpressionV::ChildIdentifier { .. } => {},
        ExpressionV::ObjectExpression { .. } => {},
        ExpressionV::Assignment { .. } => {},
    }
}

/// Each element weighs less than the whole list.
pub proof fn lemma_exprs_size_elem(es: Seq<ExpressionV>, i: int)
    requires
        0 <= i < es.len(),
    ensures
        expr_size(es[i]) < exprs_size(es),
    decreases es.len(),
{
    if i > 0 {
        lemma_exprs_size_elem(es.drop_first(), i - 1);
        assert(es.drop_first()[i - 1] == es[i]);
    }
}

/// The size of a statement, for termination measures.
pub open spec fn stmt_size(s: StatementV) -> nat {
    match s {
        StatementV::Expression { expression } => 1 + expr_size(expression),
        StatementV::VariableAssignment { name, var_type, is_final, value } => match value {
            Some(e) => 1 + expr_size(e),
            None => 1,
        },
    }
}

/// What emitting an expression does to the session, and the instructions it
/// appends.
pub open spec fn spec_from_expression(e: ExpressionV, c: ContextV) -> Result<
    (ContextV, Seq<JvmInstruction>),
    CompileErrorV,
>
    decreases expr_size(e), 2int,
{
    match e {
        ExpressionV::Call { method_name, arguments } => spec_from_call(method_name, arguments, c),
        ExpressionV::StringLiteral { value } => spec_from_string_literal(value, c),
        ExpressionV::StaticIdentifier { name } => spec_from_static_identifier(name, c),
        ExpressionV::ObjectExpression { parent, child } => match spec_from_expression(*parent, c) {
            Err(e1) => Err(e1),
            Ok((c1, i1)) => match spec_from_expression(*child, c1) {
                Err(e2) => Err(e2),
                Ok((c2, i2)) => Ok((c2, i1 + i2)),
            },
        },
        _ => Err(CompileErrorV::UnsupportedExpression),
    }
}

/// What emitting a call does. With a scoped object: its class supplies the
/// method descriptor through the catalog, the scope is cleared around the
/// arguments and restored, and a virtual invocation followed by a return is
/// emitted. Without one: the call targets the class being compiled through
/// the symbol table, and a static invocation is emitted.
pub open spec fn spec_from_call(
    method_name: Seq<char>,
    args: Seq<ExpressionV>,
    c: ContextV,
) -> Result<(ContextV, Seq<JvmInstruction>), CompileErrorV>
    decreases exprs_size(args), 1int,
{
    match c.scoped_object {
        Some(so) => match spec_lookup_method_descriptor(c.loader, so.class_path, method_name) {
            Err(e) => Err(e),
            Ok(descriptor) => match spec_pool_add_method_ref(
                c.pool,
                so.class_id,
                method_name,
                descriptor,
            ) {
                Err(e) => Err(e),
                Ok((pool2, method_ref)) => match spec_emit_args(
                    args,
                    ContextV { pool: pool2, scoped_object: None, ..c },
                ) {
                    Err(e) => Err(e),
                    Ok((c2, arg_instrs)) => Ok(
                        (
                            ContextV { scoped_object: Some(so), ..c2 },
                            arg_instrs + seq![
                                JvmInstruction::Invokevirtual(method_ref as u16),
                                JvmInstruction::Return,
                            ],
                        ),
                    ),
                },
            },
        },
        None => {
            if c.this_class is None {
                Err(CompileErrorV::ResolutionFailure)
            } else {
                let this = c.this_class.unwrap();
                match find_symbol(c.symbols, method_name) {
                    None => Err(
                        CompileErrorV::UnknownMethod {
                            class_name: this.class_path,
                            method: method_name,
                        },
                    ),
                    Some(symbol) => match spec_pool_add_method_ref(
                        c.pool,
                        this.class_id,
                        method_name,
                        spec_method_descriptor(symbol),
                    ) {
                        Err(e) => Err(e),
                        Ok((pool2, method_ref)) => match spec_emit_args(
                            args,
                            ContextV { pool: pool2, ..c },
                        ) {
                            Err(e) => Err(e),
                            Ok((c2, arg_instrs)) => Ok(
                                (
                                    c2,
                                    arg_instrs + seq![
                                        JvmInstruction::Invokestatic(method_ref as u16),
                                    ],
                                ),
                            ),
                        },
                    },
                }
            }
        },
    }
}

/// Emits call arguments left to right, threading the session through.
pub open spec fn spec_emit_args(args: Seq<ExpressionV>, c: ContextV) -> Result<
    (ContextV, Seq<JvmInstruction>),
    CompileErrorV,
>
    decreases exprs_size(args), 0int,
{
    if args.len() == 0 {
        Ok((c, Seq::empty()))
    } else {
        match spec_from_expression(args[0], c) {
            Err(e) => Err(e),
            Ok((c1, i1)) => match spec_emit_args(args.drop_first(), c1) {
                Err(e) => Err(e),
                Ok((c2, i2)) => Ok((c2, i1 + i2)),
            },
        }
    }
}

/// What emitting one statement does: an expression statement emits its
/// expression; a declaration emits its value, allocates the variable's
/// slot, and stores into it.
pub open spec fn spec_from_statement(s: StatementV, c: ContextV) -> Result<
    (ContextV, Seq<JvmInstruction>),
    CompileErrorV,
>
    decreases stmt_size(s), 3int,
{
    match s {
        StatementV::Expression { expression } => spec_from_expression(expression, c),
        StatementV::VariableAssignment { name, var_type, is_final, value } => match value {
            None => Err(CompileErrorV::UninitialisedVariable { name }),
            Some(e) => match spec_from_expression(e, c) {
                Err(e1) => Err(e1),
                Ok((c1, instrs)) => if c1.stack.len() == 0 || c1.stack.last().len() >= 255 {
                    Err(CompileErrorV::TooManyVariables)
                } else {
                    Ok(
                        (
                            ContextV {
                                stack: c1.stack.update(
                                    c1.stack.len() - 1,
                                    c1.stack.last().push(name),
                                ),
                                ..c1
                            },
                            instrs + seq![
                                JvmInstruction::Astore((c1.stack.last().len() + 1) as u8),
                            ],
                        ),
                    )
                },
            },
        },
    }
}

/// Emission never changes how many scope layers are open: an expression
/// leaves the allocator's shape alone, and a declaration only grows the
/// innermost layer.
pub proof fn lemma_from_expression_stack_len(e: ExpressionV, c: ContextV)
    ensures
        spec_from_expression(e, c) matches Ok((c2, i)) ==> c2.stack.len() == c.stack.len(),
    decreases expr_size(e), 2int,
{
    match e {
        ExpressionV::Call { method_name, arguments } => {
            lemma_from_call_stack_len(method_name, arguments, c);
        },
        ExpressionV::ObjectExpression { parent, child } => {
            lemma_expr_size_pos(*parent);
            lemma_expr_size_pos(*child);
            lemma_from_expression_stack_len(*parent, c);
            if let Ok((c1, i1)) = spec_from_expression(*parent, c) {
                lemma_from_expression_stack_len(*child, c1);
            }
        },
        _ => {},
    }
}

pub proof fn lemma_from_call_stack_len(
    method_name: Seq<char>,
    args: Seq<ExpressionV>,
    c: ContextV,
)
    ensures
        spec_from_call(method_name, args, c) matches Ok((c2, i)) ==> c2.stack.len()
            == c.stack.len(),
    decreases exprs_size(args), 1int,
{
    match c.scoped_object {
        Some(so) => {
            if let Ok(descriptor) = spec_lookup_method_descriptor(
                c.loader,
                so.class_path,
                method_name,
            ) {
                if let Ok((pool2, method_ref)) = spec_pool_add_method_ref(
                    c.pool,
                    so.class_id,
                    method_name,
                    descriptor,
                ) {
                    lemma_emit_args_stack_len(
                        args,
                        ContextV { pool: pool2, scoped_object: None, ..c },
                    );
                }
            }
        },
        None => {
            if c.this_class is Some {
                let this = c.this_class.unwrap();
                if let Some(symbol) = find_symbol(c.symbols, method_name) {
                    if let Ok((pool2, method_ref)) = spec_pool_add_method_ref(
                        c.pool,
                        this.class_id,
                        method_name,
                        spec_method_descriptor(symbol),
                    ) {
                        lemma_emit_args_stack_len(args, ContextV { pool: pool2, ..c });
                    }
                }
            }
        },
    }
}

pub proof fn lemma_emit_args_stack_len(args: Seq<ExpressionV>, c: ContextV)
    ensures
        spec_emit_args(args, c) matches Ok((c2, i)) ==> c2.stack.len() == c.stack.len(),
    decreases exprs_size(args), 0int,
{
    if args.len() > 0 {
        lemma_exprs_size_elem(args, 0);
        lemma_from_expression_stack_len(args[0], c);
        if let Ok((c1, i1)) = spec_from_expression(args[0], c) {
            lemma_emit_args_stack_len(args.drop_first(), c1);
        }
    }
}

pub proof fn lemma_from_statement_stack_len(s: StatementV, c: ContextV)
    ensures
        spec_from_statement(s, c) matches Ok((c2, i)) ==> c2.stack.len() == c.stack.len(),
{
    match s {
        StatementV::Expression { expression } => {
            lemma_from_expression_stack_len(expression, c);
        },
        StatementV::VariableAssignment { name, var_type, is_final, value } => {
            if let Some(e) = value {
                lemma_from_expression_stack_len(e, c);
            }
        },
    }
}

/// A statement whose leading resolution step fails: the leftmost bare name
/// of its expression resolves to nothing. Emission of such a statement
/// fails before it touches the constant pool.
pub open spec fn expr_head_unresolved(e: ExpressionV, c: ContextV) -> bool
    decreases e,
{
    match e {
        ExpressionV::StaticIdentifier { name } => spec_ctx_resolve(c, name) is Err,
        ExpressionV::ObjectExpression { parent, child } => expr_head_unresolved(*parent, c),
        _ => false,
    }
}

/// The frame emission keeps of the session: catalog, class under
/// compilation and symbol table never change during emission.
pub open spec fn emit_frame(a: ContextV, b: ContextV) -> bool {
    &&& b.loader == a.loader
    &&& b.this_class == a.this_class
    &&& b.symbols == a.symbols
}

/// The contract every emission function meets: success lands exactly on the
/// emission specification and appends exactly its instructions; failure
/// reports exactly its error, and a failure of the leading resolution step
/// leaves the session and the instructions untouched.
pub open spec fn emit_outcome(
    spec_r: Result<(ContextV, Seq<JvmInstruction>), CompileErrorV>,
    r: EmptyCompileResult,
    pre: ContextV,
    post: ContextV,
    instrs_pre: Seq<JvmInstruction>,
    instrs_post: Seq<JvmInstruction>,
) -> bool {
    &&& emit_frame(pre, post)
    &&& match spec_r {
        Ok((c2, emitted)) => {
            &&& r is Ok
            &&& post == c2
            &&& instrs_post == instrs_pre + emitted
        },
        Err(ev) => r is Err && r->Err_0@ == ev,
    }
}

/// Emits one statement's instructions.
pub fn from(
    statement: &Statement,
    compilation_context: &mut CompilationContext,
    instructions: &mut Vec<JvmInstruction>,
) -> (r: EmptyCompileResult)
    requires
        ctx_wf(old(compilation_context)@),
        old(compilation_context)@.this_class is Some,
    ensures
        emit_outcome(
            spec_from_statement(stmt_view(*statement), old(compilation_context)@),
            r,
            old(compilation_context)@,
            final(compilation_context)@,
            old(instructions)@,
            final(instructions)@,
        ),
        r is Ok ==> ctx_wf(final(compilation_context)@),
        (statement matches Statement::Expression { expression } && expr_head_unresolved(
            expr_view(*expression),
            old(compilation_context)@,
        )) ==> {
            &&& r is Err
            &&& final(compilation_context)@ == old(compilation_context)@
            &&& final(instructions)@ == old(instructions)@
        },
    decreases *statement, 3int,
{
    match statement {
        Statement::Expression { expression } => from_expression(
            expression,
            compilation_context,
            instructions,
        ),
        Statement::VariableAssignment { name, var_type, is_final, value } => {
            from_variable_assignment(
                name,
                var_type,
                *is_final,
                value,
                compilation_context,
                instructions,
            )
        },
    }
}

/// Emits one expression's instructions.
pub fn from_expression(
    expression: &Expression,
    compilation_context: &mut CompilationContext,
    instructions: &mut Vec<JvmInstruction>,
) -> (r: EmptyCompileResult)
    requires
        ctx_wf(old(compilation_context)@),
        old(compilation_context)@.this_class is Some,
    ensures
        emit_outcome(
            spec_from_expression(expr_view(*expression), old(compilation_context)@),
            r,
            old(compilation_context)@,
            final(compilation_context)@,
            old(instructions)@,
            final(instructions)@,
        ),
        r is Ok ==> ctx_wf(final(compilation_context)@),
        expr_head_unresolved(expr_view(*expression), old(compilation_context)@) ==> {
            &&& r is Err
            &&& final(compilation_context)@ == old(compilation_context)@
            &&& final(instructions)@ == old(instructions)@
        },
    decreases expr_size(expr_view(*expression)), 2int,
{
    match expression {
        Expression::Call { method_name, arguments } => from_call_expression(
            method_name,
            arguments,
            compilation_context,
            instructions,
        ),
        Expression::StringLiteral { value } => from_string_literal(
            value,
            compilation_context,
            instructions,
        ),
        Expression::StaticIdentifier { name } => from_static_identifier(
            name,
            compilation_context,
            instructions,
        ),
        Expression::ObjectExpression { parent, child } => from_object_expression(
            parent,
            child,
            compilation_context,
            instructions,
        ),
        Expression::ChildIdentifier { .. } => Err(CompileError::UnsupportedExpression),
        Expression::Variable { .. } => Err(CompileError::UnsupportedExpression),
        Expression::Assignment { .. } => Err(CompileError::UnsupportedExpression),
    }
}

/// Emits a chained access: the parent, then the child, the scoped object
/// threading between them.
pub fn from_object_expression(
    parent: &Expression,
    child: &Expression,
    compilation_context: &mut CompilationContext,
    instructions: &mut Vec<JvmInstruction>,
) -> (r: EmptyCompileResult)
    requires
        ctx_wf(old(compilation_context)@),
        old(compilation_context)@.this_class is Some,
    ensures
        emit_outcome(
            spec_from_expression(
                ExpressionV::ObjectExpression {
                    parent: Box::new(expr_view(*parent)),
                    child: Box::new(expr_view(*child)),
                },
                old(compilation_context)@,
            ),
            r,
            old(compilation_context)@,
            final(compilation_context)@,
            old(instructions)@,
            final(instructions)@,
        ),
        r is Ok ==> ctx_wf(final(compilation_context)@),
        expr_head_unresolved(expr_view(*parent), old(compilation_context)@) ==> {
            &&& r is Err
            &&& final(compilation_context)@ == old(compilation_context)@
            &&& final(instructions)@ == old(instructions)@
        },
    decreases expr_size(expr_view(*parent)) + expr_size(expr_view(*child)), 3int,
{
    proof {
        lemma_expr_size_pos(expr_view(*parent));
        lemma_expr_size_pos(expr_view(*child));
    }
    match from_expression(parent, compilation_context, instructions) {
        Ok(_) => {},
        Err(e) => {
            return Err(e);
        },
    }
    match from_expression(child, compilation_context, instructions) {
        Ok(_) => {},
        Err(e) => {
            return Err(e);
        },
    }
    proof {
        if let Ok((c1, i1)) = spec_from_expression(
            expr_view(*parent),
            old(compilation_context)@,
        ) {
            if let Ok((c2, i2)) = spec_from_expression(expr_view(*child), c1) {
                assert((old(instructions)@ + i1) + i2 =~= old(instructions)@ + (i1 + i2));
            }
        }
    }
    Ok(())
}

/// Emits a static identifier, as resolution decides.
pub fn from_static_identifier(
    name: &String,
    compilation_context: &mut CompilationContext,
    instructions: &mut Vec<JvmInstruction>,
) -> (r: EmptyCompileResult)
    requires
        ctx_wf(old(compilation_context)@),
        old(compilation_context)@.this_class is Some,
    ensures
        emit_outcome(
            spec_from_static_identifier(name@, old(compilation_context)@),
            r,
            old(compilation_context)@,
            final(compilation_context)@,
            old(instructions)@,
            final(instructions)@,
        ),
        r is Ok ==> ctx_wf(final(compilation_context)@),
        r is Err ==> final(instructions)@ == old(instructions)@,
        spec_ctx_resolve(old(compilation_context)@, name@) is Err ==> {
            &&& r is Err
            &&& final(compilation_context)@ == old(compilation_context)@
            &&& final(instructions)@ == old(instructions)@
        },
{
    let resolved = match compilation_context.resolve(name) {
        Ok(entity) => entity,
        Err(e) => {
            return Err(e);
        },
    };

    match resolved {
        crate::compiler::resolver::ResolvedEntity::VariableOnStack(stack_index) => {
            instructions.push(JvmInstruction::Aload(stack_index));
            proof {
                assert(instructions@ =~= old(instructions)@ + seq![
                    JvmInstruction::Aload(stack_index),
                ]);
            }
        },
        crate::compiler::resolver::ResolvedEntity::StaticClass(class_path) => {
            let class_descriptor = slashed_of(&class_path);
            let class_id = match wrap(
                pool_add_class(&mut compilation_context.constant_pool, class_descriptor.as_str()),
            ) {
                Ok(id) => id,
                Err(e) => {
                    return Err(e);
                },
            };
            compilation_context.push_scoped_object(class_path, class_id);
            proof {
                assert(instructions@ =~= old(instructions)@ + Seq::<JvmInstruction>::empty());
            }
        },
        crate::compiler::resolver::ResolvedEntity::StaticFieldReference {
            parent_id,
            path,
            full_name,
            descriptor,
        } => {
            let field_class_id = match wrap(
                pool_add_class(&mut compilation_context.constant_pool, full_name.as_str()),
            ) {
                Ok(id) => id,
                Err(e) => {
                    return Err(e);
                },
            };
            let field_ref = match wrap(
                pool_add_field_ref(
                    &mut compilation_context.constant_pool,
                    parent_id,
                    name.as_str(),
                    descriptor.as_str(),
                ),
            ) {
                Ok(id) => id,
                Err(e) => {
                    return Err(e);
                },
            };
            instructions.push(JvmInstruction::Getstatic(field_ref));
            compilation_context.push_scoped_object(path, field_class_id);
            proof {
                assert(instructions@ =~= old(instructions)@ + seq![
                    JvmInstruction::Getstatic(field_ref),
                ]);
            }
        },
    }
    Ok(())
}

/// Emits a string literal: records its pool entry and loads it.
pub fn from_string_literal(
    value: &String,
    compilation_context: &mut CompilationContext,
    instructions: &mut Vec<JvmInstruction>,
) -> (r: EmptyCompileResult)
    requires
        ctx_wf(old(compilation_context)@),
    ensures
        emit_outcome(
            spec_from_string_literal(value@, old(compilation_context)@),
            r,
            old(compilation_context)@,
            final(compilation_context)@,
            old(instructions)@,
            final(instructions)@,
        ),
        r is Ok ==> ctx_wf(final(compilation_context)@),
        r is Err ==> final(instructions)@ == old(instructions)@,
{
    let index = match wrap(
        pool_add_string(&mut compilation_context.constant_pool, value.as_str()),
    ) {
        Ok(id) => id,
        Err(e) => {
            return Err(e);
        },
    };
    instructions.push(JvmInstruction::LdcW(index));
    proof {
        assert(instructions@ =~= old(instructions)@ + seq![JvmInstruction::LdcW(index)]);
    }
    Ok(())
}

/// The descriptor of the named method on the scoped class, through the
/// catalog.
fn lookup_method_descriptor(
    class_path: &String,
    method_name: &String,
    compilation_context: &CompilationContext,
) -> (r: Result<String, CompileError>)
    ensures
        match spec_lookup_method_descriptor(
            compilation_context@.loader,
            class_path@,
            method_name@,
        ) {
            Ok(d) => r is Ok && r.unwrap()@ == d,
            Err(ev) => r is Err && r->Err_0@ == ev,
        },
{
    match compilation_context.class_loader.load(class_path) {
        None => Err(
            CompileError::UnknownMethod {
                class_name: class_path.clone(),
                method: method_name.clone(),
            },
        ),
        Some(field_class) => match field_class.method_named(method_name) {
            None => Err(
                CompileError::UnknownMethod {
                    class_name: class_path.clone(),
                    method: method_name.clone(),
                },
            ),
            Some(m) => Ok(m.descriptor().clone()),
        },
    }
}

/// Emits a call: scoped calls resolve on the scoped class and invoke
/// virtually (then return); unscoped calls resolve on the class being
/// compiled and invoke statically.
#[verifier::loop_isolation(false)]
pub fn from_call_expression(
    method_name: &String,
    arguments: &Vec<Expression>,
    compilation_context: &mut CompilationContext,
    instructions: &mut Vec<JvmInstruction>,
) -> (r: EmptyCompileResult)
    requires
        ctx_wf(old(compilation_context)@),
        old(compilation_context)@.this_class is Some,
    ensures
        emit_outcome(
            spec_from_call(method_name@, exprs_view(arguments@), old(compilation_context)@),
            r,
            old(compilation_context)@,
            final(compilation_context)@,
            old(instructions)@,
            final(instructions)@,
        ),
        r is Ok ==> ctx_wf(final(compilation_context)@),
    decreases exprs_size(exprs_view(arguments@)), 1int,
{
    proof {
        lemma_exprs_view(arguments@);
    }
    if compilation_context.scoped_object.is_some() {
        let class_path = compilation_context.scoped_class_path().unwrap();
        let class_id = compilation_context.scoped_class_id().unwrap();

        let method_descriptor = match lookup_method_descriptor(
            &class_path,
            method_name,
            compilation_context,
        ) {
            Ok(d) => d,
            Err(e) => {
                return Err(e);
            },
        };
        let method_ref = match wrap(
            pool_add_method_ref(
                &mut compilation_context.constant_pool,
                class_id,
                method_name.as_str(),
                method_descriptor.as_str(),
            ),
        ) {
            Ok(id) => id,
            Err(e) => {
                return Err(e);
            },
        };

        compilation_context.clear_scoped_object();
        match emit_arguments(arguments, compilation_context, instructions) {
            Ok(_) => {},
            Err(e) => {
                return Err(e);
            },
        }
        compilation_context.push_scoped_object(class_path, class_id);

        instructions.push(JvmInstruction::Invokevirtual(method_ref));
        instructions.push(JvmInstruction::Return);
        proof {
            assert(final(instructions)@ =~= old(instructions)@ + (spec_from_call(
                method_name@,
                exprs_view(arguments@),
                old(compilation_context)@,
            )->Ok_0.1));
        }
        Ok(())
    } else {
        let class_path = compilation_context.this_class_path();
        let class_id = compilation_context.this_class_id();

        if !compilation_context.symbol_table.contains_method(method_name) {
            return Err(
                CompileError::UnknownMethod { class_name: class_path, method: method_name.clone() },
            );
        }

        let method_descriptor = {
            let method = compilation_context.symbol_table.method_named(method_name).unwrap();
            method.descriptor()
        };

        let method_ref = match wrap(
            pool_add_method_ref(
                &mut compilation_context.constant_pool,
                class_id,
                method_name.as_str(),
                method_descriptor.as_str(),
            ),
        ) {
            Ok(id) => id,
            Err(e) => {
                return Err(e);
            },
        };

        match emit_arguments(arguments, compilation_context, instructions) {
            Ok(_) => {},
            Err(e) => {
                return Err(e);
            },
        }

        instructions.push(JvmInstruction::Invokestatic(method_ref));
        proof {
            assert(final(instructions)@ =~= old(instructions)@ + (spec_from_call(
                method_name@,
                exprs_view(arguments@),
                old(compilation_context)@,
            )->Ok_0.1));
        }
        Ok(())
    }
}

/// Emits the call's arguments, left to right.
#[verifier::loop_isolation(false)]
fn emit_arguments(
    arguments: &Vec<Expression>,
    compilation_context: &mut CompilationContext,
    instructions: &mut Vec<JvmInstruction>,
) -> (r: EmptyCompileResult)
    requires
        ctx_wf(old(compilation_context)@),
        old(compilation_context)@.this_class is Some,
    ensures
        emit_outcome(
            spec_emit_args(exprs_view(arguments@), old(compilation_context)@),
            r,
            old(compilation_context)@,
            final(compilation_context)@,
            old(instructions)@,
            final(instructions)@,
        ),
        r is Ok ==> ctx_wf(final(compilation_context)@),
    decreases exprs_size(exprs_view(arguments@)), 0int,
{
    let ghost args = exprs_view(arguments@);
    proof {
        lemma_exprs_view(arguments@);
        assert(args.skip(0) =~= args);
    }
    let n = arguments.len();
    let ghost instrs0 = instructions@;
    let ghost mut done: Seq<JvmInstruction> = Seq::empty();
    proof {
        assert(instructions@ =~= instrs0 + done);
    }
    for i in 0..n
        invariant
            n == arguments@.len(),
            args == exprs_view(arguments@),
            ctx_wf(compilation_context@),
            compilation_context@.this_class is Some,
            emit_frame(old(compilation_context)@, compilation_context@),
            instructions@ == instrs0 + done,
            spec_emit_args(args, old(compilation_context)@) == (match spec_emit_args(
                args.skip(i as int),
                compilation_context@,
            ) {
                Err(e) => Err::<(ContextV, Seq<JvmInstruction>), CompileErrorV>(e),
                Ok((c2, rest)) => Ok((c2, done + rest)),
            }),
    {
        proof {
            assert(args.skip(i as int)[0] == args[i as int]);
            assert(args[i as int] == expr_view(arguments@[i as int]));
            assert(args.skip(i as int).drop_first() =~= args.skip(i + 1));
            lemma_exprs_size_elem(args, i as int);
        }
        let ghost ctx_pre = compilation_context@;
        let ghost instrs_pre = instructions@;
        let ghost done_pre = done;
        match from_expression(&arguments[i], compilation_context, instructions) {
            Ok(_) => {
                proof {
                    let step = spec_from_expression(args[i as int], ctx_pre);
                    done = done_pre + step->Ok_0.1;
                    assert(instructions@ =~= instrs0 + done);
                    if let Ok((c2, rest)) = spec_emit_args(args.skip(i + 1), compilation_context@) {
                        assert(done_pre + (step->Ok_0.1 + rest) =~= done + rest);
                    }
                }
            },
            Err(e) => {
                return Err(e);
            },
        }
    }
    proof {
        assert(args.skip(n as int) =~= Seq::<ExpressionV>::empty());
        assert(done + Seq::<JvmInstruction>::empty() =~= done);
    }
    Ok(())
}

/// Emits a variable declaration: the initialising value, then the store
/// into the newly allocated slot.
pub fn from_variable_assignment(
    name: &String,
    _var_type: &Option<String>,
    _is_final: bool,
    value: &Option<Expression>,
    compilation_context: &mut CompilationContext,
    instructions: &mut Vec<JvmInstruction>,
) -> (r: EmptyCompileResult)
    requires
        ctx_wf(old(compilation_context)@),
        old(compilation_context)@.this_class is Some,
    ensures
        emit_outcome(
            spec_from_statement(
                StatementV::VariableAssignment {
                    name: name@,
                    var_type: crate::ast::expression::opt_string_view(*_var_type),
                    is_final: _is_final,
                    value: match value {
                        Some(e) => Some(expr_view(*e)),
                        None => None,
                    },
                },
                old(compilation_context)@,
            ),
            r,
            old(compilation_context)@,
            final(compilation_context)@,
            old(instructions)@,
            final(instructions)@,
        ),
        r is Ok ==> ctx_wf(final(compilation_context)@),
    decreases (match value {
        Some(v) => 1 + expr_size(expr_view(*v)),
        None => 1nat,
    }), 2int,
{
    let value = match value {
        Some(v) => v,
        None => {
            return Err(CompileError::UninitialisedVariable { name: name.clone() });
        },
    };

    match from_expression(value, compilation_context, instructions) {
        Ok(_) => {},
        Err(e) => {
            return Err(e);
        },
    }

    if compilation_context.stack.count() >= 255 {
        return Err(CompileError::TooManyVariables);
    }
    let id = compilation_context.stack.push(name);
    instructions.push(JvmInstruction::Astore(id));
    proof {
        assert(instructions@ =~= old(instructions)@ + (spec_from_statement(
            StatementV::VariableAssignment {
                name: name@,
                var_type: crate::ast::expression::opt_string_view(*_var_type),
                is_final: _is_final,
                value: Some(expr_view(*value)),
            },
            old(compilation_context)@,
        ))->Ok_0.1);
    }
    Ok(())
}

} // verus!
