use vstd::prelude::*;

use ristretto_classfile::attributes::Instruction as RInstruction;
use ristretto_classfile::{ClassFile, ConstantPool, Method};

use crate::ast::class::{AstClass, ClassV, MethodV};
use crate::compiler::instructions::JvmInstruction;
use crate::compiler::method_builder::{
    emitted_methods_view, spec_method_emit, EmittedMethod, EmittedMethodV,
};
use crate::compiler::pool::{pool_add_class, pool_view, PoolConst};
use crate::compiler::result::{wrap, CompileErrorV, CompileResult};
use crate::compiler::{ctx_wf, CompilationContext, ContextV, ObjectReferenceV};

verus! {

#[verifier::external_type_specification]
#[verifier::external_body]
pub struct ExMethod(Method);

#[verifier::external_type_specification]
#[verifier::external_body]
pub struct ExClassAccessFlags(ristretto_classfile::ClassAccessFlags);

#[verifier::external_type_specification]
#[verifier::external_body]
pub struct ExField(ristretto_classfile::Field);

#[verifier::external_type_specification]
#[verifier::external_body]
pub struct ExAttribute(ristretto_classfile::attributes::Attribute);

#[verifier::external_type_specification]
pub struct ExVersion(ristretto_classfile::Version);

#[verifier::external_type_specification]
pub struct ExClassFile(ClassFile);

/// The class-file library's verdict on an assembled description: whether a
/// class file built from exactly these pool entries, class indices and
/// emitted methods passes the library's structural verification. The
/// verdict is a function of these pieces alone.
pub uninterp spec fn ristretto_accepts(
    pool: Seq<PoolConst>,
    this_class: int,
    super_class: int,
    methods: Seq<EmittedMethodV>,
) -> bool;

/// What an accepted class file looks like from the outside: stamped with
/// the current class-file version, holding exactly the given pool and
/// class indices, one lowered method per emitted method, and nothing else.
pub open spec fn assembled_class_file(
    cf: ClassFile,
    pool: Seq<PoolConst>,
    this_class: int,
    super_class: int,
    methods: Seq<EmittedMethodV>,
) -> bool {
    &&& cf.version == (ristretto_classfile::Version::Java21 { minor: 0 })
    &&& pool_view(cf.constant_pool) == pool
    &&& cf.this_class == this_class
    &&& cf.super_class == super_class
    &&& cf.methods@.len() == methods.len()
    &&& cf.interfaces@.len() == 0
    &&& cf.fields@.len() == 0
    &&& cf.attributes@.len() == 0
}

/// Relies on Clone for ConstantPool: a derived clone of the entry table,
/// holding the same entries.
#[verifier::external_body]
pub fn clone_pool(p: &ConstantPool) -> (r: ConstantPool)
    ensures
        pool_view(r) == pool_view(*p),
{
    p.clone()
}

/// Relies on the instruction constructors of the class-file library: each
/// emitted instruction becomes the library's value of the same opcode and
/// operand.
#[verifier::external_body]
fn lower_instruction(i: &JvmInstruction) -> RInstruction {
    match i {
        JvmInstruction::Aload(idx) => RInstruction::Aload(*idx),
        JvmInstruction::Astore(idx) => RInstruction::Astore(*idx),
        JvmInstruction::LdcW(idx) => RInstruction::Ldc_w(*idx),
        JvmInstruction::Getstatic(idx) => RInstruction::Getstatic(*idx),
        JvmInstruction::Invokevirtual(idx) => RInstruction::Invokevirtual(*idx),
        JvmInstruction::Invokestatic(idx) => RInstruction::Invokestatic(*idx),
        JvmInstruction::Areturn => RInstruction::Areturn,
        JvmInstruction::Return => RInstruction::Return,
    }
}

/// Relies on the Method and Code-attribute constructors of the class-file
/// library: one emitted method's fields become the corresponding method
/// structure with one code attribute. A converter of the assembly step
/// below, which is its only caller.
#[verifier::external_body]
fn build_method(m: &EmittedMethod, code: Vec<RInstruction>) -> Method {
    Method {
        access_flags: ristretto_classfile::MethodAccessFlags::from_bits_truncate(m.access_flags),
        name_index: m.name_index,
        descriptor_index: m.descriptor_index,
        attributes: vec![
            ristretto_classfile::attributes::Attribute::Code {
                name_index: m.code_name_index,
                max_stack: m.max_stack,
                max_locals: m.max_locals,
                code,
                exception_table: vec![],
                attributes: vec![],
            },
        ],
    }
}

/// Relies on the ClassFile constructor and on ClassFile::verify: lowers
/// each emitted method one for one through the converters above, assembles
/// the structural description, and has the library check it. Verification
/// reads only the assembled structure, so its verdict is a function of the
/// given pieces; an accepted class file holds exactly what was assembled.
#[verifier::external_body]
fn assemble_class_file(
    constant_pool: ConstantPool,
    this_class: u16,
    super_class: u16,
    methods: &Vec<EmittedMethod>,
) -> (r: Result<ClassFile, ristretto_classfile::Error>)
    ensures
        (r is Ok) == ristretto_accepts(
            pool_view(constant_pool),
            this_class as int,
            super_class as int,
            emitted_methods_view(methods@),
        ),
        r matches Ok(cf) ==> assembled_class_file(
            cf,
            pool_view(constant_pool),
            this_class as int,
            super_class as int,
            emitted_methods_view(methods@),
        ),
{
    let mut lowered: Vec<Method> = Vec::new();
    for m in methods.iter() {
        let code: Vec<RInstruction> = m.instructions.iter().map(lower_instruction).collect();
        lowered.push(build_method(m, code));
    }
    let class_file = ClassFile {
        version: ristretto_classfile::JAVA_21,
        constant_pool,
        this_class,
        super_class,
        methods: lowered,
        ..Default::default()
    };
    class_file.verify()?;
    Ok(class_file)
}

/// What emitting every method of the class does, in declaration order.
pub open spec fn spec_emit_methods(ms: Seq<MethodV>, c: ContextV) -> Result<
    (ContextV, Seq<EmittedMethodV>),
    CompileErrorV,
>
    decreases ms.len(),
{
    if ms.len() == 0 {
        Ok((c, Seq::empty()))
    } else {
        match spec_method_emit(ms[0], c) {
            Err(e) => Err(e),
            Ok((c1, m1)) => match spec_emit_methods(ms.drop_first(), c1) {
                Err(e) => Err(e),
                Ok((c2, rest)) => Ok((c2, seq![m1] + rest)),
            },
        }
    }
}

/// What emitting a whole class does: its own class entry, the implicit
/// superclass entry, registration of the class under compilation, then
/// every method.
pub open spec fn spec_emit_class(class: ClassV, c: ContextV) -> Result<
    (ContextV, int, int, Seq<EmittedMethodV>),
    CompileErrorV,
> {
    match crate::compiler::instructions::spec_pool_add_class(c.pool, class.name) {
        Err(e) => Err(e),
        Ok((pool1, this_class)) => match crate::compiler::instructions::spec_pool_add_class(
            pool1,
            "java/lang/Object"@,
        ) {
            Err(e) => Err(e),
            Ok((pool2, super_class)) => {
                let c1 = ContextV {
                    pool: pool2,
                    this_class: Some(
                        ObjectReferenceV { class_path: class.name, class_id: this_class },
                    ),
                    ..c
                };
                match spec_emit_methods(class.methods, c1) {
                    Err(e) => Err(e),
                    Ok((c2, ms)) => Ok((c2, this_class, super_class, ms)),
                }
            },
        },
    }
}

/// Emits every method of the class, in declaration order.
#[verifier::loop_isolation(false)]
pub fn map_methods(class: &AstClass, compilation_context: &mut CompilationContext) -> (r:
    CompileResult<Vec<EmittedMethod>>)
    requires
        ctx_wf(old(compilation_context)@),
        old(compilation_context)@.this_class is Some,
    ensures
        match spec_emit_methods(class@.methods, old(compilation_context)@) {
            Ok((c2, ms)) => {
                &&& r is Ok
                &&& final(compilation_context)@ == c2
                &&& emitted_methods_view(r.unwrap()@) == ms
                &&& ctx_wf(final(compilation_context)@)
                &&& final(compilation_context)@.this_class == old(
                    compilation_context,
                )@.this_class
            },
            Err(ev) => r is Err && r->Err_0@ == ev,
        },
{
    let ghost ms = class@.methods;
    let mut methods: Vec<EmittedMethod> = Vec::new();
    let n = class.methods.len();
    let ghost mut done: Seq<EmittedMethodV> = Seq::empty();
    proof {
        assert(ms.skip(0) =~= ms);
        assert(emitted_methods_view(methods@) =~= done);
    }
    for i in 0..n
        invariant
            n == class.methods@.len(),
            ms == class@.methods,
            ctx_wf(compilation_context@),
            compilation_context@.this_class is Some,
            crate::compiler::instructions::emit_frame(
                old(compilation_context)@,
                compilation_context@,
            ),
            emitted_methods_view(methods@) == done,
            spec_emit_methods(ms, old(compilation_context)@) == (match spec_emit_methods(
                ms.skip(i as int),
                compilation_context@,
            ) {
                Err(e) => Err::<(ContextV, Seq<EmittedMethodV>), CompileErrorV>(e),
                Ok((c2, rest)) => Ok((c2, done + rest)),
            }),
    {
        proof {
            assert(ms.skip(i as int)[0] == ms[i as int]);
            assert(ms[i as int] == class.methods@[i as int]@);
            assert(ms.skip(i as int).drop_first() =~= ms.skip(i + 1));
        }
        let ghost ctx_pre = compilation_context@;
        let ghost done_pre = done;
        match crate::compiler::method_builder::from(&class.methods[i], compilation_context) {
            Ok(m) => {
                let ghost mv = m@;
                methods.push(m);
                proof {
                    done = done_pre.push(mv);
                    assert(emitted_methods_view(methods@) =~= done);
                    if let Ok((c2, rest)) = spec_emit_methods(
                        ms.skip(i + 1),
                        compilation_context@,
                    ) {
                        assert(done_pre + (seq![mv] + rest) =~= done + rest);
                    }
                }
            },
            Err(e) => {
                return Err(e);
            },
        }
    }
    proof {
        assert(ms.skip(n as int) =~= Seq::<MethodV>::empty());
        assert(done + Seq::<EmittedMethodV>::empty() =~= done);
    }
    Ok(methods)
}

/// Assembles the emitted class into the class-file library's structural
/// description and has the library verify it. What precedes the library
/// call is pinned by the emission specification; the library's verifier
/// alone decides the final acceptance.
pub fn from(class: &AstClass, compilation_context: &mut CompilationContext) -> (r: CompileResult<
    ClassFile,
>)
    requires
        ctx_wf(old(compilation_context)@),
    ensures
        match spec_emit_class(class@, old(compilation_context)@) {
            Ok((c2, this_class, super_class, ms)) => {
                &&& final(compilation_context)@ == c2
                &&& (r is Ok) == ristretto_accepts(c2.pool, this_class, super_class, ms)
                &&& r is Err ==> r->Err_0@ == CompileErrorV::Ristretto
                &&& r matches Ok(cf) ==> assembled_class_file(
                    cf,
                    c2.pool,
                    this_class,
                    super_class,
                    ms,
                )
            },
            Err(ev) => r is Err && r->Err_0@ == ev,
        },
{
    let this_class = match wrap(
        pool_add_class(&mut compilation_context.constant_pool, class.name().as_str()),
    ) {
        Ok(idx) => idx,
        Err(e) => {
            return Err(e);
        },
    };
    let super_class = match wrap(
        pool_add_class(&mut compilation_context.constant_pool, "java/lang/Object"),
    ) {
        Ok(idx) => idx,
        Err(e) => {
            return Err(e);
        },
    };

    compilation_context.register_this_class(class.name().clone(), this_class);

    let methods = match map_methods(class, compilation_context) {
        Ok(ms) => ms,
        Err(e) => {
            return Err(e);
        },
    };

    let pool_copy = clone_pool(&compilation_context.constant_pool);
    assemble_emitted(pool_copy, this_class, super_class, methods)
}

/// Lowers the emitted methods into the class-file library's structures and
/// assembles and verifies the class: the library accepts exactly when its
/// verifier accepts this description, and an accepted class file holds
/// exactly what was assembled.
pub fn assemble_emitted(
    constant_pool: ConstantPool,
    this_class: u16,
    super_class: u16,
    methods: Vec<EmittedMethod>,
) -> (r: CompileResult<ClassFile>)
    ensures
        (r is Ok) == ristretto_accepts(
            pool_view(constant_pool),
            this_class as int,
            super_class as int,
            emitted_methods_view(methods@),
        ),
        r is Err ==> r->Err_0@ == CompileErrorV::Ristretto,
        r matches Ok(cf) ==> assembled_class_file(
            cf,
            pool_view(constant_pool),
            this_class as int,
            super_class as int,
            emitted_methods_view(methods@),
        ),
{
    wrap(assemble_class_file(constant_pool, this_class, super_class, &methods))
}

} // verus!
