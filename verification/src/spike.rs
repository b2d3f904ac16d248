use vstd::prelude::*;

use ristretto_classfile::{ClassFile, ConstantPool};

use crate::compiler::instructions::JvmInstruction;
use crate::compiler::method_builder::EmittedMethod;
use crate::compiler::pool::{
    pool_add_class, pool_add_field_ref, pool_add_method_ref, pool_add_string, pool_add_utf8,
    pool_view, PoolConst,
};
use crate::compiler::result::{wrap, CompileError, CompileErrorV, CompileResult};

verus! {

/// The constant-pool entries the fixed demonstration class records, in
/// order: the class itself and its superclass, the entry-point method's
/// names, the console stream's classes, field and method, the greeting, and
/// the code attribute's name.
pub open spec fn spec_hello_world_pool(class_name: Seq<char>) -> Seq<PoolConst> {
    seq![
        PoolConst::Utf8(class_name),
        PoolConst::Class(1),
        PoolConst::Utf8("java/lang/Object"@),
        PoolConst::Class(3),
        PoolConst::Utf8("main"@),
        PoolConst::Utf8("([Ljava/lang/String;)V"@),
        PoolConst::Utf8("java/lang/System"@),
        PoolConst::Class(7),
        PoolConst::Utf8("java/io/PrintStream"@),
        PoolConst::Class(9),
        PoolConst::Utf8("out"@),
        PoolConst::Utf8("Ljava/io/PrintStream;"@),
        PoolConst::NameAndType { name_index: 11, descriptor_index: 12 },
        PoolConst::FieldRef { class_index: 8, name_and_type_index: 13 },
        PoolConst::Utf8("println"@),
        PoolConst::Utf8("(Ljava/lang/String;)V"@),
        PoolConst::NameAndType { name_index: 15, descriptor_index: 16 },
        PoolConst::MethodRef { class_index: 10, name_and_type_index: 17 },
        PoolConst::Utf8("Hello World"@),
        PoolConst::Str(19),
        PoolConst::Utf8("Code"@),
    ]
}

/// The demonstration entry point as an emitted method: public and static,
/// named and described by the recorded entries, one reserved local slot.
pub open spec fn spec_hello_world_method() -> crate::compiler::method_builder::EmittedMethodV {
    crate::compiler::method_builder::EmittedMethodV {
        access_flags: 9,
        name_index: 5,
        descriptor_index: 6,
        code_name_index: 21,
        max_stack: 2,
        max_locals: 1,
        instructions: spec_hello_world_code(),
    }
}

/// The instructions of the demonstration entry point: read the console
/// stream, load the greeting, print it, return.
pub open spec fn spec_hello_world_code() -> Seq<JvmInstruction> {
    seq![
        JvmInstruction::Getstatic(14),
        JvmInstruction::LdcW(20),
        JvmInstruction::Invokevirtual(18),
        JvmInstruction::Return,
    ]
}

/// Builds the fixed demonstration class by hand: a class of the given name
/// whose one public static entry point prints the greeting. The build
/// always succeeds, and the pool it records and the code it emits are
/// pinned entry for entry.
pub fn hello_world_class_description(class_name: &str) -> (r: CompileResult<
    (ConstantPool, u16, u16, EmittedMethod),
>)
    ensures
        r is Ok,
        pool_view(r->Ok_0.0) == spec_hello_world_pool(class_name@),
        r->Ok_0.1 == 2,
        r->Ok_0.2 == 4,
        r->Ok_0.3@ == spec_hello_world_method(),
{
    let mut constant_pool = crate::compiler::pool::new_constant_pool();

    // Class and superclass
    let this_class = match wrap(pool_add_class(&mut constant_pool, class_name)) {
        Ok(i) => i,
        Err(e) => {
            return Err(e);
        },
    };
    let super_class = match wrap(pool_add_class(&mut constant_pool, "java/lang/Object")) {
        Ok(i) => i,
        Err(e) => {
            return Err(e);
        },
    };

    // Method name and descriptor
    let main_name_index = match wrap(pool_add_utf8(&mut constant_pool, "main")) {
        Ok(i) => i,
        Err(e) => {
            return Err(e);
        },
    };
    let main_descriptor_index = match wrap(
        pool_add_utf8(&mut constant_pool, "([Ljava/lang/String;)V"),
    ) {
        Ok(i) => i,
        Err(e) => {
            return Err(e);
        },
    };

    // The console stream's classes, field and method
    let _system_class = match wrap(pool_add_class(&mut constant_pool, "java/lang/System")) {
        Ok(i) => i,
        Err(e) => {
            return Err(e);
        },
    };
    let _print_stream_class = match wrap(
        pool_add_class(&mut constant_pool, "java/io/PrintStream"),
    ) {
        Ok(i) => i,
        Err(e) => {
            return Err(e);
        },
    };
    let system_out = match wrap(
        pool_add_field_ref(&mut constant_pool, 8, "out", "Ljava/io/PrintStream;"),
    ) {
        Ok(i) => i,
        Err(e) => {
            return Err(e);
        },
    };
    let println_method = match wrap(
        pool_add_method_ref(&mut constant_pool, 10, "println", "(Ljava/lang/String;)V"),
    ) {
        Ok(i) => i,
        Err(e) => {
            return Err(e);
        },
    };
    let hello_string_index = match wrap(pool_add_string(&mut constant_pool, "Hello World")) {
        Ok(i) => i,
        Err(e) => {
            return Err(e);
        },
    };
    let main_method_code = match wrap(pool_add_utf8(&mut constant_pool, "Code")) {
        Ok(i) => i,
        Err(e) => {
            return Err(e);
        },
    };

    let mut instructions: Vec<JvmInstruction> = Vec::new();
    instructions.push(JvmInstruction::Getstatic(system_out));
    instructions.push(JvmInstruction::LdcW(hello_string_index));
    instructions.push(JvmInstruction::Invokevirtual(println_method));
    instructions.push(JvmInstruction::Return);

    let method = EmittedMethod {
        access_flags: 9,  // public and static
        name_index: main_name_index,
        descriptor_index: main_descriptor_index,
        code_name_index: main_method_code,
        max_stack: 2,  // room for the stream and the greeting
        max_locals: 1,  // the entry point's argument array
        instructions,
    };

    proof {
        assert(pool_view(constant_pool) =~= spec_hello_world_pool(class_name@));
        assert(method@.instructions =~= spec_hello_world_code());
    }

    Ok((constant_pool, this_class, super_class, method))
}

/// Builds and verifies the fixed demonstration class: the description is
/// pinned by its specification, and the build succeeds exactly when the
/// class-file library's verifier accepts that description.
pub fn do_compile_and_verify(file_name: &str) -> (r: CompileResult<ClassFile>)
    ensures
        (r is Ok) == crate::compiler::class_file_builder::ristretto_accepts(
            spec_hello_world_pool(file_name@),
            2,
            4,
            seq![spec_hello_world_method()],
        ),
        r is Err ==> r->Err_0@ == CompileErrorV::Ristretto,
        r matches Ok(cf) ==> crate::compiler::class_file_builder::assembled_class_file(
            cf,
            spec_hello_world_pool(file_name@),
            2,
            4,
            seq![spec_hello_world_method()],
        ),
{
    let (constant_pool, this_class, super_class, method) = match hello_world_class_description(
        file_name,
    ) {
        Ok(t) => t,
        Err(e) => {
            return Err(e);
        },
    };
    let ghost mv = method@;
    let methods = vec![method];
    proof {
        assert(crate::compiler::method_builder::emitted_methods_view(methods@) =~= seq![mv]);
    }
    crate::compiler::class_file_builder::assemble_emitted(
        constant_pool,
        this_class,
        super_class,
        methods,
    )
}

} // verus!
