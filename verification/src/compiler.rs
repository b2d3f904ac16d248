pub mod class_file_builder;
pub mod instructions;
pub mod method_builder;
pub mod pool;
pub mod resolved_class;
pub mod resolver;
pub mod result;
pub mod state_stack;
pub mod symbol_table;

use vstd::prelude::*;

use ristretto_classfile::ConstantPool;

use crate::ast::class::{AstClass, AstParameter, ClassV, MethodV, ParameterV};
use crate::compiler::pool::{pool_view, PoolConst};
use crate::compiler::resolver::{
    spec_resolve_scoped, spec_resolve_unscoped, ResolvedEntity, ResolvedEntityV, Resolver,
};
use crate::compiler::result::{CompileError, CompileErrorV, CompileResult, EmptyCompileResult};
use crate::compiler::state_stack::{stack_wf, StateStack};
use crate::compiler::symbol_table::{DataType, DataTypeV, MethodEntryV, MethodSymbolV, SymbolTable};
use crate::java::class_loader::{spec_load, ClassLoader};
use crate::java::package::PackageV;

verus! {

/// A class reference held during emission: its dotted path and its
/// constant-pool class index.
#[derive(Debug)]
pub struct ObjectReference {
    pub class_path: String,
    pub class_id: u16,
}

/// The mathematical shape of an `ObjectReference`.
#[verifier::ext_equal]
pub struct ObjectReferenceV {
    pub class_path: Seq<char>,
    pub class_id: int,
}

impl View for ObjectReference {
    type V = ObjectReferenceV;

    open spec fn view(&self) -> ObjectReferenceV {
        ObjectReferenceV { class_path: self.class_path@, class_id: self.class_id as int }
    }
}

/// The mathematical shape of a compilation session: the constant pool's
/// entries, the catalog, the class being compiled, the transient scoped
/// object, the scope allocator, and the symbol table.
#[verifier::ext_equal]
pub struct ContextV {
    pub pool: Seq<PoolConst>,
    pub loader: Seq<PackageV>,
    pub this_class: Option<ObjectReferenceV>,
    pub scoped_object: Option<ObjectReferenceV>,
    pub stack: Seq<Seq<Seq<char>>>,
    pub symbols: Seq<MethodEntryV>,
}

/// The per-compilation session state threaded through symbol registration,
/// resolution and emission.
pub struct CompilationContext {
    pub resolver: Resolver,
    pub constant_pool: ConstantPool,
    pub class_loader: ClassLoader,
    pub this_class: Option<ObjectReference>,
    pub scoped_object: Option<ObjectReference>,
    pub stack: StateStack,
    pub symbol_table: SymbolTable,
}

pub open spec fn opt_or_view(o: Option<ObjectReference>) -> Option<ObjectReferenceV> {
    match o {
        Some(ref r) => Some(r@),
        None => None,
    }
}

impl View for CompilationContext {
    type V = ContextV;

    open spec fn view(&self) -> ContextV {
        ContextV {
            pool: pool_view(self.constant_pool),
            loader: self.class_loader@,
            this_class: opt_or_view(self.this_class),
            scoped_object: opt_or_view(self.scoped_object),
            stack: self.stack@,
            symbols: self.symbol_table@,
        }
    }
}

/// The shape every emission step expects and preserves: slot indices fit a
/// byte, and the scope allocator always has its root layer.
pub open spec fn ctx_wf(c: ContextV) -> bool {
    &&& stack_wf(c.stack)
    &&& c.stack.len() > 0
}

impl CompilationContext {
    pub fn register_this_class(&mut self, class_path: String, class_id: u16)
        ensures
            final(self)@ == (ContextV {
                this_class: Some(
                    ObjectReferenceV { class_path: class_path@, class_id: class_id as int },
                ),
                ..old(self)@
            }),
    {
        self.this_class = Some(ObjectReference { class_path, class_id });
    }

    pub fn this_class_id(&self) -> (r: u16)
        requires
            self@.this_class is Some,
        ensures
            r as int == self@.this_class.unwrap().class_id,
    {
        self.this_class.as_ref().unwrap().class_id
    }

    pub fn this_class_path(&self) -> (r: String)
        requires
            self@.this_class is Some,
        ensures
            r@ == self@.this_class.unwrap().class_path,
    {
        self.this_class.as_ref().unwrap().class_path.clone()
    }

    pub fn push_scoped_object(&mut self, class_path: String, class_id: u16)
        ensures
            final(self)@ == (ContextV {
                scoped_object: Some(
                    ObjectReferenceV { class_path: class_path@, class_id: class_id as int },
                ),
                ..old(self)@
            }),
    {
        self.scoped_object = Some(ObjectReference { class_path, class_id })
    }

    pub fn clear_scoped_object(&mut self)
        ensures
            final(self)@ == (ContextV { scoped_object: None, ..old(self)@ }),
    {
        self.scoped_object = None;
    }

    pub fn scoped_class_path(&self) -> (r: Option<String>)
        ensures
            match self@.scoped_object {
                Some(o) => r is Some && r.unwrap()@ == o.class_path,
                None => r is None,
            },
    {
        match &self.scoped_object {
            Some(o) => Some(o.class_path.clone()),
            None => None,
        }
    }

    pub fn scoped_class_id(&self) -> (r: Option<u16>)
        ensures
            match self@.scoped_object {
                Some(o) => r is Some && r.unwrap() as int == o.class_id,
                None => r is None,
            },
    {
        match &self.scoped_object {
            Some(o) => Some(o.class_id),
            None => None,
        }
    }

    /// Resolves a name against the pending scoped object if one is set, and
    /// against the scope allocator and the catalog otherwise.
    pub fn resolve(&self, name: &String) -> (r: CompileResult<ResolvedEntity>)
        requires
            ctx_wf(self@),
        ensures
            match spec_ctx_resolve(self@, name@) {
                Ok(ev) => r is Ok && r.unwrap()@ == ev,
                Err(ev) => r is Err && r->Err_0@ == ev,
            },
    {
        match &self.scoped_object {
            Some(scoped_object) => self.resolver.resolve_scoped(
                name,
                scoped_object.class_id,
                &scoped_object.class_path,
                &self.class_loader,
            ),
            None => self.resolver.resolve_unscoped(name, &self.stack, &self.class_loader),
        }
    }
}

/// Resolution against the session: scoped when an object context is
/// pending, unscoped otherwise.
pub open spec fn spec_ctx_resolve(c: ContextV, name: Seq<char>) -> Result<
    ResolvedEntityV,
    CompileErrorV,
> {
    match c.scoped_object {
        Some(so) => spec_resolve_scoped(c.loader, name, so.class_id, so.class_path),
        None => spec_resolve_unscoped(c.stack, c.loader, name),
    }
}

/// How a source type name maps to a JVM type: the primitive keywords
/// directly, anything else through the catalog.
pub open spec fn spec_map_data_type_inner(loader: Seq<PackageV>, s: Seq<char>) -> Result<
    DataTypeV,
    CompileErrorV,
> {
    if s == "bool"@ {
        Ok(DataTypeV::BooleanPrimitive)
    } else if s == "byte"@ {
        Ok(DataTypeV::BytePrimitive)
    } else if s == "char"@ {
        Ok(DataTypeV::CharPrimitive)
    } else if s == "double"@ {
        Ok(DataTypeV::DoublePrimitive)
    } else if s == "float"@ {
        Ok(DataTypeV::FloatPrimitive)
    } else if s == "int"@ {
        Ok(DataTypeV::IntPrimitive)
    } else if s == "long"@ {
        Ok(DataTypeV::LongPrimitive)
    } else if s == "short"@ {
        Ok(DataTypeV::ShortPrimitive)
    } else if s == "void"@ {
        Ok(DataTypeV::Void)
    } else {
        match spec_load(loader, s) {
            None => Err(CompileErrorV::UnknownClass(s)),
            Some(c) => Ok(DataTypeV::Object(c.path)),
        }
    }
}

/// The same, wrapped in an array type when the source marked one.
pub open spec fn spec_map_data_type(loader: Seq<PackageV>, s: Seq<char>, is_array: bool) -> Result<
    DataTypeV,
    CompileErrorV,
> {
    match spec_map_data_type_inner(loader, s) {
        Err(e) => Err(e),
        Ok(t) => if is_array {
            Ok(DataTypeV::Array(Box::new(t)))
        } else {
            Ok(t)
        },
    }
}

/// The JVM types of a parameter list.
pub open spec fn spec_map_parameters(loader: Seq<PackageV>, ps: Seq<ParameterV>) -> Result<
    Seq<DataTypeV>,
    CompileErrorV,
>
    decreases ps.len(),
{
    if ps.len() == 0 {
        Ok(Seq::empty())
    } else {
        match spec_map_data_type(loader, ps[0].param_type, ps[0].is_array) {
            Err(e) => Err(e),
            Ok(t) => match spec_map_parameters(loader, ps.drop_first()) {
                Err(e) => Err(e),
                Ok(rest) => Ok(seq![t] + rest),
            },
        }
    }
}

/// What registering the methods of the class yields, in declaration order,
/// over what is registered so far: a repeated name or an unknown type is
/// the first error.
pub open spec fn spec_register_methods(
    loader: Seq<PackageV>,
    ms: Seq<MethodV>,
    acc: Seq<MethodEntryV>,
) -> Result<Seq<MethodEntryV>, CompileErrorV>
    decreases ms.len(),
{
    if ms.len() == 0 {
        Ok(acc)
    } else {
        let m = ms[0];
        match spec_map_data_type(loader, m.return_type, m.return_type_is_array) {
            Err(e) => Err(e),
            Ok(ret) => match spec_map_parameters(loader, m.parameters) {
                Err(e) => Err(e),
                Ok(params) => if crate::compiler::symbol_table::find_symbol(acc, m.name)
                    is Some {
                    Err(CompileErrorV::DuplicateMethod { method: m.name })
                } else {
                    spec_register_methods(
                        loader,
                        ms.drop_first(),
                        acc.push(
                            MethodEntryV {
                                name: m.name,
                                symbol: MethodSymbolV { return_type: ret, parameters: params },
                            },
                        ),
                    )
                },
            },
        }
    }
}

/// What the symbol pre-pass yields for a whole class.
pub open spec fn spec_build_symbol_table(loader: Seq<PackageV>, class: ClassV) -> Result<
    Seq<MethodEntryV>,
    CompileErrorV,
> {
    spec_register_methods(loader, class.methods, Seq::empty())
}

fn exec_map_data_type_inner(string: &String, class_loader: &ClassLoader) -> (r: CompileResult<
    DataType,
>)
    ensures
        match spec_map_data_type_inner(class_loader@, string@) {
            Ok(tv) => r is Ok && r.unwrap()@ == tv,
            Err(ev) => r is Err && r->Err_0@ == ev,
        },
{
    if *string == String::from_str("bool") {
        Ok(DataType::BooleanPrimitive)
    } else if *string == String::from_str("byte") {
        Ok(DataType::BytePrimitive)
    } else if *string == String::from_str("char") {
        Ok(DataType::CharPrimitive)
    } else if *string == String::from_str("double") {
        Ok(DataType::DoublePrimitive)
    } else if *string == String::from_str("float") {
        Ok(DataType::FloatPrimitive)
    } else if *string == String::from_str("int") {
        Ok(DataType::IntPrimitive)
    } else if *string == String::from_str("long") {
        Ok(DataType::LongPrimitive)
    } else if *string == String::from_str("short") {
        Ok(DataType::ShortPrimitive)
    } else if *string == String::from_str("void") {
        Ok(DataType::Void)
    } else {
        match class_loader.load(string) {
            None => Err(CompileError::UnknownClass(string.clone())),
            Some(class) => Ok(DataType::Object(class.path().clone())),
        }
    }
}

/// Maps a source type name, with its array marker, to a JVM type.
pub fn map_data_type(string: &String, is_array: bool, class_loader: &ClassLoader) -> (r:
    CompileResult<DataType>)
    ensures
        match spec_map_data_type(class_loader@, string@, is_array) {
            Ok(tv) => r is Ok && r.unwrap()@ == tv,
            Err(ev) => r is Err && r->Err_0@ == ev,
        },
{
    match exec_map_data_type_inner(string, class_loader) {
        Err(e) => Err(e),
        Ok(t) => if is_array {
            Ok(DataType::Array(Box::new(t)))
        } else {
            Ok(t)
        },
    }
}

/// Maps a method's parameter list to its JVM types.
#[verifier::loop_isolation(false)]
pub fn map_parameters(parameters: &Vec<AstParameter>, class_loader: &ClassLoader) -> (r:
    CompileResult<Vec<DataType>>)
    ensures
        match spec_map_parameters(class_loader@, crate::ast::class::params_view(parameters@)) {
            Ok(ts) => {
                &&& r is Ok
                &&& r.unwrap()@.map_values(|t: DataType| t@) == ts
            },
            Err(ev) => r is Err && r->Err_0@ == ev,
        },
{
    let ghost ps = crate::ast::class::params_view(parameters@);
    let mut out: Vec<DataType> = Vec::new();
    let n = parameters.len();
    proof {
        assert(ps.skip(0) =~= ps);
        assert(out@.map_values(|t: DataType| t@) =~= Seq::<DataTypeV>::empty());
    }
    for i in 0..n
        invariant
            n == parameters@.len(),
            ps == crate::ast::class::params_view(parameters@),
            spec_map_parameters(class_loader@, ps) == (match spec_map_parameters(
                class_loader@,
                ps.skip(i as int),
            ) {
                Err(e) => Err::<Seq<DataTypeV>, CompileErrorV>(e),
                Ok(rest) => Ok(out@.map_values(|t: DataType| t@) + rest),
            }),
    {
        proof {
            assert(ps.skip(i as int)[0] == ps[i as int]);
            assert(ps[i as int] == parameters@[i as int]@);
            assert(ps.skip(i as int).drop_first() =~= ps.skip(i + 1));
        }
        let ghost out_pre = out@;
        match map_data_type(&parameters[i].param_type, parameters[i].is_array, class_loader) {
            Ok(t) => {
                let ghost tv = t@;
                out.push(t);
                proof {
                    assert(out@.map_values(|t: DataType| t@) =~= out_pre.map_values(
                        |t: DataType| t@,
                    ).push(tv));
                    if let Ok(rest) = spec_map_parameters(class_loader@, ps.skip(i + 1)) {
                        assert(out_pre.map_values(|t: DataType| t@) + (seq![tv] + rest)
                            =~= out@.map_values(|t: DataType| t@) + rest);
                    }
                }
            },
            Err(e) => {
                return Err(e);
            },
        }
    }
    proof {
        assert(ps.skip(n as int) =~= Seq::<ParameterV>::empty());
        if let Ok(rest) = spec_map_parameters(class_loader@, ps.skip(n as int)) {
            assert(out@.map_values(|t: DataType| t@) + rest =~= out@.map_values(
                |t: DataType| t@,
            ));
        }
    }
    Ok(out)
}

/// The symbol pre-pass: registers every method's signature, in declaration
/// order, before any resolution or emission. A repeated method name is
/// rejected here, before any instruction is emitted.
#[verifier::loop_isolation(false)]
pub fn build_symbol_table(class: &AstClass, compilation_context: &mut CompilationContext) -> (r:
    EmptyCompileResult)
    requires
        old(compilation_context)@.symbols == Seq::<MethodEntryV>::empty(),
    ensures
        final(compilation_context)@.pool == old(compilation_context)@.pool,
        final(compilation_context)@.loader == old(compilation_context)@.loader,
        final(compilation_context)@.this_class == old(compilation_context)@.this_class,
        final(compilation_context)@.scoped_object == old(compilation_context)@.scoped_object,
        final(compilation_context)@.stack == old(compilation_context)@.stack,
        match spec_build_symbol_table(old(compilation_context)@.loader, class@) {
            Ok(entries) => r is Ok && final(compilation_context)@.symbols == entries,
            Err(ev) => r is Err && r->Err_0@ == ev,
        },
{
    let ghost loader = compilation_context@.loader;
    let ghost ms = class@.methods;
    let n = class.methods.len();
    proof {
        assert(ms.skip(0) =~= ms);
    }
    let mut i: usize = 0;
    while i < n
        invariant
            i <= n,
            n == class.methods@.len(),
            ms == class@.methods,
            loader == compilation_context@.loader,
            compilation_context@.pool == old(compilation_context)@.pool,
            compilation_context@.this_class == old(compilation_context)@.this_class,
            compilation_context@.scoped_object == old(compilation_context)@.scoped_object,
            compilation_context@.stack == old(compilation_context)@.stack,
            spec_register_methods(loader, ms, Seq::empty()) == spec_register_methods(
                loader,
                ms.skip(i as int),
                compilation_context@.symbols,
            ),
        decreases n - i,
    {
        proof {
            assert(ms.skip(i as int)[0] == ms[i as int]);
            assert(ms[i as int] == class.methods@[i as int]@);
            assert(ms.skip(i as int).drop_first() =~= ms.skip(i + 1));
        }
        let method = &class.methods[i];
        let return_type = match map_data_type(
            &method.return_type,
            method.return_type_is_array,
            &compilation_context.class_loader,
        ) {
            Ok(t) => t,
            Err(e) => {
                return Err(e);
            },
        };
        let parameters = match map_parameters(
            &method.parameters,
            &compilation_context.class_loader,
        ) {
            Ok(ts) => ts,
            Err(e) => {
                return Err(e);
            },
        };
        match compilation_context.symbol_table.register_method(
            method.name.clone(),
            return_type,
            parameters,
        ) {
            Ok(_) => {},
            Err(e) => {
                return Err(e);
            },
        }
        i = i + 1;
    }
    proof {
        assert(ms.skip(n as int) =~= Seq::<MethodV>::empty());
    }
    Ok(())
}

/// The session a compilation starts from: an empty pool, the built-in
/// catalog, no class registered, no scoped object, the root scope layer,
/// and an empty symbol table.
pub open spec fn spec_initial_context() -> ContextV {
    ContextV {
        pool: Seq::empty(),
        loader: seq![
            crate::java::java_lang::java_lang_package_v(),
            crate::java::java_io::java_io_package_v(),
        ],
        this_class: None,
        scoped_object: None,
        stack: seq![Seq::<Seq<char>>::empty()],
        symbols: Seq::empty(),
    }
}

/// What compiling one class yields before the class-file library's own
/// verifier runs: the symbol pre-pass over the fresh session, then the
/// class emission.
pub open spec fn spec_compile(class: ClassV) -> Result<
    (ContextV, int, int, Seq<crate::compiler::method_builder::EmittedMethodV>),
    CompileErrorV,
> {
    let c0 = spec_initial_context();
    match spec_build_symbol_table(c0.loader, class) {
        Err(e) => Err(e),
        Ok(entries) => crate::compiler::class_file_builder::spec_emit_class(
            class,
            ContextV { symbols: entries, ..c0 },
        ),
    }
}

/// Compiles one parsed class to the class-file library's structural
/// description: symbol pre-pass, per-method emission, assembly, and the
/// library's verification. Every error the compiler itself decides is
/// pinned by the compilation specification; the compilation succeeds
/// exactly when the library's verifier accepts the emitted description,
/// and the returned class file then holds exactly that description.
pub fn compile(class: &AstClass) -> (r: CompileResult<ristretto_classfile::ClassFile>)
    ensures
        match spec_compile(class@) {
            Ok((c2, this_class, super_class, ms)) => {
                &&& (r is Ok) == crate::compiler::class_file_builder::ristretto_accepts(
                    c2.pool,
                    this_class,
                    super_class,
                    ms,
                )
                &&& r is Err ==> r->Err_0@ == CompileErrorV::Ristretto
                &&& r matches Ok(cf) ==> crate::compiler::class_file_builder::assembled_class_file(
                    cf,
                    c2.pool,
                    this_class,
                    super_class,
                    ms,
                )
            },
            Err(ev) => r is Err && r->Err_0@ == ev,
        },
{
    let constant_pool = crate::compiler::pool::new_constant_pool();
    let packages = crate::java::class_loader::new_class_loader();
    let mut compilation_context = CompilationContext {
        constant_pool,
        resolver: Resolver,
        class_loader: packages,
        this_class: None,
        scoped_object: None,
        stack: StateStack::new(),
        symbol_table: SymbolTable::new(),
    };
    proof {
        assert(compilation_context@ =~~= spec_initial_context());
    }

    match build_symbol_table(class, &mut compilation_context) {
        Ok(_) => {},
        Err(e) => {
            return Err(e);
        },
    }
    proof {
        if let Ok(entries) = spec_build_symbol_table(spec_initial_context().loader, class@) {
            assert(compilation_context@ =~~= (ContextV {
                symbols: entries,
                ..spec_initial_context()
            }));
        }
    }

    crate::compiler::class_file_builder::from(class, &mut compilation_context)
}

} // verus!
