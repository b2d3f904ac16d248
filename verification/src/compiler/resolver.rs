use vstd::prelude::*;

use crate::compiler::result::{CompileError, CompileErrorV, CompileResult};
use crate::compiler::state_stack::{stack_contains, stack_slot, stack_wf, StateStack};
use crate::java::class::{find_field_v, slashed, JavaClass};
use crate::java::class_loader::{spec_load, ClassLoader};
use crate::java::package::PackageV;

verus! {

/// What a bare name denotes: a local variable's stack slot, a static class
/// reference, or a static field of the scoped class.
#[derive(Debug)]
pub enum ResolvedEntity {
    VariableOnStack(u8),
    StaticClass(String),
    StaticFieldReference { parent_id: u16, path: String, full_name: String, descriptor: String },
}

/// The mathematical shape of a resolution outcome.
#[verifier::ext_equal]
pub enum ResolvedEntityV {
    VariableOnStack(int),
    StaticClass(Seq<char>),
    StaticFieldReference {
        parent_id: int,
        path: Seq<char>,
        full_name: Seq<char>,
        descriptor: Seq<char>,
    },
}

impl View for ResolvedEntity {
    type V = ResolvedEntityV;

    open spec fn view(&self) -> ResolvedEntityV {
        match self {
            ResolvedEntity::VariableOnStack(slot) => ResolvedEntityV::VariableOnStack(
                *slot as int,
            ),
            ResolvedEntity::StaticClass(path) => ResolvedEntityV::StaticClass(path@),
            ResolvedEntity::StaticFieldReference { parent_id, path, full_name, descriptor } => {
                ResolvedEntityV::StaticFieldReference {
                    parent_id: *parent_id as int,
                    path: path@,
                    full_name: full_name@,
                    descriptor: descriptor@,
                }
            },
        }
    }
}

/// Unscoped resolution: locals shadow everything; else a bare class
/// reference; else the name resolves to nothing.
pub open spec fn spec_resolve_unscoped(
    stack: Seq<Seq<Seq<char>>>,
    loader: Seq<PackageV>,
    name: Seq<char>,
) -> Result<ResolvedEntityV, CompileErrorV> {
    if stack_contains(stack, name) {
        Ok(ResolvedEntityV::VariableOnStack(stack_slot(stack, name).unwrap()))
    } else {
        match spec_load(loader, name) {
            Some(c) => Ok(ResolvedEntityV::StaticClass(c.path)),
            None => Err(CompileErrorV::ResolutionFailure),
        }
    }
}

/// Field lookup on the scoped class: the field's declared owner class is
/// loaded in turn, for its binary name and descriptor.
pub open spec fn spec_lookup_field(
    loader: Seq<PackageV>,
    field_name: Seq<char>,
    scoped_class_path: Seq<char>,
) -> Result<(Seq<char>, Seq<char>, Seq<char>), CompileErrorV> {
    match spec_load(loader, scoped_class_path) {
        None => Err(CompileErrorV::UnknownClass(scoped_class_path)),
        Some(class) => match find_field_v(class.fields, field_name) {
            None => Err(
                CompileErrorV::UnknownField { class_name: scoped_class_path, field: field_name },
            ),
            Some(f) => match spec_load(loader, f.owner_class) {
                None => Err(CompileErrorV::UnknownClass(f.owner_class)),
                Some(fc) => Ok((f.owner_class, slashed(fc.path), fc.descriptor)),
            },
        },
    }
}

/// Scoped resolution: the name must be a field of the scoped class.
pub open spec fn spec_resolve_scoped(
    loader: Seq<PackageV>,
    name: Seq<char>,
    scoped_class_id: int,
    scoped_class_path: Seq<char>,
) -> Result<ResolvedEntityV, CompileErrorV> {
    match spec_lookup_field(loader, name, scoped_class_path) {
        Err(e) => Err(e),
        Ok((path, full_name, descriptor)) => Ok(
            ResolvedEntityV::StaticFieldReference {
                parent_id: scoped_class_id,
                path,
                full_name,
                descriptor,
            },
        ),
    }
}

/// The resolver: pure decisions over the scope allocator and the catalog.
#[derive(Debug)]
pub struct Resolver;

impl Resolver {
    /// Resolves a bare name with no pending object context.
    pub fn resolve_unscoped(
        &self,
        name: &String,
        stack: &StateStack,
        class_loader: &ClassLoader,
    ) -> (r: CompileResult<ResolvedEntity>)
        requires
            stack_wf(stack@),
        ensures
            match spec_resolve_unscoped(stack@, class_loader@, name@) {
                Ok(ev) => r is Ok && r.unwrap()@ == ev,
                Err(ev) => r is Err && r->Err_0@ == ev,
            },
    {
        if stack.contains(name) {
            return Ok(ResolvedEntity::VariableOnStack(stack.get(name)));
        }
        if let Some(class) = class_loader.load(name) {
            return Ok(ResolvedEntity::StaticClass(class.path().clone()));
        }
        Err(CompileError::ResolutionFailure)
    }

    /// Resolves a name as a member of the scoped class.
    pub fn resolve_scoped(
        &self,
        name: &String,
        scoped_class_id: u16,
        scoped_class_path: &String,
        class_loader: &ClassLoader,
    ) -> (r: CompileResult<ResolvedEntity>)
        ensures
            match spec_resolve_scoped(
                class_loader@,
                name@,
                scoped_class_id as int,
                scoped_class_path@,
            ) {
                Ok(ev) => r is Ok && r.unwrap()@ == ev,
                Err(ev) => r is Err && r->Err_0@ == ev,
            },
    {
        let (path, full_name, descriptor) = match lookup_field_on_class(
            name,
            scoped_class_path,
            class_loader,
        ) {
            Ok(t) => t,
            Err(e) => {
                return Err(e);
            },
        };
        Ok(
            ResolvedEntity::StaticFieldReference {
                parent_id: scoped_class_id,
                path,
                full_name,
                descriptor,
            },
        )
    }
}

/// Finds the field on the scoped class and loads its owner class for the
/// constant-pool data resolution needs.
pub fn lookup_field_on_class(
    field_name: &String,
    scoped_class_path: &String,
    class_loader: &ClassLoader,
) -> (r: CompileResult<(String, String, String)>)
    ensures
        match spec_lookup_field(class_loader@, field_name@, scoped_class_path@) {
            Ok((path, full_name, descriptor)) => {
                &&& r is Ok
                &&& r.unwrap().0@ == path
                &&& r.unwrap().1@ == full_name
                &&& r.unwrap().2@ == descriptor
            },
            Err(ev) => r is Err && r->Err_0@ == ev,
        },
{
    let field_class_path = {
        let class = match lookup_class(scoped_class_path, class_loader) {
            Ok(c) => c,
            Err(e) => {
                return Err(e);
            },
        };
        let field = match class.field_named(field_name) {
            Some(f) => f,
            None => {
                return Err(
                    CompileError::UnknownField {
                        class_name: scoped_class_path.clone(),
                        field: field_name.clone(),
                    },
                );
            },
        };
        field.owner_class().clone()
    };

    let field_class = match lookup_class(&field_class_path, class_loader) {
        Ok(c) => c,
        Err(e) => {
            return Err(e);
        },
    };

    Ok((field_class_path.clone(), field_class.full_name(), field_class.descriptor().clone()))
}

/// Loads a class from the catalog, or reports it unknown.
pub fn lookup_class<'a>(class_name: &String, class_loader: &'a ClassLoader) -> (r: CompileResult<
    &'a JavaClass,
>)
    ensures
        match spec_load(class_loader@, class_name@) {
            Some(cv) => r is Ok && r.unwrap()@ == cv,
            None => r is Err && r->Err_0@ == CompileErrorV::UnknownClass(class_name@),
        },
{
    match class_loader.load(class_name) {
        Some(c) => Ok(c),
        None => Err(CompileError::UnknownClass(class_name.clone())),
    }
}

} // verus!
