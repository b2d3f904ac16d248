use vstd::prelude::*;

use ristretto_classfile::ConstantPool;

verus! {

// The compilation session's constant pool is the class-file library's own
// table; the declarations below let its values stand in signatures and
// fields, and the wrappers give its appending operations exact contracts.
#[verifier::external_type_specification]
#[verifier::external_body]
pub struct ExConstantPool(ConstantPool);

#[verifier::external_type_specification]
#[verifier::external_body]
pub struct ExRistrettoError(ristretto_classfile::Error);

#[verifier::external_type_specification]
#[verifier::external_body]
pub struct ExRistrettoInstruction(ristretto_classfile::attributes::Instruction);

/// One entry of the constant pool, as the contracts see it: symbolic
/// references carry the 1-based indices of the entries they point at.
#[verifier::ext_equal]
pub enum PoolConst {
    Utf8(Seq<char>),
    Class(int),
    Str(int),
    FieldRef { class_index: int, name_and_type_index: int },
    MethodRef { class_index: int, name_and_type_index: int },
    NameAndType { name_index: int, descriptor_index: int },
}

/// What the pool holds: its entries in order, entry `i` of this sequence
/// being the pool's 1-based entry `i + 1`.
pub uninterp spec fn pool_view(p: ConstantPool) -> Seq<PoolConst>;

/// Relies on ConstantPool::new: a pool with no entries beyond the reserved
/// placeholder at index zero.
#[verifier::external_body]
pub fn new_constant_pool() -> (p: ConstantPool)
    ensures
        pool_view(p) == Seq::<PoolConst>::empty(),
{
    ConstantPool::new()
}

/// Relies on ConstantPool::add_utf8: appends one UTF-8 entry and returns its
/// index; the only failure is a pool grown past 65535 entries, which leaves
/// the pool as it was.
#[verifier::external_body]
pub fn pool_add_utf8(p: &mut ConstantPool, value: &str) -> (r: Result<
    u16,
    ristretto_classfile::Error,
>)
    ensures
        pool_view(*old(p)).len() + 1 <= 65535 ==> {
            &&& r is Ok
            &&& r.unwrap() == pool_view(*old(p)).len() + 1
            &&& pool_view(*final(p)) == pool_view(*old(p)).push(PoolConst::Utf8(value@))
        },
        pool_view(*old(p)).len() + 1 > 65535 ==> {
            &&& r is Err
            &&& pool_view(*final(p)) == pool_view(*old(p))
        },
{
    p.add_utf8(value)
}

/// Relies on ConstantPool::add_class: appends a UTF-8 entry for the name and
/// a class entry pointing at it, returning the class entry's index. A pool
/// grown past 65535 entries fails, keeping whatever was appended before the
/// failing step.
#[verifier::external_body]
pub fn pool_add_class(p: &mut ConstantPool, name: &str) -> (r: Result<
    u16,
    ristretto_classfile::Error,
>)
    ensures
        pool_view(*old(p)).len() + 2 <= 65535 ==> {
            &&& r is Ok
            &&& r.unwrap() == pool_view(*old(p)).len() + 2
            &&& pool_view(*final(p)) == pool_view(*old(p)).push(PoolConst::Utf8(name@)).push(
                PoolConst::Class(pool_view(*old(p)).len() as int + 1),
            )
        },
        pool_view(*old(p)).len() + 2 > 65535 ==> {
            &&& r is Err
            &&& pool_view(*old(p)).is_prefix_of(pool_view(*final(p)))
            &&& pool_view(*final(p)).len() <= pool_view(*old(p)).len() + 1
        },
{
    p.add_class(name)
}

/// Relies on ConstantPool::add_string: appends a UTF-8 entry for the value
/// and a string entry pointing at it, returning the string entry's index. A
/// pool grown past 65535 entries fails, keeping whatever was appended before
/// the failing step.
#[verifier::external_body]
pub fn pool_add_string(p: &mut ConstantPool, value: &str) -> (r: Result<
    u16,
    ristretto_classfile::Error,
>)
    ensures
        pool_view(*old(p)).len() + 2 <= 65535 ==> {
            &&& r is Ok
            &&& r.unwrap() == pool_view(*old(p)).len() + 2
            &&& pool_view(*final(p)) == pool_view(*old(p)).push(PoolConst::Utf8(value@)).push(
                PoolConst::Str(pool_view(*old(p)).len() as int + 1),
            )
        },
        pool_view(*old(p)).len() + 2 > 65535 ==> {
            &&& r is Err
            &&& pool_view(*old(p)).is_prefix_of(pool_view(*final(p)))
            &&& pool_view(*final(p)).len() <= pool_view(*old(p)).len() + 1
        },
{
    p.add_string(value)
}

/// Relies on ConstantPool::add_field_ref: appends UTF-8 entries for name and
/// descriptor, a name-and-type entry over them, and a field-ref entry over
/// the given class index, returning the field-ref entry's index. A pool
/// grown past 65535 entries fails, keeping whatever was appended before the
/// failing step.
#[verifier::external_body]
pub fn pool_add_field_ref(
    p: &mut ConstantPool,
    class_index: u16,
    name: &str,
    descriptor: &str,
) -> (r: Result<u16, ristretto_classfile::Error>)
    ensures
        pool_view(*old(p)).len() + 4 <= 65535 ==> {
            &&& r is Ok
            &&& r.unwrap() == pool_view(*old(p)).len() + 4
            &&& pool_view(*final(p)) == pool_view(*old(p)).push(PoolConst::Utf8(name@)).push(
                PoolConst::Utf8(descriptor@),
            ).push(
                PoolConst::NameAndType {
                    name_index: pool_view(*old(p)).len() as int + 1,
                    descriptor_index: pool_view(*old(p)).len() as int + 2,
                },
            ).push(
                PoolConst::FieldRef {
                    class_index: class_index as int,
                    name_and_type_index: pool_view(*old(p)).len() as int + 3,
                },
            )
        },
        pool_view(*old(p)).len() + 4 > 65535 ==> {
            &&& r is Err
            &&& pool_view(*old(p)).is_prefix_of(pool_view(*final(p)))
            &&& pool_view(*final(p)).len() <= pool_view(*old(p)).len() + 3
        },
{
    p.add_field_ref(class_index, name, descriptor)
}

/// Relies on ConstantPool::add_method_ref: appends UTF-8 entries for name
/// and descriptor, a name-and-type entry over them, and a method-ref entry
/// over the given class index, returning the method-ref entry's index. A
/// pool grown past 65535 entries fails, keeping whatever was appended before
/// the failing step.
#[verifier::external_body]
pub fn pool_add_method_ref(
    p: &mut ConstantPool,
    class_index: u16,
    name: &str,
    descriptor: &str,
) -> (r: Result<u16, ristretto_classfile::Error>)
    ensures
        pool_view(*old(p)).len() + 4 <= 65535 ==> {
            &&& r is Ok
            &&& r.unwrap() == pool_view(*old(p)).len() + 4
            &&& pool_view(*final(p)) == pool_view(*old(p)).push(PoolConst::Utf8(name@)).push(
                PoolConst::Utf8(descriptor@),
            ).push(
                PoolConst::NameAndType {
                    name_index: pool_view(*old(p)).len() as int + 1,
                    descriptor_index: pool_view(*old(p)).len() as int + 2,
                },
            ).push(
                PoolConst::MethodRef {
                    class_index: class_index as int,
                    name_and_type_index: pool_view(*old(p)).len() as int + 3,
                },
            )
        },
        pool_view(*old(p)).len() + 4 > 65535 ==> {
            &&& r is Err
            &&& pool_view(*old(p)).is_prefix_of(pool_view(*final(p)))
            &&& pool_view(*final(p)).len() <= pool_view(*old(p)).len() + 3
        },
{
    p.add_method_ref(class_index, name, descriptor)
}

} // verus!
