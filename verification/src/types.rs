//! The type system: scalar integer types and function signatures.
//!
//! Types are immutable value descriptors.  Two types with identical
//! structure compare equal and are interchangeable everywhere a type
//! equality check is made; no handle identity is involved.
use vstd::prelude::*;

verus! {

/// A scalar integer type of a given bit width.
#[derive(Clone, Copy, Debug, PartialEq, Eq, Structural)]
pub struct Type {
    /// The bit width of the integer type.
    pub width: u32,
}

/// A function signature: a return type and an ordered parameter list.
#[derive(Clone, Debug, PartialEq, Eq)]
pub struct FunctionType {
    /// The return type.
    pub ret: Type,
    /// The parameter types, in order.
    pub params: Vec<Type>,
}

/// The mathematical shape of a [`FunctionType`].
pub ghost struct FunctionTypeV {
    pub ret: Type,
    pub params: Seq<Type>,
}

impl View for FunctionType {
    type V = FunctionTypeV;

    open spec fn view(&self) -> FunctionTypeV {
        FunctionTypeV { ret: self.ret, params: self.params@ }
    }
}

/// Copies an ordered list of types.
pub(crate) fn copy_types(v: &Vec<Type>) -> (r: Vec<Type>)
    ensures
        r@ == v@,
{
    let mut r: Vec<Type> = Vec::new();
    let mut i: usize = 0;
    while i < v.len()
        invariant
            i <= v@.len(),
            r@ == v@.subrange(0, i as int),
        decreases v@.len() - i,
    {
        r.push(v[i]);
        proof {
            assert(r@ =~= v@.subrange(0, i as int + 1));
        }
        i = i + 1;
    }
    proof {
        assert(r@ =~= v@);
    }
    r
}

/// Copies a signature value.
pub(crate) fn duplicate_function_type(t: &FunctionType) -> (r: FunctionType)
    ensures
        r@ == t@,
{
    FunctionType { ret: t.ret, params: copy_types(&t.params) }
}

/// Integer types are identified by their structure alone: two integer
/// types of the same width are equal, and therefore interchangeable in
/// every operation that checks type equality.
pub proof fn lemma_int_type_structural(a: Type, b: Type)
    requires
        a.width == b.width,
    ensures
        a == b,
{
}

} // verus!
