//! Typed values in host-call parameter and result slots, and the zero value
//! that every declared result slot receives before a host service runs.

use vstd::prelude::*;

verus! {

/// The declared type of one parameter or result slot.
#[derive(Clone, Copy, Debug, PartialEq, Eq, Structural)]
pub enum ValKind {
    I32,
    I64,
    F32,
    F64,
}

/// A value in a slot. Floating-point slots carry their IEEE-754 bit pattern.
#[derive(Clone, Copy, Debug, PartialEq, Eq, Structural)]
pub enum Val {
    I32(i32),
    I64(i64),
    F32(u32),
    F64(u64),
}

/// The zero of a slot type: integer zero, or the bit pattern of `+0.0`.
pub open spec fn zero_of(kind: ValKind) -> Val {
    match kind {
        ValKind::I32 => Val::I32(0),
        ValKind::I64 => Val::I64(0),
        ValKind::F32 => Val::F32(0),
        ValKind::F64 => Val::F64(0),
    }
}

/// The zeros of a sequence of slot types, slot by slot.
pub open spec fn zeros_of(kinds: Seq<ValKind>) -> Seq<Val> {
    Seq::new(kinds.len(), |i: int| zero_of(kinds[i]))
}

/// The zero value for a slot of the given type.
pub fn default_val(kind: &ValKind) -> (r: Val)
    ensures
        r == zero_of(*kind),
{
    match kind {
        ValKind::I32 => Val::I32(0),
        ValKind::I64 => Val::I64(0),
        ValKind::F32 => Val::F32(0),
        ValKind::F64 => Val::F64(0),
    }
}

/// One zero value per declared result slot, in order.
pub fn default_results(kinds: &Vec<ValKind>) -> (r: Vec<Val>)
    ensures
        r@ == zeros_of(kinds@),
{
    let mut r: Vec<Val> = Vec::new();
    let mut i: usize = 0;
    while i < kinds.len()
        invariant
            i <= kinds@.len(),
            r@ == zeros_of(kinds@.take(i as int)),
        decreases kinds@.len() - i,
    {
        r.push(default_val(&kinds[i]));
        i = i + 1;
        assert(zeros_of(kinds@.take(i as int)) =~= zeros_of(kinds@.take(i - 1)).push(zero_of(kinds@[i - 1])));
    }
    assert(kinds@.take(i as int) =~= kinds@);
    r
}

} // verus!
