//! Building the host stubs for a guest's imports, and placing the caller's
//! input payload in guest memory before an entry point runs.

use vstd::prelude::*;
use crate::heap::{
    allocated, block_size, room_for, occupied_header, order_for, same_outside, HeapAllocator, HeapFault,
    MAX_ALLOCATION,
};
use crate::host::{FuncSig, HostStub};
use crate::memory::{buffer, write_bytes};
use crate::service::service_named;

verus! {

/// What kind of item an import asks the host for.
pub enum ImportKind {
    /// A function with the given signature.
    Func(FuncSig),
    /// A memory, table or global: not provided by this host.
    Other,
}

/// One import the guest declares.
pub struct GuestImport {
    pub name: String,
    pub kind: ImportKind,
}

/// Why the host could not serve a guest's imports.
#[derive(Clone, Copy, Debug, PartialEq, Eq, Structural)]
pub enum RegistryError {
    /// The import at this position is not a function.
    NonFunctionImport(usize),
}

/// Whether the import asks for a function.
pub open spec fn is_func(i: GuestImport) -> bool {
    i.kind is Func
}

/// Whether `stub` serves `import`: same name, same signature, and the
/// service chosen by that name.
pub open spec fn serves(stub: HostStub, import: GuestImport) -> bool {
    &&& import.kind matches ImportKind::Func(sig) && stub.sig == sig
    &&& stub.name@ == import.name@
    &&& stub.service == service_named(import.name@)
}

/// One stub per import, in order. Fails at the first import that is not a
/// function.
pub fn build_stubs(imports: Vec<GuestImport>) -> (r: Result<Vec<HostStub>, RegistryError>)
    ensures
        r is Ok <==> forall|i: int| 0 <= i < imports@.len() ==> is_func(#[trigger] imports@[i]),
        r matches Ok(stubs) ==> stubs@.len() == imports@.len() && forall|i: int|
            0 <= i < imports@.len() ==> serves(#[trigger] stubs@[i], imports@[i]),
        r matches Err(RegistryError::NonFunctionImport(k)) ==> k < imports@.len() && !is_func(
            imports@[k as int],
        ) && forall|i: int| 0 <= i < k ==> is_func(#[trigger] imports@[i]),
{
    let ghost all = imports@;
    let n = imports.len();
    let mut rest = imports;
    let mut stubs: Vec<HostStub> = Vec::new();
    let mut k: usize = 0;
    while rest.len() > 0
        invariant
            all == imports@,
            all.len() == n,
            k + rest@.len() == all.len(),
            rest@ == all.subrange(k as int, all.len() as int),
            stubs@.len() == k,
            forall|i: int| 0 <= i < k ==> serves(#[trigger] stubs@[i], all[i]),
            forall|i: int| 0 <= i < k ==> is_func(#[trigger] all[i]),
        decreases rest@.len(),
    {
        let import = rest.remove(0);
        assert(import == all[k as int]);
        match import.kind {
            ImportKind::Func(sig) => {
                let stub = HostStub::new(import.name, sig);
                stubs.push(stub);
            },
            ImportKind::Other => {
                return Err(RegistryError::NonFunctionImport(k));
            },
        }
        k = k + 1;
        assert(rest@ =~= all.subrange(k as int, all.len() as int));
    }
    Ok(stubs)
}

/// `h1` and `m1` are what placing `data` at `p` left from `h0` and `m0`: a
/// block was allocated for it, the bytes were copied in, and nothing outside
/// the block and its header changed.
pub open spec fn input_placed(h0: HeapAllocator, m0: Seq<u8>, data: Seq<u8>, h1: HeapAllocator, m1: Seq<u8>, p: u32) -> bool {
    &&& 8 <= p
    &&& p + data.len() <= m0.len()
    &&& m1.len() == m0.len()
    &&& m1.subrange(p - 8, p as int) == occupied_header(order_for(data.len()))
    &&& buffer(m1, p, data.len() as u32) == data
    &&& same_outside(m0, m1, p - 8, p + data.len())
    &&& !h1.poisoned()
    &&& h1.used_bytes() == h0.used_bytes() + block_size(order_for(data.len())) + 8
    &&& forall|q: u32| #[trigger] h1.is_live(q) == (h0.is_live(q) || q == p)
}

/// Allocates room for `data` on the guest heap and copies it there. Returns
/// the buffer's offset and length, the two arguments an entry point takes.
pub fn inject_input_data(heap: &mut HeapAllocator, mem: &mut [u8], data: &[u8]) -> (r: Result<
    (u32, u32),
    HeapFault,
>)
    requires
        old(heap).wf(),
        old(heap).fits(old(mem)@.len()),
    ensures
        final(heap).wf(),
        final(mem)@.len() == old(mem)@.len(),
        data@.len() > MAX_ALLOCATION ==> r is Err,
        data@.len() <= MAX_ALLOCATION && room_for(*old(heap), old(mem)@.len(), data@.len() as u32)
            ==> r is Ok,
        r is Err || old(heap).head(order_for(data@.len())) is None ==> final(heap).fits(
            old(mem)@.len(),
        ),
        r is Err ==> final(mem)@ == old(mem)@,
        r matches Ok((p, l)) ==> {
            &&& l == data@.len()
            &&& buffer(final(mem)@, p, l) == data@
            &&& input_placed(*old(heap), old(mem)@, data@, *final(heap), final(mem)@, p)
        },
{
    if data.len() > MAX_ALLOCATION as usize {
        return Err(HeapFault::AllocationFailed);
    }
    let len = data.len() as u32;
    let ghost m0 = mem@;
    let ghost h0 = *heap;
    let p = heap.allocate(mem, len)?;
    let ghost m = mem@;
    let written = write_bytes(mem, p, data);
    assert(written);
    assert(buffer(mem@, p, len) =~= data@);
    assert(allocated(h0, m0, len, *heap, m, p));
    assert(mem@.subrange(p - 8, p as int) =~= m.subrange(p - 8, p as int));
    Ok((p, len))
}

} // verus!
