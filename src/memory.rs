//! Access to the guest's linear memory: a handle bound once to the region,
//! and bounds-checked reads and writes over the region's current bytes.

use vstd::prelude::*;

verus! {

/// A late-bound reference to the guest's single memory region.
pub struct MemoryHandle<M> {
    region: Option<M>,
}

/// Why binding a memory region was refused.
#[derive(Clone, Copy, Debug, PartialEq, Eq, Structural)]
pub enum BindError {
    /// A region is already bound to this handle.
    AlreadyBound,
}

impl<M> View for MemoryHandle<M> {
    type V = Option<M>;

    closed spec fn view(&self) -> Option<M> {
        self.region
    }
}

impl<M> MemoryHandle<M> {
    /// A handle with no region bound.
    pub fn new() -> (r: Self)
        ensures
            r@ is None,
    {
        MemoryHandle { region: None }
    }

    /// Binds the region. A handle is bound at most once: a second binding is
    /// refused and leaves the first region in place.
    pub fn bind(&mut self, region: M) -> (r: Result<(), BindError>)
        ensures
            old(self)@ is None ==> r is Ok && final(self)@ == Some(region),
            old(self)@ is Some ==> r == Err::<(), BindError>(BindError::AlreadyBound)
                && final(self)@ == old(self)@,
    {
        if self.region.is_some() {
            return Err(BindError::AlreadyBound);
        }
        self.region = Some(region);
        Ok(())
    }

    /// Whether a region has been bound.
    pub fn is_bound(&self) -> (r: bool)
        ensures
            r == (self@ is Some),
    {
        self.region.is_some()
    }

    /// The bound region. Callers resolve its current bytes on every use.
    pub fn region(&self) -> (r: &M)
        requires
            self@ is Some,
        ensures
            self@ == Some(*r),
    {
        self.region.as_ref().unwrap()
    }
}

/// Whether `len` bytes at offset `ptr` lie inside a memory of `mem_len` bytes.
pub open spec fn in_bounds(mem_len: int, ptr: u32, len: u32) -> bool {
    ptr as int + len as int <= mem_len
}

/// The bytes of the buffer at `ptr` of `len` bytes.
pub open spec fn buffer(mem: Seq<u8>, ptr: u32, len: u32) -> Seq<u8> {
    mem.subrange(ptr as int, ptr as int + len as int)
}

/// The text that a byte sequence decodes to, or `None` where it is not
/// well-formed UTF-8.
pub uninterp spec fn utf8_text(bytes: Seq<u8>) -> Option<Seq<char>>;

/// Relies on `String::from_utf8`: it accepts exactly the well-formed UTF-8
/// byte sequences, and the text it returns depends on the bytes alone.
#[verifier::external_body]
fn decode_utf8(bytes: Vec<u8>) -> (r: Option<String>)
    ensures
        r is Some <==> utf8_text(bytes@) is Some,
        r is Some ==> utf8_text(bytes@) == Some(r->Some_0@),
{
    String::from_utf8(bytes).ok()
}

/// Why a buffer named by the guest could not be read.
#[derive(Clone, Copy, Debug, PartialEq, Eq, Structural)]
pub enum ReadError {
    /// The buffer runs past the end of memory.
    OutOfBounds,
    /// The buffer is not well-formed UTF-8.
    MalformedText,
}

/// Copies out the buffer at `ptr` of `len` bytes, or `None` where it runs
/// past the end of `mem`.
pub fn read_bytes(mem: &[u8], ptr: u32, len: u32) -> (r: Option<Vec<u8>>)
    ensures
        r is Some <==> in_bounds(mem@.len() as int, ptr, len),
        r is Some ==> r->Some_0@ == buffer(mem@, ptr, len),
{
    if (ptr as u64) + (len as u64) > mem.len() as u64 {
        return None;
    }
    let start = ptr as usize;
    let end = ptr as usize + len as usize;
    let mut out: Vec<u8> = Vec::new();
    let mut i: usize = start;
    while i < end
        invariant
            start <= i <= end,
            end <= mem@.len(),
            out@ == mem@.subrange(start as int, i as int),
        decreases end - i,
    {
        out.push(mem[i]);
        i = i + 1;
        assert(out@ =~= mem@.subrange(start as int, i as int));
    }
    Some(out)
}

/// Reads the buffer at `ptr` of `len` bytes as UTF-8 text. Fails where the
/// buffer runs past the end of `mem`, or where its bytes are not well-formed
/// UTF-8; nothing is truncated.
pub fn read_string(mem: &[u8], ptr: u32, len: u32) -> (r: Result<String, ReadError>)
    ensures
        !in_bounds(mem@.len() as int, ptr, len) ==> r == Err::<String, ReadError>(
            ReadError::OutOfBounds,
        ),
        in_bounds(mem@.len() as int, ptr, len) && utf8_text(buffer(mem@, ptr, len)) is None
            ==> r == Err::<String, ReadError>(ReadError::MalformedText),
        in_bounds(mem@.len() as int, ptr, len) && utf8_text(buffer(mem@, ptr, len)) is Some
            ==> r is Ok,
        r is Ok ==> utf8_text(buffer(mem@, ptr, len)) == Some(r->Ok_0@),
{
    match read_bytes(mem, ptr, len) {
        None => Err(ReadError::OutOfBounds),
        Some(bytes) => match decode_utf8(bytes) {
            None => Err(ReadError::MalformedText),
            Some(s) => Ok(s),
        },
    }
}

/// Copies `data` into `mem` at offset `at`. Returns `false` and leaves `mem`
/// unchanged where the destination runs past the end of `mem`.
pub fn write_bytes(mem: &mut [u8], at: u32, data: &[u8]) -> (r: bool)
    ensures
        r == (at as int + data@.len() <= old(mem)@.len()),
        r ==> final(mem)@ == old(mem)@.subrange(0, at as int) + data@ + old(mem)@.subrange(
            at as int + data@.len(),
            old(mem)@.len() as int,
        ),
        !r ==> final(mem)@ == old(mem)@,
{
    if data.len() > mem.len() || (at as usize) > mem.len() - data.len() {
        return false;
    }
    let start = at as usize;
    let mut j: usize = 0;
    while j < data.len()
        invariant
            start == at as int,
            start + data@.len() <= mem@.len(),
            mem@.len() == old(mem)@.len(),
            old(mem)@.len() <= usize::MAX,
            j <= data@.len(),
            forall|k: int| 0 <= k < start ==> mem@[k] == old(mem)@[k],
            forall|k: int| 0 <= k < j ==> mem@[start + k] == data@[k],
            forall|k: int| start + j <= k < mem@.len() ==> mem@[k] == old(mem)@[k],
        decreases data@.len() - j,
    {
        mem[start + j] = data[j];
        j = j + 1;
    }
    assert(mem@ =~= old(mem)@.subrange(0, at as int) + data@ + old(mem)@.subrange(
        at as int + data@.len(),
        old(mem)@.len() as int,
    ));
    true
}

} // verus!
