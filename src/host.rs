//! Host stubs: one per function the guest imports, each bound to the
//! import's name and signature. A call zeroes every declared result slot,
//! then runs the selected service against the guest heap and the current
//! bytes of guest memory. A failure is reported as a trap, with no results.

use vstd::prelude::*;
use crate::codec::{len_of, ptr_of, unpack_ptr_and_len};
use crate::heap::{allocated, can_release, order_for, released, room_for, HeapAllocator, MAX_ALLOCATION};
use crate::memory::{buffer, in_bounds, read_string, utf8_text, ReadError};
use crate::service::{service_named, service_of, HostService};
use crate::value::{default_results, zeros_of, Val, ValKind};

verus! {

/// The parameter and result types an import declares.
pub struct FuncSig {
    pub params: Vec<ValKind>,
    pub results: Vec<ValKind>,
}

/// A host function bound to one import.
pub struct HostStub {
    pub name: String,
    pub service: HostService,
    pub sig: FuncSig,
}

/// A log line for the host to print as `<target>: <message>`.
pub struct LogLine {
    pub target: String,
    pub message: String,
}

/// What a call that did not trap hands back.
pub struct CallEffect {
    pub results: Vec<Val>,
    pub log: Option<LogLine>,
}

/// Why a host call trapped.
#[derive(Clone, Copy, Debug, PartialEq, Eq, Structural)]
pub enum HostTrap {
    /// A parameter is missing or of the wrong type, or no result slot is
    /// declared for a result the service produces.
    BadArguments,
    /// The heap could not serve the request.
    AllocationFailed,
    /// The pointer does not name a block in use.
    DeallocationFailed,
    /// A buffer runs past the end of guest memory.
    OutOfBounds,
    /// A buffer is not well-formed UTF-8.
    MalformedText,
}

/// The trap for a failed buffer read.
pub open spec fn read_trap(e: ReadError) -> HostTrap {
    match e {
        ReadError::OutOfBounds => HostTrap::OutOfBounds,
        ReadError::MalformedText => HostTrap::MalformedText,
    }
}

/// How a text buffer named by a packed word reads from `mem`.
pub open spec fn text_at(mem: Seq<u8>, word: u64) -> Result<Seq<char>, HostTrap> {
    let (p, l) = (ptr_of(word), len_of(word));
    if !in_bounds(mem.len() as int, p, l) {
        Err(HostTrap::OutOfBounds)
    } else {
        match utf8_text(buffer(mem, p, l)) {
            Some(s) => Ok(s),
            None => Err(HostTrap::MalformedText),
        }
    }
}

/// The integer in a 32-bit slot.
pub open spec fn as_i32(v: Val) -> Option<i32> {
    match v {
        Val::I32(x) => Some(x),
        _ => None,
    }
}

/// The integer in a 64-bit slot.
pub open spec fn as_i64(v: Val) -> Option<i64> {
    match v {
        Val::I64(x) => Some(x),
        _ => None,
    }
}

/// Whether a call with these parameters and result slots is well-typed for
/// the service.
pub open spec fn args_fit(service: HostService, params: Seq<Val>, results: Seq<ValKind>) -> bool {
    match service {
        HostService::Malloc => params.len() >= 1 && as_i32(params[0]) is Some && results.len() >= 1,
        HostService::Free => params.len() >= 1 && as_i32(params[0]) is Some,
        HostService::Log => params.len() >= 3 && as_i64(params[1]) is Some && as_i64(params[2]) is Some,
        HostService::Unrecognized => true,
    }
}

/// The text a log call prints, read from its second and third parameters:
/// the target's error first.
pub open spec fn log_outcome(mem: Seq<u8>, params: Seq<Val>) -> Result<(Seq<char>, Seq<char>), HostTrap> {
    let t = text_at(mem, as_i64(params[1])->Some_0 as u64);
    let m = text_at(mem, as_i64(params[2])->Some_0 as u64);
    match t {
        Err(e) => Err(e),
        Ok(ts) => match m {
            Err(e) => Err(e),
            Ok(ms) => Ok((ts, ms)),
        },
    }
}

fn ok_effect(results: Vec<Val>) -> (r: Result<CallEffect, HostTrap>)
    ensures
        r matches Ok(e) && e.results@ == results@ && e.log is None,
{
    Ok(CallEffect { results, log: None })
}

fn read_text(mem: &[u8], word: u64) -> (r: Result<String, HostTrap>)
    ensures
        r is Ok <==> text_at(mem@, word) is Ok,
        r matches Ok(s) ==> text_at(mem@, word) == Ok::<Seq<char>, HostTrap>(s@),
        r matches Err(e) ==> text_at(mem@, word) == Err::<Seq<char>, HostTrap>(e),
{
    let (p, l) = unpack_ptr_and_len(word);
    match read_string(mem, p, l) {
        Ok(s) => Ok(s),
        Err(ReadError::OutOfBounds) => Err(HostTrap::OutOfBounds),
        Err(ReadError::MalformedText) => Err(HostTrap::MalformedText),
    }
}

impl HostStub {
    /// A stub for an import of the given name and signature; the service is
    /// chosen by exact name.
    pub fn new(name: String, sig: FuncSig) -> (r: Self)
        ensures
            r.name@ == name@,
            r.service == service_named(name@),
            r.sig == sig,
    {
        let service = service_of(name.as_str());
        HostStub { name, service, sig }
    }

    /// Runs the stub on `params` against the heap and the current bytes of
    /// guest memory.
    ///
    /// The heap's free lists live in guest memory: `fits` holds until the
    /// guest overwrites the header of a freed block. Where it does not, the
    /// outside allocator may panic, and the caller's fault boundary turns
    /// that into a trap.
    pub fn handle_call(&self, heap: &mut HeapAllocator, mem: &mut [u8], params: &Vec<Val>) -> (r:
        Result<CallEffect, HostTrap>)
        requires
            old(heap).wf(),
            old(heap).fits(old(mem)@.len()),
        ensures
            final(heap).wf(),
            final(mem)@.len() == old(mem)@.len(),
            r matches Ok(e) ==> e.results@.len() == self.sig.results@.len(),
            self.service != HostService::Malloc ==> (r matches Ok(e) ==> e.results@ == zeros_of(
                self.sig.results@,
            )),
            self.service != HostService::Log ==> (r matches Ok(e) ==> e.log is None),
            !args_fit(self.service, params@, self.sig.results@) ==> r == Err::<
                CallEffect,
                HostTrap,
            >(HostTrap::BadArguments),
            self.service == HostService::Unrecognized || self.service == HostService::Log || (
            self.service == HostService::Malloc && r is Err) ==> final(mem)@ == old(mem)@,
            self.service == HostService::Unrecognized || self.service == HostService::Log
                ==> *final(heap) == *old(heap),
            self.service == HostService::Unrecognized ==> r is Ok,
            self.service != HostService::Malloc ==> final(heap).fits(old(mem)@.len()),
            self.service == HostService::Malloc && args_fit(self.service, params@, self.sig.results@)
                ==> match r {
                Ok(e) => {
                    &&& e.log is None
                    &&& e.results@ == zeros_of(self.sig.results@).update(0, e.results@[0])
                    &&& as_i32(e.results@[0]) is Some
                    &&& allocated(
                        *old(heap),
                        old(mem)@,
                        as_i32(params@[0])->Some_0 as u32,
                        *final(heap),
                        final(mem)@,
                        as_i32(e.results@[0])->Some_0 as u32,
                    )
                },
                Err(t) => t == HostTrap::AllocationFailed,
            } && {
                let n = as_i32(params@[0])->Some_0 as u32;
                &&& room_for(*old(heap), old(mem)@.len(), n) ==> r is Ok
                &&& n > MAX_ALLOCATION || old(heap).poisoned() ==> r == Err::<CallEffect, HostTrap>(
                    HostTrap::AllocationFailed,
                )
                &&& r is Err || old(heap).head(order_for(n as nat)) is None ==> final(heap).fits(
                    old(mem)@.len(),
                )
            },
            self.service == HostService::Free && args_fit(self.service, params@, self.sig.results@)
                ==> {
                let p = as_i32(params@[0])->Some_0 as u32;
                &&& r is Ok ==> released(*old(heap), old(mem)@, p, *final(heap), final(mem)@)
                &&& r matches Err(t) ==> t == HostTrap::DeallocationFailed
                &&& can_release(*old(heap), old(mem)@, p) ==> r is Ok
                &&& !old(heap).is_live(p) ==> r == Err::<CallEffect, HostTrap>(
                    HostTrap::DeallocationFailed,
                )
            },
            self.service == HostService::Log && args_fit(self.service, params@, self.sig.results@)
                ==> match log_outcome(old(mem)@, params@) {
                Ok((t, m)) => r matches Ok(e) && e.log matches Some(line) && line.target@ == t
                    && line.message@ == m,
                Err(t) => r == Err::<CallEffect, HostTrap>(t),
            },
    {
        let mut results = default_results(&self.sig.results);
        match self.service {
            HostService::Unrecognized => ok_effect(results),
            HostService::Malloc => {
                if params.len() < 1 || results.len() < 1 {
                    return Err(HostTrap::BadArguments);
                }
                let size: u32 = match params[0] {
                    Val::I32(x) => #[verifier::truncate] (x as u32),
                    _ => {
                        return Err(HostTrap::BadArguments);
                    },
                };
                match heap.allocate(mem, size) {
                    Ok(q) => {
                        results.set(0, Val::I32(#[verifier::truncate] (q as i32)));
                        proof {
                            let x: i32 = #[verifier::truncate] (q as i32);
                            assert(x as u32 == q) by (bit_vector)
                                requires
                                    x == #[verifier::truncate] (q as i32),
                            ;
                        }
                        ok_effect(results)
                    },
                    Err(_) => Err(HostTrap::AllocationFailed),
                }
            },
            HostService::Free => {
                if params.len() < 1 {
                    return Err(HostTrap::BadArguments);
                }
                let ptr: u32 = match params[0] {
                    Val::I32(x) => #[verifier::truncate] (x as u32),
                    _ => {
                        return Err(HostTrap::BadArguments);
                    },
                };
                match heap.deallocate(mem, ptr) {
                    Ok(()) => ok_effect(results),
                    Err(_) => Err(HostTrap::DeallocationFailed),
                }
            },
            HostService::Log => {
                if params.len() < 3 {
                    return Err(HostTrap::BadArguments);
                }
                let target_word: u64 = match params[1] {
                    Val::I64(x) => #[verifier::truncate] (x as u64),
                    _ => {
                        return Err(HostTrap::BadArguments);
                    },
                };
                let msg_word: u64 = match params[2] {
                    Val::I64(x) => #[verifier::truncate] (x as u64),
                    _ => {
                        return Err(HostTrap::BadArguments);
                    },
                };
                let target = read_text(mem, target_word)?;
                let message = read_text(mem, msg_word)?;
                Ok(CallEffect { results, log: Some(LogLine { target, message }) })
            },
        }
    }
}

} // verus!
