//! The closed set of host services, selected by the exact name of a guest
//! import.

use vstd::prelude::*;

verus! {

/// What a host stub does when the guest calls it.
#[derive(Clone, Copy, Debug, PartialEq, Eq, Structural)]
pub enum HostService {
    /// `allocator-malloc`: allocate guest heap bytes.
    Malloc,
    /// `allocator-free`: release a guest heap allocation.
    Free,
    /// `logging-log`: print a target and a message read from guest memory.
    Log,
    /// Any other import: no effect beyond zeroed results.
    Unrecognized,
}

/// The service that an import of the given name provides.
pub open spec fn service_named(name: Seq<char>) -> HostService {
    if name == "allocator-malloc"@ {
        HostService::Malloc
    } else if name == "allocator-free"@ {
        HostService::Free
    } else if name == "logging-log"@ {
        HostService::Log
    } else {
        HostService::Unrecognized
    }
}

/// Whether two strings hold the same characters.
pub fn same_text(a: &str, b: &str) -> (r: bool)
    ensures
        r == (a@ == b@),
{
    let n = a.unicode_len();
    if n != b.unicode_len() {
        return false;
    }
    let mut i: usize = 0;
    while i < n
        invariant
            n == a@.len(),
            n == b@.len(),
            i <= n,
            forall|j: int| 0 <= j < i ==> a@[j] == b@[j],
        decreases n - i,
    {
        if a.get_char(i) != b.get_char(i) {
            return false;
        }
        i = i + 1;
    }
    assert(a@ =~= b@);
    true
}

/// Selects the service by exact name match.
pub fn service_of(name: &str) -> (r: HostService)
    ensures
        r == service_named(name@),
{
    if same_text(name, "allocator-malloc") {
        HostService::Malloc
    } else if same_text(name, "allocator-free") {
        HostService::Free
    } else if same_text(name, "logging-log") {
        HostService::Log
    } else {
        HostService::Unrecognized
    }
}

} // verus!
