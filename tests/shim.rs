use guest_shim::codec::{pack, unpack_ptr_and_len};
use guest_shim::heap::{HeapAllocator, HeapFault};
use guest_shim::host::{FuncSig, HostStub, HostTrap};
use guest_shim::memory::{read_bytes, read_string, write_bytes, BindError, MemoryHandle, ReadError};
use guest_shim::registry::{build_stubs, inject_input_data, GuestImport, ImportKind, RegistryError};
use guest_shim::service::{service_of, HostService};
use guest_shim::value::{default_results, default_val, Val, ValKind};

const PAGE: usize = 65536;

fn sig(params: Vec<ValKind>, results: Vec<ValKind>) -> FuncSig {
    FuncSig { params, results }
}

fn stub(name: &str, params: Vec<ValKind>, results: Vec<ValKind>) -> HostStub {
    HostStub::new(name.to_string(), sig(params, results))
}

#[test]
fn pack_places_pointer_low_and_length_high() {
    assert_eq!(pack(0x10, 5), (5u64 << 32) | 0x10);
    assert_eq!(pack(0, 0), 0);
    assert_eq!(pack(u32::MAX, u32::MAX), u64::MAX);
}

#[test]
fn unpack_splits_halves() {
    assert_eq!(unpack_ptr_and_len(0xFFFF_FFFF_0000_0001), (1, u32::MAX));
    assert_eq!(unpack_ptr_and_len(0x0000_0005_0000_0010), (0x10, 5));
}

#[test]
fn unpack_inverts_pack_on_samples() {
    for &(p, l) in &[(0u32, 0u32), (1, 2), (u32::MAX, 0), (0, u32::MAX), (123456, 654321)] {
        assert_eq!(unpack_ptr_and_len(pack(p, l)), (p, l));
    }
}

#[test]
fn pack_distinguishes_swapped_halves() {
    assert_ne!(pack(1, 2), pack(2, 1));
    assert_ne!(pack(0, 1), pack(1, 0));
}

#[test]
fn defaults_are_zero_of_each_kind() {
    assert_eq!(default_val(&ValKind::I32), Val::I32(0));
    assert_eq!(default_val(&ValKind::F64), Val::F64(0));
    let kinds = vec![ValKind::I32, ValKind::I64, ValKind::F32, ValKind::F64];
    assert_eq!(
        default_results(&kinds),
        vec![Val::I32(0), Val::I64(0), Val::F32(0), Val::F64(0)]
    );
    assert!(default_results(&vec![]).is_empty());
}

#[test]
fn services_are_selected_by_exact_name() {
    assert_eq!(service_of("allocator-malloc"), HostService::Malloc);
    assert_eq!(service_of("allocator-free"), HostService::Free);
    assert_eq!(service_of("logging-log"), HostService::Log);
    assert_eq!(service_of("logging-logs"), HostService::Unrecognized);
    assert_eq!(service_of("Allocator-malloc"), HostService::Unrecognized);
    assert_eq!(service_of(""), HostService::Unrecognized);
}

#[test]
fn memory_handle_binds_once() {
    let mut h: MemoryHandle<u32> = MemoryHandle::new();
    assert!(!h.is_bound());
    assert_eq!(h.bind(7), Ok(()));
    assert!(h.is_bound());
    assert_eq!(*h.region(), 7);
    assert_eq!(h.bind(8), Err(BindError::AlreadyBound));
    assert_eq!(*h.region(), 7);
}

#[test]
fn reads_check_bounds_and_text() {
    let mut mem = vec![0u8; 16];
    mem[2..7].copy_from_slice(b"hello");
    assert_eq!(read_bytes(&mem, 2, 5), Some(b"hello".to_vec()));
    assert_eq!(read_bytes(&mem, 12, 5), None);
    assert_eq!(read_bytes(&mem, 16, 0), Some(vec![]));
    assert_eq!(read_string(&mem, 2, 5), Ok("hello".to_string()));
    assert_eq!(read_string(&mem, 2, 15), Err(ReadError::OutOfBounds));
    assert_eq!(read_string(&mem, u32::MAX, 2), Err(ReadError::OutOfBounds));
    mem[8] = 0xFF;
    assert_eq!(read_string(&mem, 8, 1), Err(ReadError::MalformedText));
    // a two-byte character cut in half is rejected, not truncated
    mem[10..12].copy_from_slice("é".as_bytes());
    assert_eq!(read_string(&mem, 10, 1), Err(ReadError::MalformedText));
    assert_eq!(read_string(&mem, 10, 2), Ok("é".to_string()));
}

#[test]
fn write_bytes_copies_or_refuses() {
    let mut mem = vec![0u8; 8];
    assert!(write_bytes(&mut mem, 3, b"abc"));
    assert_eq!(mem, vec![0, 0, 0, b'a', b'b', b'c', 0, 0]);
    assert!(!write_bytes(&mut mem, 6, b"abc"));
    assert_eq!(mem, vec![0, 0, 0, b'a', b'b', b'c', 0, 0]);
}

#[test]
fn allocation_lies_within_memory() {
    let mut mem = vec![0u8; PAGE];
    let mut heap = HeapAllocator::new(1024);
    for n in [1u32, 7, 8, 9, 100, 4000] {
        let q = heap.allocate(&mut mem, n).unwrap();
        assert!(q as usize + n as usize <= mem.len());
        assert!(q >= 1024 + 8);
    }
}

#[test]
fn first_allocation_follows_its_header() {
    let mut mem = vec![0u8; PAGE];
    let mut heap = HeapAllocator::new(1021);
    let q = heap.allocate(&mut mem, 1).unwrap();
    // heap base rounded up to 1024, then an 8-byte header
    assert_eq!(q, 1032);
    assert_eq!(&mem[1024..1032], &[0, 0, 0, 0, 1, 0, 0, 0]);
    let q2 = heap.allocate(&mut mem, 9).unwrap();
    assert_eq!(q2, 1032 + 8 + 8);
}

#[test]
fn allocation_beyond_memory_fails() {
    let mut mem = vec![0u8; PAGE];
    let mut heap = HeapAllocator::new(1024);
    assert_eq!(heap.allocate(&mut mem, PAGE as u32), Err(HeapFault::AllocationFailed));
    let mut mem2 = vec![0u8; PAGE];
    let mut heap2 = HeapAllocator::new(1024);
    assert_eq!(heap2.allocate(&mut mem2, 16777217), Err(HeapFault::AllocationFailed));
}

#[test]
fn free_after_allocate_then_double_free_traps() {
    let mut mem = vec![0u8; PAGE];
    let mut heap = HeapAllocator::new(1024);
    let q = heap.allocate(&mut mem, 32).unwrap();
    assert_eq!(heap.deallocate(&mut mem, q), Ok(()));
    assert_eq!(heap.deallocate(&mut mem, q), Err(HeapFault::DeallocationFailed));
}

#[test]
fn freed_block_is_reused() {
    let mut mem = vec![0u8; PAGE];
    let mut heap = HeapAllocator::new(1024);
    let q = heap.allocate(&mut mem, 16).unwrap();
    heap.deallocate(&mut mem, q).unwrap();
    assert_eq!(heap.allocate(&mut mem, 16), Ok(q));
}

#[test]
fn free_of_unknown_pointer_traps() {
    let mut mem = vec![0u8; PAGE];
    let mut heap = HeapAllocator::new(1024);
    assert_eq!(heap.deallocate(&mut mem, 4), Err(HeapFault::DeallocationFailed));
    let mut heap2 = HeapAllocator::new(1024);
    assert_eq!(heap2.deallocate(&mut mem, 2048), Err(HeapFault::DeallocationFailed));
}

#[test]
fn unrecognized_import_returns_zeros() {
    let s = stub("env-something", vec![ValKind::I32], vec![ValKind::I64, ValKind::F32]);
    assert_eq!(s.service, HostService::Unrecognized);
    let mut mem = vec![5u8; 64];
    let mut heap = HeapAllocator::new(0);
    let e = s.handle_call(&mut heap, &mut mem, &vec![Val::I32(-3)]).unwrap();
    assert_eq!(e.results, vec![Val::I64(0), Val::F32(0)]);
    assert!(e.log.is_none());
    let e2 = s.handle_call(&mut heap, &mut mem, &vec![]).unwrap();
    assert_eq!(e2.results, vec![Val::I64(0), Val::F32(0)]);
    assert_eq!(mem, vec![5u8; 64]);
}

#[test]
fn malloc_stub_returns_pointer_and_free_stub_releases_it() {
    let malloc = stub("allocator-malloc", vec![ValKind::I32], vec![ValKind::I32]);
    let free = stub("allocator-free", vec![ValKind::I32], vec![]);
    let mut mem = vec![0u8; PAGE];
    let mut heap = HeapAllocator::new(2048);
    let e = malloc.handle_call(&mut heap, &mut mem, &vec![Val::I32(10)]).unwrap();
    assert_eq!(e.results, vec![Val::I32(2056)]);
    let e2 = free.handle_call(&mut heap, &mut mem, &vec![Val::I32(2056)]).unwrap();
    assert!(e2.results.is_empty());
    assert_eq!(
        free.handle_call(&mut heap, &mut mem, &vec![Val::I32(2056)]).err(),
        Some(HostTrap::DeallocationFailed)
    );
}

#[test]
fn malloc_stub_traps_on_failure_and_bad_arguments() {
    let malloc = stub("allocator-malloc", vec![ValKind::I32], vec![ValKind::I32]);
    let mut mem = vec![0u8; PAGE];
    let mut heap = HeapAllocator::new(2048);
    assert_eq!(
        malloc.handle_call(&mut heap, &mut mem, &vec![Val::I32(PAGE as i32)]).err(),
        Some(HostTrap::AllocationFailed)
    );
    let mut heap2 = HeapAllocator::new(2048);
    assert_eq!(
        malloc.handle_call(&mut heap2, &mut mem, &vec![Val::I64(1)]).err(),
        Some(HostTrap::BadArguments)
    );
    let no_result = stub("allocator-malloc", vec![ValKind::I32], vec![]);
    assert_eq!(
        no_result.handle_call(&mut heap2, &mut mem, &vec![Val::I32(1)]).err(),
        Some(HostTrap::BadArguments)
    );
}

#[test]
fn log_stub_reads_target_and_message() {
    let log = stub("logging-log", vec![ValKind::I32, ValKind::I64, ValKind::I64], vec![]);
    let mut mem = vec![0u8; 256];
    mem[100..104].copy_from_slice(b"test");
    mem[200..205].copy_from_slice(b"hello");
    let params = vec![
        Val::I32(1),
        Val::I64(pack(100, 4) as i64),
        Val::I64(pack(200, 5) as i64),
    ];
    let mut heap = HeapAllocator::new(0);
    let e = log.handle_call(&mut heap, &mut mem, &params).unwrap();
    let line = e.log.unwrap();
    assert_eq!(format!("{}: {}", line.target, line.message), "test: hello");
}

#[test]
fn log_stub_traps_on_out_of_bounds_buffer() {
    let log = stub("logging-log", vec![ValKind::I32, ValKind::I64, ValKind::I64], vec![]);
    let mut mem = vec![b'a'; 256];
    let mut heap = HeapAllocator::new(0);
    let params = vec![
        Val::I32(1),
        Val::I64(pack(100, 4) as i64),
        Val::I64(pack(250, 100) as i64),
    ];
    assert_eq!(
        log.handle_call(&mut heap, &mut mem, &params).err(),
        Some(HostTrap::OutOfBounds)
    );
    let params2 = vec![
        Val::I32(1),
        Val::I64(pack(u32::MAX, u32::MAX) as i64),
        Val::I64(pack(0, 1) as i64),
    ];
    assert_eq!(
        log.handle_call(&mut heap, &mut mem, &params2).err(),
        Some(HostTrap::OutOfBounds)
    );
}

#[test]
fn log_stub_traps_on_malformed_text() {
    let log = stub("logging-log", vec![ValKind::I32, ValKind::I64, ValKind::I64], vec![]);
    let mut mem = vec![0xC3u8; 16];
    let mut heap = HeapAllocator::new(0);
    let params = vec![Val::I32(0), Val::I64(pack(0, 1) as i64), Val::I64(pack(0, 0) as i64)];
    assert_eq!(
        log.handle_call(&mut heap, &mut mem, &params).err(),
        Some(HostTrap::MalformedText)
    );
}

#[test]
fn stubs_follow_imports_in_order() {
    let imports = vec![
        GuestImport { name: "logging-log".to_string(), kind: ImportKind::Func(sig(vec![], vec![])) },
        GuestImport {
            name: "other".to_string(),
            kind: ImportKind::Func(sig(vec![ValKind::F64], vec![ValKind::F64])),
        },
        GuestImport { name: "allocator-malloc".to_string(), kind: ImportKind::Func(sig(vec![], vec![])) },
    ];
    let stubs = build_stubs(imports).unwrap();
    assert_eq!(stubs.len(), 3);
    assert_eq!(stubs[0].service, HostService::Log);
    assert_eq!(stubs[1].name, "other");
    assert_eq!(stubs[1].service, HostService::Unrecognized);
    assert_eq!(stubs[1].sig.results, vec![ValKind::F64]);
    assert_eq!(stubs[2].service, HostService::Malloc);
}

#[test]
fn non_function_import_is_refused() {
    let imports = vec![
        GuestImport { name: "a".to_string(), kind: ImportKind::Func(sig(vec![], vec![])) },
        GuestImport { name: "memory".to_string(), kind: ImportKind::Other },
    ];
    assert_eq!(build_stubs(imports).err(), Some(RegistryError::NonFunctionImport(1)));
}

#[test]
fn input_is_copied_into_an_allocation() {
    let mut mem = vec![0u8; PAGE];
    let mut heap = HeapAllocator::new(4096);
    let (p, l) = inject_input_data(&mut heap, &mut mem, b"hello").unwrap();
    assert_eq!(l, 5);
    assert_eq!(p, 4104);
    assert_eq!(&mem[p as usize..(p + l) as usize], b"hello");
    assert_eq!(read_string(&mem, p, l), Ok("hello".to_string()));
}

#[test]
fn empty_input_still_gets_a_block() {
    let mut mem = vec![0u8; PAGE];
    let mut heap = HeapAllocator::new(4096);
    let (p, l) = inject_input_data(&mut heap, &mut mem, &[]).unwrap();
    assert_eq!((p, l), (4104, 0));
}

#[test]
fn separate_runs_share_no_heap_state() {
    let mut mem1 = vec![0u8; PAGE];
    let mut heap1 = HeapAllocator::new(4096);
    let a = heap1.allocate(&mut mem1, 64).unwrap();
    let _ = heap1.allocate(&mut mem1, 64).unwrap();
    let mut mem2 = vec![0u8; PAGE];
    let mut heap2 = HeapAllocator::new(4096);
    let b = heap2.allocate(&mut mem2, 64).unwrap();
    assert_eq!(a, b);
}

#[test]
fn free_of_forged_header_traps() {
    let mut mem = vec![0u8; PAGE];
    let mut heap = HeapAllocator::new(1024);
    let q = heap.allocate(&mut mem, 8).unwrap();
    // an in-use header of order 0 for a block that was never handed out
    mem[4088..4096].copy_from_slice(&[0, 0, 0, 0, 1, 0, 0, 0]);
    assert_eq!(heap.deallocate(&mut mem, 4096), Err(HeapFault::DeallocationFailed));
    assert_eq!(heap.deallocate(&mut mem, q), Ok(()));
}

#[test]
fn free_stub_refuses_pointer_never_allocated() {
    let free = stub("allocator-free", vec![ValKind::I32], vec![]);
    let mut mem = vec![0u8; PAGE];
    mem[4088..4096].copy_from_slice(&[0, 0, 0, 0, 1, 0, 0, 0]);
    let mut heap = HeapAllocator::new(1024);
    assert_eq!(
        free.handle_call(&mut heap, &mut mem, &vec![Val::I32(4096)]).err(),
        Some(HostTrap::DeallocationFailed)
    );
}

#[test]
fn fresh_heap_allocates_at_bump_offset() {
    let mut mem = vec![0u8; PAGE];
    let mut heap = HeapAllocator::new(4096);
    assert_eq!(heap.allocate(&mut mem, 100), Ok(4104));
    // a 100-byte request takes a 128-byte block
    assert_eq!(heap.allocate(&mut mem, 1), Ok(4104 + 128 + 8));
}
