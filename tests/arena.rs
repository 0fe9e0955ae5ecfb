use neatro::jit::{JitError, JitMem, PAGE_SIZE};

fn return_three(asmbuf: &mut JitMem) {
    // mov rax, 0x03; ret
    for b in [0x48u8, 0xc7, 0xc0, 0x03, 0x00, 0x00, 0x00, 0xc3] {
        asmbuf.push_instruct_byte(b).unwrap();
    }
}

fn echo_argument(asmbuf: &mut JitMem) {
    // mov rax, rcx; ret
    for b in [0x48u8, 0x89, 0xc8, 0xc3] {
        asmbuf.push_instruct_byte(b).unwrap();
    }
}

#[test]
fn asmbuf_create() {
    let mut asmbuf = JitMem::new();
    assert_eq!(asmbuf.size(), PAGE_SIZE);
    return_three(&mut asmbuf);
    asmbuf.finalize();
    assert!(asmbuf.is_finalized());
    assert_eq!(asmbuf.code(), &[0x48, 0xc7, 0xc0, 0x03, 0x00, 0x00, 0x00, 0xc3]);
}

#[test]
fn asmbuf_echo_fn() {
    let mut asmbuf = JitMem::new();
    asmbuf.push_instruct_byte(0x48).unwrap();
    asmbuf.push_instruct_byte(0x89).unwrap();
    asmbuf.push_instruct_byte(0xc8).unwrap();
    assert_eq!(asmbuf.offset(), 3);
    asmbuf.push_instruct_byte(0xc3).unwrap();
    let fn_addr = asmbuf.set_jit_fn();
    asmbuf.finalize();
    assert_eq!(fn_addr, 0);
    assert_eq!(asmbuf.code(), &[0x48, 0x89, 0xc8, 0xc3]);
}

#[test]
fn jitmem_2_fn() {
    let mut asmbuf = JitMem::new();
    return_three(&mut asmbuf);
    let fn1 = asmbuf.set_jit_fn();
    echo_argument(&mut asmbuf);
    let fn2 = asmbuf.set_jit_fn();
    asmbuf.finalize();
    assert_eq!(fn1, 0);
    assert_eq!(fn2, 8);
    assert_eq!(&asmbuf.code()[fn1..fn2], &[0x48, 0xc7, 0xc0, 0x03, 0x00, 0x00, 0x00, 0xc3]);
    assert_eq!(&asmbuf.code()[fn2..asmbuf.offset()], &[0x48, 0x89, 0xc8, 0xc3]);
}

fn test_from_jit() -> i32 {
    3 + 2
}

#[test]
fn jitmem_rust_fn() {
    let mut asmbuf = JitMem::new();
    let fn_addr: u64 = test_from_jit as usize as u64;
    asmbuf.push_instruct_byte(0x48).unwrap();
    asmbuf.push_instruct_byte(0xb8).unwrap();
    asmbuf.push_u64(fn_addr).unwrap();
    asmbuf.push_instruct_byte(0xff).unwrap();
    asmbuf.push_instruct_byte(0xd0).unwrap();
    asmbuf.push_instruct_byte(0xc3).unwrap();
    asmbuf.finalize();
    assert_eq!(asmbuf.set_jit_fn(), 0);
    assert_eq!(asmbuf.offset(), 13);
    assert_eq!(&asmbuf.code()[2..10], &fn_addr.to_le_bytes());
    assert_eq!(test_from_jit(), 5);
}

#[test]
fn words_are_written_little_endian() {
    let mut a = JitMem::new();
    a.push_u16(0x0102).unwrap();
    a.push_u32(0x0a0b0c0d).unwrap();
    a.push_u64(0x1122334455667788).unwrap();
    assert_eq!(
        a.code(),
        &[0x02, 0x01, 0x0d, 0x0c, 0x0b, 0x0a, 0x88, 0x77, 0x66, 0x55, 0x44, 0x33, 0x22, 0x11]
    );
    assert_eq!(a.offset(), 14);
}

#[test]
fn writes_past_the_page_are_refused() {
    let mut a = JitMem::new();
    for _ in 0..PAGE_SIZE - 3 {
        a.push_instruct_byte(0x90).unwrap();
    }
    assert_eq!(a.push_u32(7), Err(JitError::CapacityExceeded));
    assert_eq!(a.offset(), PAGE_SIZE - 3);
    assert_eq!(a.push_u16(7), Ok(()));
    assert_eq!(a.push_instruct_byte(0xc3), Ok(()));
    assert_eq!(a.push_instruct_byte(0xc3), Err(JitError::CapacityExceeded));
    assert_eq!(a.push_u64(1), Err(JitError::CapacityExceeded));
    assert_eq!(a.offset(), PAGE_SIZE);
}

#[test]
fn writes_after_finalize_are_refused() {
    let mut a = JitMem::new();
    a.push_instruct_byte(0xc3).unwrap();
    a.finalize();
    assert_eq!(a.push_instruct_byte(0x90), Err(JitError::Finalized));
    assert_eq!(a.push_u16(1), Err(JitError::Finalized));
    assert_eq!(a.push_u32(1), Err(JitError::Finalized));
    assert_eq!(a.push_u64(1), Err(JitError::Finalized));
    assert_eq!(a.code(), &[0xc3]);
    assert_eq!(a.fn_offset(), 0);
}
