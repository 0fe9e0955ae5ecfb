use neatro::allocator::{AllocError, Layout, Win32HeapAllocator};
use neatro::cvec::CVec;

#[test]
fn test_vec() {
    let mut cvec: CVec<usize, Win32HeapAllocator> = CVec::new();
    assert_eq!(cvec.len(), 0);
    cvec.push(12).unwrap();
    assert_eq!(cvec.len(), 1);
    cvec.push(6).unwrap();
    assert_eq!(cvec.pop(), Some(6));
    assert_eq!(*cvec.index(0), 12);
    *cvec.index_mut(0) = 89;
    assert_eq!(*cvec.index(0), 89);
}

#[test]
fn pushes_then_pops_come_back_reversed() {
    let mut v: CVec<u32, Win32HeapAllocator> = CVec::new();
    for x in [5u32, 9, 1, 7, 3] {
        v.push(x).unwrap();
    }
    let mut out = Vec::new();
    for _ in 0..5 {
        out.push(v.pop().unwrap());
    }
    assert_eq!(out, vec![3, 7, 1, 9, 5]);
    assert!(v.is_empty());
    assert_eq!(v.pop(), None);
}

#[test]
fn capacity_doubles_and_never_shrinks() {
    let mut v: CVec<u64, Win32HeapAllocator> = CVec::new();
    assert_eq!(v.capacity(), 0);
    let mut seen = Vec::new();
    for i in 0..9u64 {
        v.push(i).unwrap();
        assert!(v.capacity() >= v.len());
        seen.push(v.capacity());
    }
    assert_eq!(seen, vec![1, 2, 4, 4, 8, 8, 8, 8, 16]);
    v.pop();
    assert_eq!(v.capacity(), 16);
    v.clear();
    assert_eq!(v.len(), 0);
    assert_eq!(v.capacity(), 16);
}

#[test]
fn index_past_length_fails() {
    let mut v: CVec<i32, Win32HeapAllocator> = CVec::new();
    assert_eq!(v.get(0), None);
    v.push(-4).unwrap();
    v.push(8).unwrap();
    assert_eq!(v.capacity(), 2);
    assert_eq!(v.get(0), Some(&-4));
    assert_eq!(v.get(1), Some(&8));
    assert_eq!(v.get(2), None);
    v.pop();
    assert_eq!(v.get(1), None);
    *v.index_mut(0) = 11;
    assert_eq!(v.get(0), Some(&11));
}

#[test]
fn clear_keeps_capacity_for_reuse() {
    let mut v: CVec<String, Win32HeapAllocator> = CVec::new();
    v.push(String::from("a")).unwrap();
    v.push(String::from("b")).unwrap();
    v.push(String::from("c")).unwrap();
    v.clear();
    assert!(v.is_empty());
    assert_eq!(v.capacity(), 4);
    v.push(String::from("d")).unwrap();
    assert_eq!(v.index(0).as_str(), "d");
    assert_eq!(v.capacity(), 4);
}

#[test]
fn consuming_iteration_goes_left_to_right() {
    let mut v: CVec<String, Win32HeapAllocator> = CVec::new();
    for s in ["x", "y", "z"] {
        v.push(String::from(s)).unwrap();
    }
    let mut it = v.into_iter();
    assert_eq!(it.next().as_deref(), Some("x"));
    assert_eq!(it.next().as_deref(), Some("y"));
    drop(it);

    let mut w: CVec<u8, Win32HeapAllocator> = CVec::new();
    w.push(1).unwrap();
    w.push(2).unwrap();
    let mut all = Vec::new();
    let mut it = w.into_iter();
    while let Some(x) = it.next() {
        all.push(x);
    }
    assert_eq!(all, vec![1, 2]);
    assert_eq!(it.next(), None);
}

#[test]
fn reference_iteration_leaves_the_vector() {
    let mut v: CVec<u16, Win32HeapAllocator> = CVec::new();
    v.push(10).unwrap();
    v.push(20).unwrap();
    v.push(30).unwrap();
    let mut it = v.iter();
    let mut all = Vec::new();
    while let Some(x) = it.next() {
        all.push(*x);
    }
    assert_eq!(all, vec![10, 20, 30]);
    assert_eq!(v.len(), 3);
    assert_eq!(v.as_slice(), &[10, 20, 30]);
}

#[test]
fn reserve_too_large_is_refused() {
    let mut v: CVec<u64, Win32HeapAllocator> = CVec::new();
    v.push(1).unwrap();
    assert_eq!(v.reserve(usize::MAX), Err(AllocError::CapacityOverflow));
    assert_eq!(v.reserve(usize::MAX / 8 + 1), Err(AllocError::CapacityOverflow));
    assert_eq!(v.capacity(), 1);
    assert_eq!(v.reserve(0), Ok(()));
    assert_eq!(v.reserve(10), Ok(()));
    assert_eq!(v.capacity(), 10);
    assert_eq!(*v.index(0), 1);
}

#[test]
fn vector_holds_one_block_of_its_allocator() {
    let mut v: CVec<u8, Win32HeapAllocator> = CVec::new_in(Win32HeapAllocator::new());
    for i in 0..20u8 {
        v.push(i).unwrap();
    }
    assert_eq!(v.capacity(), 32);
    assert_eq!(v.as_slice().len(), 20);
    assert_eq!(*v.index(19), 19);
}

#[test]
fn layouts() {
    assert_eq!(Layout::new(24), Layout { size: 24, align: 4 });
    assert_eq!(Layout::from_type::<u64>(), Layout { size: 8, align: std::mem::align_of::<u64>() });
    assert_eq!(Layout::from_type::<u8>(), Layout { size: 1, align: 1 });
    assert_eq!(Layout::from_array_type::<u32>(5), Layout { size: 20, align: 4 });
    assert_eq!(Layout::from_array_type::<u16>(0).size, 0);
}

#[test]
fn checked_write_access() {
    let mut v: CVec<u32, Win32HeapAllocator> = CVec::new();
    assert!(v.get_mut(0).is_none());
    v.push(3).unwrap();
    assert_eq!(v.capacity(), 1);
    assert!(v.get_mut(1).is_none());
    if let Some(x) = v.get_mut(0) {
        *x = 30;
    }
    assert_eq!(v.as_slice(), &[30]);
}

#[test]
fn sizes_past_isize_max_are_refused() {
    let mut v: CVec<u8, Win32HeapAllocator> = CVec::new();
    assert_eq!(v.reserve(isize::MAX as usize + 1), Err(AllocError::CapacityOverflow));
    let mut w: CVec<u32, Win32HeapAllocator> = CVec::new();
    assert_eq!(w.reserve(isize::MAX as usize / 4 + 1), Err(AllocError::CapacityOverflow));
    assert_eq!(w.capacity(), 0);
}
