use neatro::allocator::{Allocator, Layout, Win32HeapAllocator};
use neatro::win32::{is_quit, window_action, WindowAction, MSG, PIXELFORMATDESCRIPTOR, POINT, WM};

#[test]
fn message_numbers_decode() {
    assert_eq!(WM::from(0x0002), WM::DESTROY);
    assert_eq!(WM::from(0x0005), WM::SIZE);
    assert_eq!(WM::from(0x0010), WM::CLOSE);
    assert_eq!(WM::from(0x0012), WM::QUIT);
    assert_eq!(WM::from(0x0001), WM::NULL);
    assert!(is_quit(0x0012));
    assert!(!is_quit(0x0010));
}

#[test]
fn window_procedure_decisions() {
    assert_eq!(window_action(0x0005), WindowAction::Handled);
    assert_eq!(window_action(0x0010), WindowAction::Destroy);
    assert_eq!(window_action(0x0002), WindowAction::PostQuit);
    assert_eq!(window_action(0x0012), WindowAction::Default);
    assert_eq!(window_action(0x0201), WindowAction::Default);
}

#[test]
fn empty_message() {
    let m = MSG::new();
    assert_eq!(m.hwnd, 0);
    assert_eq!(m.message, 0);
    assert_eq!(m.pt, POINT { x: 0, y: 0 });
}

#[test]
fn pixel_format_for_gl_window() {
    let pfd = PIXELFORMATDESCRIPTOR::new();
    assert_eq!(pfd.nSize, 40);
    assert_eq!(pfd.nVersion, 1);
    assert_eq!(pfd.dwFlags, 0x25);
    assert_eq!(pfd.cColorBits, 32);
    assert_eq!(pfd.cDepthBits, 24);
    assert_eq!(pfd.cStencilBits, 8);
    assert_eq!(pfd.iPixelType, 0);
}

#[test]
fn heap_adapter_meets_every_request() {
    let mut heap = Win32HeapAllocator::new();
    let a = heap.allocate::<u32>(Layout::from_array_type::<u32>(4)).unwrap();
    let b = heap.allocate::<u8>(Layout::new(3)).unwrap();
    assert_eq!(a.len(), 0);
    assert_eq!(a.layout(), Layout { size: 16, align: 4 });
    heap.deallocate(a);
    assert_eq!(b.layout(), Layout { size: 3, align: 4 });
    heap.deallocate(b);
}
