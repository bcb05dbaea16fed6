use windows_icons::handles::{release_all, HandleGuard, HandleKind, NativeHandle};

#[test]
fn a_guard_over_a_handle_releases_it() {
    let guard = HandleGuard::new(HandleKind::Bitmap, 42);
    assert_eq!(guard.raw(), 42);
    assert_eq!(guard.handle(), NativeHandle { kind: HandleKind::Bitmap, raw: 42 });
    assert_eq!(guard.release(), Some(NativeHandle { kind: HandleKind::Bitmap, raw: 42 }));
}

#[test]
fn a_guard_over_the_null_handle_releases_nothing() {
    assert_eq!(HandleGuard::new(HandleKind::Icon, 0).release(), None);
    assert_eq!(HandleGuard::empty(HandleKind::Module).release(), None);
    assert_eq!(HandleGuard::empty(HandleKind::DeviceContext).raw(), 0);
}

#[test]
fn guards_are_released_in_order_and_null_handles_left_out() {
    let guards = vec![
        HandleGuard::new(HandleKind::DeviceContext, 1),
        HandleGuard::new(HandleKind::Icon, 0),
        HandleGuard::new(HandleKind::Bitmap, 3),
        HandleGuard::empty(HandleKind::Bitmap),
        HandleGuard::new(HandleKind::Module, 5),
    ];
    assert_eq!(
        release_all(guards),
        vec![
            NativeHandle { kind: HandleKind::DeviceContext, raw: 1 },
            NativeHandle { kind: HandleKind::Bitmap, raw: 3 },
            NativeHandle { kind: HandleKind::Module, raw: 5 },
        ]
    );
    assert_eq!(release_all(Vec::new()), Vec::<NativeHandle>::new());
}

#[test]
fn a_handle_guarded_twice_is_released_twice() {
    let guards = vec![HandleGuard::new(HandleKind::Bitmap, 9), HandleGuard::new(HandleKind::Bitmap, 9)];
    assert_eq!(release_all(guards).len(), 2);
}
