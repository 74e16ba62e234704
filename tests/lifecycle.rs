use gl::display::{DisplayRegistry, EGLDisplay, EGLDisplayHandle};
use gl::egl::{
    eglGetDisplay, eglGetPlatformDisplay, eglInitialize, eglTerminate, EGLBoolean, EGLDisplayID,
    EGL_VERSION_MAJOR, EGL_VERSION_MINOR,
};

#[test]
fn create_initialize_terminate_scenario() {
    let mut registry = DisplayRegistry::new();
    let handle = eglGetDisplay(&mut registry, EGLDisplayID(0));
    assert!(!handle.is_null());
    let mut major = Some(99u32);
    let mut minor = Some(99u32);
    assert_eq!(eglInitialize(&mut registry, handle, &mut major, &mut minor), EGLBoolean::True);
    assert_eq!(major, Some(1));
    assert_eq!(minor, Some(0));
    assert_eq!(eglTerminate(&mut registry, handle), EGLBoolean::True);
    assert_eq!(eglTerminate(&mut registry, handle), EGLBoolean::False);
}

#[test]
fn version_pair_constants() {
    assert_eq!(EGL_VERSION_MAJOR, 1);
    assert_eq!(EGL_VERSION_MINOR, 0);
}

#[test]
fn initialize_writes_only_supplied_locations() {
    let mut registry = DisplayRegistry::new();
    let handle = eglGetDisplay(&mut registry, EGLDisplayID(0));
    let mut major = Some(7u32);
    let mut minor: Option<u32> = None;
    assert_eq!(eglInitialize(&mut registry, handle, &mut major, &mut minor), EGLBoolean::True);
    assert_eq!(major, Some(1));
    assert_eq!(minor, None);

    let mut no_major: Option<u32> = None;
    let mut some_minor = Some(7u32);
    assert_eq!(eglInitialize(&mut registry, handle, &mut no_major, &mut some_minor), EGLBoolean::True);
    assert_eq!(no_major, None);
    assert_eq!(some_minor, Some(0));
}

#[test]
fn initialize_after_other_calls_still_succeeds() {
    let mut registry = DisplayRegistry::new();
    let handle = eglGetDisplay(&mut registry, EGLDisplayID(0));
    let other = eglGetDisplay(&mut registry, EGLDisplayID(0));
    let mut none: Option<u32> = None;
    let mut none2: Option<u32> = None;
    assert_eq!(eglInitialize(&mut registry, other, &mut none, &mut none2), EGLBoolean::True);
    assert_eq!(eglTerminate(&mut registry, other), EGLBoolean::True);
    assert_eq!(eglGetDisplay(&mut registry, EGLDisplayID(3)), EGLDisplayHandle::null());
    let mut major = Some(5u32);
    let mut minor = Some(5u32);
    assert_eq!(eglInitialize(&mut registry, handle, &mut major, &mut minor), EGLBoolean::True);
    assert_eq!((major, minor), (Some(1), Some(0)));
}

#[test]
fn initialize_twice_succeeds() {
    let mut registry = DisplayRegistry::new();
    let handle = eglGetDisplay(&mut registry, EGLDisplayID(0));
    let mut major: Option<u32> = None;
    let mut minor: Option<u32> = None;
    assert_eq!(eglInitialize(&mut registry, handle, &mut major, &mut minor), EGLBoolean::True);
    assert_eq!(eglInitialize(&mut registry, handle, &mut major, &mut minor), EGLBoolean::True);
    assert!(handle.as_display(&registry).unwrap().is_initialized());
}

#[test]
fn null_handle_initialize_fails_and_writes_nothing() {
    let mut registry = DisplayRegistry::new();
    let live = eglGetDisplay(&mut registry, EGLDisplayID(0));
    let mut major = Some(42u32);
    let mut minor = Some(43u32);
    let result = eglInitialize(&mut registry, EGLDisplayHandle::null(), &mut major, &mut minor);
    assert_eq!(result, EGLBoolean::False);
    assert_eq!(major, Some(42));
    assert_eq!(minor, Some(43));
    assert!(!live.as_display(&registry).unwrap().is_initialized());
    let again = eglInitialize(&mut registry, EGLDisplayHandle::null(), &mut major, &mut minor);
    assert_eq!(again, EGLBoolean::False);
    assert_eq!((major, minor), (Some(42), Some(43)));
}

#[test]
fn null_handle_terminate_fails() {
    let mut registry = DisplayRegistry::new();
    let live = eglGetDisplay(&mut registry, EGLDisplayID(0));
    assert_eq!(eglTerminate(&mut registry, EGLDisplayHandle::null()), EGLBoolean::False);
    assert_eq!(eglTerminate(&mut registry, EGLDisplayHandle::null()), EGLBoolean::False);
    assert!(live.as_display(&registry).is_some());
}

#[test]
fn terminated_handle_is_dead() {
    let mut registry = DisplayRegistry::new();
    let handle = eglGetDisplay(&mut registry, EGLDisplayID(0));
    assert_eq!(eglTerminate(&mut registry, handle), EGLBoolean::True);
    assert!(handle.as_display(&registry).is_none());
    let mut major = Some(9u32);
    let mut minor = Some(9u32);
    assert_eq!(eglInitialize(&mut registry, handle, &mut major, &mut minor), EGLBoolean::False);
    assert_eq!((major, minor), (Some(9), Some(9)));
    assert_eq!(eglTerminate(&mut registry, handle), EGLBoolean::False);
    assert!(handle.into_display(&mut registry).is_none());
}

#[test]
fn handle_values_are_never_reused() {
    let mut registry = DisplayRegistry::new();
    let first = eglGetDisplay(&mut registry, EGLDisplayID(0));
    assert_eq!(first, EGLDisplayHandle(1));
    assert_eq!(eglTerminate(&mut registry, first), EGLBoolean::True);
    let second = eglGetDisplay(&mut registry, EGLDisplayID(0));
    assert_eq!(second, EGLDisplayHandle(2));
    assert_ne!(second, first);
    assert!(first.as_display(&registry).is_none());
    assert!(second.as_display(&registry).is_some());
}

#[test]
fn unsupported_identity_returns_null_handle() {
    let mut registry = DisplayRegistry::new();
    assert_eq!(eglGetDisplay(&mut registry, EGLDisplayID(1)), EGLDisplayHandle(0));
    assert_eq!(eglGetDisplay(&mut registry, EGLDisplayID(0xdead_beef)), EGLDisplayHandle(0));
    assert_eq!(eglGetDisplay(&mut registry, EGLDisplayID(usize::MAX)), EGLDisplayHandle(0));
    // nothing was allocated: the first real display takes the first value
    assert_eq!(eglGetDisplay(&mut registry, EGLDisplayID(0)), EGLDisplayHandle(1));
}

#[test]
fn platform_display_is_null() {
    assert!(eglGetPlatformDisplay(0, 0, 0).is_null());
    assert!(eglGetPlatformDisplay(0x31D5, 12, 34).is_null());
}

#[test]
fn handles_resolve_independently() {
    let mut registry = DisplayRegistry::new();
    let a = eglGetDisplay(&mut registry, EGLDisplayID(0));
    let b = eglGetDisplay(&mut registry, EGLDisplayID(0));
    assert_ne!(a, b);
    let mut major: Option<u32> = None;
    let mut minor: Option<u32> = None;
    assert_eq!(eglInitialize(&mut registry, b, &mut major, &mut minor), EGLBoolean::True);
    assert!(!a.as_display(&registry).unwrap().is_initialized());
    assert!(b.as_display(&registry).unwrap().is_initialized());
    assert_eq!(eglTerminate(&mut registry, a), EGLBoolean::True);
    assert!(a.as_display(&registry).is_none());
    assert!(b.as_display(&registry).unwrap().is_initialized());
}

#[test]
fn from_display_and_into_display_round_trip() {
    let mut registry = DisplayRegistry::new();
    let display = EGLDisplay::new();
    assert!(!display.is_initialized());
    let handle = EGLDisplayHandle::from_display(display, &mut registry);
    assert_eq!(handle, EGLDisplayHandle(1));
    assert!(registry.initialize_display(handle));
    let taken = handle.into_display(&mut registry).unwrap();
    assert!(taken.is_initialized());
    assert!(handle.into_display(&mut registry).is_none());
    assert!(!registry.initialize_display(handle));
}

#[test]
fn null_handle_predicates() {
    assert!(EGLDisplayHandle::null().is_null());
    assert!(EGLDisplayHandle(0).is_null());
    assert!(!EGLDisplayHandle(5).is_null());
    let registry = DisplayRegistry::new();
    assert!(EGLDisplayHandle(5).as_display(&registry).is_none());
    assert!(EGLDisplayHandle::null().as_display(&registry).is_none());
}
