use vstd::prelude::*;

use crate::display::{
    lemma_live_until_terminated, DisplayRegistry, EGLDisplay, EGLDisplayHandle, RegistryModel,
    RegistryOp,
};

verus! {

/// Unsigned integer of the EGL interface.
pub type EGLInteger = u32;

/// The version pair that a successful initialize reports.
pub const EGL_VERSION_MAJOR: EGLInteger = 1;

pub const EGL_VERSION_MINOR: EGLInteger = 0;

#[derive(Clone, Copy, Debug, PartialEq, Eq, Structural)]
pub enum EGLBoolean {
    False,
    True,
}

impl EGLBoolean {
    /// The numeric value on the C boundary.
    pub fn code(&self) -> (r: u32)
        ensures
            r == (if *self == EGLBoolean::True { 1u32 } else { 0u32 }),
    {
        match self {
            EGLBoolean::False => 0,
            EGLBoolean::True => 1,
        }
    }
}

#[derive(Clone, Copy, Debug, PartialEq, Eq, Structural)]
pub enum EGLErrorCode {
    Success,
    NotInitialized,
    BadAccess,
    BadAllocation,
    BadAttribute,
    BadConfiguration,
    BadContext,
    BadCurrentSurface,
    BadDisplay,
    BadMatch,
    BadNativePixelMap,
    BadNativeWindow,
    BadParameter,
    BadSurface,
}

impl EGLErrorCode {
    /// The numeric value of each code on the C boundary.
    pub open spec fn spec_code(self) -> i32 {
        match self {
            EGLErrorCode::Success => 0x3000,
            EGLErrorCode::NotInitialized => 0x3001,
            EGLErrorCode::BadAccess => 0x3002,
            EGLErrorCode::BadAllocation => 0x3003,
            EGLErrorCode::BadAttribute => 0x3004,
            EGLErrorCode::BadConfiguration => 0x3005,
            EGLErrorCode::BadContext => 0x3006,
            EGLErrorCode::BadCurrentSurface => 0x3007,
            EGLErrorCode::BadDisplay => 0x3008,
            EGLErrorCode::BadMatch => 0x3009,
            EGLErrorCode::BadNativePixelMap => 0x300A,
            EGLErrorCode::BadNativeWindow => 0x300B,
            EGLErrorCode::BadParameter => 0x300C,
            EGLErrorCode::BadSurface => 0x300D,
        }
    }

    pub fn code(&self) -> (r: i32)
        ensures
            r == self.spec_code(),
    {
        match self {
            EGLErrorCode::Success => 0x3000,
            EGLErrorCode::NotInitialized => 0x3001,
            EGLErrorCode::BadAccess => 0x3002,
            EGLErrorCode::BadAllocation => 0x3003,
            EGLErrorCode::BadAttribute => 0x3004,
            EGLErrorCode::BadConfiguration => 0x3005,
            EGLErrorCode::BadContext => 0x3006,
            EGLErrorCode::BadCurrentSurface => 0x3007,
            EGLErrorCode::BadDisplay => 0x3008,
            EGLErrorCode::BadMatch => 0x3009,
            EGLErrorCode::BadNativePixelMap => 0x300A,
            EGLErrorCode::BadNativeWindow => 0x300B,
            EGLErrorCode::BadParameter => 0x300C,
            EGLErrorCode::BadSurface => 0x300D,
        }
    }
}

#[derive(Clone, Copy, Debug, PartialEq, Eq, Structural)]
pub enum EGLQueryStringRequest {
    Vendor,
    Version,
    Extensions,
}

impl EGLQueryStringRequest {
    pub open spec fn spec_code(self) -> i32 {
        match self {
            EGLQueryStringRequest::Vendor => 0x3053,
            EGLQueryStringRequest::Version => 0x3054,
            EGLQueryStringRequest::Extensions => 0x3055,
        }
    }

    pub fn code(&self) -> (r: i32)
        ensures
            r == self.spec_code(),
    {
        match self {
            EGLQueryStringRequest::Vendor => 0x3053,
            EGLQueryStringRequest::Version => 0x3054,
            EGLQueryStringRequest::Extensions => 0x3055,
        }
    }

    /// The request that a numeric value names, if any.
    pub fn from_code(code: i32) -> (r: Option<EGLQueryStringRequest>)
        ensures
            r matches Some(q) ==> q.spec_code() == code,
            r is None ==> forall|q: EGLQueryStringRequest| q.spec_code() != code,
    {
        if code == 0x3053 {
            Some(EGLQueryStringRequest::Vendor)
        } else if code == 0x3054 {
            Some(EGLQueryStringRequest::Version)
        } else if code == 0x3055 {
            Some(EGLQueryStringRequest::Extensions)
        } else {
            None
        }
    }
}

/// The identity of a native display as the caller names it; 0 is the
/// default display.
#[derive(Clone, Copy, Debug, PartialEq, Eq, Structural)]
pub struct EGLDisplayID(pub usize);

/// Address of a string answered by a query; 0 is no string.
#[derive(Clone, Copy, Debug, PartialEq, Eq, Structural)]
pub struct EGLQueryStringResponse(pub usize);

#[derive(Clone, Copy, Debug, PartialEq, Eq, Structural)]
pub struct EGLConfiguration(pub usize);

#[derive(Clone, Copy, Debug, PartialEq, Eq, Structural)]
pub struct EGLContext(pub usize);

#[derive(Clone, Copy, Debug, PartialEq, Eq, Structural)]
pub struct EGLSurface(pub usize);

#[derive(Clone, Copy, Debug, PartialEq, Eq, Structural)]
pub struct EGLClientBuffer(pub usize);

#[derive(Clone, Copy, Debug, PartialEq, Eq, Structural)]
pub struct EGLNativeWindow(pub usize);

#[derive(Clone, Copy, Debug, PartialEq, Eq, Structural)]
pub struct EGLNativePixelMap(pub usize);

/// The bytes of a function name, without its terminator; `None` for a null
/// name.
#[derive(Clone, Copy, Debug)]
pub struct EGLFunctionName<'a>(pub Option<&'a [u8]>);

/// The entry points that `eglGetProcAddress` resolves.
#[derive(Clone, Copy, Debug, PartialEq, Eq, Structural)]
pub enum EGLProc {
    GetPlatformDisplay,
}

/// The name under which `eglGetPlatformDisplay` is resolved.
pub open spec fn get_platform_display_name() -> Seq<u8> {
    seq![
        101u8, 103u8, 108u8, 71u8, 101u8, 116u8, 80u8, 108u8, 97u8, 116u8, 102u8,
        111u8, 114u8, 109u8, 68u8, 105u8, 115u8, 112u8, 108u8, 97u8, 121u8,
    ]
}

/// The entry point that a name resolves to, if any; `None` stands for a null
/// name.
pub open spec fn proc_address(name: Option<Seq<u8>>) -> Option<EGLProc> {
    if name == Some(get_platform_display_name()) {
        Some(EGLProc::GetPlatformDisplay)
    } else {
        None
    }
}

/// What a successful initialize leaves in an output location: the value, if
/// the caller supplied the location; an absent location stays absent, and a
/// failed call writes nothing.
pub open spec fn version_output(slot: Option<EGLInteger>, success: bool, value: EGLInteger) -> Option<EGLInteger> {
    if success && slot is Some {
        Some(value)
    } else {
        slot
    }
}

/// A display created for the default identity initializes successfully,
/// after any calls that do not terminate it, and the supplied output
/// locations then hold the version pair.
pub proof fn lemma_created_display_initializes(
    m: RegistryModel,
    ops: Seq<RegistryOp>,
    major_version: Option<EGLInteger>,
    minor_version: Option<EGLInteger>,
)
    requires
        m.wf(),
        m.can_issue(),
        forall|i: int| 0 <= i < ops.len() ==> ops[i] != RegistryOp::Terminate(m.get_display(0).1),
    ensures
        ({
            let (created, h) = m.get_display(0);
            let success = created.run(ops).initialize(h).1;
            &&& h != 0
            &&& success
            &&& version_output(major_version, success, EGL_VERSION_MAJOR) == (if major_version is Some {
                Some(1u32)
            } else {
                None
            })
            &&& version_output(minor_version, success, EGL_VERSION_MINOR) == (if minor_version is Some {
                Some(0u32)
            } else {
                None
            })
        }),
{
    let (created, h) = m.get_display(0);
    assert(created.wf());
    lemma_live_until_terminated(created, h, ops);
}

/// Initialize and terminate on the null handle fail and change nothing: not
/// the registry, not the output locations.
pub proof fn lemma_null_handle_is_inert(
    m: RegistryModel,
    major_version: Option<EGLInteger>,
    minor_version: Option<EGLInteger>,
)
    requires
        m.wf(),
    ensures
        m.initialize(0) == (m, false),
        m.terminate(0) == (m, false),
        version_output(major_version, false, EGL_VERSION_MAJOR) == major_version,
        version_output(minor_version, false, EGL_VERSION_MINOR) == minor_version,
{
}

/// Only the one known name resolves: not a null name, not the empty name,
/// and no name other than that one.
pub proof fn lemma_only_known_name_resolves(name: Seq<u8>)
    ensures
        proc_address(None) is None,
        proc_address(Some(Seq::<u8>::empty())) is None,
        proc_address(Some(name)) is Some <==> name == get_platform_display_name(),
{
    assert(Seq::<u8>::empty().len() != get_platform_display_name().len());
}

/// No error state is tracked yet: every query reports success.
#[allow(non_snake_case)]
pub fn eglGetError() -> (r: EGLErrorCode)
    ensures
        r == EGLErrorCode::Success,
{
    EGLErrorCode::Success
}

fn bytes_equal(a: &[u8], b: &Vec<u8>) -> (r: bool)
    ensures
        r == (a@ == b@),
{
    if a.len() != b.len() {
        return false;
    }
    let mut i: usize = 0;
    while i < a.len()
        invariant
            a@.len() == b@.len(),
            i <= a@.len(),
            a@.subrange(0, i as int) == b@.subrange(0, i as int),
        decreases a@.len() - i,
    {
        if a[i] != b[i] {
            assert(a@[i as int] != b@[i as int]);
            return false;
        }
        assert(a@.subrange(0, i + 1) =~= a@.subrange(0, i as int).push(a@[i as int]));
        assert(b@.subrange(0, i + 1) =~= b@.subrange(0, i as int).push(b@[i as int]));
        i = i + 1;
    }
    assert(a@ =~= a@.subrange(0, i as int));
    assert(b@ =~= b@.subrange(0, i as int));
    true
}

/// Resolve an entry point by name: only `eglGetPlatformDisplay` is known; a
/// null name, or any other name, resolves to nothing.
#[allow(non_snake_case)]
pub fn eglGetProcAddress(function_name: EGLFunctionName) -> (r: Option<EGLProc>)
    ensures
        r == proc_address(
            match function_name.0 {
                Some(n) => Some(n@),
                None => None,
            },
        ),
{
    match function_name.0 {
        None => None,
        Some(name) => {
            let expected: Vec<u8> = vec![
                101u8, 103u8, 108u8, 71u8, 101u8, 116u8, 80u8, 108u8, 97u8, 116u8, 102u8,
                111u8, 114u8, 109u8, 68u8, 105u8, 115u8, 112u8, 108u8, 97u8, 121u8,
            ];
            assert(expected@ =~= get_platform_display_name());
            if bytes_equal(name, &expected) {
                Some(EGLProc::GetPlatformDisplay)
            } else {
                None
            }
        },
    }
}

/// Platform displays are not backed: always the null handle.
#[allow(non_snake_case)]
pub fn eglGetPlatformDisplay(_platform: i32, _native_display: usize, _attribute_list: usize) -> (r: EGLDisplayHandle)
    ensures
        r.0 == 0,
{
    EGLDisplayHandle::null()
}

/// Create a display for the default identity (0), owned by the registry
/// under a fresh handle. Any other identity is unsupported: the null handle
/// comes back and nothing changes.
#[allow(non_snake_case)]
pub fn eglGetDisplay(registry: &mut DisplayRegistry, display_id: EGLDisplayID) -> (r: EGLDisplayHandle)
    requires
        old(registry).wf(),
    ensures
        final(registry).wf(),
        (final(registry)@, r.0) == old(registry)@.get_display(display_id.0),
{
    if display_id.0 == 0 {
        EGLDisplayHandle::from_display(EGLDisplay::new(), registry)
    } else {
        EGLDisplayHandle::null()
    }
}

/// Initialize the display of a live handle and report the version pair into
/// the locations the caller supplied. Fails, changing nothing, on the null
/// handle and on any handle that is not live.
#[allow(non_snake_case)]
pub fn eglInitialize(
    registry: &mut DisplayRegistry,
    display_handle: EGLDisplayHandle,
    major_version: &mut Option<EGLInteger>,
    minor_version: &mut Option<EGLInteger>,
) -> (r: EGLBoolean)
    requires
        old(registry).wf(),
    ensures
        final(registry).wf(),
        (final(registry)@, r == EGLBoolean::True) == old(registry)@.initialize(display_handle.0),
        *final(major_version) == version_output(*old(major_version), r == EGLBoolean::True, EGL_VERSION_MAJOR),
        *final(minor_version) == version_output(*old(minor_version), r == EGLBoolean::True, EGL_VERSION_MINOR),
{
    proof {
        registry.lemma_model_wf();
    }
    if display_handle.is_null() {
        return EGLBoolean::False;
    }
    if !registry.initialize_display(display_handle) {
        return EGLBoolean::False;
    }
    if major_version.is_some() {
        *major_version = Some(EGL_VERSION_MAJOR);
    }
    if minor_version.is_some() {
        *minor_version = Some(EGL_VERSION_MINOR);
    }
    EGLBoolean::True
}

/// Destroy the display of a live handle; the handle value is dead from then
/// on. Fails, changing nothing, on the null handle and on any handle that is
/// not live.
#[allow(non_snake_case)]
pub fn eglTerminate(registry: &mut DisplayRegistry, display_handle: EGLDisplayHandle) -> (r: EGLBoolean)
    requires
        old(registry).wf(),
    ensures
        final(registry).wf(),
        (final(registry)@, r == EGLBoolean::True) == old(registry)@.terminate(display_handle.0),
{
    proof {
        registry.lemma_model_wf();
    }
    if display_handle.is_null() {
        return EGLBoolean::False;
    }
    match display_handle.into_display(registry) {
        Some(_display) => EGLBoolean::True,
        None => EGLBoolean::False,
    }
}


// Configuration, surface and context operations are not backed yet: each
// reports failure, or the null object, whatever it is given.

#[allow(non_snake_case)]
pub fn eglQueryString(_display: EGLDisplayHandle, _name: EGLQueryStringRequest) -> (r: EGLQueryStringResponse)
    ensures
        r.0 == 0,
{
    EGLQueryStringResponse(0)
}

#[allow(non_snake_case)]
pub fn eglGetConfigs(_display: EGLDisplayHandle, _configurations: usize, _configuration_size: EGLInteger, _configuration_count: usize) -> (r: EGLBoolean)
    ensures
        r == EGLBoolean::False,
{
    EGLBoolean::False
}

#[allow(non_snake_case)]
pub fn eglChooseConfig(_display: EGLDisplayHandle, _attribute_list: usize, _configurations: usize, _configuration_size: EGLInteger, _configuration_count: usize) -> (r: EGLBoolean)
    ensures
        r == EGLBoolean::False,
{
    EGLBoolean::False
}

#[allow(non_snake_case)]
pub fn eglGetConfigAttrib(_display: EGLDisplayHandle, _configuration: EGLConfiguration, _attribute: EGLInteger, _value: usize) -> (r: EGLBoolean)
    ensures
        r == EGLBoolean::False,
{
    EGLBoolean::False
}

#[allow(non_snake_case)]
pub fn eglCreateWindowSurface(_display: EGLDisplayHandle, _configuration: EGLConfiguration, _window: EGLNativeWindow, _attribute_list: usize) -> (r: EGLSurface)
    ensures
        r.0 == 0,
{
    EGLSurface(0)
}

#[allow(non_snake_case)]
pub fn eglCreatePbufferSurface(_display: EGLDisplayHandle, _configuration: EGLConfiguration, _attribute_list: usize) -> (r: EGLSurface)
    ensures
        r.0 == 0,
{
    EGLSurface(0)
}

#[allow(non_snake_case)]
pub fn eglCreatePixmapSurface(_display: EGLDisplayHandle, _configuration: EGLConfiguration, _pixel_map: EGLNativePixelMap, _attribute_list: usize) -> (r: EGLSurface)
    ensures
        r.0 == 0,
{
    EGLSurface(0)
}

#[allow(non_snake_case)]
pub fn eglDestroySurface(_display: EGLDisplayHandle, _surface: EGLSurface) -> (r: EGLBoolean)
    ensures
        r == EGLBoolean::False,
{
    EGLBoolean::False
}

#[allow(non_snake_case)]
pub fn eglQuerySurface(_display: EGLDisplayHandle, _surface: EGLSurface, _attribute: EGLInteger, _value: usize) -> (r: EGLBoolean)
    ensures
        r == EGLBoolean::False,
{
    EGLBoolean::False
}

#[allow(non_snake_case)]
pub fn eglBindAPI(_api: u32) -> (r: EGLBoolean)
    ensures
        r == EGLBoolean::False,
{
    EGLBoolean::False
}

#[allow(non_snake_case)]
pub fn eglQueryAPI() -> (r: u32)
    ensures
        r == 0,
{
    0
}

#[allow(non_snake_case)]
pub fn eglWaitClient() -> (r: EGLBoolean)
    ensures
        r == EGLBoolean::False,
{
    EGLBoolean::False
}

#[allow(non_snake_case)]
pub fn eglReleaseThread() -> (r: EGLBoolean)
    ensures
        r == EGLBoolean::False,
{
    EGLBoolean::False
}

#[allow(non_snake_case)]
pub fn eglCreatePbufferFromClientBuffer(_display: EGLDisplayHandle, _buffer_type: u32, _buffer: EGLClientBuffer, _configuration: EGLConfiguration, _attribute_list: usize) -> (r: EGLSurface)
    ensures
        r.0 == 0,
{
    EGLSurface(0)
}

#[allow(non_snake_case)]
pub fn eglSurfaceAttrib(_display: EGLDisplayHandle, _surface: EGLSurface, _attribute: EGLInteger, _value: EGLInteger) -> (r: EGLBoolean)
    ensures
        r == EGLBoolean::False,
{
    EGLBoolean::False
}

#[allow(non_snake_case)]
pub fn eglBindTexImage(_display: EGLDisplayHandle, _surface: EGLSurface, _buffer: EGLInteger) -> (r: EGLBoolean)
    ensures
        r == EGLBoolean::False,
{
    EGLBoolean::False
}

#[allow(non_snake_case)]
pub fn eglReleaseTexImage(_display: EGLDisplayHandle, _surface: EGLSurface, _buffer: EGLInteger) -> (r: EGLBoolean)
    ensures
        r == EGLBoolean::False,
{
    EGLBoolean::False
}

#[allow(non_snake_case)]
pub fn eglSwapInterval(_display: EGLDisplayHandle, _interval: EGLInteger) -> (r: EGLBoolean)
    ensures
        r == EGLBoolean::False,
{
    EGLBoolean::False
}

#[allow(non_snake_case)]
pub fn eglCreateContext(_display: EGLDisplayHandle, _configuration: EGLConfiguration, _share_context: EGLContext, _attribute_list: usize) -> (r: EGLContext)
    ensures
        r.0 == 0,
{
    EGLContext(0)
}

#[allow(non_snake_case)]
pub fn eglDestroyContext(_display: EGLDisplayHandle, _context: EGLContext) -> (r: EGLBoolean)
    ensures
        r == EGLBoolean::False,
{
    EGLBoolean::False
}

#[allow(non_snake_case)]
pub fn eglMakeCurrent(_display: EGLDisplayHandle, _write_surface: EGLSurface, _read_surface: EGLSurface, _context: EGLContext) -> (r: EGLBoolean)
    ensures
        r == EGLBoolean::False,
{
    EGLBoolean::False
}

#[allow(non_snake_case)]
pub fn eglGetCurrentContext() -> (r: EGLContext)
    ensures
        r.0 == 0,
{
    EGLContext(0)
}

#[allow(non_snake_case)]
pub fn eglGetCurrentSurface(_read_draw: EGLInteger) -> (r: EGLSurface)
    ensures
        r.0 == 0,
{
    EGLSurface(0)
}

#[allow(non_snake_case)]
pub fn eglGetCurrentDisplay() -> (r: EGLDisplayHandle)
    ensures
        r.0 == 0,
{
    EGLDisplayHandle::null()
}

#[allow(non_snake_case)]
pub fn eglQueryContext(_display: EGLDisplayHandle, _context: EGLContext, _attribute: EGLInteger, _value: usize) -> (r: EGLBoolean)
    ensures
        r == EGLBoolean::False,
{
    EGLBoolean::False
}

#[allow(non_snake_case)]
pub fn eglWaitGL() -> (r: EGLBoolean)
    ensures
        r == EGLBoolean::False,
{
    EGLBoolean::False
}

#[allow(non_snake_case)]
pub fn eglWaitNative(_engine: EGLInteger) -> (r: EGLBoolean)
    ensures
        r == EGLBoolean::False,
{
    EGLBoolean::False
}

#[allow(non_snake_case)]
pub fn eglSwapBuffers(_display: EGLDisplayHandle, _surface: EGLSurface) -> (r: EGLBoolean)
    ensures
        r == EGLBoolean::False,
{
    EGLBoolean::False
}

#[allow(non_snake_case)]
pub fn eglCopyBuffers(_display: EGLDisplayHandle, _surface: EGLSurface, _target: EGLNativePixelMap) -> (r: EGLBoolean)
    ensures
        r == EGLBoolean::False,
{
    EGLBoolean::False
}
} // verus!
