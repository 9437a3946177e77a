//! Surfaces: the checks made before a platform window is handed to the driver, and the
//! decoding of what the driver answers when a surface is created or queried.
//!
//! Creating a surface is platform-specific. Each `from_*` function checks that the instance
//! has loaded the extension of its platform and, if so, returns the request to hand to the
//! driver's creation call; `Surface::from_create_result` turns the driver's answer into a
//! `Surface` or an error.

use vstd::prelude::*;

use crate::capabilities::raw_capabilities_valid;
use crate::capabilities::Capabilities;
use crate::capabilities::RawSurfaceCapabilities;
use crate::capabilities::RawSurfaceFormat;
use crate::error::check_errors;
use crate::error::code_is_success;
use crate::error::code_is_success_or_oom;
use crate::error::code_oom;
use crate::error::OomError;
use crate::error::SurfaceCreationError;

verus! {

/// The instance extensions that surface creation depends on, each `true` when loaded.
#[derive(Copy, Clone, Debug, PartialEq, Eq, Structural)]
pub struct InstanceExtensions {
    pub khr_surface: bool,
    pub khr_display: bool,
    pub khr_xlib_surface: bool,
    pub khr_xcb_surface: bool,
    pub khr_wayland_surface: bool,
    pub khr_mir_surface: bool,
    pub khr_android_surface: bool,
    pub khr_win32_surface: bool,
}

impl InstanceExtensions {
    /// No extension at all.
    pub fn none() -> (r: InstanceExtensions)
        ensures
            !r.khr_surface,
            !r.khr_display,
            !r.khr_xlib_surface,
            !r.khr_xcb_surface,
            !r.khr_wayland_surface,
            !r.khr_mir_surface,
            !r.khr_android_surface,
            !r.khr_win32_surface,
    {
        InstanceExtensions {
            khr_surface: false,
            khr_display: false,
            khr_xlib_surface: false,
            khr_xcb_surface: false,
            khr_wayland_surface: false,
            khr_mir_surface: false,
            khr_android_surface: false,
            khr_win32_surface: false,
        }
    }
}

/// A Vulkan instance, by its handle and the extensions it has loaded.
#[derive(Copy, Clone, Debug, PartialEq, Eq)]
pub struct Instance {
    handle: u64,
    extensions: InstanceExtensions,
}

impl Instance {
    /// The instance's handle.
    pub closed spec fn handle_value(self) -> u64 {
        self.handle
    }

    /// The extensions that the instance has loaded.
    pub closed spec fn extensions_value(self) -> InstanceExtensions {
        self.extensions
    }

    /// Describes the instance whose handle is `handle` and that has loaded `extensions`.
    pub fn new(handle: u64, extensions: InstanceExtensions) -> (r: Instance)
        ensures
            r.handle_value() == handle,
            r.extensions_value() == extensions,
    {
        Instance { handle, extensions }
    }

    /// Returns the instance's handle.
    pub fn internal_object(&self) -> (r: u64)
        ensures
            r == self.handle_value(),
    {
        self.handle
    }

    /// Returns the extensions that the instance has loaded.
    pub fn loaded_extensions(&self) -> (r: InstanceExtensions)
        ensures
            r == self.extensions_value(),
    {
        self.extensions
    }
}

/// A platform window, by the addresses of its native objects.
#[derive(Copy, Clone, Debug, PartialEq, Eq, Structural)]
pub enum PlatformWindow {
    /// A Win32 window: the module instance and the window.
    Win32 { hinstance: usize, hwnd: usize },
    /// An XCB window: the connection and the window.
    Xcb { connection: usize, window: usize },
    /// An Xlib window: the display and the window.
    Xlib { display: usize, window: usize },
    /// A Wayland window: the display and the surface.
    Wayland { display: usize, surface: usize },
    /// A Mir window: the connection and the surface.
    Mir { connection: usize, surface: usize },
    /// An Android native window.
    Android { window: usize },
}

impl PlatformWindow {
    /// Whether `exts` holds the extension that surfaces of this platform need.
    pub open spec fn extension_loaded(self, exts: InstanceExtensions) -> bool {
        match self {
            PlatformWindow::Win32 { .. } => exts.khr_win32_surface,
            PlatformWindow::Xcb { .. } => exts.khr_xcb_surface,
            PlatformWindow::Xlib { .. } => exts.khr_xlib_surface,
            PlatformWindow::Wayland { .. } => exts.khr_wayland_surface,
            PlatformWindow::Mir { .. } => exts.khr_mir_surface,
            PlatformWindow::Android { .. } => exts.khr_android_surface,
        }
    }

    /// The name of the extension that surfaces of this platform need.
    pub open spec fn extension_name(self) -> Seq<char> {
        match self {
            PlatformWindow::Win32 { .. } => "VK_KHR_win32_surface"@,
            PlatformWindow::Xcb { .. } => "VK_KHR_xcb_surface"@,
            PlatformWindow::Xlib { .. } => "VK_KHR_xlib_surface"@,
            PlatformWindow::Wayland { .. } => "VK_KHR_wayland_surface"@,
            PlatformWindow::Mir { .. } => "VK_KHR_mir_surface"@,
            PlatformWindow::Android { .. } => "VK_KHR_android_surface"@,
        }
    }
}

/// A request to create a surface: what the driver's creation call for the platform receives.
#[derive(Copy, Clone, Debug, PartialEq, Eq, Structural)]
pub struct SurfaceCreateInfo {
    /// The handle of the instance that the surface will belong to.
    pub instance: u64,
    /// The window that the surface will cover.
    pub window: PlatformWindow,
}

/// What creating a surface for `window` on `instance` leads to: the request for the driver
/// when the platform's extension is loaded, the missing extension otherwise.
pub open spec fn creation_request(instance: Instance, window: PlatformWindow) -> Result<
    SurfaceCreateInfo,
    Seq<char>,
> {
    if window.extension_loaded(instance.extensions_value()) {
        Ok(SurfaceCreateInfo { instance: instance.handle_value(), window })
    } else {
        Err(window.extension_name())
    }
}

/// Whether `r` is the outcome that `creation_request` describes.
pub open spec fn is_creation_outcome(
    r: Result<SurfaceCreateInfo, SurfaceCreationError>,
    instance: Instance,
    window: PlatformWindow,
) -> bool {
    match creation_request(instance, window) {
        Ok(info) => r == Ok::<SurfaceCreateInfo, SurfaceCreationError>(info),
        Err(name) => r matches Err(SurfaceCreationError::MissingExtension { name: n }) && n@ == name,
    }
}

/// Creating a surface is refused exactly when the instance lacks the platform's extension,
/// and the refusal names that extension; otherwise the request is for the instance's handle
/// and the given window.
pub proof fn lemma_creation_refused_iff_missing_extension(
    r: Result<SurfaceCreateInfo, SurfaceCreationError>,
    instance: Instance,
    window: PlatformWindow,
)
    requires
        is_creation_outcome(r, instance, window),
    ensures
        r is Err <==> !window.extension_loaded(instance.extensions_value()),
        r matches Err(e) ==> (e matches SurfaceCreationError::MissingExtension { name }
            && name@ == window.extension_name()),
        r matches Ok(info) ==> info.instance == instance.handle_value() && info.window == window,
{
}

/// Each platform needs its own extension: the one whose flag is named after the platform,
/// whatever the other flags, and a refusal names that extension.
pub proof fn lemma_platform_extensions(window: PlatformWindow, exts: InstanceExtensions)
    ensures
        window is Win32 ==> (window.extension_loaded(exts) <==> exts.khr_win32_surface)
            && window.extension_name() == "VK_KHR_win32_surface"@,
        window is Xcb ==> (window.extension_loaded(exts) <==> exts.khr_xcb_surface)
            && window.extension_name() == "VK_KHR_xcb_surface"@,
        window is Xlib ==> (window.extension_loaded(exts) <==> exts.khr_xlib_surface)
            && window.extension_name() == "VK_KHR_xlib_surface"@,
        window is Wayland ==> (window.extension_loaded(exts) <==> exts.khr_wayland_surface)
            && window.extension_name() == "VK_KHR_wayland_surface"@,
        window is Mir ==> (window.extension_loaded(exts) <==> exts.khr_mir_surface)
            && window.extension_name() == "VK_KHR_mir_surface"@,
        window is Android ==> (window.extension_loaded(exts) <==> exts.khr_android_surface)
            && window.extension_name() == "VK_KHR_android_surface"@,
{
}

/// A surface request is refused exactly when the instance lacks the extension of the window's
/// platform, whatever the other extensions it has loaded.
pub proof fn lemma_request_refused_iff_platform_flag(
    r: Result<SurfaceCreateInfo, SurfaceCreationError>,
    instance: Instance,
    window: PlatformWindow,
)
    requires
        is_creation_outcome(r, instance, window),
    ensures
        window is Win32 ==> (r is Err <==> !instance.extensions_value().khr_win32_surface),
        window is Xcb ==> (r is Err <==> !instance.extensions_value().khr_xcb_surface),
        window is Xlib ==> (r is Err <==> !instance.extensions_value().khr_xlib_surface),
        window is Wayland ==> (r is Err <==> !instance.extensions_value().khr_wayland_surface),
        window is Mir ==> (r is Err <==> !instance.extensions_value().khr_mir_surface),
        window is Android ==> (r is Err <==> !instance.extensions_value().khr_android_surface),
{
    lemma_platform_extensions(window, instance.extensions_value());
}

/// Checks the extension that `window` needs and builds the creation request.
fn request_surface(instance: &Instance, window: PlatformWindow) -> (r: Result<
    SurfaceCreateInfo,
    SurfaceCreationError,
>)
    ensures
        is_creation_outcome(r, *instance, window),
{
    let exts = instance.loaded_extensions();
    let missing: Option<&'static str> = match window {
        PlatformWindow::Win32 { .. } => if exts.khr_win32_surface {
            None
        } else {
            Some("VK_KHR_win32_surface")
        },
        PlatformWindow::Xcb { .. } => if exts.khr_xcb_surface {
            None
        } else {
            Some("VK_KHR_xcb_surface")
        },
        PlatformWindow::Xlib { .. } => if exts.khr_xlib_surface {
            None
        } else {
            Some("VK_KHR_xlib_surface")
        },
        PlatformWindow::Wayland { .. } => if exts.khr_wayland_surface {
            None
        } else {
            Some("VK_KHR_wayland_surface")
        },
        PlatformWindow::Mir { .. } => if exts.khr_mir_surface {
            None
        } else {
            Some("VK_KHR_mir_surface")
        },
        PlatformWindow::Android { .. } => if exts.khr_android_surface {
            None
        } else {
            Some("VK_KHR_android_surface")
        },
    };
    match missing {
        Some(name) => Err(SurfaceCreationError::MissingExtension { name }),
        None => Ok(SurfaceCreateInfo { instance: instance.internal_object(), window }),
    }
}

/// The answers of the driver to the queries of a surface's capabilities: the result code of
/// each query, in the order in which they are made, and what the successful ones returned.
#[derive(Debug)]
pub struct CapabilitiesQuery {
    pub capabilities_result: i32,
    pub capabilities: RawSurfaceCapabilities,
    pub format_count_result: i32,
    pub formats_result: i32,
    pub formats: Vec<RawSurfaceFormat>,
    pub present_mode_count_result: i32,
    pub present_modes_result: i32,
    pub present_modes: Vec<u32>,
}

impl CapabilitiesQuery {
    /// The result codes of the queries, in order.
    pub open spec fn codes(self) -> Seq<i32> {
        seq![
            self.capabilities_result,
            self.format_count_result,
            self.formats_result,
            self.present_mode_count_result,
            self.present_modes_result,
        ]
    }

    /// Whether every query up to the first one that did not succeed succeeded or ran out of
    /// memory. Queries after a failure are never made, so their codes do not matter.
    pub open spec fn codes_expected(self) -> bool {
        &&& code_is_success_or_oom(self.capabilities_result)
        &&& code_is_success(self.capabilities_result) ==> code_is_success_or_oom(
            self.format_count_result,
        )
        &&& code_is_success(self.capabilities_result) && code_is_success(self.format_count_result)
            ==> code_is_success_or_oom(self.formats_result)
        &&& code_is_success(self.capabilities_result) && code_is_success(self.format_count_result)
            && code_is_success(self.formats_result) ==> code_is_success_or_oom(
            self.present_mode_count_result,
        )
        &&& code_is_success(self.capabilities_result) && code_is_success(self.format_count_result)
            && code_is_success(self.formats_result) && code_is_success(
            self.present_mode_count_result,
        ) ==> code_is_success_or_oom(self.present_modes_result)
    }

    /// The out-of-memory error of the first query that did not succeed, if one did not.
    pub open spec fn first_failure(self) -> Option<OomError> {
        if !code_is_success(self.capabilities_result) {
            code_oom(self.capabilities_result)
        } else if !code_is_success(self.format_count_result) {
            code_oom(self.format_count_result)
        } else if !code_is_success(self.formats_result) {
            code_oom(self.formats_result)
        } else if !code_is_success(self.present_mode_count_result) {
            code_oom(self.present_mode_count_result)
        } else if !code_is_success(self.present_modes_result) {
            code_oom(self.present_modes_result)
        } else {
            None
        }
    }

    /// Whether every query succeeded.
    pub open spec fn all_succeeded(self) -> bool {
        forall|i: int| 0 <= i < 5 ==> code_is_success(#[trigger] self.codes()[i])
    }
}

/// Represents a surface on the screen.
#[derive(Debug)]
pub struct Surface {
    instance: u64,
    surface: u64,
}

impl Surface {
    /// The handle of the instance that the surface belongs to.
    pub closed spec fn instance_value(self) -> u64 {
        self.instance
    }

    /// The surface's own handle.
    pub closed spec fn handle_value(self) -> u64 {
        self.surface
    }

    /// Checks that a `Surface` can be created from a Win32 window and returns the request for
    /// the driver.
    ///
    /// The surface's min, max and current extent will always match the window's dimensions.
    pub fn from_hwnd(instance: &Instance, hinstance: usize, hwnd: usize) -> (r: Result<
        SurfaceCreateInfo,
        SurfaceCreationError,
    >)
        ensures
            is_creation_outcome(r, *instance, (PlatformWindow::Win32 { hinstance, hwnd })),
            r is Err <==> !instance.extensions_value().khr_win32_surface,
            r matches Ok(info) ==> info.instance == instance.handle_value() && info.window
                == (PlatformWindow::Win32 { hinstance, hwnd }),
            r matches Err(e) ==> (e matches SurfaceCreationError::MissingExtension { name } && name@
                == "VK_KHR_win32_surface"@),
    {
        request_surface(instance, PlatformWindow::Win32 { hinstance, hwnd })
    }

    /// Checks that a `Surface` can be created from an XCB window and returns the request for
    /// the driver.
    ///
    /// The surface's min, max and current extent will always match the window's dimensions.
    pub fn from_xcb(instance: &Instance, connection: usize, window: usize) -> (r: Result<
        SurfaceCreateInfo,
        SurfaceCreationError,
    >)
        ensures
            is_creation_outcome(r, *instance, (PlatformWindow::Xcb { connection, window })),
            r is Err <==> !instance.extensions_value().khr_xcb_surface,
            r matches Ok(info) ==> info.instance == instance.handle_value() && info.window
                == (PlatformWindow::Xcb { connection, window }),
            r matches Err(e) ==> (e matches SurfaceCreationError::MissingExtension { name } && name@
                == "VK_KHR_xcb_surface"@),
    {
        request_surface(instance, PlatformWindow::Xcb { connection, window })
    }

    /// Checks that a `Surface` can be created from an Xlib window and returns the request for
    /// the driver.
    ///
    /// The surface's min, max and current extent will always match the window's dimensions.
    pub fn from_xlib(instance: &Instance, display: usize, window: usize) -> (r: Result<
        SurfaceCreateInfo,
        SurfaceCreationError,
    >)
        ensures
            is_creation_outcome(r, *instance, (PlatformWindow::Xlib { display, window })),
            r is Err <==> !instance.extensions_value().khr_xlib_surface,
            r matches Ok(info) ==> info.instance == instance.handle_value() && info.window
                == (PlatformWindow::Xlib { display, window }),
            r matches Err(e) ==> (e matches SurfaceCreationError::MissingExtension { name } && name@
                == "VK_KHR_xlib_surface"@),
    {
        request_surface(instance, PlatformWindow::Xlib { display, window })
    }

    /// Checks that a `Surface` can be created from a Wayland window and returns the request for
    /// the driver.
    ///
    /// The window's dimensions will be set to the size of the swapchain.
    pub fn from_wayland(instance: &Instance, display: usize, surface: usize) -> (r: Result<
        SurfaceCreateInfo,
        SurfaceCreationError,
    >)
        ensures
            is_creation_outcome(r, *instance, (PlatformWindow::Wayland { display, surface })),
            r is Err <==> !instance.extensions_value().khr_wayland_surface,
            r matches Ok(info) ==> info.instance == instance.handle_value() && info.window
                == (PlatformWindow::Wayland { display, surface }),
            r matches Err(e) ==> (e matches SurfaceCreationError::MissingExtension { name } && name@
                == "VK_KHR_wayland_surface"@),
    {
        request_surface(instance, PlatformWindow::Wayland { display, surface })
    }

    /// Checks that a `Surface` can be created from a Mir window and returns the request for the
    /// driver.
    ///
    /// If the swapchain's dimensions does not match the window's dimensions, the image will
    /// automatically be scaled during presentation.
    pub fn from_mir(instance: &Instance, connection: usize, surface: usize) -> (r: Result<
        SurfaceCreateInfo,
        SurfaceCreationError,
    >)
        ensures
            is_creation_outcome(r, *instance, (PlatformWindow::Mir { connection, surface })),
            r is Err <==> !instance.extensions_value().khr_mir_surface,
            r matches Ok(info) ==> info.instance == instance.handle_value() && info.window
                == (PlatformWindow::Mir { connection, surface }),
            r matches Err(e) ==> (e matches SurfaceCreationError::MissingExtension { name } && name@
                == "VK_KHR_mir_surface"@),
    {
        request_surface(instance, PlatformWindow::Mir { connection, surface })
    }

    /// Checks that a `Surface` can be created from an Android window and returns the request
    /// for the driver.
    pub fn from_anativewindow(instance: &Instance, window: usize) -> (r: Result<
        SurfaceCreateInfo,
        SurfaceCreationError,
    >)
        ensures
            is_creation_outcome(r, *instance, (PlatformWindow::Android { window })),
            r is Err <==> !instance.extensions_value().khr_android_surface,
            r matches Ok(info) ==> info.instance == instance.handle_value() && info.window
                == (PlatformWindow::Android { window }),
            r matches Err(e) ==> (e matches SurfaceCreationError::MissingExtension { name } && name@
                == "VK_KHR_android_surface"@),
    {
        request_surface(instance, PlatformWindow::Android { window })
    }

    /// Builds the surface from the driver's answer to a creation request: its result code and,
    /// on success, the handle of the new surface. The code must report success or running out
    /// of memory.
    pub fn from_create_result(info: &SurfaceCreateInfo, result: i32, handle: u64) -> (r: Result<
        Surface,
        SurfaceCreationError,
    >)
        requires
            code_is_success_or_oom(result),
        ensures
            code_is_success(result) ==> (r matches Ok(s) && s.instance_value() == info.instance
                && s.handle_value() == handle),
            !code_is_success(result) ==> r == Err::<Surface, SurfaceCreationError>(
                SurfaceCreationError::OomError(code_oom(result).unwrap()),
            ),
    {
        match check_errors(result) {
            Ok(_) => Ok(Surface { instance: info.instance, surface: handle }),
            Err(e) => Err(SurfaceCreationError::from_error(e)),
        }
    }

    /// Returns the handle of the instance that the surface belongs to.
    pub fn instance_handle(&self) -> (r: u64)
        ensures
            r == self.instance_value(),
    {
        self.instance
    }

    /// Returns the surface's own handle.
    pub fn internal_object(&self) -> (r: u64)
        ensures
            r == self.handle_value(),
    {
        self.surface
    }

    /// Returns true if the queue family whose support query answered `result` and `supported`
    /// can draw on this surface. The code must report success or running out of memory.
    pub fn is_supported(&self, result: i32, supported: u32) -> (r: Result<bool, OomError>)
        requires
            code_is_success_or_oom(result),
        ensures
            code_is_success(result) ==> r == Ok::<bool, OomError>(supported != 0),
            !code_is_success(result) ==> r == Err::<bool, OomError>(code_oom(result).unwrap()),
    {
        match check_errors(result) {
            Ok(_) => Ok(supported != 0),
            Err(e) => Err(OomError::from_error(e)),
        }
    }

    /// Retrieves the capabilities of this surface when used by a device of the instance whose
    /// handle is `device_instance`, from the driver's answers to the queries.
    ///
    /// The device must belong to the instance of the surface. Every query up to the first that
    /// does not succeed must succeed or run out of memory; the first that runs out of memory
    /// decides the error, and the codes of the queries after it are not looked at.
    pub fn get_capabilities(&self, device_instance: u64, query: &CapabilitiesQuery) -> (r: Result<
        Capabilities,
        OomError,
    >)
        requires
            device_instance == self.instance_value(),
            query.codes_expected(),
            query.all_succeeded() ==> raw_capabilities_valid(
                query.capabilities,
                query.formats@,
                query.present_modes@,
            ),
        ensures
            query.first_failure() matches Some(e) ==> r == Err::<Capabilities, OomError>(e),
            query.first_failure() is None ==> (r matches Ok(c) && c.describes(
                query.capabilities,
                query.formats@,
                query.present_modes@,
            )),
    {
        if let Err(e) = check_errors(query.capabilities_result) {
            return Err(OomError::from_error(e));
        }
        if let Err(e) = check_errors(query.format_count_result) {
            return Err(OomError::from_error(e));
        }
        if let Err(e) = check_errors(query.formats_result) {
            return Err(OomError::from_error(e));
        }
        if let Err(e) = check_errors(query.present_mode_count_result) {
            return Err(OomError::from_error(e));
        }
        if let Err(e) = check_errors(query.present_modes_result) {
            return Err(OomError::from_error(e));
        }
        assert forall|i: int| 0 <= i < 5 implies code_is_success(#[trigger] query.codes()[i]) by {
            if i == 0 {
            } else if i == 1 {
            } else if i == 2 {
            } else if i == 3 {
            } else {
            }
        }
        Ok(
            Capabilities::from_raw(
                &query.capabilities,
                query.formats.as_slice(),
                query.present_modes.as_slice(),
            ),
        )
    }
}

} // verus!
