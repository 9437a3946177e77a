use lib::{
    check_errors, Error, Instance, InstanceExtensions, OomError, PlatformWindow, Success, Surface,
    SurfaceCreateInfo, SurfaceCreationError,
};

fn instance() -> Instance {
    Instance::new(1, InstanceExtensions::none())
}

#[test]
fn khr_win32_surface_ext_missing() {
    let instance = instance();
    match Surface::from_hwnd(&instance, 0, 0) {
        Err(SurfaceCreationError::MissingExtension { .. }) => (),
        _ => panic!(),
    }
}

#[test]
fn khr_xcb_surface_ext_missing() {
    let instance = instance();
    match Surface::from_xcb(&instance, 0, 0) {
        Err(SurfaceCreationError::MissingExtension { .. }) => (),
        _ => panic!(),
    }
}

#[test]
fn khr_xlib_surface_ext_missing() {
    let instance = instance();
    match Surface::from_xlib(&instance, 0, 0) {
        Err(SurfaceCreationError::MissingExtension { .. }) => (),
        _ => panic!(),
    }
}

#[test]
fn khr_wayland_surface_ext_missing() {
    let instance = instance();
    match Surface::from_wayland(&instance, 0, 0) {
        Err(SurfaceCreationError::MissingExtension { .. }) => (),
        _ => panic!(),
    }
}

#[test]
fn khr_mir_surface_ext_missing() {
    let instance = instance();
    match Surface::from_mir(&instance, 0, 0) {
        Err(SurfaceCreationError::MissingExtension { .. }) => (),
        _ => panic!(),
    }
}

#[test]
fn khr_android_surface_ext_missing() {
    let instance = instance();
    match Surface::from_anativewindow(&instance, 0) {
        Err(SurfaceCreationError::MissingExtension { .. }) => (),
        _ => panic!(),
    }
}

#[test]
fn missing_extension_names_the_platform_extension() {
    let instance = instance();
    assert_eq!(
        Surface::from_hwnd(&instance, 1, 2),
        Err(SurfaceCreationError::MissingExtension { name: "VK_KHR_win32_surface" })
    );
    assert_eq!(
        Surface::from_xcb(&instance, 1, 2),
        Err(SurfaceCreationError::MissingExtension { name: "VK_KHR_xcb_surface" })
    );
    assert_eq!(
        Surface::from_xlib(&instance, 1, 2),
        Err(SurfaceCreationError::MissingExtension { name: "VK_KHR_xlib_surface" })
    );
    assert_eq!(
        Surface::from_wayland(&instance, 1, 2),
        Err(SurfaceCreationError::MissingExtension { name: "VK_KHR_wayland_surface" })
    );
    assert_eq!(
        Surface::from_mir(&instance, 1, 2),
        Err(SurfaceCreationError::MissingExtension { name: "VK_KHR_mir_surface" })
    );
    assert_eq!(
        Surface::from_anativewindow(&instance, 1),
        Err(SurfaceCreationError::MissingExtension { name: "VK_KHR_android_surface" })
    );
}

#[test]
fn loaded_extension_gives_request() {
    let mut exts = InstanceExtensions::none();
    exts.khr_surface = true;
    exts.khr_xlib_surface = true;
    let instance = Instance::new(42, exts);
    assert_eq!(
        Surface::from_xlib(&instance, 7, 9),
        Ok(SurfaceCreateInfo { instance: 42, window: PlatformWindow::Xlib { display: 7, window: 9 } })
    );
    // Another platform's extension does not help.
    assert!(matches!(
        Surface::from_xcb(&instance, 7, 9),
        Err(SurfaceCreationError::MissingExtension { name: "VK_KHR_xcb_surface" })
    ));
}

#[test]
fn create_result_success_builds_surface() {
    let info = SurfaceCreateInfo { instance: 5, window: PlatformWindow::Android { window: 3 } };
    let surface = Surface::from_create_result(&info, 0, 77).unwrap();
    assert_eq!(surface.internal_object(), 77);
    assert_eq!(surface.instance_handle(), 5);
}

#[test]
fn create_result_out_of_memory() {
    let info = SurfaceCreateInfo { instance: 5, window: PlatformWindow::Android { window: 3 } };
    assert!(matches!(
        Surface::from_create_result(&info, -1, 77),
        Err(SurfaceCreationError::OomError(OomError::OutOfHostMemory))
    ));
    assert!(matches!(
        Surface::from_create_result(&info, -2, 77),
        Err(SurfaceCreationError::OomError(OomError::OutOfDeviceMemory))
    ));
}

#[test]
fn is_supported_reads_the_answer() {
    let info = SurfaceCreateInfo { instance: 5, window: PlatformWindow::Win32 { hinstance: 1, hwnd: 2 } };
    let surface = Surface::from_create_result(&info, 0, 8).unwrap();
    assert_eq!(surface.is_supported(0, 1), Ok(true));
    assert_eq!(surface.is_supported(0, 0), Ok(false));
    assert_eq!(surface.is_supported(-2, 1), Err(OomError::OutOfDeviceMemory));
}

#[test]
fn check_errors_maps_codes() {
    assert_eq!(check_errors(0), Ok(Success::Success));
    assert_eq!(check_errors(5), Ok(Success::Incomplete));
    assert_eq!(check_errors(1_000_001_003), Ok(Success::Suboptimal));
    assert_eq!(check_errors(-1), Err(Error::OutOfHostMemory));
    assert_eq!(check_errors(-4), Err(Error::DeviceLost));
    assert_eq!(check_errors(-1_000_000_000), Err(Error::SurfaceLost));
    assert_eq!(check_errors(-1_000_011_001), Err(Error::ValidationFailed));
}

#[test]
fn unknown_codes_have_no_outcome() {
    assert_eq!(lib::error::code_outcome_of(-1_000_001_004), Some(Err(Error::OutOfDate)));
    assert_eq!(lib::error::code_outcome_of(2), Some(Ok(Success::Timeout)));
    assert_eq!(lib::error::code_outcome_of(6), None);
    assert_eq!(lib::error::code_outcome_of(-12), None);
}

#[test]
fn creation_error_description_and_cause() {
    let oom: SurfaceCreationError = SurfaceCreationError::from(OomError::OutOfHostMemory);
    assert_eq!(oom, SurfaceCreationError::OomError(OomError::OutOfHostMemory));
    assert_eq!(oom.description(), "not enough memory available");
    assert_eq!(oom.cause(), Some(OomError::OutOfHostMemory));
    let missing = SurfaceCreationError::MissingExtension { name: "VK_KHR_mir_surface" };
    assert_eq!(missing.description(), "the extension required for this function was not enabled");
    assert_eq!(missing.cause(), None);
}

#[test]
fn error_conversions_keep_the_memory_kind() {
    assert_eq!(OomError::from_error(Error::OutOfHostMemory), OomError::OutOfHostMemory);
    assert_eq!(OomError::from_error(Error::OutOfDeviceMemory), OomError::OutOfDeviceMemory);
    assert_eq!(
        SurfaceCreationError::from_error(Error::OutOfDeviceMemory),
        SurfaceCreationError::OomError(OomError::OutOfDeviceMemory)
    );
}
