use lib::{
    Capabilities, CapabilitiesQuery, ColorSpace, CompositeAlpha, ImageUsage, InstanceExtensions,
    OomError, PlatformWindow, PresentMode, RawSurfaceCapabilities, RawSurfaceFormat, Surface,
    SurfaceCreateInfo, SupportedPresentModes, SurfaceTransform,
};

#[test]
fn none_supports_nothing() {
    let none = SupportedPresentModes::none();
    assert!(!none.supports(PresentMode::Immediate));
    assert!(!none.supports(PresentMode::Mailbox));
    assert!(!none.supports(PresentMode::Fifo));
    assert!(!none.supports(PresentMode::Relaxed));
    assert_eq!(none.iter().next(), None);
}

#[test]
fn from_list_marks_listed_modes() {
    let modes = SupportedPresentModes::from_list(&[2, 0, 2]);
    assert_eq!(
        modes,
        SupportedPresentModes { immediate: true, mailbox: false, fifo: true, relaxed: false }
    );
    assert!(modes.supports(PresentMode::Fifo));
    assert!(!modes.supports(PresentMode::Relaxed));
    assert_eq!(SupportedPresentModes::from_list(&[]), SupportedPresentModes::none());
}

#[test]
fn iter_yields_supported_modes_in_order_once() {
    let modes = SupportedPresentModes { immediate: false, mailbox: true, fifo: true, relaxed: true };
    let mut it = modes.iter();
    assert_eq!(it.next(), Some(PresentMode::Mailbox));
    assert_eq!(it.next(), Some(PresentMode::Fifo));
    assert_eq!(it.next(), Some(PresentMode::Relaxed));
    assert_eq!(it.next(), None);
    assert_eq!(it.next(), None);
    let all = SupportedPresentModes { immediate: true, mailbox: true, fifo: true, relaxed: true };
    assert_eq!(
        all.iter().collect_remaining(),
        vec![PresentMode::Immediate, PresentMode::Mailbox, PresentMode::Fifo, PresentMode::Relaxed]
    );
}

#[test]
fn from_list_of_iterated_modes_gives_them_back() {
    let modes = SupportedPresentModes { immediate: true, mailbox: false, fifo: true, relaxed: true };
    let raws: Vec<u32> = modes.iter().collect_remaining().into_iter().map(|m| m.to_raw()).collect();
    assert_eq!(raws, vec![0, 2, 3]);
    assert_eq!(SupportedPresentModes::from_list(&raws), modes);
}

#[test]
fn present_mode_numbers() {
    assert_eq!(PresentMode::Immediate.to_raw(), 0);
    assert_eq!(PresentMode::Mailbox.to_raw(), 1);
    assert_eq!(PresentMode::Fifo.to_raw(), 2);
    assert_eq!(PresentMode::Relaxed.to_raw(), 3);
    assert_eq!(PresentMode::from_raw(3), Some(PresentMode::Relaxed));
    assert_eq!(PresentMode::from_raw(4), None);
}

#[test]
fn transforms_from_bits() {
    assert_eq!(SurfaceTransform::from_bits(0), vec![]);
    assert_eq!(
        SurfaceTransform::from_bits(0x11),
        vec![SurfaceTransform::Identity, SurfaceTransform::HorizontalMirror]
    );
    assert_eq!(
        SurfaceTransform::from_bits(0x1ff),
        vec![
            SurfaceTransform::Identity,
            SurfaceTransform::Rotate90,
            SurfaceTransform::Rotate180,
            SurfaceTransform::Rotate270,
            SurfaceTransform::HorizontalMirror,
            SurfaceTransform::HorizontalMirrorRotate90,
            SurfaceTransform::HorizontalMirrorRotate180,
            SurfaceTransform::HorizontalMirrorRotate270,
            SurfaceTransform::Inherit,
        ]
    );
    // Unknown bits are ignored.
    assert_eq!(SurfaceTransform::from_bits(0xffff_fe00), vec![]);
    assert_eq!(SurfaceTransform::from_bits(0x200 | 0x100), vec![SurfaceTransform::Inherit]);
}

#[test]
fn transform_bit_roundtrip() {
    let all = [
        SurfaceTransform::Identity,
        SurfaceTransform::Rotate90,
        SurfaceTransform::Rotate180,
        SurfaceTransform::Rotate270,
        SurfaceTransform::HorizontalMirror,
        SurfaceTransform::HorizontalMirrorRotate90,
        SurfaceTransform::HorizontalMirrorRotate180,
        SurfaceTransform::HorizontalMirrorRotate270,
        SurfaceTransform::Inherit,
    ];
    for t in all.iter() {
        assert_eq!(SurfaceTransform::from_bits(t.to_raw()), vec![*t]);
    }
    assert_eq!(SurfaceTransform::Rotate270.to_raw(), 0x8);
    assert_eq!(SurfaceTransform::Inherit.to_raw(), 0x100);
}

#[test]
fn transform_union_of_flag_words() {
    let a = SurfaceTransform::from_bits(0x3);
    let b = SurfaceTransform::from_bits(0x6);
    let both = SurfaceTransform::from_bits(0x3 | 0x6);
    assert_eq!(
        both,
        vec![SurfaceTransform::Identity, SurfaceTransform::Rotate90, SurfaceTransform::Rotate180]
    );
    for t in both.iter() {
        assert!(a.contains(t) || b.contains(t));
    }
}

#[test]
fn default_transform_is_identity() {
    assert_eq!(SurfaceTransform::default(), SurfaceTransform::Identity);
}

#[test]
fn composite_alpha_from_bits() {
    assert_eq!(CompositeAlpha::from_bits(0), vec![]);
    assert_eq!(
        CompositeAlpha::from_bits(0x9),
        vec![CompositeAlpha::Opaque, CompositeAlpha::Inherit]
    );
    assert_eq!(
        CompositeAlpha::from_bits(0xff),
        vec![
            CompositeAlpha::Opaque,
            CompositeAlpha::PreMultiplied,
            CompositeAlpha::PostMultiplied,
            CompositeAlpha::Inherit,
        ]
    );
    assert_eq!(CompositeAlpha::from_bits(CompositeAlpha::PostMultiplied.to_raw()), vec![
        CompositeAlpha::PostMultiplied
    ]);
}

#[test]
fn color_space_from_num() {
    assert_eq!(ColorSpace::from_num(0), ColorSpace::SrgbNonLinear);
}

#[test]
fn image_usage_from_bits() {
    let u = ImageUsage::from_bits(0x10 | 0x2 | 0x100);
    assert_eq!(
        u,
        ImageUsage {
            transfer_source: false,
            transfer_dest: true,
            sampled: false,
            storage: false,
            color_attachment: true,
            depth_stencil_attachment: false,
            transient_attachment: false,
            input_attachment: false,
        }
    );
    let all = ImageUsage::from_bits(0xff);
    assert!(all.transfer_source && all.sampled && all.storage && all.input_attachment);
}

fn raw_caps() -> RawSurfaceCapabilities {
    RawSurfaceCapabilities {
        min_image_count: 2,
        max_image_count: 8,
        current_extent: [800, 600],
        min_image_extent: [1, 1],
        max_image_extent: [4096, 4096],
        max_image_array_layers: 1,
        supported_transforms: 0x1 | 0x2,
        current_transform: 0x1,
        supported_composite_alpha: 0x1,
        supported_usage_flags: 0x10 | 0x1,
    }
}

#[test]
fn capabilities_from_raw() {
    let formats = [
        RawSurfaceFormat { format: 44, color_space: 0 },
        RawSurfaceFormat { format: 50, color_space: 0 },
    ];
    let caps: Capabilities = Capabilities::from_raw(&raw_caps(), &formats, &[2, 1]);
    assert_eq!(caps.image_count, 2..9);
    assert_eq!(caps.current_extent, Some([800, 600]));
    assert_eq!(caps.min_image_extent, [1, 1]);
    assert_eq!(caps.max_image_extent, [4096, 4096]);
    assert_eq!(caps.max_image_array_layers, 1);
    assert_eq!(caps.supported_transforms, vec![SurfaceTransform::Identity, SurfaceTransform::Rotate90]);
    assert_eq!(caps.current_transform, SurfaceTransform::Identity);
    assert_eq!(caps.supported_composite_alpha, vec![CompositeAlpha::Opaque]);
    assert!(caps.supported_usage_flags.color_attachment);
    assert!(caps.supported_usage_flags.transfer_source);
    assert!(!caps.supported_usage_flags.sampled);
    assert_eq!(
        caps.supported_formats,
        vec![(44, ColorSpace::SrgbNonLinear), (50, ColorSpace::SrgbNonLinear)]
    );
    assert_eq!(
        caps.present_modes,
        SupportedPresentModes { immediate: false, mailbox: true, fifo: true, relaxed: false }
    );
    let copy = caps.clone();
    assert_eq!(copy.image_count, 2..9);
    assert_eq!(copy.supported_formats, caps.supported_formats);
}

#[test]
fn capabilities_undefined_extent_and_current_transform() {
    let mut raw = raw_caps();
    raw.current_extent = [0xffff_ffff, 0xffff_ffff];
    raw.supported_transforms = 0x4 | 0x100;
    let caps = Capabilities::from_raw(&raw, &[], &[2]);
    assert_eq!(caps.current_extent, None);
    assert_eq!(caps.current_transform, SurfaceTransform::Rotate180);
    raw.current_extent = [0xffff_ffff, 10];
    let caps = Capabilities::from_raw(&raw, &[], &[2]);
    assert_eq!(caps.current_extent, Some([0xffff_ffff, 10]));
}

fn query(codes: [i32; 5]) -> CapabilitiesQuery {
    CapabilitiesQuery {
        capabilities_result: codes[0],
        capabilities: raw_caps(),
        format_count_result: codes[1],
        formats_result: codes[2],
        formats: vec![RawSurfaceFormat { format: 37, color_space: 0 }],
        present_mode_count_result: codes[3],
        present_modes_result: codes[4],
        present_modes: vec![2, 3],
    }
}

#[test]
fn get_capabilities_decodes_or_reports_first_failure() {
    let info = SurfaceCreateInfo { instance: 3, window: PlatformWindow::Xcb { connection: 1, window: 2 } };
    let surface = Surface::from_create_result(&info, 0, 11).unwrap();
    let caps = surface.get_capabilities(3, &query([0, 0, 5, 0, 0])).unwrap();
    assert_eq!(caps.supported_formats, vec![(37, ColorSpace::SrgbNonLinear)]);
    assert!(caps.present_modes.fifo && caps.present_modes.relaxed);
    assert_eq!(
        surface.get_capabilities(3, &query([0, -2, -1, 0, 0])).err(),
        Some(OomError::OutOfDeviceMemory)
    );
    assert_eq!(
        surface.get_capabilities(3, &query([0, 0, 0, 0, -1])).err(),
        Some(OomError::OutOfHostMemory)
    );
    // Queries after the first failure are not made; their codes are not looked at.
    assert_eq!(
        surface.get_capabilities(3, &query([0, -2, 6, -7, 12345])).err(),
        Some(OomError::OutOfDeviceMemory)
    );
    assert_eq!(
        surface.get_capabilities(3, &query([-1, 99, 99, 99, 99])).err(),
        Some(OomError::OutOfHostMemory)
    );
    let _ = InstanceExtensions::none();
}
