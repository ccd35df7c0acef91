use vk_raii::surface::{enumerate_surface_extensions, is_supported, same_name, Platform, SurfaceError};

fn name(text: &str) -> Vec<u8> {
    text.as_bytes().to_vec()
}

fn names(texts: &[&str]) -> Vec<Vec<u8>> {
    texts.iter().map(|text| name(text)).collect()
}

#[test]
fn unix_keeps_the_supported_window_systems_in_order() {
    let supported = names(&[
        "VK_KHR_wayland_surface",
        "VK_EXT_debug_utils",
        "VK_KHR_surface",
        "VK_KHR_xcb_surface",
    ]);
    let chosen = enumerate_surface_extensions(Platform::Unix, &supported);
    assert_eq!(
        chosen,
        Ok(names(&["VK_KHR_surface", "VK_KHR_xcb_surface", "VK_KHR_wayland_surface"]))
    );
}

#[test]
fn unix_with_every_window_system() {
    let supported = names(&[
        "VK_KHR_xlib_surface",
        "VK_KHR_xcb_surface",
        "VK_KHR_wayland_surface",
        "VK_KHR_surface",
    ]);
    let chosen = enumerate_surface_extensions(Platform::Unix, &supported);
    assert_eq!(
        chosen,
        Ok(names(&[
            "VK_KHR_surface",
            "VK_KHR_xcb_surface",
            "VK_KHR_xlib_surface",
            "VK_KHR_wayland_surface",
        ]))
    );
}

#[test]
fn unix_without_any_support_needs_nothing() {
    let chosen = enumerate_surface_extensions(Platform::Unix, &Vec::new());
    assert_eq!(chosen, Ok(Vec::new()));
}

#[test]
fn windows_needs_both_of_its_extensions() {
    let supported = names(&["VK_KHR_win32_surface", "VK_KHR_surface", "VK_KHR_swapchain"]);
    let chosen = enumerate_surface_extensions(Platform::Windows, &supported);
    assert_eq!(chosen, Ok(names(&["VK_KHR_surface", "VK_KHR_win32_surface"])));
}

#[test]
fn windows_without_win32_support_is_refused() {
    let supported = names(&["VK_KHR_surface"]);
    let chosen = enumerate_surface_extensions(Platform::Windows, &supported);
    assert_eq!(chosen, Err(SurfaceError::ExtensionNotPresent));
}

#[test]
fn android_needs_its_extension() {
    let supported = names(&["VK_KHR_surface", "VK_KHR_android_surface"]);
    assert_eq!(
        enumerate_surface_extensions(Platform::Android, &supported),
        Ok(names(&["VK_KHR_android_surface"]))
    );
    assert_eq!(
        enumerate_surface_extensions(Platform::Android, &names(&["VK_KHR_surface"])),
        Err(SurfaceError::ExtensionNotPresent)
    );
}

#[test]
fn apple_needs_the_metal_extension() {
    let supported = names(&["VK_EXT_metal_surface"]);
    assert_eq!(
        enumerate_surface_extensions(Platform::Apple, &supported),
        Ok(names(&["VK_EXT_metal_surface"]))
    );
    assert_eq!(
        enumerate_surface_extensions(Platform::Apple, &Vec::new()),
        Err(SurfaceError::ExtensionNotPresent)
    );
}

#[test]
fn a_name_that_only_begins_alike_is_not_supported() {
    let supported = names(&["VK_KHR_surface_extra", "VK_KHR_surfac"]);
    assert_eq!(enumerate_surface_extensions(Platform::Unix, &supported), Ok(Vec::new()));
}

#[test]
fn same_name_compares_byte_for_byte() {
    assert!(same_name(&name("VK_KHR_surface"), &name("VK_KHR_surface")));
    assert!(!same_name(&name("VK_KHR_surface"), &name("VK_KHR_surfacE")));
    assert!(!same_name(&name("VK_KHR_surface"), &name("VK_KHR_surfac")));
    assert!(same_name(&Vec::new(), &Vec::new()));
}

#[test]
fn is_supported_looks_through_the_whole_list() {
    let supported = names(&["a", "b", "c"]);
    assert!(is_supported(&name("a"), &supported));
    assert!(is_supported(&name("c"), &supported));
    assert!(!is_supported(&name("d"), &supported));
    assert!(!is_supported(&name("a"), &Vec::new()));
}
