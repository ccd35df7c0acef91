//! Which instance extensions a window surface needs on a platform.
//!
//! Extension names are the bytes of the native name, without the closing
//! zero. The caller asks the native loader which extensions it supports and
//! passes their names in.

use vstd::prelude::*;
use vstd::string::StringSliceAdditionalSpecFns;

verus! {

/// The family of window systems that the program runs on.
#[derive(Debug, Copy, Clone, PartialEq, Eq, Structural)]
pub enum Platform {
    Windows,
    /// Linux and the BSDs: any of several window systems may be there.
    Unix,
    Android,
    /// macOS and iOS.
    Apple,
}

/// Why no list of surface extensions could be given.
#[derive(Debug, Copy, Clone, PartialEq, Eq, Structural)]
pub enum SurfaceError {
    /// An extension that the platform cannot do without is not supported.
    ExtensionNotPresent,
}

/// The name of the extension for surfaces as such.
pub open spec fn surface_name() -> Seq<u8> {
    "VK_KHR_surface".spec_bytes()
}

/// The name of the extension for surfaces on XCB.
pub open spec fn xcb_surface_name() -> Seq<u8> {
    "VK_KHR_xcb_surface".spec_bytes()
}

/// The name of the extension for surfaces on Xlib.
pub open spec fn xlib_surface_name() -> Seq<u8> {
    "VK_KHR_xlib_surface".spec_bytes()
}

/// The name of the extension for surfaces on Wayland.
pub open spec fn wayland_surface_name() -> Seq<u8> {
    "VK_KHR_wayland_surface".spec_bytes()
}

/// The name of the extension for surfaces on Win32.
pub open spec fn win32_surface_name() -> Seq<u8> {
    "VK_KHR_win32_surface".spec_bytes()
}

/// The name of the extension for surfaces on Android.
pub open spec fn android_surface_name() -> Seq<u8> {
    "VK_KHR_android_surface".spec_bytes()
}

/// The name of the extension for surfaces on Metal.
pub open spec fn metal_surface_name() -> Seq<u8> {
    "VK_EXT_metal_surface".spec_bytes()
}

/// Calls `ash::extensions::khr::Surface::name`, a constant: the bytes of
/// `VK_KHR_surface`.
#[verifier::external_body]
fn khr_surface() -> (name: Vec<u8>)
    ensures
        name@ == surface_name(),
{
    ash::extensions::khr::Surface::name().to_bytes().to_vec()
}

/// Calls `ash::extensions::khr::XcbSurface::name`, a constant: the bytes of
/// `VK_KHR_xcb_surface`.
#[verifier::external_body]
fn khr_xcb_surface() -> (name: Vec<u8>)
    ensures
        name@ == xcb_surface_name(),
{
    ash::extensions::khr::XcbSurface::name().to_bytes().to_vec()
}

/// Calls `ash::extensions::khr::XlibSurface::name`, a constant: the bytes of
/// `VK_KHR_xlib_surface`.
#[verifier::external_body]
fn khr_xlib_surface() -> (name: Vec<u8>)
    ensures
        name@ == xlib_surface_name(),
{
    ash::extensions::khr::XlibSurface::name().to_bytes().to_vec()
}

/// Calls `ash::extensions::khr::WaylandSurface::name`, a constant: the bytes
/// of `VK_KHR_wayland_surface`.
#[verifier::external_body]
fn khr_wayland_surface() -> (name: Vec<u8>)
    ensures
        name@ == wayland_surface_name(),
{
    ash::extensions::khr::WaylandSurface::name().to_bytes().to_vec()
}

/// Calls `ash::extensions::khr::Win32Surface::name`, a constant: the bytes of
/// `VK_KHR_win32_surface`.
#[verifier::external_body]
fn khr_win32_surface() -> (name: Vec<u8>)
    ensures
        name@ == win32_surface_name(),
{
    ash::extensions::khr::Win32Surface::name().to_bytes().to_vec()
}

/// Calls `ash::extensions::khr::AndroidSurface::name`, a constant: the bytes
/// of `VK_KHR_android_surface`.
#[verifier::external_body]
fn khr_android_surface() -> (name: Vec<u8>)
    ensures
        name@ == android_surface_name(),
{
    ash::extensions::khr::AndroidSurface::name().to_bytes().to_vec()
}

/// Calls `ash::extensions::ext::MetalSurface::name`, a constant: the bytes of
/// `VK_EXT_metal_surface`.
#[verifier::external_body]
fn ext_metal_surface() -> (name: Vec<u8>)
    ensures
        name@ == metal_surface_name(),
{
    ash::extensions::ext::MetalSurface::name().to_bytes().to_vec()
}

/// The extensions that a platform uses where they are supported.
pub open spec fn optional_names(platform: Platform) -> Seq<Seq<u8>> {
    match platform {
        Platform::Unix => seq![
            surface_name(),
            xcb_surface_name(),
            xlib_surface_name(),
            wayland_surface_name(),
        ],
        _ => seq![],
    }
}

/// The extensions that a platform cannot do without.
pub open spec fn mandatory_names(platform: Platform) -> Seq<Seq<u8>> {
    match platform {
        Platform::Windows => seq![surface_name(), win32_surface_name()],
        Platform::Unix => seq![],
        Platform::Android => seq![android_surface_name()],
        Platform::Apple => seq![metal_surface_name()],
    }
}

/// The names held by a list, in its order.
pub open spec fn names(list: Seq<Vec<u8>>) -> Seq<Seq<u8>> {
    Seq::new(list.len(), |i: int| list[i]@)
}

/// Those of `candidates` that occur in `supported`, in their order.
pub open spec fn kept(candidates: Seq<Seq<u8>>, supported: Seq<Seq<u8>>) -> Seq<Seq<u8>>
    decreases candidates.len(),
{
    if candidates.len() == 0 {
        seq![]
    } else if supported.contains(candidates.last()) {
        kept(candidates.drop_last(), supported).push(candidates.last())
    } else {
        kept(candidates.drop_last(), supported)
    }
}

/// Whether each of `wanted` occurs in `supported`.
pub open spec fn all_supported(wanted: Seq<Seq<u8>>, supported: Seq<Seq<u8>>) -> bool {
    forall|i: int| 0 <= i < wanted.len() ==> supported.contains(#[trigger] wanted[i])
}

/// What is kept was supported.
pub proof fn lemma_kept_supported(candidates: Seq<Seq<u8>>, supported: Seq<Seq<u8>>)
    ensures
        all_supported(kept(candidates, supported), supported),
    decreases candidates.len(),
{
    if candidates.len() > 0 {
        lemma_kept_supported(candidates.drop_last(), supported);
    }
}

/// Whether two names are the same, byte for byte.
pub fn same_name(a: &Vec<u8>, b: &Vec<u8>) -> (same: bool)
    ensures
        same == (a@ == b@),
{
    if a.len() != b.len() {
        return false;
    }
    let mut i: usize = 0;
    while i < a.len()
        invariant
            a.len() == b.len(),
            i <= a.len(),
            forall|j: int| 0 <= j < i ==> a@[j] == b@[j],
        decreases a.len() - i,
    {
        if a[i] != b[i] {
            return false;
        }
        i += 1;
    }
    assert(a@ =~= b@);
    true
}

/// Whether `name` is among the supported names.
pub fn is_supported(name: &Vec<u8>, supported: &Vec<Vec<u8>>) -> (found: bool)
    ensures
        found == names(supported@).contains(name@),
{
    let ghost all = names(supported@);
    let mut i: usize = 0;
    while i < supported.len()
        invariant
            i <= supported.len(),
            all == names(supported@),
            forall|j: int| 0 <= j < i ==> all[j] != name@,
        decreases supported.len() - i,
    {
        if same_name(&supported[i], name) {
            assert(all[i as int] == name@);
            return true;
        }
        i += 1;
    }
    false
}

/// The platform's optional extensions, as the native bindings name them.
fn optional_candidates(platform: Platform) -> (list: Vec<Vec<u8>>)
    ensures
        names(list@) == optional_names(platform),
{
    let mut list: Vec<Vec<u8>> = Vec::new();
    match platform {
        Platform::Unix => {
            list.push(khr_surface());
            list.push(khr_xcb_surface());
            list.push(khr_xlib_surface());
            list.push(khr_wayland_surface());
        },
        _ => {},
    }
    assert(names(list@) =~= optional_names(platform));
    list
}

/// The platform's mandatory extensions, as the native bindings name them.
fn mandatory_candidates(platform: Platform) -> (list: Vec<Vec<u8>>)
    ensures
        names(list@) == mandatory_names(platform),
{
    let mut list: Vec<Vec<u8>> = Vec::new();
    match platform {
        Platform::Windows => {
            list.push(khr_surface());
            list.push(khr_win32_surface());
        },
        Platform::Unix => {},
        Platform::Android => {
            list.push(khr_android_surface());
        },
        Platform::Apple => {
            list.push(ext_metal_surface());
        },
    }
    assert(names(list@) =~= mandatory_names(platform));
    list
}

/// The instance extensions to enable for window surfaces on `platform`,
/// given the names of the extensions that the loader supports.
///
/// The list holds the platform's optional extensions that are supported,
/// followed by its mandatory ones. It is refused when a mandatory extension
/// is not supported.
pub fn enumerate_surface_extensions(platform: Platform, supported: &Vec<Vec<u8>>) -> (result: Result<
    Vec<Vec<u8>>,
    SurfaceError,
>)
    ensures
        match result {
            Ok(list) => {
                &&& all_supported(mandatory_names(platform), names(supported@))
                &&& names(list@) == kept(optional_names(platform), names(supported@))
                    + mandatory_names(platform)
            },
            Err(error) => {
                &&& error == SurfaceError::ExtensionNotPresent
                &&& !all_supported(mandatory_names(platform), names(supported@))
            },
        },
{
    let ghost avail = names(supported@);
    let ghost optional = optional_names(platform);
    let ghost mandatory = mandatory_names(platform);
    let mut required: Vec<Vec<u8>> = Vec::new();

    let candidates = optional_candidates(platform);
    let mut i: usize = 0;
    while i < candidates.len()
        invariant
            i <= candidates.len(),
            avail == names(supported@),
            optional == optional_names(platform),
            names(candidates@) == optional,
            names(required@) == kept(optional.take(i as int), avail),
        decreases candidates.len() - i,
    {
        let ghost before = names(required@);
        let candidate = &candidates[i];
        proof {
            assert(optional[i as int] == candidate@);
            assert(optional.take(i + 1).drop_last() =~= optional.take(i as int));
            assert(optional.take(i + 1).last() == candidate@);
        }
        if is_supported(candidate, supported) {
            required.push(candidate.clone());
            assert(names(required@) =~= before.push(candidate@));
        }
        i += 1;
    }
    assert(optional.take(i as int) =~= optional);

    let ghost chosen = names(required@);
    let mut musts = mandatory_candidates(platform);
    required.append(&mut musts);
    assert(names(required@) =~= chosen + mandatory);

    let mut j: usize = 0;
    while j < required.len()
        invariant
            j <= required.len(),
            avail == names(supported@),
            optional == optional_names(platform),
            mandatory == mandatory_names(platform),
            chosen == kept(optional, avail),
            names(required@) == chosen + mandatory,
            forall|k: int| 0 <= k < j ==> avail.contains(#[trigger] names(required@)[k]),
        decreases required.len() - j,
    {
        if !is_supported(&required[j], supported) {
            proof {
                lemma_kept_supported(optional, avail);
                let wanted = names(required@);
                assert(!avail.contains(wanted[j as int]));
                assert(j >= chosen.len()) by {
                    if j < chosen.len() {
                        assert(wanted[j as int] == chosen[j as int]);
                    }
                };
                assert(mandatory[j - chosen.len()] == wanted[j as int]);
            }
            return Err(SurfaceError::ExtensionNotPresent);
        }
        j += 1;
    }
    proof {
        let wanted = names(required@);
        assert forall|k: int| 0 <= k < mandatory.len() implies avail.contains(
            #[trigger] mandatory[k],
        ) by {
            assert(wanted[chosen.len() + k] == mandatory[k]);
        }
    }
    Ok(required)
}

} // verus!
