//! The layers and extensions this program asks Vulkan for, and the checks
//! of those names against what an implementation reports.

use vstd::prelude::*;
use crate::vulkan::debug_utils_extension_name;

verus! {

/// The contents of a list of names.
pub open spec fn names_view(names: Seq<String>) -> Seq<Seq<char>> {
    names.map_values(|s: String| s@)
}

/// The validation layers enabled when validation is on.
pub open spec fn validation_layer_names() -> Seq<Seq<char>> {
    seq!["VK_LAYER_KHRONOS_validation"@]
}

/// The device extensions a device must offer.
pub open spec fn device_extension_names() -> Seq<Seq<char>> {
    seq!["VK_KHR_swapchain"@]
}

/// The instance extensions: those the window system needs, then the
/// debug-utils extension when validation is on.
pub open spec fn instance_extension_names(surface: Seq<Seq<char>>, enable_validation: bool) -> Seq<Seq<char>> {
    if enable_validation {
        surface.push("VK_EXT_debug_utils"@)
    } else {
        surface
    }
}

/// Every name of `required` occurs in `available`.
pub open spec fn all_present(required: Seq<Seq<char>>, available: Seq<Seq<char>>) -> bool {
    forall|i: int| 0 <= i < required.len() ==> available.contains(#[trigger] required[i])
}

/// `index` is the first name of `required` that `available` lacks.
pub open spec fn first_missing_at(required: Seq<Seq<char>>, available: Seq<Seq<char>>, index: int) -> bool {
    &&& 0 <= index < required.len()
    &&& !available.contains(required[index])
    &&& forall|j: int| 0 <= j < index ==> available.contains(#[trigger] required[j])
}

/// The validation layers, as owned strings.
pub fn validation_layers() -> (names: Vec<String>)
    ensures
        names_view(names@) == validation_layer_names(),
{
    let mut names: Vec<String> = Vec::new();
    names.push("VK_LAYER_KHRONOS_validation".to_owned());
    assert(names_view(names@) =~= validation_layer_names());
    names
}

/// The required device extensions, as owned strings.
pub fn device_extensions() -> (names: Vec<String>)
    ensures
        names_view(names@) == device_extension_names(),
{
    let mut names: Vec<String> = Vec::new();
    names.push("VK_KHR_swapchain".to_owned());
    assert(names_view(names@) =~= device_extension_names());
    names
}

/// Whether `name` is one of `available`.
pub fn contains_name(available: &Vec<String>, name: &String) -> (found: bool)
    ensures
        found == names_view(available@).contains(name@),
{
    let mut i: usize = 0;
    while i < available.len()
        invariant
            i <= available.len(),
            forall|j: int| 0 <= j < i ==> (#[trigger] available@[j])@ != name@,
        decreases available.len() - i,
    {
        if available[i] == *name {
            assert(names_view(available@)[i as int] == name@);
            return true;
        }
        i = i + 1;
    }
    proof {
        if names_view(available@).contains(name@) {
            let k = choose|k: int| 0 <= k < names_view(available@).len() && names_view(available@)[k] == name@;
            assert(available@[k]@ == name@);
        }
    }
    false
}

/// The position of the first name of `required` that `available` lacks,
/// or `None` when all are there.
pub fn first_missing(required: &Vec<String>, available: &Vec<String>) -> (missing: Option<usize>)
    ensures
        missing is None <==> all_present(names_view(required@), names_view(available@)),
        missing matches Some(i) ==> first_missing_at(names_view(required@), names_view(available@), i as int),
{
    let ghost req = names_view(required@);
    let ghost av = names_view(available@);
    let mut i: usize = 0;
    while i < required.len()
        invariant
            i <= required.len(),
            req == names_view(required@),
            av == names_view(available@),
            forall|j: int| 0 <= j < i ==> av.contains(#[trigger] req[j]),
        decreases required.len() - i,
    {
        if !contains_name(available, &required[i]) {
            assert(req[i as int] == required@[i as int]@);
            return Some(i);
        }
        assert(req[i as int] == required@[i as int]@);
        i = i + 1;
    }
    None
}

/// Which validation layer, if any, the instance lacks: the position in
/// `validation_layers()` of the first one missing from `available`.
pub fn missing_validation_layer(available: &Vec<String>) -> (missing: Option<usize>)
    ensures
        missing is None <==> all_present(validation_layer_names(), names_view(available@)),
        missing matches Some(i) ==> first_missing_at(validation_layer_names(), names_view(available@), i as int),
{
    let required = validation_layers();
    first_missing(&required, available)
}

/// Whether every validation layer is among the layers the instance offers.
pub fn check_validation_layer_support(available: &Vec<String>) -> (supported: bool)
    ensures
        supported == all_present(validation_layer_names(), names_view(available@)),
{
    missing_validation_layer(available).is_none()
}

/// Whether every required device extension is among those a device offers.
pub fn check_device_extension_support(available: &Vec<String>) -> (supported: bool)
    ensures
        supported == all_present(device_extension_names(), names_view(available@)),
{
    let required = device_extensions();
    first_missing(&required, available).is_none()
}

/// The instance extensions to enable: those the window system requires,
/// followed by the debug-utils extension when validation is on.
pub fn get_required_extensions(surface_extensions: Vec<String>, enable_validation: bool) -> (extensions: Vec<String>)
    ensures
        names_view(extensions@) == instance_extension_names(names_view(surface_extensions@), enable_validation),
{
    let mut extensions = surface_extensions;
    if enable_validation {
        extensions.push(debug_utils_extension_name());
    }
    assert(names_view(extensions@) =~= instance_extension_names(names_view(surface_extensions@), enable_validation));
    extensions
}

/// The layers to enable on the instance and on the device: the validation
/// layers when validation is on, none otherwise.
pub fn enabled_layers(enable_validation: bool) -> (layers: Vec<String>)
    ensures
        names_view(layers@) == (if enable_validation { validation_layer_names() } else { Seq::empty() }),
{
    if enable_validation {
        validation_layers()
    } else {
        let layers: Vec<String> = Vec::new();
        assert(names_view(layers@) =~= Seq::empty());
        layers
    }
}


/// Offering more names never loses a required one: support found in a list
/// holds in any longer list that begins with it.
pub proof fn law_support_kept_by_more_names(required: Seq<Seq<char>>, available: Seq<Seq<char>>, more: Seq<Seq<char>>)
    requires
        all_present(required, available),
    ensures
        all_present(required, available + more),
{
    assert forall|i: int| 0 <= i < required.len() implies (available + more).contains(#[trigger] required[i]) by {
        let k = choose|k: int| 0 <= k < available.len() && available[k] == required[i];
        assert((available + more)[k] == required[i]);
    }
}

} // verus!
