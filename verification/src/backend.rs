//! The values of the graphics backend that the library reads, and what it
//! takes on trust of them.
//!
//! Nothing in this file is proved. Each item names the backend function it
//! stands for and says what is claimed of it.

use vstd::prelude::*;

verus! {

/// `vulkano::device::DeviceExtensions`: a set of device extensions, one
/// boolean member for each extension that the backend knows.
#[verifier::external_type_specification]
#[verifier::external_body]
pub struct ExDeviceExtensions(vulkano::device::DeviceExtensions);

/// `vulkano::device::QueueFlags`: a set of queue capabilities.
#[verifier::external_type_specification]
#[verifier::external_body]
pub struct ExQueueFlags(vulkano::device::QueueFlags);

/// `vulkano::swapchain::CompositeAlphas`: a set of composite modes.
#[verifier::external_type_specification]
#[verifier::external_body]
pub struct ExCompositeAlphas(vulkano::swapchain::CompositeAlphas);

/// `vulkano::format::Format`: an image format. The library hands it on and
/// reads nothing of it.
#[verifier::external_type_specification]
#[verifier::external_body]
pub struct ExFormat(vulkano::format::Format);

/// How the window's alpha channel is combined with what lies behind it.
#[derive(Clone, Copy, Debug, PartialEq, Eq, Structural)]
pub enum CompositeAlpha {
    Opaque,
    PreMultiplied,
    PostMultiplied,
    Inherit,
}

/// What the queues of a family can do.
#[derive(Clone, Copy, Debug, PartialEq, Eq, Structural)]
pub enum QueueCapability {
    Graphics,
    Compute,
    Transfer,
    SparseBinding,
    Protected,
    VideoDecode,
    VideoEncode,
    OpticalFlow,
}

/// The extensions whose member is set in `extensions`, each by the name
/// that the interface's registry gives it.
pub uninterp spec fn extension_names(extensions: vulkano::device::DeviceExtensions) -> Set<Seq<char>>;

/// The capabilities whose flag is set in `flags`.
pub uninterp spec fn queue_capabilities(flags: vulkano::device::QueueFlags) -> Set<QueueCapability>;

/// The composite modes whose flag is set in `modes`.
pub uninterp spec fn composite_modes(modes: vulkano::swapchain::CompositeAlphas) -> Set<CompositeAlpha>;

/// The registry's name of the dynamic rendering extension.
pub open spec fn dynamic_rendering_name() -> Seq<char> {
    "VK_KHR_dynamic_rendering"@
}

/// The first mode of `modes` in the order opaque, pre-multiplied,
/// post-multiplied, inherit.
pub open spec fn first_mode_of(modes: Set<CompositeAlpha>) -> Option<CompositeAlpha> {
    if modes.contains(CompositeAlpha::Opaque) {
        Some(CompositeAlpha::Opaque)
    } else if modes.contains(CompositeAlpha::PreMultiplied) {
        Some(CompositeAlpha::PreMultiplied)
    } else if modes.contains(CompositeAlpha::PostMultiplied) {
        Some(CompositeAlpha::PostMultiplied)
    } else if modes.contains(CompositeAlpha::Inherit) {
        Some(CompositeAlpha::Inherit)
    } else {
        None
    }
}

/// `DeviceExtensions::contains`: whether every member that is set in
/// `required` is set in `supported` too.
#[verifier::external_body]
pub(crate) fn extensions_contain(
    supported: &vulkano::device::DeviceExtensions,
    required: &vulkano::device::DeviceExtensions,
) -> (b: bool)
    ensures
        b == extension_names(*required).subset_of(extension_names(*supported)),
{
    supported.contains(required)
}

/// Reads the member `khr_dynamic_rendering` of `DeviceExtensions`, which is
/// set where the set holds the dynamic rendering extension.
#[verifier::external_body]
pub(crate) fn offers_dynamic_rendering(extensions: &vulkano::device::DeviceExtensions) -> (b: bool)
    ensures
        b == extension_names(*extensions).contains(dynamic_rendering_name()),
{
    extensions.khr_dynamic_rendering
}

/// Sets the member `khr_dynamic_rendering` of `DeviceExtensions` and leaves
/// every other member as it is.
#[verifier::external_body]
pub(crate) fn with_dynamic_rendering(extensions: vulkano::device::DeviceExtensions) -> (r:
    vulkano::device::DeviceExtensions)
    ensures
        extension_names(r) == extension_names(extensions).insert(dynamic_rendering_name()),
{
    vulkano::device::DeviceExtensions { khr_dynamic_rendering: true, ..extensions }
}

/// `QueueFlags::intersects` with `QueueFlags::COMPUTE`: whether the compute
/// flag is set in `flags`.
#[verifier::external_body]
pub(crate) fn runs_compute(flags: vulkano::device::QueueFlags) -> (b: bool)
    ensures
        b == queue_capabilities(flags).contains(QueueCapability::Compute),
{
    flags.intersects(vulkano::device::QueueFlags::COMPUTE)
}

/// The first item of `CompositeAlphas::into_iter`, which hands out the modes
/// whose flag is set in the order opaque, pre-multiplied, post-multiplied,
/// inherit.
#[verifier::external_body]
pub(crate) fn first_composite_mode(modes: vulkano::swapchain::CompositeAlphas) -> (r: Option<
    CompositeAlpha,
>)
    ensures
        r == first_mode_of(composite_modes(modes)),
{
    match modes.into_iter().next() {
        Some(vulkano::swapchain::CompositeAlpha::Opaque) => Some(CompositeAlpha::Opaque),
        Some(vulkano::swapchain::CompositeAlpha::PreMultiplied) => Some(CompositeAlpha::PreMultiplied),
        Some(vulkano::swapchain::CompositeAlpha::PostMultiplied) => Some(CompositeAlpha::PostMultiplied),
        Some(vulkano::swapchain::CompositeAlpha::Inherit) => Some(CompositeAlpha::Inherit),
        _ => None,
    }
}

} // verus!
