//! The policy by which the presentable image chain is set up and renewed,
//! and the identity of its images across renewals.

use vstd::prelude::*;
use vulkano::format::Format;
use vulkano::swapchain::CompositeAlphas;
use crate::backend::{composite_modes, first_composite_mode, first_mode_of, CompositeAlpha};

verus! {

/// A size in pixels.
#[derive(Clone, Copy, Debug, PartialEq, Eq, Structural)]
pub struct Extent {
    pub width: u32,
    pub height: u32,
}

impl Extent {
    /// The area is zero: one side has no pixels.
    pub open spec fn is_empty_of(self) -> bool {
        self.width == 0 || self.height == 0
    }

    /// Whether the area is zero.
    pub fn is_empty(&self) -> (b: bool)
        ensures
            b == self.is_empty_of(),
    {
        self.width == 0 || self.height == 0
    }
}

/// When a finished image replaces the one on screen.
#[derive(Clone, Copy, Debug, PartialEq, Eq, Structural)]
pub enum PresentMode {
    Immediate,
    Mailbox,
    Fifo,
    FifoRelaxed,
}

/// What the chain's images may be used for.
#[derive(Clone, Copy, Debug, PartialEq, Eq, Structural)]
pub struct ImageUsage {
    pub transfer_src: bool,
    pub transfer_dst: bool,
    pub storage: bool,
    pub color_attachment: bool,
}

/// What a surface reports of itself.
#[derive(Debug)]
pub struct SurfaceReport {
    /// The fewest images that the surface accepts in a chain.
    pub min_image_count: u32,
    /// The image formats it supports, as it lists them.
    pub formats: Vec<Format>,
    /// The composite modes it supports.
    pub supported_composite_alpha: CompositeAlphas,
}

/// The settings with which a chain is requested from the surface.
#[derive(Clone, Copy, Debug, PartialEq, Eq)]
pub struct SwapchainPlan {
    pub min_image_count: u32,
    pub present_mode: PresentMode,
    pub image_format: Format,
    pub image_extent: Extent,
    pub image_usage: ImageUsage,
    pub composite_alpha: CompositeAlpha,
}

/// Why no chain can be had.
#[derive(Clone, Copy, Debug, PartialEq, Eq, Structural)]
pub enum SwapchainCreationError {
    /// The surface lists no image format.
    NoFormat,
    /// The surface lists no composite mode.
    NoCompositeAlpha,
    /// The surface turned the request down, or handed out fewer images than
    /// were asked for.
    Rejected,
}

/// The fewest images a chain is asked to hold.
pub const MIN_CHAIN_IMAGES: u32 = 2;

/// The image count to ask for, given the minimum that the surface reports.
pub open spec fn image_count_of(reported_min: u32) -> u32 {
    if reported_min < 2 {
        2
    } else {
        reported_min
    }
}

/// The image count to ask for: the reported minimum, but never under two.
pub fn image_count(reported_min: u32) -> (n: u32)
    ensures
        n == image_count_of(reported_min),
        n >= 2,
        n >= reported_min,
{
    if reported_min < MIN_CHAIN_IMAGES {
        MIN_CHAIN_IMAGES
    } else {
        reported_min
    }
}

/// The usage that the copy into a chain image needs.
pub open spec fn chain_usage() -> ImageUsage {
    ImageUsage { transfer_src: false, transfer_dst: true, storage: false, color_attachment: true }
}

/// The plan for a window of size `window` on a surface that reports the
/// minimum `reported_min`, with `format` and `mode` the first format and the
/// first composite mode that it supports.
pub open spec fn plan_of(reported_min: u32, format: Format, mode: CompositeAlpha, window: Extent)
    -> SwapchainPlan {
    SwapchainPlan {
        min_image_count: image_count_of(reported_min),
        present_mode: PresentMode::Fifo,
        image_format: format,
        image_extent: window,
        image_usage: chain_usage(),
        composite_alpha: mode,
    }
}

/// Settles the request from what the surface lists first: `format` is its
/// first format and `mode` its first composite mode, each `None` where the
/// surface lists none.
pub fn plan_swapchain(
    reported_min: u32,
    format: Option<Format>,
    mode: Option<CompositeAlpha>,
    window: Extent,
) -> (r: Result<SwapchainPlan, SwapchainCreationError>)
    ensures
        r == match (format, mode) {
            (None, _) => Err::<SwapchainPlan, _>(SwapchainCreationError::NoFormat),
            (Some(_), None) => Err(SwapchainCreationError::NoCompositeAlpha),
            (Some(f), Some(m)) => Ok(plan_of(reported_min, f, m, window)),
        },
        r matches Ok(p) ==> p.wf() && p.min_image_count >= reported_min,
{
    match format {
        None => Err(SwapchainCreationError::NoFormat),
        Some(image_format) => match mode {
            None => Err(SwapchainCreationError::NoCompositeAlpha),
            Some(composite_alpha) => Ok(
                SwapchainPlan {
                    min_image_count: image_count(reported_min),
                    present_mode: PresentMode::Fifo,
                    image_format,
                    image_extent: window,
                    image_usage: ImageUsage {
                        transfer_src: false,
                        transfer_dst: true,
                        storage: false,
                        color_attachment: true,
                    },
                    composite_alpha,
                },
            ),
        },
    }
}

impl SurfaceReport {
    /// The first format that the surface lists.
    pub open spec fn first_format_of(self) -> Option<Format> {
        if self.formats@.len() > 0 {
            Some(self.formats@[0])
        } else {
            None
        }
    }

    /// The first composite mode that the surface supports.
    pub open spec fn first_mode(self) -> Option<CompositeAlpha> {
        first_mode_of(composite_modes(self.supported_composite_alpha))
    }

    /// The first format that the surface lists, `None` where it lists none.
    pub fn first_format(&self) -> (r: Option<Format>)
        ensures
            r == self.first_format_of(),
    {
        if self.formats.len() > 0 {
            Some(self.formats[0])
        } else {
            None
        }
    }
}

/// Settles the request for a chain that fits `window`: at least two images,
/// strict first-in first-out presentation, the first format and the first
/// composite mode that the surface lists.
pub fn create_swapchain(report: &SurfaceReport, window: Extent) -> (r: Result<
    SwapchainPlan,
    SwapchainCreationError,
>)
    ensures
        r == match (report.first_format_of(), report.first_mode()) {
            (None, _) => Err::<SwapchainPlan, _>(SwapchainCreationError::NoFormat),
            (Some(_), None) => Err(SwapchainCreationError::NoCompositeAlpha),
            (Some(f), Some(m)) => Ok(plan_of(report.min_image_count, f, m, window)),
        },
        r matches Ok(p) ==> p.wf() && p.min_image_count >= report.min_image_count,
{
    plan_swapchain(
        report.min_image_count,
        report.first_format(),
        first_composite_mode(report.supported_composite_alpha),
        window,
    )
}

impl SwapchainPlan {
    /// The plan asks for at least two images.
    pub open spec fn wf(self) -> bool {
        self.min_image_count >= 2
    }

    /// Whether the plan is well formed.
    pub fn is_wf(&self) -> (b: bool)
        ensures
            b == self.wf(),
    {
        self.min_image_count >= MIN_CHAIN_IMAGES
    }

    /// The same plan for a window of another size.
    pub open spec fn resized_of(self, window: Extent) -> SwapchainPlan {
        SwapchainPlan { image_extent: window, ..self }
    }

    /// The same plan for a window of size `window`.
    pub fn resized(&self, window: Extent) -> (p: SwapchainPlan)
        ensures
            p == self.resized_of(window),
    {
        SwapchainPlan {
            min_image_count: self.min_image_count,
            present_mode: self.present_mode,
            image_format: self.image_format,
            image_extent: window,
            image_usage: self.image_usage,
            composite_alpha: self.composite_alpha,
        }
    }
}

/// One image of one chain. Images of different chains differ in `generation`.
#[derive(Clone, Copy, Debug, PartialEq, Eq, Structural)]
pub struct ImageHandle {
    pub generation: u64,
    pub index: u32,
}

/// A chain as it stands: the plan it was made by, how many images the
/// surface handed out, and how many chains came before it.
#[derive(Clone, Copy, Debug, PartialEq, Eq)]
pub struct Swapchain {
    pub plan: SwapchainPlan,
    pub image_count: u32,
    pub generation: u64,
}

impl Swapchain {
    /// The chain holds at least the two images that were asked for.
    pub open spec fn wf(self) -> bool {
        &&& self.plan.wf()
        &&& self.image_count >= self.plan.min_image_count
    }

    /// Whether the chain is well formed.
    pub fn is_wf(&self) -> (b: bool)
        ensures
            b == self.wf(),
    {
        self.plan.is_wf() && self.image_count >= self.plan.min_image_count
    }

    /// `handle` names an image of this chain.
    pub open spec fn owns(self, handle: ImageHandle) -> bool {
        handle.generation == self.generation && handle.index < self.image_count
    }

    /// `handle` names an image of this chain or of one that came before it.
    pub open spec fn has_seen(self, handle: ImageHandle) -> bool {
        handle.generation <= self.generation
    }

    /// The images of this chain, in order.
    pub open spec fn images_of(self) -> Seq<ImageHandle> {
        Seq::new(
            self.image_count as nat,
            |i: int| ImageHandle { generation: self.generation, index: i as u32 },
        )
    }

    /// The chain that follows this one for a window of size `window`, with
    /// `image_count` images.
    pub open spec fn recreated_of(self, window: Extent, image_count: u32) -> Swapchain {
        Swapchain {
            plan: self.plan.resized_of(window),
            image_count,
            generation: (self.generation + 1) as u64,
        }
    }

    /// The first chain, made by `plan`, of which the surface handed out
    /// `image_count` images.
    pub fn new(plan: SwapchainPlan, image_count: u32) -> (r: Result<Swapchain, SwapchainCreationError>)
        requires
            plan.wf(),
        ensures
            image_count < plan.min_image_count ==> r == Err::<Swapchain, _>(
                SwapchainCreationError::Rejected,
            ),
            image_count >= plan.min_image_count ==> r == Ok::<_, SwapchainCreationError>(
                Swapchain { plan, image_count, generation: 0 },
            ),
            r matches Ok(c) ==> c.wf(),
    {
        if image_count < plan.min_image_count {
            Err(SwapchainCreationError::Rejected)
        } else {
            Ok(Swapchain { plan, image_count, generation: 0 })
        }
    }

    /// The chain that replaces this one for a window of size `window`. All
    /// settings but the extent carry over; no image of the old chain is an
    /// image of the new one.
    pub fn recreate(&self, window: Extent, image_count: u32) -> (r: Result<
        Swapchain,
        SwapchainCreationError,
    >)
        requires
            self.wf(),
            self.generation < u64::MAX,
        ensures
            image_count < self.plan.min_image_count ==> r == Err::<Swapchain, _>(
                SwapchainCreationError::Rejected,
            ),
            image_count >= self.plan.min_image_count ==> r == Ok::<_, SwapchainCreationError>(
                self.recreated_of(window, image_count),
            ),
            r matches Ok(c) ==> c.wf() && c.generation == self.generation + 1,
            r matches Ok(c) ==> forall|h: ImageHandle| #[trigger] self.has_seen(h) ==> !c.owns(h),
    {
        if image_count < self.plan.min_image_count {
            Err(SwapchainCreationError::Rejected)
        } else {
            Ok(
                Swapchain {
                    plan: self.plan.resized(window),
                    image_count,
                    generation: self.generation + 1,
                },
            )
        }
    }

    /// The handle of image `index`, where the chain has such an image.
    pub fn image(&self, index: u32) -> (r: Option<ImageHandle>)
        ensures
            index < self.image_count ==> r == Some(
                ImageHandle { generation: self.generation, index },
            ),
            index >= self.image_count ==> r.is_none(),
            r matches Some(h) ==> self.owns(h),
    {
        if index < self.image_count {
            Some(ImageHandle { generation: self.generation, index })
        } else {
            None
        }
    }

    /// The handles of all images of the chain, in order.
    pub fn images(&self) -> (list: Vec<ImageHandle>)
        ensures
            list@ == self.images_of(),
    {
        let mut list: Vec<ImageHandle> = Vec::new();
        let mut i: u32 = 0;
        while i < self.image_count
            invariant
                i <= self.image_count,
                list@.len() == i,
                forall|j: int|
                    0 <= j < i ==> list@[j] == (ImageHandle {
                        generation: self.generation,
                        index: j as u32,
                    }),
            decreases self.image_count - i,
        {
            list.push(ImageHandle { generation: self.generation, index: i });
            i += 1;
        }
        assert(list@ =~= self.images_of());
        list
    }
}

/// A plan that `create_swapchain` settles asks for at least two images,
/// whatever minimum the surface reports.
pub proof fn plan_has_two_images(reported_min: u32, format: Format, mode: CompositeAlpha, window: Extent)
    ensures
        plan_of(reported_min, format, mode, window).wf(),
        plan_of(reported_min, format, mode, window).min_image_count >= 2,
        plan_of(reported_min, format, mode, window).min_image_count >= reported_min,
{
}

/// The listed images of a chain are the images that it owns, each at the
/// position of its index.
pub proof fn listed_images_are_owned(chain: Swapchain, handle: ImageHandle)
    ensures
        chain.images_of().len() == chain.image_count,
        chain.owns(handle) <==> 0 <= handle.index < chain.images_of().len() && chain.images_of()[handle.index as int]
            == handle,
        chain.owns(handle) ==> chain.has_seen(handle),
{
}

/// No image of a renewed chain is an image of the chain it replaces, nor of
/// any chain before that.
pub proof fn recreate_invalidates_images(
    chain: Swapchain,
    window: Extent,
    image_count: u32,
    earlier: ImageHandle,
    later: ImageHandle,
)
    requires
        chain.generation < u64::MAX,
        chain.has_seen(earlier),
        chain.recreated_of(window, image_count).owns(later),
    ensures
        later != earlier,
        !chain.owns(later),
        !chain.recreated_of(window, image_count).owns(earlier),
{
}

} // verus!
