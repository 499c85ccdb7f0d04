use fractal_view::backend::CompositeAlpha;
use fractal_view::swapchain::{
    create_swapchain, image_count, plan_swapchain, Extent, ImageHandle, ImageUsage, PresentMode,
    SurfaceReport, Swapchain, SwapchainCreationError, SwapchainPlan,
};
use vulkano::format::Format;
use vulkano::swapchain::CompositeAlphas;

fn report(min: u32, modes: CompositeAlphas) -> SurfaceReport {
    SurfaceReport {
        min_image_count: min,
        formats: vec![Format::B8G8R8A8_UNORM, Format::R8G8B8A8_SRGB],
        supported_composite_alpha: modes,
    }
}

fn window(width: u32, height: u32) -> Extent {
    Extent { width, height }
}

fn plan(min: u32) -> SwapchainPlan {
    create_swapchain(&report(min, CompositeAlphas::OPAQUE), window(800, 600)).unwrap()
}

#[test]
fn image_count_is_at_least_two() {
    assert_eq!(image_count(0), 2);
    assert_eq!(image_count(1), 2);
    assert_eq!(image_count(2), 2);
    assert_eq!(image_count(3), 3);
    assert_eq!(image_count(u32::MAX), u32::MAX);
}

#[test]
fn plan_follows_the_policy() {
    let p = create_swapchain(&report(1, CompositeAlphas::OPAQUE), window(800, 600)).unwrap();
    assert_eq!(
        p,
        SwapchainPlan {
            min_image_count: 2,
            present_mode: PresentMode::Fifo,
            image_format: Format::B8G8R8A8_UNORM,
            image_extent: window(800, 600),
            image_usage: ImageUsage {
                transfer_src: false,
                transfer_dst: true,
                storage: false,
                color_attachment: true,
            },
            composite_alpha: CompositeAlpha::Opaque,
        }
    );
    assert_eq!(plan(5).min_image_count, 5);
}

#[test]
fn first_supported_composite_mode_is_taken() {
    let at = |modes| create_swapchain(&report(2, modes), window(1, 1)).unwrap().composite_alpha;
    assert_eq!(at(CompositeAlphas::OPAQUE | CompositeAlphas::INHERIT), CompositeAlpha::Opaque);
    assert_eq!(
        at(CompositeAlphas::POST_MULTIPLIED | CompositeAlphas::PRE_MULTIPLIED),
        CompositeAlpha::PreMultiplied
    );
    assert_eq!(
        at(CompositeAlphas::INHERIT | CompositeAlphas::POST_MULTIPLIED),
        CompositeAlpha::PostMultiplied
    );
    assert_eq!(at(CompositeAlphas::INHERIT), CompositeAlpha::Inherit);
}

#[test]
fn surface_without_composite_mode_is_an_error() {
    assert_eq!(
        create_swapchain(&report(2, CompositeAlphas::empty()), window(800, 600)),
        Err(SwapchainCreationError::NoCompositeAlpha)
    );
}

#[test]
fn surface_without_format_is_an_error() {
    let mut r = report(2, CompositeAlphas::OPAQUE);
    r.formats = Vec::new();
    assert_eq!(r.first_format(), None);
    assert_eq!(create_swapchain(&r, window(800, 600)), Err(SwapchainCreationError::NoFormat));
    r.supported_composite_alpha = CompositeAlphas::empty();
    assert_eq!(create_swapchain(&r, window(800, 600)), Err(SwapchainCreationError::NoFormat));
}

#[test]
fn plan_swapchain_reports_what_is_missing() {
    let w = window(3, 4);
    assert_eq!(
        plan_swapchain(1, None, Some(CompositeAlpha::Opaque), w),
        Err(SwapchainCreationError::NoFormat)
    );
    assert_eq!(
        plan_swapchain(1, Some(Format::R8G8B8A8_UNORM), None, w),
        Err(SwapchainCreationError::NoCompositeAlpha)
    );
    let p = plan_swapchain(7, Some(Format::R8G8B8A8_UNORM), Some(CompositeAlpha::Inherit), w).unwrap();
    assert_eq!(p.min_image_count, 7);
    assert_eq!(p.image_format, Format::R8G8B8A8_UNORM);
    assert_eq!(p.composite_alpha, CompositeAlpha::Inherit);
    assert_eq!(p.image_extent, w);
}

#[test]
fn empty_extent_has_a_zero_side() {
    assert!(window(0, 600).is_empty());
    assert!(window(800, 0).is_empty());
    assert!(window(0, 0).is_empty());
    assert!(!window(1, 1).is_empty());
}

#[test]
fn resized_plan_changes_the_extent_alone() {
    let p = plan(3);
    let q = p.resized(window(1024, 768));
    assert_eq!(q.image_extent, window(1024, 768));
    assert_eq!(q, SwapchainPlan { image_extent: window(1024, 768), ..p });
}

#[test]
fn first_chain_needs_the_images_it_asked_for() {
    assert_eq!(Swapchain::new(plan(3), 2), Err(SwapchainCreationError::Rejected));
    let chain = Swapchain::new(plan(3), 4).unwrap();
    assert_eq!(chain, Swapchain { plan: plan(3), image_count: 4, generation: 0 });
}

#[test]
fn images_are_listed_in_order() {
    let chain = Swapchain::new(plan(2), 3).unwrap();
    assert_eq!(
        chain.images(),
        vec![
            ImageHandle { generation: 0, index: 0 },
            ImageHandle { generation: 0, index: 1 },
            ImageHandle { generation: 0, index: 2 },
        ]
    );
    assert_eq!(chain.image(2), Some(ImageHandle { generation: 0, index: 2 }));
    assert_eq!(chain.image(3), None);
}

#[test]
fn recreated_chain_shares_no_image_with_the_old_one() {
    let old = Swapchain::new(plan(2), 3).unwrap();
    let new = old.recreate(window(640, 480), 3).unwrap();
    assert_eq!(new.generation, 1);
    assert_eq!(new.plan, old.plan.resized(window(640, 480)));
    for later in new.images() {
        for earlier in old.images() {
            assert_ne!(later, earlier);
        }
    }
    let newer = new.recreate(window(640, 480), 2).unwrap();
    for later in newer.images() {
        assert!(!old.images().contains(&later));
        assert!(!new.images().contains(&later));
    }
}

#[test]
fn recreate_with_too_few_images_is_rejected() {
    let old = Swapchain::new(plan(3), 3).unwrap();
    assert_eq!(old.recreate(window(640, 480), 2), Err(SwapchainCreationError::Rejected));
}
