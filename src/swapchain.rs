use vstd::prelude::*;

verus! {

/// Raw value of the 8-bit BGRA sRGB pixel format (`VK_FORMAT_B8G8R8A8_SRGB`).
pub const FORMAT_B8G8R8A8_SRGB: i32 = 50;

/// Raw value of the non-linear sRGB colour space (`VK_COLOR_SPACE_SRGB_NONLINEAR_KHR`).
pub const COLOR_SPACE_SRGB_NONLINEAR: i32 = 0;

/// Raw value of the low-latency triple-buffering present mode (`VK_PRESENT_MODE_MAILBOX_KHR`).
pub const PRESENT_MODE_MAILBOX: i32 = 1;

/// Raw value of the always-available vsync present mode (`VK_PRESENT_MODE_FIFO_KHR`).
pub const PRESENT_MODE_FIFO: i32 = 2;

/// A pixel format together with its colour space, as raw backend values.
#[derive(Clone, Copy, Debug, PartialEq, Eq, Structural)]
pub struct SurfaceFormat {
    pub format: i32,
    pub color_space: i32,
}

/// A two-dimensional size in pixels.
#[derive(Clone, Copy, Debug, PartialEq, Eq, Structural)]
pub struct Extent2D {
    pub width: u32,
    pub height: u32,
}

/// What the surface reports about the images it can hold. A `max_image_count`
/// of zero means that there is no upper bound; a `current_extent` whose width is
/// `u32::MAX` means that the surface leaves the size to the window.
#[derive(Clone, Copy, Debug, PartialEq, Eq, Structural)]
pub struct SurfaceCapabilities {
    pub min_image_count: u32,
    pub max_image_count: u32,
    pub current_extent: Extent2D,
}

/// Everything the surface reports for one physical device.
pub struct SwapchainSupportDetails {
    pub capabilities: SurfaceCapabilities,
    pub formats: Vec<SurfaceFormat>,
    pub present_modes: Vec<i32>,
}

/// The settings a swapchain is created with.
#[derive(Clone, Copy, Debug, PartialEq, Eq, Structural)]
pub struct SwapchainPlan {
    pub surface_format: SurfaceFormat,
    pub present_mode: i32,
    pub extent: Extent2D,
    pub image_count: u32,
}

/// Why no swapchain settings could be chosen.
#[derive(Clone, Copy, Debug, PartialEq, Eq, Structural)]
pub enum SwapchainError {
    /// The surface reports no pixel format at all.
    NoSurfaceFormat,
    /// The surface asks for `u32::MAX` images with no upper bound, so one more
    /// than the minimum cannot be represented.
    ImageCountOverflow,
}

pub open spec fn preferred_format() -> SurfaceFormat {
    SurfaceFormat { format: FORMAT_B8G8R8A8_SRGB, color_space: COLOR_SPACE_SRGB_NONLINEAR }
}

/// The preferred format if it is offered, else the first one offered.
pub open spec fn selected_format(formats: Seq<SurfaceFormat>) -> SurfaceFormat {
    if formats.contains(preferred_format()) {
        preferred_format()
    } else {
        formats[0]
    }
}

/// Mailbox if it is offered, else FIFO (which every surface supports).
pub open spec fn selected_present_mode(modes: Seq<i32>) -> i32 {
    if modes.contains(PRESENT_MODE_MAILBOX) {
        PRESENT_MODE_MAILBOX
    } else {
        PRESENT_MODE_FIFO
    }
}

/// The reported extent, unless its width is the "undefined" sentinel, in which
/// case the window's own size.
pub open spec fn resolved_extent(reported: Extent2D, window_width: u32, window_height: u32) -> Extent2D {
    if reported.width == u32::MAX {
        Extent2D { width: window_width, height: window_height }
    } else {
        reported
    }
}

/// One image more than the minimum, capped by the maximum where there is one.
pub open spec fn desired_image_count(min_count: u32, max_count: u32) -> int {
    if max_count > 0 && (max_count as int) < min_count + 1 {
        max_count as int
    } else {
        min_count + 1
    }
}

/// Picks the pixel format the swapchain images get.
pub fn choose_surface_format(formats: &Vec<SurfaceFormat>) -> (r: SurfaceFormat)
    requires
        formats@.len() > 0,
    ensures
        r == selected_format(formats@),
{
    let mut i: usize = 0;
    while i < formats.len()
        invariant
            0 <= i <= formats@.len(),
            forall|j: int| 0 <= j < i ==> formats@[j] != preferred_format(),
        decreases formats@.len() - i,
    {
        let f = formats[i];
        if f.format == FORMAT_B8G8R8A8_SRGB && f.color_space == COLOR_SPACE_SRGB_NONLINEAR {
            assert(formats@.contains(preferred_format())) by {
                assert(formats@[i as int] == preferred_format());
            }
            return f;
        }
        i += 1;
    }
    formats[0]
}

/// Picks how finished images are handed to the display.
pub fn choose_present_mode(modes: &Vec<i32>) -> (r: i32)
    ensures
        r == selected_present_mode(modes@),
{
    let mut i: usize = 0;
    while i < modes.len()
        invariant
            0 <= i <= modes@.len(),
            forall|j: int| 0 <= j < i ==> modes@[j] != PRESENT_MODE_MAILBOX,
        decreases modes@.len() - i,
    {
        if modes[i] == PRESENT_MODE_MAILBOX {
            assert(modes@.contains(PRESENT_MODE_MAILBOX)) by {
                assert(modes@[i as int] == PRESENT_MODE_MAILBOX);
            }
            return PRESENT_MODE_MAILBOX;
        }
        i += 1;
    }
    PRESENT_MODE_FIFO
}

/// Picks the size of the swapchain images.
pub fn choose_extent(reported: Extent2D, window_width: u32, window_height: u32) -> (r: Extent2D)
    ensures
        r == resolved_extent(reported, window_width, window_height),
{
    if reported.width == u32::MAX {
        Extent2D { width: window_width, height: window_height }
    } else {
        reported
    }
}

/// Picks how many images the swapchain asks for; `None` when that number does
/// not fit in a `u32`.
pub fn choose_image_count(capabilities: &SurfaceCapabilities) -> (r: Option<u32>)
    ensures
        r matches Some(n) ==> n == desired_image_count(
            capabilities.min_image_count,
            capabilities.max_image_count,
        ),
        r is None <==> desired_image_count(
            capabilities.min_image_count,
            capabilities.max_image_count,
        ) > u32::MAX,
{
    let min_count = capabilities.min_image_count;
    let max_count = capabilities.max_image_count;
    if max_count > 0 && max_count <= min_count {
        Some(max_count)
    } else if min_count == u32::MAX {
        None
    } else {
        Some(min_count + 1)
    }
}

/// Chooses every setting of the swapchain from what the surface reports and
/// the window's size in pixels.
pub fn plan_swapchain(support: &SwapchainSupportDetails, window_width: u32, window_height: u32) -> (r:
    Result<SwapchainPlan, SwapchainError>)
    ensures
        r is Ok <==> (support.formats@.len() > 0 && desired_image_count(
            support.capabilities.min_image_count,
            support.capabilities.max_image_count,
        ) <= u32::MAX),
        support.formats@.len() == 0 ==> r == Err::<SwapchainPlan, SwapchainError>(
            SwapchainError::NoSurfaceFormat,
        ),
        support.formats@.len() > 0 && desired_image_count(
            support.capabilities.min_image_count,
            support.capabilities.max_image_count,
        ) > u32::MAX ==> r == Err::<SwapchainPlan, SwapchainError>(
            SwapchainError::ImageCountOverflow,
        ),
        r matches Ok(plan) ==> {
            &&& support.formats@.len() > 0
            &&& plan.surface_format == selected_format(support.formats@)
            &&& plan.present_mode == selected_present_mode(support.present_modes@)
            &&& plan.extent == resolved_extent(
                support.capabilities.current_extent,
                window_width,
                window_height,
            )
            &&& plan.image_count == desired_image_count(
                support.capabilities.min_image_count,
                support.capabilities.max_image_count,
            )
        },
{
    if support.formats.len() == 0 {
        return Err(SwapchainError::NoSurfaceFormat);
    }
    let image_count = match choose_image_count(&support.capabilities) {
        Some(n) => n,
        None => {
            return Err(SwapchainError::ImageCountOverflow);
        },
    };
    Ok(
        SwapchainPlan {
            surface_format: choose_surface_format(&support.formats),
            present_mode: choose_present_mode(&support.present_modes),
            extent: choose_extent(
                support.capabilities.current_extent,
                window_width,
                window_height,
            ),
            image_count,
        },
    )
}

/// The swapchain's images, each with the view it is rendered through: the
/// view at position `i` belongs to the image at position `i`.
pub struct SwapchainImages<I, V> {
    pub images: Vec<I>,
    pub image_views: Vec<V>,
}

impl<I, V> SwapchainImages<I, V> {
    pub open spec fn wf(&self) -> bool {
        self.images@.len() == self.image_views@.len()
    }

    /// Takes the swapchain's images and creates one view of each.
    /// `make_view(image, format)` creates a view of `image` in `format`.
    pub fn new<M: Fn(&I, i32) -> V>(images: Vec<I>, format: i32, make_view: M) -> (r:
        SwapchainImages<I, V>)
        requires
            forall|i: int| 0 <= i < images@.len() ==> make_view.requires((&images@[i], format)),
        ensures
            r.wf(),
            r.images@ == images@,
            forall|i: int|
                0 <= i < images@.len() ==> make_view.ensures(
                    (&images@[i], format),
                    #[trigger] r.image_views@[i],
                ),
    {
        let mut image_views: Vec<V> = Vec::new();
        let mut i: usize = 0;
        while i < images.len()
            invariant
                0 <= i <= images@.len(),
                image_views@.len() == i,
                forall|j: int| 0 <= j < images@.len() ==> make_view.requires((&images@[j], format)),
                forall|j: int|
                    0 <= j < i ==> make_view.ensures((&images@[j], format), #[trigger] image_views@[j]),
            decreases images@.len() - i,
        {
            let view = make_view(&images[i], format);
            image_views.push(view);
            i += 1;
        }
        SwapchainImages { images, image_views }
    }

    /// The number of images.
    pub fn len(&self) -> (r: usize)
        requires
            self.wf(),
        ensures
            r == self.images@.len(),
            r == self.image_views@.len(),
    {
        self.images.len()
    }
}

/// Format selection returns the preferred 8-bit BGRA / sRGB pair whenever it is
/// offered, and otherwise the first format in the order reported.
pub proof fn lemma_format_selection(formats: Seq<SurfaceFormat>)
    requires
        formats.len() > 0,
    ensures
        formats.contains(preferred_format()) ==> selected_format(formats) == preferred_format(),
        !formats.contains(preferred_format()) ==> selected_format(formats) == formats[0],
{
}

/// Present-mode selection returns mailbox whenever it is offered, and FIFO
/// otherwise, whatever else the list holds.
pub proof fn lemma_present_mode_selection(modes: Seq<i32>)
    ensures
        modes.contains(PRESENT_MODE_MAILBOX) ==> selected_present_mode(modes)
            == PRESENT_MODE_MAILBOX,
        !modes.contains(PRESENT_MODE_MAILBOX) ==> selected_present_mode(modes) == PRESENT_MODE_FIFO,
{
}

/// An "undefined" reported extent resolves to the window's size; any other
/// reported extent is kept unchanged.
pub proof fn lemma_extent_resolution(reported: Extent2D, window_width: u32, window_height: u32)
    ensures
        reported.width == u32::MAX ==> resolved_extent(reported, window_width, window_height)
            == (Extent2D { width: window_width, height: window_height }),
        reported.width != u32::MAX ==> resolved_extent(reported, window_width, window_height)
            == reported,
{
}

/// The image count is one more than the minimum, never above an advertised
/// maximum, and never below the minimum when the maximum admits it.
pub proof fn lemma_image_count_bounds(min_count: u32, max_count: u32)
    ensures
        max_count == 0 ==> desired_image_count(min_count, max_count) == min_count + 1,
        max_count > 0 ==> desired_image_count(min_count, max_count) <= max_count,
        max_count > 0 && min_count < max_count ==> desired_image_count(min_count, max_count)
            == min_count + 1,
{
}

} // verus!
