use vstd::prelude::*;

use crate::swapchain::Extent2D;

verus! {

/// One render target per swapchain image, in the order of the image views.
pub struct Framebuffers<T> {
    pub framebuffers: Vec<T>,
}

impl<T> Framebuffers<T> {
    /// Builds one target per colour view. `make(color_view, depth_view, extent)`
    /// creates a target with those two attachments; every target shares the
    /// same depth view.
    pub fn new<V, M: Fn(&V, &V, Extent2D) -> T>(
        image_views: &Vec<V>,
        depth_image_view: &V,
        extent: Extent2D,
        make: M,
    ) -> (r: Framebuffers<T>)
        requires
            forall|i: int|
                0 <= i < image_views@.len() ==> make.requires(
                    (&image_views@[i], depth_image_view, extent),
                ),
        ensures
            r.framebuffers@.len() == image_views@.len(),
            forall|i: int|
                0 <= i < image_views@.len() ==> make.ensures(
                    (&image_views@[i], depth_image_view, extent),
                    #[trigger] r.framebuffers@[i],
                ),
    {
        let mut framebuffers: Vec<T> = Vec::new();
        let mut i: usize = 0;
        while i < image_views.len()
            invariant
                0 <= i <= image_views@.len(),
                framebuffers@.len() == i,
                forall|j: int|
                    0 <= j < image_views@.len() ==> make.requires(
                        (&image_views@[j], depth_image_view, extent),
                    ),
                forall|j: int|
                    0 <= j < i ==> make.ensures(
                        (&image_views@[j], depth_image_view, extent),
                        #[trigger] framebuffers@[j],
                    ),
            decreases image_views@.len() - i,
        {
            let target = make(&image_views[i], depth_image_view, extent);
            framebuffers.push(target);
            i += 1;
        }
        Framebuffers { framebuffers }
    }

    /// The number of targets.
    pub fn len(&self) -> (r: usize)
        ensures
            r == self.framebuffers@.len(),
    {
        self.framebuffers.len()
    }
}

/// The largest number of memory types a device reports (`VK_MAX_MEMORY_TYPES`).
pub const MAX_MEMORY_TYPES: usize = 32;

/// Memory type `i` is allowed by a resource's `type_bits` and has every
/// property flag in `required`.
pub open spec fn memory_type_fits(type_bits: u32, property_flags: u32, i: int, required: u32) -> bool {
    &&& 0 <= i < 32
    &&& (type_bits >> (i as u32)) & 1u32 == 1u32
    &&& property_flags & required == required
}

/// Chooses the first memory type, in the device's order, that the resource
/// allows and that has all `required` properties. `memory_types` holds each
/// type's property flags.
pub fn find_memory_type(type_bits: u32, memory_types: &Vec<u32>, required: u32) -> (r: Option<u32>)
    requires
        memory_types@.len() <= MAX_MEMORY_TYPES,
    ensures
        r matches Some(i) ==> {
            &&& i < memory_types@.len()
            &&& memory_type_fits(type_bits, memory_types@[i as int], i as int, required)
            &&& forall|j: int|
                0 <= j < i ==> !memory_type_fits(type_bits, #[trigger] memory_types@[j], j, required)
        },
        r is None ==> forall|j: int|
            0 <= j < memory_types@.len() ==> !memory_type_fits(
                type_bits,
                #[trigger] memory_types@[j],
                j,
                required,
            ),
{
    let mut i: usize = 0;
    while i < memory_types.len()
        invariant
            0 <= i <= memory_types@.len(),
            memory_types@.len() <= MAX_MEMORY_TYPES,
            forall|j: int|
                0 <= j < i ==> !memory_type_fits(type_bits, #[trigger] memory_types@[j], j, required),
        decreases memory_types@.len() - i,
    {
        let flags = memory_types[i];
        let shift: u32 = i as u32;
        if (type_bits >> shift) & 1u32 == 1u32 && flags & required == required {
            return Some(shift);
        }
        i += 1;
    }
    None
}

} // verus!
