//! The presentable image chain: image-count and extent negotiation, the
//! rotating acquire slot, and the present request.
use vstd::prelude::*;

verus! {

/// Width and height in pixels.
#[derive(Clone, Copy, Debug, PartialEq, Eq, Structural)]
pub struct Extent2D {
    pub width: u32,
    pub height: u32,
}

/// What the surface reports about the images it can present.
#[derive(Clone, Copy, Debug, PartialEq, Eq, Structural)]
pub struct SurfaceCapabilities {
    pub min_image_count: u32,
    /// Zero means that the surface sets no maximum.
    pub max_image_count: u32,
    /// A width of `u32::MAX` means that the surface leaves the extent to the swapchain.
    pub current_extent: Extent2D,
}

/// What the caller asks of a swapchain.
#[derive(Clone, Copy, Debug, PartialEq, Eq, Structural)]
pub struct SwapchainDesc {
    pub dims: Extent2D,
}

/// How presented images reach the screen.
#[derive(Clone, Copy, Debug, PartialEq, Eq, Structural)]
pub enum PresentMode {
    /// No wait for vertical blank: lowest latency, tearing possible.
    Immediate,
}

/// The parameters of the swapchain to create on a surface.
#[derive(Clone, Copy, Debug, PartialEq, Eq, Structural)]
pub struct SwapchainCreateInfo {
    pub min_image_count: u32,
    pub image_extent: Extent2D,
    pub present_mode: PresentMode,
}

/// One presentable image and the view that renders into it.
#[derive(Clone, Copy, Debug, PartialEq, Eq, Structural)]
pub struct Image {
    pub raw: u64,
    pub view: u64,
}

/// An acquired image that has not been presented yet, with the semaphores of
/// its slot.
#[derive(Debug, PartialEq, Eq, Structural)]
pub struct SwapchainImage {
    pub image: Image,
    pub index: u32,
    /// Signalled when rendering into the image is complete; present waits on it.
    pub rendering_finished_semaphore: u64,
    /// Signalled by the presentation engine when the image may be written.
    pub acquire_semaphore: u64,
}

/// Why no image could be acquired.
#[derive(Clone, Copy, Debug, PartialEq, Eq, Structural)]
pub enum SwapchainAcquireImageErr {
    /// The swapchain no longer matches the surface and must be rebuilt.
    RecreateFramebuffer,
}

/// What the driver answered to an acquire request. Every other answer is fatal
/// and never reaches the swapchain.
#[derive(Clone, Copy, Debug, PartialEq, Eq, Structural)]
pub enum AcquireOutcome {
    Acquired(u32),
    OutOfDate,
    Suboptimal,
}

/// What to hand the driver to present an image.
#[derive(Clone, Copy, Debug, PartialEq, Eq, Structural)]
pub struct PresentInfo {
    pub swapchain: u64,
    pub image_index: u32,
    pub wait_semaphore: u64,
}

/// The extent reported when the surface leaves the choice to the swapchain.
pub const UNDEFINED_EXTENT: u32 = 0xFFFF_FFFF;

/// The number of images the core asks for when the surface allows it.
pub const PREFERRED_IMAGE_COUNT: u32 = 3;

pub open spec fn spec_desired_image_count(caps: SurfaceCapabilities) -> u32 {
    let wanted = if caps.min_image_count > PREFERRED_IMAGE_COUNT {
        caps.min_image_count
    } else {
        PREFERRED_IMAGE_COUNT
    };
    if caps.max_image_count != 0 && wanted > caps.max_image_count {
        caps.max_image_count
    } else {
        wanted
    }
}

pub open spec fn spec_resolve_extent(caps: SurfaceCapabilities, desc: SwapchainDesc) -> Extent2D {
    if caps.current_extent.width == UNDEFINED_EXTENT {
        desc.dims
    } else {
        caps.current_extent
    }
}

/// `max(3, min_image_count)`, capped at `max_image_count` where that is not zero.
pub fn desired_image_count(caps: &SurfaceCapabilities) -> (r: u32)
    ensures
        r == spec_desired_image_count(*caps),
{
    let mut wanted: u32 = PREFERRED_IMAGE_COUNT;
    if caps.min_image_count > wanted {
        wanted = caps.min_image_count;
    }
    if caps.max_image_count != 0 && wanted > caps.max_image_count {
        wanted = caps.max_image_count;
    }
    wanted
}

/// The surface's current extent, or the caller's dimensions where the surface
/// leaves the extent open.
pub fn resolve_extent(caps: &SurfaceCapabilities, desc: &SwapchainDesc) -> (r: Extent2D)
    ensures
        r == spec_resolve_extent(*caps, *desc),
{
    if caps.current_extent.width == UNDEFINED_EXTENT {
        desc.dims
    } else {
        caps.current_extent
    }
}

/// The slot that the acquire after the one at `next` uses, out of `count`.
pub open spec fn rotate(next: nat, count: nat) -> nat
    recommends
        count > 0,
{
    ((next as int + 1) % (count as int)) as nat
}

/// The slot reached after `steps` acquires from `start`.
pub open spec fn rotate_n(start: nat, steps: nat, count: nat) -> nat
    decreases steps,
{
    if steps == 0 {
        start
    } else {
        rotate(rotate_n(start, (steps - 1) as nat, count), count)
    }
}

/// The image chain with one acquire semaphore and one render-finished
/// semaphore per image, and the slot that the next acquire uses.
pub struct Swapchain {
    pub raw: u64,
    pub acquire_semaphores: Vec<u64>,
    pub rendering_finished_semaphores: Vec<u64>,
    pub images: Vec<Image>,
    pub next_semaphore: usize,
    pub desc: SwapchainDesc,
}

impl Swapchain {
    /// One semaphore of each kind per image, at least one image, and the
    /// rotating slot among them.
    pub open spec fn wf(&self) -> bool {
        &&& self.images@.len() > 0
        &&& self.acquire_semaphores@.len() == self.images@.len()
        &&& self.rendering_finished_semaphores@.len() == self.images@.len()
        &&& self.next_semaphore < self.images@.len()
    }

    pub open spec fn image_count(&self) -> nat {
        self.images@.len()
    }

    /// The parameters of the swapchain to create: the desired image count,
    /// the resolved extent, immediate presentation.
    pub fn create_info(caps: &SurfaceCapabilities, desc: &SwapchainDesc) -> (r: SwapchainCreateInfo)
        ensures
            r.min_image_count == spec_desired_image_count(*caps),
            r.image_extent == spec_resolve_extent(*caps, *desc),
            r.present_mode == PresentMode::Immediate,
    {
        SwapchainCreateInfo {
            min_image_count: desired_image_count(caps),
            image_extent: resolve_extent(caps, desc),
            present_mode: PresentMode::Immediate,
        }
    }

    /// Assembles the chain from the images that the driver created and the
    /// semaphores made for them; the first acquire uses slot zero. `desc`
    /// holds the extent the images were created with.
    pub fn new(
        raw: u64,
        desc: SwapchainDesc,
        images: Vec<Image>,
        acquire_semaphores: Vec<u64>,
        rendering_finished_semaphores: Vec<u64>,
    ) -> (r: Swapchain)
        requires
            images@.len() > 0,
            acquire_semaphores@.len() == images@.len(),
            rendering_finished_semaphores@.len() == images@.len(),
        ensures
            r.wf(),
            r.raw == raw,
            r.desc == desc,
            r.images@ == images@,
            r.acquire_semaphores@ == acquire_semaphores@,
            r.rendering_finished_semaphores@ == rendering_finished_semaphores@,
            r.next_semaphore == 0,
    {
        Swapchain {
            raw,
            acquire_semaphores,
            rendering_finished_semaphores,
            images,
            next_semaphore: 0,
            desc,
        }
    }

    /// The semaphore that the driver must signal for the next acquire.
    pub fn next_acquire_semaphore(&self) -> (r: u64)
        requires
            self.wf(),
        ensures
            r == self.acquire_semaphores@[self.next_semaphore as int],
    {
        self.acquire_semaphores[self.next_semaphore]
    }

    /// Takes the driver's answer to an acquire made with
    /// `next_acquire_semaphore`. An acquired index must be the rotating slot.
    /// On success the image of that slot comes back with the slot's
    /// semaphores, and the rotation advances by one modulo the image count.
    /// An out-of-date or suboptimal swapchain asks for a rebuild and leaves
    /// the rotation where it was.
    pub fn acquire_next_image(&mut self, outcome: AcquireOutcome) -> (r: Result<
        SwapchainImage,
        SwapchainAcquireImageErr,
    >)
        requires
            old(self).wf(),
            outcome matches AcquireOutcome::Acquired(i) ==> i == old(self).next_semaphore,
        ensures
            final(self).wf(),
            final(self).raw == old(self).raw,
            final(self).desc == old(self).desc,
            final(self).images@ == old(self).images@,
            final(self).acquire_semaphores@ == old(self).acquire_semaphores@,
            final(self).rendering_finished_semaphores@ == old(self).rendering_finished_semaphores@,
            match outcome {
                AcquireOutcome::Acquired(_) => {
                    let n = old(self).next_semaphore as int;
                    &&& r matches Ok(img)
                    &&& img.index == n
                    &&& img.image == old(self).images@[n]
                    &&& img.acquire_semaphore == old(self).acquire_semaphores@[n]
                    &&& img.rendering_finished_semaphore
                        == old(self).rendering_finished_semaphores@[n]
                    &&& final(self).next_semaphore == rotate(
                        old(self).next_semaphore as nat,
                        old(self).image_count(),
                    )
                },
                _ => {
                    &&& r == Err::<SwapchainImage, _>(SwapchainAcquireImageErr::RecreateFramebuffer)
                    &&& final(self).next_semaphore == old(self).next_semaphore
                },
            },
    {
        match outcome {
            AcquireOutcome::Acquired(index) => {
                let slot = self.next_semaphore;
                let acquire_semaphore = self.acquire_semaphores[slot];
                let rendering_finished_semaphore = self.rendering_finished_semaphores[slot];
                let image = self.images[slot];
                let count = self.images.len();
                self.next_semaphore = (slot + 1) % count;
                Ok(SwapchainImage { image, index, rendering_finished_semaphore, acquire_semaphore })
            },
            AcquireOutcome::OutOfDate | AcquireOutcome::Suboptimal => {
                Err(SwapchainAcquireImageErr::RecreateFramebuffer)
            },
        }
    }

    /// The present request for an acquired image: it waits on the image's
    /// render-finished semaphore.
    pub fn present_image(&self, image: SwapchainImage) -> (r: PresentInfo)
        ensures
            r.swapchain == self.raw,
            r.image_index == image.index,
            r.wait_semaphore == image.rendering_finished_semaphore,
    {
        PresentInfo {
            swapchain: self.raw,
            image_index: image.index,
            wait_semaphore: image.rendering_finished_semaphore,
        }
    }
}

/// Slot `s` is returned by one of the first `count` acquires from `start`.
pub open spec fn reached_within(start: nat, count: nat, s: nat) -> bool {
    exists|i: nat| i < count && #[trigger] rotate_n(start, i, count) == s
}

/// `steps` acquires from slot `start` end at `(start + steps) % count`.
pub proof fn lemma_rotate_n(start: nat, steps: nat, count: nat)
    requires
        count > 0,
        start < count,
    ensures
        rotate_n(start, steps, count) == (start as int + steps as int) % (count as int),
    decreases steps,
{
    if steps > 0 {
        lemma_rotate_n(start, (steps - 1) as nat, count);
        let c = count as int;
        let m = start as int + steps as int - 1;
        assert(((m % c) + 1) % c == (m + 1) % c) by {
            vstd::arithmetic::div_mod::lemma_add_mod_noop_right(1, m, c);
        }
    } else {
        vstd::arithmetic::div_mod::lemma_small_mod(start, count);
    }
}

/// Acquisition is a bijection over the slots: from any slot, the first
/// `count` acquires return pairwise different slots, and every slot below
/// `count` is among them.
pub proof fn lemma_rotation_is_bijection(start: nat, count: nat)
    requires
        count > 0,
        start < count,
    ensures
        forall|i: nat, j: nat|
            i < count && j < count && i != j ==> #[trigger] rotate_n(start, i, count)
                != #[trigger] rotate_n(start, j, count),
        forall|s: nat| s < count ==> #[trigger] reached_within(start, count, s),
{
    assert forall|i: nat, j: nat|
        i < count && j < count && i != j implies #[trigger] rotate_n(start, i, count)
            != #[trigger] rotate_n(start, j, count) by {
        lemma_rotate_n(start, i, count);
        lemma_rotate_n(start, j, count);
        lemma_distinct_mod(start, i, j, count);
    }
    assert forall|s: nat| s < count implies #[trigger] reached_within(start, count, s) by {
        let i: nat = if s >= start { (s - start) as nat } else { (s + count - start) as nat };
        lemma_rotate_n(start, i, count);
        if s >= start {
            vstd::arithmetic::div_mod::lemma_small_mod(s, count);
        } else {
            vstd::arithmetic::div_mod::lemma_mod_add_multiples_vanish(s as int, count as int);
            vstd::arithmetic::div_mod::lemma_small_mod(s, count);
        }
        assert(rotate_n(start, i, count) == s);
    }
}

proof fn lemma_distinct_mod(start: nat, i: nat, j: nat, count: nat)
    requires
        count > 0,
        start < count,
        i < count,
        j < count,
        i != j,
    ensures
        (start as int + i as int) % (count as int) != (start as int + j as int) % (count as int),
{
    let c = count as int;
    let a = start as int + i as int;
    let b = start as int + j as int;
    assert(0 <= a < 2 * c);
    assert(0 <= b < 2 * c);
    if a < c {
        vstd::arithmetic::div_mod::lemma_small_mod(a as nat, count);
    } else {
        vstd::arithmetic::div_mod::lemma_mod_sub_multiples_vanish(a, c);
        vstd::arithmetic::div_mod::lemma_small_mod((a - c) as nat, count);
    }
    if b < c {
        vstd::arithmetic::div_mod::lemma_small_mod(b as nat, count);
    } else {
        vstd::arithmetic::div_mod::lemma_mod_sub_multiples_vanish(b, c);
        vstd::arithmetic::div_mod::lemma_small_mod((b - c) as nat, count);
    }
}

/// The slots returned by `count` successful acquires in a row, each one
/// advancing the rotation as `acquire_next_image` does, are pairwise
/// different and cover every slot below `count`: no slot comes back before
/// every other slot has come once.
pub proof fn lemma_consecutive_acquires_are_a_permutation(indices: Seq<nat>, count: nat)
    requires
        count > 0,
        indices.len() == count,
        indices[0] < count,
        forall|j: int| 0 <= j < count - 1 ==> #[trigger] indices[j + 1] == rotate(indices[j], count),
    ensures
        forall|i: int, j: int|
            0 <= i < count && 0 <= j < count && i != j ==> #[trigger] indices[i] != #[trigger] indices[j],
        forall|s: nat| s < count ==> #[trigger] indices.contains(s),
{
    let start = indices[0];
    assert forall|j: int| 0 <= j < count implies #[trigger] indices[j] == rotate_n(start, j as nat, count) by {
        lemma_indices_follow_rotation(indices, count, j);
    }
    lemma_rotation_is_bijection(start, count);
    assert forall|i: int, j: int|
        0 <= i < count && 0 <= j < count && i != j implies #[trigger] indices[i] != #[trigger] indices[j] by {
        assert(rotate_n(start, i as nat, count) != rotate_n(start, j as nat, count));
    }
    assert forall|s: nat| s < count implies #[trigger] indices.contains(s) by {
        assert(reached_within(start, count, s));
        let i = choose|i: nat| i < count && #[trigger] rotate_n(start, i, count) == s;
        assert(indices[i as int] == s);
    }
}

proof fn lemma_indices_follow_rotation(indices: Seq<nat>, count: nat, j: int)
    requires
        count > 0,
        indices.len() == count,
        forall|k: int| 0 <= k < count - 1 ==> #[trigger] indices[k + 1] == rotate(indices[k], count),
        0 <= j < count,
    ensures
        indices[j] == rotate_n(indices[0], j as nat, count),
    decreases j,
{
    if j > 0 {
        lemma_indices_follow_rotation(indices, count, j - 1);
        assert(indices[(j - 1) + 1] == rotate(indices[j - 1], count));
    }
}

} // verus!
