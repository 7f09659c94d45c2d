//! Bookkeeping of the objects that exist once per swapchain image.
//!
//! Handles are the raw 64-bit values of the device objects; the table only
//! records them, creating and destroying the objects is the caller's part.
use vstd::prelude::*;

verus! {

/// The objects that belong to one swapchain image.
#[derive(Clone, Copy, Debug, PartialEq, Eq, Structural)]
pub struct ImageResources {
    pub image_view: u64,
    pub framebuffer: u64,
    pub command_pool: u64,
    pub command_buffer: u64,
    pub uniform_buffer: u64,
    pub uniform_memory: u64,
    pub descriptor_set: u64,
}

/// What a frame writes for one image: its uniform buffer's memory and its
/// command buffer, with the pool that buffer comes from.
#[derive(Clone, Copy, Debug, PartialEq, Eq, Structural)]
pub struct WritableHandles {
    pub uniform_memory: u64,
    pub command_pool: u64,
    pub command_buffer: u64,
}

/// How many descriptors of each kind, and how many sets, the descriptor pool
/// must hold: one uniform buffer and one combined image sampler per set, one
/// set per swapchain image.
#[derive(Clone, Copy, Debug, PartialEq, Eq, Structural)]
pub struct DescriptorPoolSizes {
    pub uniform_buffers: u32,
    pub samplers: u32,
    pub max_sets: u32,
}

pub fn descriptor_pool_sizes(image_count: usize) -> (r: DescriptorPoolSizes)
    requires
        image_count <= u32::MAX,
    ensures
        r.uniform_buffers == image_count,
        r.samplers == image_count,
        r.max_sets == image_count,
{
    let n = image_count as u32;
    DescriptorPoolSizes { uniform_buffers: n, samplers: n, max_sets: n }
}

/// The per-image objects of the current swapchain, by image index.
pub struct FrameResources {
    images: Vec<ImageResources>,
}

impl View for FrameResources {
    type V = Seq<ImageResources>;

    closed spec fn view(&self) -> Seq<ImageResources> {
        self.images@
    }
}

impl FrameResources {
    pub fn new() -> (r: Self)
        ensures
            r@ == Seq::<ImageResources>::empty(),
    {
        FrameResources { images: Vec::new() }
    }

    pub fn len(&self) -> (r: usize)
        ensures
            r == self@.len(),
    {
        self.images.len()
    }

    /// Records the objects of the next image index.
    pub fn add(&mut self, r: ImageResources)
        ensures
            final(self)@ == old(self)@.push(r),
    {
        self.images.push(r);
    }

    /// Whether there are objects for exactly `image_count` images.
    pub fn is_complete(&self, image_count: usize) -> (r: bool)
        ensures
            r == (self@.len() == image_count),
    {
        self.images.len() == image_count
    }

    /// Every object recorded for image `image`; `None` for an index the
    /// table has no objects for.
    pub fn get(&self, image: usize) -> (r: Option<ImageResources>)
        ensures
            image >= self@.len() ==> r is None,
            image < self@.len() ==> r == Some(self@[image as int]),
    {
        if image < self.images.len() {
            Some(self.images[image])
        } else {
            None
        }
    }

    /// The handles a frame writes for image `image`; `None` for an index
    /// the table has no objects for.
    pub fn acquire_for_index(&self, image: usize) -> (r: Option<WritableHandles>)
        ensures
            image >= self@.len() ==> r is None,
            image < self@.len() ==> r == Some(
                WritableHandles {
                    uniform_memory: self@[image as int].uniform_memory,
                    command_pool: self@[image as int].command_pool,
                    command_buffer: self@[image as int].command_buffer,
                },
            ),
    {
        if image < self.images.len() {
            let r = &self.images[image];
            Some(
                WritableHandles {
                    uniform_memory: r.uniform_memory,
                    command_pool: r.command_pool,
                    command_buffer: r.command_buffer,
                },
            )
        } else {
            None
        }
    }

    /// Empties the table and hands back every image's objects, the last
    /// recorded first, so that they are destroyed in reverse order of
    /// creation.
    pub fn destroy_all(&mut self) -> (r: Vec<ImageResources>)
        ensures
            final(self)@ == Seq::<ImageResources>::empty(),
            r@.len() == old(self)@.len(),
            forall|k: int|
                0 <= k < r@.len() ==> #[trigger] r@[k] == old(self)@[old(self)@.len() - 1 - k],
    {
        let mut r: Vec<ImageResources> = Vec::new();
        while self.images.len() > 0
            invariant
                r@.len() + self.images@.len() == old(self)@.len(),
                self.images@ == old(self)@.take(self.images@.len() as int),
                forall|k: int|
                    0 <= k < r@.len() ==> #[trigger] r@[k] == old(self)@[old(self)@.len() - 1 - k],
            decreases self.images@.len(),
        {
            let x = self.images.pop().unwrap();
            r.push(x);
        }
        assert(self.images@ =~= Seq::<ImageResources>::empty());
        r
    }
}

} // verus!
