//! The swapchain's images, their views and one framebuffer per view, kept
//! in step.
use vstd::prelude::*;
use crate::surface::Extent2D;

verus! {

/// Why the swapchain's objects were refused; nothing changed.
#[derive(Clone, Copy, Debug, PartialEq, Eq, Structural)]
pub enum SwapchainError {
    /// The number of views or framebuffers differs from the number of images.
    CountMismatch,
    /// The framebuffer of this image could not be created.
    FramebufferCreationFailed { index: usize },
}

/// A swapchain with its images (owned by the swapchain), the views made of
/// them and, once built, a framebuffer per view.
pub struct Swapchain {
    handle: u64,
    format: i32,
    extent: Extent2D,
    images: Vec<u64>,
    image_views: Vec<u64>,
    framebuffers: Vec<u64>,
}

/// Unwraps every framebuffer, or names the first that failed.
fn collect_framebuffers(framebuffers: &Vec<Option<u64>>) -> (r: Result<Vec<u64>, usize>)
    ensures
        r matches Ok(v) ==> v@.len() == framebuffers@.len()
            && forall|i: int| 0 <= i < framebuffers@.len() ==> framebuffers@[i] == Some(#[trigger] v@[i]),
        r matches Err(i) ==> i < framebuffers@.len() && framebuffers@[i as int] is None
            && forall|j: int| 0 <= j < i ==> framebuffers@[j] is Some,
{
    let mut built: Vec<u64> = Vec::with_capacity(framebuffers.len());
    let mut i: usize = 0;
    while i < framebuffers.len()
        invariant
            i <= framebuffers@.len(),
            built@.len() == i,
            forall|j: int| 0 <= j < i ==> framebuffers@[j] == Some(#[trigger] built@[j]),
        decreases framebuffers@.len() - i,
    {
        match framebuffers[i] {
            Some(h) => built.push(h),
            None => {
                proof {
                    assert forall|j: int| 0 <= j < i implies framebuffers@[j] is Some by {
                        assert(framebuffers@[j] == Some(built@[j]));
                    }
                }
                return Err(i);
            },
        }
        i = i + 1;
    }
    Ok(built)
}

impl Swapchain {
    pub closed spec fn wf(&self) -> bool {
        &&& self.image_views@.len() == self.images@.len()
        &&& (self.framebuffers@.len() == 0 || self.framebuffers@.len() == self.images@.len())
    }

    pub closed spec fn spec_handle(&self) -> u64 {
        self.handle
    }

    pub closed spec fn spec_format(&self) -> i32 {
        self.format
    }

    pub closed spec fn spec_extent(&self) -> Extent2D {
        self.extent
    }

    pub closed spec fn spec_images(&self) -> Seq<u64> {
        self.images@
    }

    pub closed spec fn spec_image_views(&self) -> Seq<u64> {
        self.image_views@
    }

    pub closed spec fn spec_framebuffers(&self) -> Seq<u64> {
        self.framebuffers@
    }

    /// Every image has its view and its framebuffer.
    pub open spec fn complete(&self) -> bool {
        &&& self.spec_image_views().len() == self.spec_images().len()
        &&& self.spec_framebuffers().len() == self.spec_images().len()
    }

    /// Takes a new swapchain with its images and the view made of each.
    pub fn new(handle: u64, format: i32, extent: Extent2D, images: Vec<u64>, image_views: Vec<u64>) -> (r: Result<Swapchain, SwapchainError>)
        ensures
            r is Err <==> image_views@.len() != images@.len(),
            r is Err ==> r == Err::<Swapchain, SwapchainError>(SwapchainError::CountMismatch),
            r matches Ok(s) ==> {
                &&& s.wf()
                &&& s.spec_handle() == handle
                &&& s.spec_format() == format
                &&& s.spec_extent() == extent
                &&& s.spec_images() == images@
                &&& s.spec_image_views() == image_views@
                &&& s.spec_framebuffers() == Seq::<u64>::empty()
            },
    {
        if images.len() != image_views.len() {
            return Err(SwapchainError::CountMismatch);
        }
        Ok(Swapchain { handle, format, extent, images, image_views, framebuffers: Vec::new() })
    }

    /// Takes the outcome of creating one framebuffer per view: all of them,
    /// or none when any failed or the count is wrong.
    pub fn create_framebuffers(&mut self, framebuffers: Vec<Option<u64>>) -> (r: Result<(), SwapchainError>)
        requires
            old(self).wf(),
        ensures
            final(self).wf(),
            r == Err::<(), SwapchainError>(SwapchainError::CountMismatch) <==> framebuffers@.len() != old(self).spec_images().len(),
            framebuffers@.len() == old(self).spec_images().len() ==> (r is Ok <==> forall|i: int|
                0 <= i < framebuffers@.len() ==> #[trigger] framebuffers@[i] is Some),
            r matches Err(SwapchainError::FramebufferCreationFailed { index }) ==> {
                &&& index < framebuffers@.len()
                &&& framebuffers@[index as int] is None
                &&& forall|j: int| 0 <= j < index ==> framebuffers@[j] is Some
            },
            r is Err ==> *final(self) == *old(self),
            r is Ok ==> final(self).complete() && forall|i: int| 0 <= i < framebuffers@.len()
                ==> framebuffers@[i] == Some(#[trigger] final(self).spec_framebuffers()[i]),
            final(self).spec_handle() == old(self).spec_handle(),
            final(self).spec_format() == old(self).spec_format(),
            final(self).spec_extent() == old(self).spec_extent(),
            final(self).spec_images() == old(self).spec_images(),
            final(self).spec_image_views() == old(self).spec_image_views(),
    {
        if framebuffers.len() != self.images.len() {
            return Err(SwapchainError::CountMismatch);
        }
        match collect_framebuffers(&framebuffers) {
            Ok(built) => {
                proof {
                    assert forall|i: int| 0 <= i < framebuffers@.len() implies #[trigger] framebuffers@[i] is Some by {
                        assert(framebuffers@[i] == Some(built@[i]));
                    }
                }
                self.framebuffers = built;
                Ok(())
            },
            Err(index) => Err(SwapchainError::FramebufferCreationFailed { index }),
        }
    }

    pub fn handle(&self) -> (r: u64)
        ensures
            r == self.spec_handle(),
    {
        self.handle
    }

    pub fn format(&self) -> (r: i32)
        ensures
            r == self.spec_format(),
    {
        self.format
    }

    pub fn extent(&self) -> (r: Extent2D)
        ensures
            r == self.spec_extent(),
    {
        self.extent
    }

    pub fn image_count(&self) -> (r: usize)
        ensures
            r == self.spec_images().len(),
    {
        self.images.len()
    }

    pub fn image_view(&self, i: usize) -> (r: u64)
        requires
            self.wf(),
            i < self.spec_images().len(),
        ensures
            r == self.spec_image_views()[i as int],
    {
        self.image_views[i]
    }

    /// The framebuffer of image `i`, once framebuffers are built.
    pub fn framebuffer(&self, i: usize) -> (r: Option<u64>)
        ensures
            r is Some <==> i < self.spec_framebuffers().len(),
            r matches Some(h) ==> h == self.spec_framebuffers()[i as int],
    {
        if i < self.framebuffers.len() {
            Some(self.framebuffers[i])
        } else {
            None
        }
    }
}

} // verus!
