use vstd::prelude::*;

use crate::error::XrError;

verus! {

/// Format code of 8-bit RGBA pixels.
pub const RGBA8: u32 = 0x8058;

/// One of the two viewpoints.
#[derive(Clone, Copy, Debug, PartialEq, Eq, Structural)]
pub enum Eye {
    Left,
    Right,
}

/// Width and height of a swapchain image, in pixels.
#[derive(Clone, Copy, Debug, PartialEq, Eq, Structural)]
pub struct Resolution {
    pub width: u32,
    pub height: u32,
}

/// The abstract value of one eye's swapchain.
pub struct SwapchainView {
    pub format: u32,
    pub resolution: Resolution,
    /// The runtime's image handles, in pool order.
    pub images: Seq<u64>,
    /// Position of the image that the next acquire hands out.
    pub next: int,
    /// Position of the image acquired and not yet released.
    pub acquired: Option<int>,
    /// Whether the acquired image has been waited on.
    pub waited: bool,
}

impl SwapchainView {
    pub open spec fn wf(self) -> bool {
        &&& self.images.len() > 0
        &&& 0 <= self.next < self.images.len()
        &&& self.acquired matches Some(i) ==> 0 <= i < self.images.len()
        &&& self.acquired is None ==> !self.waited
    }

    /// A fresh pool: nothing acquired, the first image next.
    pub open spec fn fresh(format: u32, resolution: Resolution, images: Seq<u64>) -> Self {
        SwapchainView { format, resolution, images, next: 0, acquired: None, waited: false }
    }

    /// Acquiring: the next image of the rotation, unless one is held already.
    pub open spec fn acquire_model(self) -> (Self, Result<u64, XrError>) {
        if self.acquired is Some {
            (self, Err(XrError::AlreadyAcquired))
        } else {
            (
                SwapchainView {
                    next: if self.next + 1 == self.images.len() {
                        0
                    } else {
                        self.next + 1
                    },
                    acquired: Some(self.next),
                    waited: false,
                    ..self
                },
                Ok(self.images[self.next]),
            )
        }
    }

    /// Waiting on the held image; `in_time` tells whether the wait completed
    /// before its timeout.
    pub open spec fn wait_model(self, in_time: bool) -> (Self, Result<(), XrError>) {
        if self.acquired is None {
            (self, Err(XrError::NotAcquired))
        } else if !in_time {
            (self, Err(XrError::AcquireTimeout))
        } else {
            (SwapchainView { waited: true, ..self }, Ok(()))
        }
    }

    /// Releasing the held image.
    pub open spec fn release_model(self) -> (Self, Result<(), XrError>) {
        if self.acquired is None {
            (self, Err(XrError::NotAcquired))
        } else {
            (SwapchainView { acquired: None, waited: false, ..self }, Ok(()))
        }
    }
}

/// The abstract value of both eyes' swapchains.
pub struct SwapchainSetView {
    pub left: SwapchainView,
    pub right: SwapchainView,
}

impl SwapchainSetView {
    pub open spec fn eye(self, eye: Eye) -> SwapchainView {
        match eye {
            Eye::Left => self.left,
            Eye::Right => self.right,
        }
    }

    pub open spec fn with_eye(self, eye: Eye, v: SwapchainView) -> Self {
        match eye {
            Eye::Left => SwapchainSetView { left: v, right: self.right },
            Eye::Right => SwapchainSetView { left: self.left, right: v },
        }
    }

    pub open spec fn wf(self) -> bool {
        self.left.wf() && self.right.wf()
    }

    /// Neither eye holds an image.
    pub open spec fn idle(self) -> bool {
        self.left.acquired is None && self.right.acquired is None
    }
}

/// Acquiring an image twice for one eye with no release in between fails the
/// second time with `AlreadyAcquired` and changes nothing.
pub proof fn lemma_acquire_twice(v: SwapchainView)
    requires
        v.wf(),
    ensures
        v.acquire_model().0.acquire_model().1 == Err::<u64, XrError>(XrError::AlreadyAcquired),
        v.acquire_model().0.acquire_model().0 == v.acquire_model().0,
{
}

/// An acquired image is released once: a second release fails with
/// `NotAcquired`, and the pool is again free for the next acquire.
pub proof fn lemma_release_once(v: SwapchainView)
    requires
        v.wf(),
        v.acquired is Some,
    ensures
        v.release_model().1 is Ok,
        v.release_model().0.release_model().1 == Err::<(), XrError>(XrError::NotAcquired),
        v.release_model().0.acquire_model().1 is Ok,
{
}

/// One eye's pool of runtime images.
pub struct Swapchain {
    format: u32,
    resolution: Resolution,
    images: Vec<u64>,
    next: usize,
    acquired: Option<usize>,
    waited: bool,
}

impl View for Swapchain {
    type V = SwapchainView;

    closed spec fn view(&self) -> SwapchainView {
        SwapchainView {
            format: self.format,
            resolution: self.resolution,
            images: self.images@,
            next: self.next as int,
            acquired: match self.acquired {
                Some(i) => Some(i as int),
                None => None,
            },
            waited: self.waited,
        }
    }
}

impl Swapchain {
    fn acquire(&mut self) -> (r: Result<u64, XrError>)
        requires
            old(self)@.wf(),
        ensures
            (final(self)@, r) == old(self)@.acquire_model(),
        no_unwind
    {
        if matches!(self.acquired, Some(_)) {
            return Err(XrError::AlreadyAcquired);
        }
        let i = self.next;
        let handle = self.images[i];
        self.next = if i == self.images.len() - 1 {
            0
        } else {
            i + 1
        };
        self.acquired = Some(i);
        self.waited = false;
        Ok(handle)
    }

    fn wait(&mut self, in_time: bool) -> (r: Result<(), XrError>)
        ensures
            (final(self)@, r) == old(self)@.wait_model(in_time),
        no_unwind
    {
        if matches!(self.acquired, None) {
            Err(XrError::NotAcquired)
        } else if !in_time {
            Err(XrError::AcquireTimeout)
        } else {
            self.waited = true;
            Ok(())
        }
    }

    fn release(&mut self) -> (r: Result<(), XrError>)
        ensures
            (final(self)@, r) == old(self)@.release_model(),
        no_unwind
    {
        if matches!(self.acquired, None) {
            Err(XrError::NotAcquired)
        } else {
            self.acquired = None;
            self.waited = false;
            Ok(())
        }
    }
}

/// The swapchains of both eyes.
pub struct SwapchainSet {
    left: Swapchain,
    right: Swapchain,
}

impl View for SwapchainSet {
    type V = SwapchainSetView;

    closed spec fn view(&self) -> SwapchainSetView {
        SwapchainSetView { left: self.left@, right: self.right@ }
    }
}

/// Picks the pixel format: the first requested format that the runtime
/// supports, or else the runtime's own first choice. `None` only when the
/// runtime supports no format at all.
pub fn negotiate_format(requested: &Vec<u32>, supported: &Vec<u32>) -> (r: Option<u32>)
    ensures
        supported@.len() == 0 <==> r is None,
        r matches Some(f) ==> supported@.contains(f),
        r matches Some(f) ==> (exists|i: int|
            0 <= i < requested@.len() && requested@[i] == f && (forall|k: int|
                0 <= k < i ==> !supported@.contains(#[trigger] requested@[k])))
            || (f == supported@[0] && forall|k: int|
            0 <= k < requested@.len() ==> !supported@.contains(#[trigger] requested@[k])),
{
    if supported.len() == 0 {
        return None;
    }
    let mut i: usize = 0;
    while i < requested.len()
        invariant
            0 <= i <= requested@.len(),
            supported@.len() > 0,
            forall|k: int| 0 <= k < i ==> !supported@.contains(#[trigger] requested@[k]),
        decreases requested@.len() - i,
    {
        let want = requested[i];
        let mut j: usize = 0;
        while j < supported.len()
            invariant
                0 <= j <= supported@.len(),
                i < requested@.len(),
                want == requested@[i as int],
                forall|k: int| 0 <= k < j ==> supported@[k] != want,
                forall|k: int| 0 <= k < i ==> !supported@.contains(#[trigger] requested@[k]),
            decreases supported@.len() - j,
        {
            if supported[j] == want {
                proof {
                    assert(supported@.contains(want));
                    assert(0 <= i < requested@.len() && requested@[i as int] == want);
                }
                return Some(want);
            }
            j = j + 1;
        }
        i = i + 1;
    }
    Some(supported[0])
}

impl SwapchainSet {
    #[verifier::type_invariant]
    pub open spec fn inv(&self) -> bool {
        self@.wf()
    }
    /// Builds both pools from the resolutions, the format and the image
    /// handles that the runtime reported. Fails with `EmptyImagePool` when
    /// the runtime gave an eye no images.
    pub fn create(
        resolution_left: Resolution,
        resolution_right: Resolution,
        format: u32,
        images_left: Vec<u64>,
        images_right: Vec<u64>,
    ) -> (r: Result<SwapchainSet, XrError>)
        ensures
            (images_left@.len() > 0 && images_right@.len() > 0) <==> r is Ok,
            r is Err ==> r == Err::<SwapchainSet, XrError>(XrError::EmptyImagePool),
            r matches Ok(s) ==> s@ == (SwapchainSetView {
                left: SwapchainView::fresh(format, resolution_left, images_left@),
                right: SwapchainView::fresh(format, resolution_right, images_right@),
            }),
            r matches Ok(s) ==> s@.wf() && s@.idle(),
    {
        if images_left.len() == 0 || images_right.len() == 0 {
            return Err(XrError::EmptyImagePool);
        }
        let left = Swapchain {
            format,
            resolution: resolution_left,
            images: images_left,
            next: 0,
            acquired: None,
            waited: false,
        };
        let right = Swapchain {
            format,
            resolution: resolution_right,
            images: images_right,
            next: 0,
            acquired: None,
            waited: false,
        };
        Ok(SwapchainSet { left, right })
    }

    /// Acquires the next image of an eye's pool and returns its handle.
    pub fn acquire_next(&mut self, eye: Eye) -> (r: Result<u64, XrError>)
        ensures
            final(self)@ == old(self)@.with_eye(eye, old(self)@.eye(eye).acquire_model().0),
            r == old(self)@.eye(eye).acquire_model().1,
            final(self)@.wf(),
    {
        proof {
            use_type_invariant(&*self);
        }
        match eye {
            Eye::Left => self.left.acquire(),
            Eye::Right => self.right.acquire(),
        }
    }

    /// Records the outcome of waiting on an eye's acquired image: `in_time`
    /// is false when the wait timed out. A timed-out image stays acquired and
    /// must still be released.
    pub fn wait_image(&mut self, eye: Eye, in_time: bool) -> (r: Result<(), XrError>)
        ensures
            final(self)@ == old(self)@.with_eye(eye, old(self)@.eye(eye).wait_model(in_time).0),
            r == old(self)@.eye(eye).wait_model(in_time).1,
            final(self)@.wf(),
    {
        proof {
            use_type_invariant(&*self);
        }
        match eye {
            Eye::Left => self.left.wait(in_time),
            Eye::Right => self.right.wait(in_time),
        }
    }

    /// Releases an eye's acquired image.
    pub fn release(&mut self, eye: Eye) -> (r: Result<(), XrError>)
        ensures
            final(self)@ == old(self)@.with_eye(eye, old(self)@.eye(eye).release_model().0),
            r == old(self)@.eye(eye).release_model().1,
            final(self)@.wf(),
    {
        proof {
            use_type_invariant(&*self);
        }
        match eye {
            Eye::Left => self.left.release(),
            Eye::Right => self.right.release(),
        }
    }

    /// The position in the pool of the image an eye holds, if any.
    /// Whether neither eye holds an image.
    pub fn is_idle(&self) -> (r: bool)
        ensures
            r == self@.idle(),
    {
        self.left.acquired.is_none() && self.right.acquired.is_none()
    }

    pub fn acquired_index(&self, eye: Eye) -> (r: Option<usize>)
        ensures
            r matches Some(i) ==> self@.eye(eye).acquired == Some(i as int),
            r is None ==> self@.eye(eye).acquired is None,
    {
        match eye {
            Eye::Left => self.left.acquired,
            Eye::Right => self.right.acquired,
        }
    }

    /// The handle of the image at position `i` of an eye's pool.
    pub fn image(&self, eye: Eye, i: usize) -> (r: u64)
        requires
            i < self@.eye(eye).images.len(),
        ensures
            r == self@.eye(eye).images[i as int],
    {
        match eye {
            Eye::Left => self.left.images[i],
            Eye::Right => self.right.images[i],
        }
    }

    pub fn resolution(&self, eye: Eye) -> (r: Resolution)
        ensures
            r == self@.eye(eye).resolution,
    {
        match eye {
            Eye::Left => self.left.resolution,
            Eye::Right => self.right.resolution,
        }
    }

    pub fn format(&self) -> (r: u32)
        ensures
            r == self@.left.format,
    {
        self.left.format
    }

    pub fn image_count(&self, eye: Eye) -> (r: usize)
        ensures
            r == self@.eye(eye).images.len(),
    {
        match eye {
            Eye::Left => self.left.images.len(),
            Eye::Right => self.right.images.len(),
        }
    }
}

} // verus!
