//! The images that are shown on a surface, one after the other.
//!
//! A swapchain goes stale when its surface changes, on a resize or when
//! fullscreen is toggled. The driver then says so where an image is acquired
//! or presented, and the answer to that is a new swapchain and a new
//! submission. The stale one stays until no work on the device uses an image
//! of it.

use vstd::prelude::*;
use vstd::pervasive::unreached;
use crate::error::check_errors;
use crate::error::meaning;
use crate::error::read_result;
use crate::error::Error;
use crate::error::OomError;
use crate::error::Success;
use crate::sync::chain::Chain;
use crate::sync::future::FutureNode;
use crate::VulkanObject;

verus! {

/// How the images are queued for the screen.
#[derive(Clone, Copy, Debug, PartialEq, Eq, Structural)]
pub enum PresentMode {
    Immediate,
    Mailbox,
    Fifo,
    Relaxed,
}

/// Who decides whether the swapchain has the screen to itself.
#[derive(Clone, Copy, Debug, PartialEq, Eq, Structural)]
pub enum FullscreenExclusive {
    /// The driver decides.
    Allowed,
    /// Never.
    Disallowed,
    /// The application asks for it, and gives it up.
    ExplicitAcquire,
}

/// What the contracts say of a swapchain.
pub struct SwapchainView {
    /// The driver's handle to the swapchain.
    pub handle: u64,
    /// The keys of the images, by their index.
    pub images: Seq<u64>,
    /// The width and height of the images.
    pub dimensions: [u32; 2],
    /// How the images are queued for the screen.
    pub present_mode: PresentMode,
    /// Who decides whether the swapchain has the screen to itself.
    pub fullscreen_exclusive: FullscreenExclusive,
}

impl SwapchainView {
    /// Whether no work of `chain` that is not over uses an image of the
    /// swapchain.
    pub open spec fn unused_by(&self, chain: Chain) -> bool {
        forall|i: int| 0 <= i < self.images.len() ==> !chain.in_use().contains(self.images[i])
    }
}

/// The images that are shown on a surface, one after the other.
#[derive(Debug)]
pub struct Swapchain {
    swapchain: u64,
    images: Vec<u64>,
    dimensions: [u32; 2],
    present_mode: PresentMode,
    fullscreen_exclusive: FullscreenExclusive,
}

impl View for Swapchain {
    type V = SwapchainView;

    closed spec fn view(&self) -> SwapchainView {
        SwapchainView {
            handle: self.swapchain,
            images: self.images@,
            dimensions: self.dimensions,
            present_mode: self.present_mode,
            fullscreen_exclusive: self.fullscreen_exclusive,
        }
    }
}

/// Why a swapchain could not be created.
#[derive(Clone, Copy, Debug, PartialEq, Eq, Structural)]
pub enum SwapchainCreationError {
    /// Not enough memory.
    OomError(OomError),
    /// The device was lost.
    DeviceLost,
    /// The surface was lost.
    SurfaceLost,
    /// The window is already in use by another API.
    NativeWindowInUse,
}

impl SwapchainCreationError {
    /// Whether the creation of a swapchain may fail with `err`.
    pub open spec fn covers(err: Error) -> bool {
        ||| OomError::covers(err)
        ||| err == Error::DeviceLost
        ||| err == Error::SurfaceLost
        ||| err == Error::NativeWindowInUse
    }

    /// The creation error that the failure `err` stands for.
    pub open spec fn of(err: Error) -> SwapchainCreationError {
        match err {
            Error::DeviceLost => SwapchainCreationError::DeviceLost,
            Error::SurfaceLost => SwapchainCreationError::SurfaceLost,
            Error::NativeWindowInUse => SwapchainCreationError::NativeWindowInUse,
            _ => SwapchainCreationError::OomError(OomError::of(err)),
        }
    }

    /// The creation error that a failure of the driver stands for. A failure
    /// that the creation of a swapchain cannot end in is unexpected, and is
    /// left to the caller to rule out.
    pub fn from_error(err: Error) -> (r: SwapchainCreationError)
        requires
            Self::covers(err),
        ensures
            r == Self::of(err),
    {
        match err {
            Error::DeviceLost => SwapchainCreationError::DeviceLost,
            Error::SurfaceLost => SwapchainCreationError::SurfaceLost,
            Error::NativeWindowInUse => SwapchainCreationError::NativeWindowInUse,
            _ => SwapchainCreationError::OomError(OomError::from_error(err)),
        }
    }
}

/// Why no image could be acquired.
#[derive(Clone, Copy, Debug, PartialEq, Eq, Structural)]
pub enum AcquireError {
    /// Not enough memory.
    OomError(OomError),
    /// The connection to the device has been lost.
    DeviceLost,
    /// The timeout of the function has been reached before an image was
    /// available.
    Timeout,
    /// The surface is no longer accessible and must be recreated.
    SurfaceLost,
    /// The surface has changed in a way that makes the swapchain unusable.
    /// The swapchain must be recreated for the surface as it is now.
    OutOfDate,
    /// The swapchain has lost or doesn't have fullscreen exclusivity.
    FullscreenExclusiveLost,
}

/// What the answer `code` of the driver to the acquisition of an image
/// means, or `None` where no acquisition can end in `code`. On success the
/// flag says whether the swapchain still fits its surface less than well.
pub open spec fn acquire_outcome(code: i32) -> Option<Result<bool, AcquireError>> {
    match meaning(code) {
        Some(Ok(Success::Success)) => Some(Ok(false)),
        Some(Ok(Success::Suboptimal)) => Some(Ok(true)),
        Some(Ok(Success::NotReady)) => Some(Err(AcquireError::Timeout)),
        Some(Ok(Success::Timeout)) => Some(Err(AcquireError::Timeout)),
        Some(Err(Error::OutOfHostMemory)) => Some(
            Err(AcquireError::OomError(OomError::OutOfHostMemory)),
        ),
        Some(Err(Error::OutOfDeviceMemory)) => Some(
            Err(AcquireError::OomError(OomError::OutOfDeviceMemory)),
        ),
        Some(Err(Error::DeviceLost)) => Some(Err(AcquireError::DeviceLost)),
        Some(Err(Error::SurfaceLost)) => Some(Err(AcquireError::SurfaceLost)),
        Some(Err(Error::OutOfDate)) => Some(Err(AcquireError::OutOfDate)),
        Some(Err(Error::FullscreenExclusiveLost)) => Some(
            Err(AcquireError::FullscreenExclusiveLost),
        ),
        _ => None,
    }
}

/// Reads the answer of the driver to the acquisition of an image, if it is
/// one that an acquisition can end in.
pub fn read_acquire_result(code: i32) -> (r: Option<Result<bool, AcquireError>>)
    ensures
        r == acquire_outcome(code),
{
    match read_result(code) {
        Some(Ok(Success::Success)) => Some(Ok(false)),
        Some(Ok(Success::Suboptimal)) => Some(Ok(true)),
        Some(Ok(Success::NotReady)) => Some(Err(AcquireError::Timeout)),
        Some(Ok(Success::Timeout)) => Some(Err(AcquireError::Timeout)),
        Some(Err(Error::OutOfHostMemory)) => Some(
            Err(AcquireError::OomError(OomError::OutOfHostMemory)),
        ),
        Some(Err(Error::OutOfDeviceMemory)) => Some(
            Err(AcquireError::OomError(OomError::OutOfDeviceMemory)),
        ),
        Some(Err(Error::DeviceLost)) => Some(Err(AcquireError::DeviceLost)),
        Some(Err(Error::SurfaceLost)) => Some(Err(AcquireError::SurfaceLost)),
        Some(Err(Error::OutOfDate)) => Some(Err(AcquireError::OutOfDate)),
        Some(Err(Error::FullscreenExclusiveLost)) => Some(
            Err(AcquireError::FullscreenExclusiveLost),
        ),
        _ => None,
    }
}

/// The number of nanoseconds in a second.
pub const NANOS_PER_SECOND: u64 = 1_000_000_000;

/// The timeout that the driver is handed, in nanoseconds: the whole of
/// `timeout`, given as seconds and nanoseconds, or as much of it as the
/// driver can count; and the longest that it can count where there is no
/// timeout.
pub open spec fn timeout_nanos(timeout: Option<(u64, u32)>) -> u64 {
    match timeout {
        None => u64::MAX,
        Some((secs, nanos)) => if secs * NANOS_PER_SECOND + nanos > u64::MAX {
            u64::MAX
        } else {
            (secs * NANOS_PER_SECOND + nanos) as u64
        },
    }
}

/// The timeout that the driver is handed where an image is acquired, in
/// nanoseconds.
pub fn acquire_timeout(timeout: Option<(u64, u32)>) -> (ns: u64)
    ensures
        ns == timeout_nanos(timeout),
{
    match timeout {
        None => u64::MAX,
        Some((secs, nanos)) => {
            if secs > u64::MAX / NANOS_PER_SECOND {
                assert(secs * NANOS_PER_SECOND > u64::MAX) by (nonlinear_arith)
                    requires
                        secs > u64::MAX / NANOS_PER_SECOND,
                ;
                u64::MAX
            } else {
                assert(secs * NANOS_PER_SECOND <= u64::MAX) by (nonlinear_arith)
                    requires
                        secs <= u64::MAX / NANOS_PER_SECOND,
                ;
                let whole: u64 = secs * NANOS_PER_SECOND;
                if nanos as u64 > u64::MAX - whole {
                    u64::MAX
                } else {
                    whole + nanos as u64
                }
            }
        },
    }
}

/// Takes the driver's answer to the acquisition of the next image of
/// `swapchain`. `result` is what the driver returned, and `image_index` the
/// index that it gave, which counts only on success.
///
/// On success the result holds the index of the image and whether the
/// swapchain still fits its surface less than well, in which case it should
/// be recreated before long. Where the driver had no image in time, the
/// error is `Timeout`; where the swapchain is stale, `OutOfDate`.
///
/// A `result` that no acquisition can end in, or an index of no image, is a
/// fault of the driver, which the caller is to rule out.
pub fn acquire_next_image(swapchain: &Swapchain, result: i32, image_index: u32) -> (r: Result<
    (usize, bool),
    AcquireError,
>)
    requires
        acquire_outcome(result) is Some,
        acquire_outcome(result) matches Some(Ok(_)) ==> image_index < swapchain@.images.len(),
    ensures
        match acquire_outcome(result) {
            Some(Ok(suboptimal)) => r == Ok::<_, AcquireError>(
                (image_index as usize, suboptimal),
            ),
            Some(Err(e)) => r == Err::<(usize, bool), _>(e),
            None => false,
        },
{
    match read_acquire_result(result) {
        Some(Ok(suboptimal)) => Ok((image_index as usize, suboptimal)),
        Some(Err(e)) => Err(e),
        None => unreached(),
    }
}

impl Swapchain {
    /// Describes a swapchain that the driver has made under the handle
    /// `swapchain`, with the images that have the keys `images`.
    pub fn new(
        swapchain: u64,
        images: Vec<u64>,
        dimensions: [u32; 2],
        present_mode: PresentMode,
        fullscreen_exclusive: FullscreenExclusive,
    ) -> (r: Swapchain)
        ensures
            r@ == (SwapchainView {
                handle: swapchain,
                images: images@,
                dimensions,
                present_mode,
                fullscreen_exclusive,
            }),
    {
        Swapchain { swapchain, images, dimensions, present_mode, fullscreen_exclusive }
    }

    /// The number of images.
    pub fn num_images(&self) -> (n: usize)
        ensures
            n == self@.images.len(),
    {
        self.images.len()
    }

    /// The key of the image with index `index`.
    pub fn image(&self, index: usize) -> (key: u64)
        requires
            index < self@.images.len(),
        ensures
            key == self@.images[index as int],
    {
        self.images[index]
    }

    /// The width and height of the images.
    pub fn dimensions(&self) -> (d: [u32; 2])
        ensures
            d == self@.dimensions,
    {
        self.dimensions
    }

    /// How the images are queued for the screen.
    pub fn present_mode(&self) -> (m: PresentMode)
        ensures
            m == self@.present_mode,
    {
        self.present_mode
    }

    /// Who decides whether the swapchain has the screen to itself.
    pub fn fullscreen_exclusive(&self) -> (f: FullscreenExclusive)
        ensures
            f == self@.fullscreen_exclusive,
    {
        self.fullscreen_exclusive
    }

    /// Takes the driver's answer to the creation of a swapchain that is to
    /// stand in for this one with images of `dimensions`. `result` is what
    /// the driver returned, `swapchain` the handle that it gave and `images`
    /// the keys of the new images, which count only on success.
    ///
    /// On success the result is the new swapchain, which presents as this
    /// one does. This one stays as it is: work that uses its images goes on.
    ///
    /// A `result` that the creation of a swapchain cannot end in is a fault
    /// of the driver, which the caller is to rule out.
    pub fn recreate_with_dimension(
        &self,
        dimensions: [u32; 2],
        result: i32,
        swapchain: u64,
        images: Vec<u64>,
    ) -> (r: Result<Swapchain, SwapchainCreationError>)
        requires
            meaning(result) matches Some(answer) && (answer matches Err(err)
                ==> SwapchainCreationError::covers(err)),
        ensures
            match meaning(result) {
                Some(Err(err)) => r matches Err(e) && e == SwapchainCreationError::of(err),
                _ => r matches Ok(recreated) && recreated@ == (SwapchainView {
                    handle: swapchain,
                    images: images@,
                    dimensions,
                    ..self@
                }),
            },
    {
        match check_errors(result) {
            Err(err) => Err(SwapchainCreationError::from_error(err)),
            Ok(_) => Ok(
                Swapchain {
                    swapchain,
                    images,
                    dimensions,
                    present_mode: self.present_mode,
                    fullscreen_exclusive: self.fullscreen_exclusive,
                },
            ),
        }
    }

    /// Whether the swapchain can be retired: no work of `chain` that is not
    /// over uses an image of it.
    pub fn can_retire(&self, chain: &FutureNode) -> (b: bool)
        ensures
            b == self@.unused_by(chain@),
    {
        let mut i: usize = 0;
        while i < self.images.len()
            invariant
                i <= self@.images.len(),
                forall|j: int| 0 <= j < i ==> !chain@.in_use().contains(self@.images[j]),
            decreases self@.images.len() - i,
        {
            if chain.uses(self.images[i]) {
                return false;
            }
            i += 1;
        }
        true
    }
}

impl Swapchain {
    /// Retires the swapchain, if no work of `chain` that is not over uses an
    /// image of it, and returns the keys of its images. A swapchain that is
    /// still used is handed back as it is.
    pub fn retire(self, chain: &FutureNode) -> (r: Result<Vec<u64>, Swapchain>)
        ensures
            match r {
                Ok(images) => self@.unused_by(chain@) && images@ == self@.images,
                Err(kept) => !self@.unused_by(chain@) && kept@ == self@,
            },
    {
        if self.can_retire(chain) {
            Ok(self.images)
        } else {
            Err(self)
        }
    }
}

impl VulkanObject for Swapchain {
    type Object = u64;

    open spec fn handle(&self) -> u64 {
        self@.handle
    }

    fn internal_object(&self) -> (h: u64) {
        self.swapchain
    }
}

} // verus!
