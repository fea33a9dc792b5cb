//! Negotiating a swapchain with a surface, and viewing its images.
use vstd::prelude::*;

use crate::image::{image_view_request, ImageView, ImageViewRequest};
use crate::result::{error_for, map_error, CallSite, Release, Resource};
use crate::GMResult;

verus! {

/// A pixel format and color space that a surface can present.
#[derive(Clone, Copy, Debug, PartialEq, Eq, Structural)]
pub struct SurfaceFormat {
    pub format: i32,
    pub color_space: i32,
}

/// What a surface reports of the swapchains it can take.
#[derive(Clone, Copy, Debug, PartialEq, Eq, Structural)]
pub struct SurfaceCapabilities {
    pub min_image_count: u32,
    pub max_image_count: u32,
    pub current_width: u32,
    pub current_height: u32,
}

/// The swapchain to create on a surface: its image count, format and extent.
#[derive(Clone, Copy, Debug, PartialEq, Eq, Structural)]
pub struct SwapchainRequest {
    pub min_image_count: u32,
    pub format: SurfaceFormat,
    pub width: u32,
    pub height: u32,
}

impl SwapchainRequest {
    /// Takes the surface's first reported format, its minimum image count
    /// and its current extent. A surface that reports no format cannot
    /// present and fails with `InitializationError`.
    pub fn negotiate(formats: &[SurfaceFormat], capabilities: SurfaceCapabilities) -> (r: Result<
        SwapchainRequest,
        GMResult,
    >)
        ensures
            r == (if formats@.len() == 0 {
                Err::<SwapchainRequest, GMResult>(GMResult::InitializationError)
            } else {
                Ok(
                    SwapchainRequest {
                        min_image_count: capabilities.min_image_count,
                        format: formats@[0],
                        width: capabilities.current_width,
                        height: capabilities.current_height,
                    },
                )
            }),
    {
        if formats.len() == 0 {
            return Err(GMResult::InitializationError);
        }
        Ok(
            SwapchainRequest {
                min_image_count: capabilities.min_image_count,
                format: formats[0],
                width: capabilities.current_width,
                height: capabilities.current_height,
            },
        )
    }
}

/// The views of a swapchain's presentable images, made one after another
/// in the swapchain's format.
#[derive(Debug)]
pub struct SwapchainViews {
    format: i32,
    views: Vec<ImageView>,
}

impl SwapchainViews {
    pub closed spec fn spec_format(&self) -> i32 {
        self.format
    }

    pub closed spec fn spec_views(&self) -> Seq<ImageView> {
        self.views@
    }

    pub fn new(format: i32) -> (r: SwapchainViews)
        ensures
            r.spec_format() == format,
            r.spec_views() == Seq::<ImageView>::empty(),
    {
        SwapchainViews { format, views: Vec::new() }
    }

    /// The view to create for the presentable image `image`.
    pub fn request(&self, image: u64) -> (r: ImageViewRequest)
        ensures
            r == image_view_request(image, self.spec_format()),
    {
        ImageViewRequest::new(image, self.format)
    }

    /// Takes the outcome of one view creation call. On failure the views
    /// made so far are handed back for destruction.
    pub fn add(self, created: Result<u64, i32>) -> (r: Result<SwapchainViews, Release>)
        ensures
            match created {
                Ok(h) => r matches Ok(next) && next.spec_format() == self.spec_format()
                    && next.spec_views() == self.spec_views().push(
                    ImageView { handle: h, format: self.spec_format() },
                ),
                Err(code) => r matches Err(rel) && rel.error == error_for(
                    CallSite::CreateImageView,
                    code,
                ) && rel.resources@ == self.spec_views().map_values(
                    |v: ImageView| Resource::ImageView(v.handle),
                ),
            },
    {
        match created {
            Ok(handle) => {
                let mut views = self.views;
                views.push(ImageView { handle, format: self.format });
                Ok(SwapchainViews { format: self.format, views })
            },
            Err(code) => {
                let mut resources: Vec<Resource> = Vec::new();
                let mut i: usize = 0;
                while i < self.views.len()
                    invariant
                        i <= self.views@.len(),
                        resources@ =~= self.views@.subrange(0, i as int).map_values(
                            |v: ImageView| Resource::ImageView(v.handle),
                        ),
                    decreases self.views@.len() - i,
                {
                    resources.push(Resource::ImageView(self.views[i].handle));
                    i = i + 1;
                }
                assert(self.views@.subrange(0, i as int) =~= self.views@);
                Err(Release { error: map_error(CallSite::CreateImageView, code), resources })
            },
        }
    }

    /// The views, in the order of the swapchain's images.
    pub fn finish(self) -> (r: Vec<ImageView>)
        ensures
            r@ == self.spec_views(),
    {
        self.views
    }
}

} // verus!
