//! Color images with their backing memory, views onto them, and the
//! creation sequence that binds the two.
use vstd::prelude::*;

use crate::result::{error_for, map_error, CallSite, Release, Resource};
use crate::vk;
use crate::GMResult;

verus! {

/// A rectangle of pixels.
#[derive(Clone, Copy, Debug, PartialEq, Eq, Structural)]
pub struct Rect {
    pub x: i32,
    pub y: i32,
    pub width: u32,
    pub height: u32,
}

/// The viewport transform of a pipeline: a rectangle and a depth range.
#[derive(Clone, Copy, Debug, PartialEq, Eq, Structural)]
pub struct Viewport {
    pub x: u32,
    pub y: u32,
    pub width: u32,
    pub height: u32,
    pub min_depth: u32,
    pub max_depth: u32,
}

/// Everything an image creation call is handed.
#[derive(Clone, Copy, Debug, PartialEq, Eq, Structural)]
pub struct ImageRequest {
    pub image_type: i32,
    pub width: u32,
    pub height: u32,
    pub depth: u32,
    pub mip_levels: u32,
    pub array_layers: u32,
    pub format: i32,
    pub tiling: i32,
    pub initial_layout: i32,
    pub usage: u32,
    pub sharing_mode: i32,
    pub samples: u32,
}

/// A 2D, single-mip, single-layer, linearly tiled RGBA8 color attachment of
/// `width` by `height` pixels, owned by one queue family, single-sampled.
pub open spec fn image_request(width: u32, height: u32) -> ImageRequest {
    ImageRequest {
        image_type: vk::IMAGE_TYPE_2D,
        width,
        height,
        depth: 1,
        mip_levels: 1,
        array_layers: 1,
        format: vk::FORMAT_R8G8B8A8_UNORM,
        tiling: vk::IMAGE_TILING_LINEAR,
        initial_layout: vk::IMAGE_LAYOUT_UNDEFINED,
        usage: vk::IMAGE_USAGE_COLOR_ATTACHMENT_BIT,
        sharing_mode: vk::SHARING_MODE_EXCLUSIVE,
        samples: vk::SAMPLE_COUNT_1_BIT,
    }
}

/// Whether bit `i` of `bits` is set.
pub open spec fn has_bit(bits: u32, i: u32) -> bool {
    i < 32 && (bits >> i) & 1u32 == 1u32
}

/// The memory type an image is bound to: the highest index below
/// `type_count` whose bit is set in `type_bits`.
pub open spec fn is_chosen_memory_type(type_bits: u32, type_count: u32, t: u32) -> bool {
    &&& t < type_count
    &&& has_bit(type_bits, t)
    &&& forall|j: u32| t < j < type_count ==> !has_bit(type_bits, j)
}

pub open spec fn no_memory_type(type_bits: u32, type_count: u32) -> bool {
    forall|j: u32| j < type_count ==> !has_bit(type_bits, j)
}

/// Scans the memory types `0..type_count` in increasing order and keeps the
/// last whose bit is set in `type_bits`; `None` when no bit matches. The last
/// match wins, not the first.
pub fn choose_memory_type(type_bits: u32, type_count: u32) -> (r: Option<u32>)
    ensures
        match r {
            Some(t) => is_chosen_memory_type(type_bits, type_count, t),
            None => no_memory_type(type_bits, type_count),
        },
{
    let mut chosen: Option<u32> = None;
    let mut i: u32 = 0;
    while i < type_count && i < 32
        invariant
            i <= 32,
            i <= type_count,
            match chosen {
                Some(t) => t < i && has_bit(type_bits, t) && forall|j: u32|
                    t < j < i ==> !has_bit(type_bits, j),
                None => forall|j: u32| j < i ==> !has_bit(type_bits, j),
            },
        decreases 32 - i,
    {
        if (type_bits >> i) & 1 == 1 {
            chosen = Some(i);
        }
        i = i + 1;
    }
    chosen
}

/// Driver-reported needs of an image: allocation size and the bit set of
/// memory types it may live in.
#[derive(Clone, Copy, Debug, PartialEq, Eq, Structural)]
pub struct MemoryRequirements {
    pub size: u64,
    pub memory_type_bits: u32,
}

impl ImageRequest {
    /// The request for an image of `width` by `height` pixels; an empty
    /// extent is refused with `InvalidValue`.
    pub fn new(width: u32, height: u32) -> (r: Result<ImageRequest, GMResult>)
        ensures
            r == (if width > 0 && height > 0 {
                Ok::<ImageRequest, GMResult>(image_request(width, height))
            } else {
                Err(GMResult::InvalidValue)
            }),
    {
        if width == 0 || height == 0 {
            return Err(GMResult::InvalidValue);
        }
        Ok(
            ImageRequest {
                image_type: vk::IMAGE_TYPE_2D,
                width,
                height,
                depth: 1,
                mip_levels: 1,
                array_layers: 1,
                format: vk::FORMAT_R8G8B8A8_UNORM,
                tiling: vk::IMAGE_TILING_LINEAR,
                initial_layout: vk::IMAGE_LAYOUT_UNDEFINED,
                usage: vk::IMAGE_USAGE_COLOR_ATTACHMENT_BIT,
                sharing_mode: vk::SHARING_MODE_EXCLUSIVE,
                samples: vk::SAMPLE_COUNT_1_BIT,
            },
        )
    }

    /// Takes the outcome of the image creation call: the image's handle, or
    /// the native error code. Nothing was created on failure.
    pub fn created(&self, created: Result<u64, i32>) -> (r: Result<UnboundImage, GMResult>)
        ensures
            match created {
                Ok(h) => r matches Ok(u) && u.spec_handle() == h && u.spec_width() == self.width
                    && u.spec_height() == self.height,
                Err(code) => r == Err::<UnboundImage, GMResult>(
                    error_for(CallSite::CreateImage, code),
                ),
            },
    {
        match created {
            Ok(handle) => Ok(UnboundImage { handle, width: self.width, height: self.height }),
            Err(code) => Err(map_error(CallSite::CreateImage, code)),
        }
    }
}

/// An image that exists but has no memory yet.
#[derive(Debug)]
pub struct UnboundImage {
    handle: u64,
    width: u32,
    height: u32,
}

impl UnboundImage {
    pub closed spec fn spec_handle(&self) -> u64 {
        self.handle
    }

    pub closed spec fn spec_width(&self) -> u32 {
        self.width
    }

    pub closed spec fn spec_height(&self) -> u32 {
        self.height
    }

    pub fn handle(&self) -> (r: u64)
        ensures
            r == self.spec_handle(),
    {
        self.handle
    }

    /// Picks the memory for the image from its requirements and the number
    /// of memory types of the GPU. When no memory type fits, the image is
    /// handed back for destruction with `UnknownError`.
    pub fn plan_memory(self, requirements: MemoryRequirements, memory_type_count: u32) -> (r:
        Result<MemoryRequest, Release>)
        ensures
            match r {
                Ok(m) => {
                    &&& m.spec_image() == self.spec_handle()
                    &&& m.spec_width() == self.spec_width()
                    &&& m.spec_height() == self.spec_height()
                    &&& m.spec_size() == requirements.size
                    &&& m.spec_type_bits() == requirements.memory_type_bits
                    &&& is_chosen_memory_type(
                        requirements.memory_type_bits,
                        memory_type_count,
                        m.spec_type_index(),
                    )
                },
                Err(rel) => {
                    &&& no_memory_type(requirements.memory_type_bits, memory_type_count)
                    &&& rel.error == GMResult::UnknownError
                    &&& rel.resources@ == seq![Resource::Image(self.spec_handle())]
                },
            },
    {
        match choose_memory_type(requirements.memory_type_bits, memory_type_count) {
            Some(type_index) => Ok(
                MemoryRequest {
                    image: self.handle,
                    width: self.width,
                    height: self.height,
                    size: requirements.size,
                    type_bits: requirements.memory_type_bits,
                    type_index,
                },
            ),
            None => {
                let mut resources: Vec<Resource> = Vec::new();
                resources.push(Resource::Image(self.handle));
                Err(Release { error: GMResult::UnknownError, resources })
            },
        }
    }
}

/// The memory allocation to make for an image: its size and memory type.
#[derive(Debug)]
pub struct MemoryRequest {
    image: u64,
    width: u32,
    height: u32,
    size: u64,
    type_bits: u32,
    type_index: u32,
}

impl MemoryRequest {
    #[verifier::type_invariant]
    closed spec fn wf(&self) -> bool {
        has_bit(self.type_bits, self.type_index)
    }

    pub closed spec fn spec_image(&self) -> u64 {
        self.image
    }

    pub closed spec fn spec_width(&self) -> u32 {
        self.width
    }

    pub closed spec fn spec_height(&self) -> u32 {
        self.height
    }

    pub closed spec fn spec_size(&self) -> u64 {
        self.size
    }

    pub closed spec fn spec_type_bits(&self) -> u32 {
        self.type_bits
    }

    pub closed spec fn spec_type_index(&self) -> u32 {
        self.type_index
    }

    pub fn allocation_size(&self) -> (r: u64)
        ensures
            r == self.spec_size(),
    {
        self.size
    }

    pub fn memory_type_index(&self) -> (r: u32)
        ensures
            r == self.spec_type_index(),
    {
        self.type_index
    }

    /// Takes the outcome of the allocation: the memory's handle, or the
    /// native error code, on which the image is handed back for destruction.
    pub fn allocated(self, allocated: Result<u64, i32>) -> (r: Result<BindRequest, Release>)
        ensures
            match allocated {
                Ok(m) => r matches Ok(b) && b.spec_memory() == m && b.spec_image() == self.spec_image()
                    && b.spec_width() == self.spec_width() && b.spec_height() == self.spec_height()
                    && b.spec_size() == self.spec_size() && b.spec_type_bits()
                    == self.spec_type_bits() && b.spec_type_index() == self.spec_type_index(),
                Err(code) => r matches Err(rel) && rel.error == error_for(
                    CallSite::AllocateMemory,
                    code,
                ) && rel.resources@ == seq![Resource::Image(self.spec_image())],
            },
    {
        proof {
            use_type_invariant(&self);
        }
        match allocated {
            Ok(memory) => Ok(
                BindRequest {
                    image: self.image,
                    memory,
                    width: self.width,
                    height: self.height,
                    size: self.size,
                    type_bits: self.type_bits,
                    type_index: self.type_index,
                },
            ),
            Err(code) => {
                let mut resources: Vec<Resource> = Vec::new();
                resources.push(Resource::Image(self.image));
                Err(Release { error: map_error(CallSite::AllocateMemory, code), resources })
            },
        }
    }
}

/// An image and its memory, to be bound together at offset 0.
#[derive(Debug)]
pub struct BindRequest {
    image: u64,
    memory: u64,
    width: u32,
    height: u32,
    size: u64,
    type_bits: u32,
    type_index: u32,
}

impl BindRequest {
    #[verifier::type_invariant]
    closed spec fn wf(&self) -> bool {
        has_bit(self.type_bits, self.type_index)
    }

    pub closed spec fn spec_image(&self) -> u64 {
        self.image
    }

    pub closed spec fn spec_memory(&self) -> u64 {
        self.memory
    }

    pub closed spec fn spec_width(&self) -> u32 {
        self.width
    }

    pub closed spec fn spec_height(&self) -> u32 {
        self.height
    }

    pub closed spec fn spec_size(&self) -> u64 {
        self.size
    }

    pub closed spec fn spec_type_bits(&self) -> u32 {
        self.type_bits
    }

    pub closed spec fn spec_type_index(&self) -> u32 {
        self.type_index
    }

    pub fn image(&self) -> (r: u64)
        ensures
            r == self.spec_image(),
    {
        self.image
    }

    pub fn memory(&self) -> (r: u64)
        ensures
            r == self.spec_memory(),
    {
        self.memory
    }

    pub fn offset(&self) -> (r: u64)
        ensures
            r == 0,
    {
        0
    }

    /// Takes the outcome of binding. On failure both the image and its
    /// memory are handed back for destruction, the image first.
    pub fn bound(self, bound: Result<(), i32>) -> (r: Result<Image, Release>)
        ensures
            match bound {
                Ok(_) => r matches Ok(img) && img.spec_handle() == self.spec_image()
                    && img.spec_memory() == self.spec_memory() && img.spec_width()
                    == self.spec_width() && img.spec_height() == self.spec_height()
                    && img.spec_memory_size() == self.spec_size() && img.spec_type_bits()
                    == self.spec_type_bits() && img.spec_type_index() == self.spec_type_index(),
                Err(code) => r matches Err(rel) && rel.error == error_for(
                    CallSite::BindImageMemory,
                    code,
                ) && rel.resources@ == seq![
                    Resource::Image(self.spec_image()),
                    Resource::Memory(self.spec_memory()),
                ],
            },
    {
        proof {
            use_type_invariant(&self);
        }
        match bound {
            Ok(_) => Ok(
                Image {
                    handle: self.image,
                    memory: self.memory,
                    width: self.width,
                    height: self.height,
                    memory_size: self.size,
                    type_bits: self.type_bits,
                    type_index: self.type_index,
                },
            ),
            Err(code) => {
                let mut resources: Vec<Resource> = Vec::new();
                resources.push(Resource::Image(self.image));
                resources.push(Resource::Memory(self.memory));
                Err(Release { error: map_error(CallSite::BindImageMemory, code), resources })
            },
        }
    }
}

/// A 2D RGBA8 color image bound to memory of a type that its requirements
/// allow.
#[derive(Debug)]
pub struct Image {
    handle: u64,
    memory: u64,
    width: u32,
    height: u32,
    memory_size: u64,
    type_bits: u32,
    type_index: u32,
}

impl Image {
    #[verifier::type_invariant]
    closed spec fn wf(&self) -> bool {
        has_bit(self.type_bits, self.type_index)
    }

    pub closed spec fn spec_handle(&self) -> u64 {
        self.handle
    }

    pub closed spec fn spec_memory(&self) -> u64 {
        self.memory
    }

    pub closed spec fn spec_width(&self) -> u32 {
        self.width
    }

    pub closed spec fn spec_height(&self) -> u32 {
        self.height
    }

    pub closed spec fn spec_memory_size(&self) -> u64 {
        self.memory_size
    }

    pub closed spec fn spec_type_bits(&self) -> u32 {
        self.type_bits
    }

    pub closed spec fn spec_type_index(&self) -> u32 {
        self.type_index
    }

    pub fn handle(&self) -> (r: u64)
        ensures
            r == self.spec_handle(),
    {
        self.handle
    }

    pub fn memory(&self) -> (r: u64)
        ensures
            r == self.spec_memory(),
    {
        self.memory
    }

    pub fn width(&self) -> (r: u32)
        ensures
            r == self.spec_width(),
    {
        self.width
    }

    pub fn height(&self) -> (r: u32)
        ensures
            r == self.spec_height(),
    {
        self.height
    }

    /// The memory type of the image's memory, which the image's requirements
    /// always allow.
    pub fn memory_type_index(&self) -> (r: u32)
        ensures
            r == self.spec_type_index(),
            has_bit(self.spec_type_bits(), r),
    {
        proof {
            use_type_invariant(self);
        }
        self.type_index
    }

    /// The byte range that mapping the image's memory covers.
    pub fn mapped_size(&self) -> (r: u64)
        ensures
            r == self.spec_memory_size(),
    {
        self.memory_size
    }

    /// Bytes of the pixels, row-major RGBA8: `width * height * 4`.
    pub fn pixel_bytes(&self) -> (r: u128)
        ensures
            r == self.spec_width() * self.spec_height() * 4,
    {
        let w = self.width as u128;
        let h = self.height as u128;
        assert(w * h <= 0xffff_ffffu128 * 0xffff_ffffu128) by (nonlinear_arith)
            requires
                w <= 0xffff_ffffu128,
                h <= 0xffff_ffffu128,
        ;
        w * h * 4
    }

    /// The byte range to map for reading the pixels: `width * height * 4`
    /// bytes, cut to the memory's size should the allocation be smaller.
    pub fn map_range(&self) -> (r: u64)
        ensures
            r == (if self.spec_width() * self.spec_height() * 4 <= self.spec_memory_size() {
                self.spec_width() * self.spec_height() * 4
            } else {
                self.spec_memory_size() as int
            }),
    {
        let pixels = self.pixel_bytes();
        if pixels <= self.memory_size as u128 {
            pixels as u64
        } else {
            self.memory_size
        }
    }

    /// The viewport covering the whole image, depths 0 to 1.
    pub fn viewport(&self) -> (r: Viewport)
        ensures
            r == (Viewport {
                x: 0,
                y: 0,
                width: self.spec_width(),
                height: self.spec_height(),
                min_depth: 0,
                max_depth: 1,
            }),
    {
        Viewport { x: 0, y: 0, width: self.width, height: self.height, min_depth: 0, max_depth: 1 }
    }

    /// The scissor rectangle covering the whole image.
    pub fn scissor(&self) -> (r: Rect)
        ensures
            r == (Rect { x: 0, y: 0, width: self.spec_width(), height: self.spec_height() }),
    {
        Rect { x: 0, y: 0, width: self.width, height: self.height }
    }

    /// The request for a 2D RGBA8 view of the whole image.
    pub fn create_image_view(&self) -> (r: ImageViewRequest)
        ensures
            r == image_view_request(self.spec_handle(), vk::FORMAT_R8G8B8A8_UNORM),
    {
        ImageViewRequest::new(self.handle, vk::FORMAT_R8G8B8A8_UNORM)
    }

    /// The objects to destroy when the image is no longer used: the image,
    /// then its memory.
    pub fn release(self) -> (r: Vec<Resource>)
        ensures
            r@ == seq![Resource::Image(self.spec_handle()), Resource::Memory(self.spec_memory())],
    {
        let mut resources: Vec<Resource> = Vec::new();
        resources.push(Resource::Image(self.handle));
        resources.push(Resource::Memory(self.memory));
        resources
    }
}

/// Everything an image view creation call is handed; the components keep
/// their identity mapping.
#[derive(Clone, Copy, Debug, PartialEq, Eq, Structural)]
pub struct ImageViewRequest {
    pub image: u64,
    pub view_type: i32,
    pub format: i32,
    pub aspect_mask: u32,
    pub base_mip_level: u32,
    pub level_count: u32,
    pub base_array_layer: u32,
    pub layer_count: u32,
}

/// A 2D view of `format` onto the first mip level and layer of the color
/// aspect of `image`.
pub open spec fn image_view_request(image: u64, format: i32) -> ImageViewRequest {
    ImageViewRequest {
        image,
        view_type: vk::IMAGE_VIEW_TYPE_2D,
        format,
        aspect_mask: vk::IMAGE_ASPECT_COLOR_BIT,
        base_mip_level: 0,
        level_count: 1,
        base_array_layer: 0,
        layer_count: 1,
    }
}

impl ImageViewRequest {
    pub fn new(image: u64, format: i32) -> (r: ImageViewRequest)
        ensures
            r == image_view_request(image, format),
    {
        ImageViewRequest {
            image,
            view_type: vk::IMAGE_VIEW_TYPE_2D,
            format,
            aspect_mask: vk::IMAGE_ASPECT_COLOR_BIT,
            base_mip_level: 0,
            level_count: 1,
            base_array_layer: 0,
            layer_count: 1,
        }
    }

    /// Takes the outcome of the view creation call.
    pub fn created(&self, created: Result<u64, i32>) -> (r: Result<ImageView, GMResult>)
        ensures
            match created {
                Ok(h) => r == Ok::<ImageView, GMResult>(
                    ImageView { handle: h, format: self.format },
                ),
                Err(code) => r == Err::<ImageView, GMResult>(
                    error_for(CallSite::CreateImageView, code),
                ),
            },
    {
        match created {
            Ok(handle) => Ok(ImageView { handle, format: self.format }),
            Err(code) => Err(map_error(CallSite::CreateImageView, code)),
        }
    }
}

/// A typed view onto an image or a presentable image.
#[derive(Clone, Copy, Debug, PartialEq, Eq, Structural)]
pub struct ImageView {
    pub handle: u64,
    pub format: i32,
}

} // verus!
