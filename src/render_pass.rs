//! Render passes, their subpasses, and frame buffers bound to them.
use vstd::prelude::*;

use crate::image::{image_request, image_view_request, ImageView};
use crate::result::{error_for, map_error, CallSite};
use crate::vk;
use crate::GMResult;

verus! {

/// The number of attachments of every render pass: one color attachment.
pub const ATTACHMENT_COUNT: u32 = 1;

/// A reference from a subpass to attachment `attachment`, used in `layout`.
#[derive(Clone, Copy, Debug, PartialEq, Eq, Structural)]
pub struct AttachmentRef {
    pub attachment: u32,
    pub layout: i32,
}

/// What a subpass is in contracts: its color attachment references and its
/// bind point.
pub struct SubPassModel {
    pub color_attachments: Seq<AttachmentRef>,
    pub bind_point: i32,
}

/// One subpass description: the color attachments it writes.
#[derive(Debug)]
pub struct SubPass {
    color_attachments: Vec<AttachmentRef>,
    bind_point: i32,
}

impl View for SubPass {
    type V = SubPassModel;

    closed spec fn view(&self) -> SubPassModel {
        SubPassModel { color_attachments: self.color_attachments@, bind_point: self.bind_point }
    }
}

impl SubPass {
    /// A graphics subpass writing attachment 0 as a color attachment.
    pub fn new() -> (r: SubPass)
        ensures
            r@.color_attachments == seq![
                AttachmentRef {
                    attachment: 0,
                    layout: vk::IMAGE_LAYOUT_COLOR_ATTACHMENT_OPTIMAL,
                },
            ],
            r@.bind_point == vk::PIPELINE_BIND_POINT_GRAPHICS,
    {
        let mut color_attachments: Vec<AttachmentRef> = Vec::new();
        color_attachments.push(
            AttachmentRef { attachment: 0, layout: vk::IMAGE_LAYOUT_COLOR_ATTACHMENT_OPTIMAL },
        );
        SubPass { color_attachments, bind_point: vk::PIPELINE_BIND_POINT_GRAPHICS }
    }

    pub fn color_attachments(&self) -> (r: &Vec<AttachmentRef>)
        ensures
            r@ == self@.color_attachments,
    {
        &self.color_attachments
    }

    pub fn bind_point(&self) -> (r: i32)
        ensures
            r == self@.bind_point,
    {
        self.bind_point
    }

    pub closed spec fn spec_refs_in_range(&self) -> bool {
        forall|j: int|
            0 <= j < self.color_attachments@.len() ==> #[trigger] self.color_attachments@[j].attachment
                < ATTACHMENT_COUNT
    }

    fn refs_in_range(&self) -> (r: bool)
        ensures
            r == self.spec_refs_in_range(),
            r == (forall|j: int|
                0 <= j < self@.color_attachments.len() ==> #[trigger] self@.color_attachments[j].attachment
                    < ATTACHMENT_COUNT),
    {
        let mut j: usize = 0;
        while j < self.color_attachments.len()
            invariant
                j <= self.color_attachments@.len(),
                forall|b: int|
                    0 <= b < j ==> #[trigger] self.color_attachments@[b].attachment
                        < ATTACHMENT_COUNT,
            decreases self.color_attachments@.len() - j,
        {
            if self.color_attachments[j].attachment >= ATTACHMENT_COUNT {
                assert(self@.color_attachments[j as int].attachment >= ATTACHMENT_COUNT);
                return false;
            }
            j = j + 1;
        }
        true
    }

    fn copy(&self) -> (r: SubPass)
        ensures
            r@ == self@,
    {
        let mut color_attachments: Vec<AttachmentRef> = Vec::new();
        let mut i: usize = 0;
        while i < self.color_attachments.len()
            invariant
                i <= self.color_attachments@.len(),
                color_attachments@ == self.color_attachments@.subrange(0, i as int),
            decreases self.color_attachments@.len() - i,
        {
            color_attachments.push(self.color_attachments[i]);
            i = i + 1;
            assert(color_attachments@ =~= self.color_attachments@.subrange(0, i as int));
        }
        assert(color_attachments@ =~= self.color_attachments@);
        SubPass { color_attachments, bind_point: self.bind_point }
    }
}

impl Default for SubPass {
    /// A graphics subpass that writes no attachment.
    fn default() -> (r: SubPass)
        ensures
            r@.color_attachments == Seq::<AttachmentRef>::empty(),
            r@.bind_point == vk::PIPELINE_BIND_POINT_GRAPHICS,
    {
        SubPass { color_attachments: Vec::new(), bind_point: vk::PIPELINE_BIND_POINT_GRAPHICS }
    }
}

/// How the single attachment of a render pass is used.
#[derive(Clone, Copy, Debug, PartialEq, Eq, Structural)]
pub struct AttachmentDescription {
    pub format: i32,
    pub samples: u32,
    pub load_op: i32,
    pub store_op: i32,
    pub stencil_load_op: i32,
    pub stencil_store_op: i32,
    pub initial_layout: i32,
    pub final_layout: i32,
}

/// RGBA8, single-sampled, loaded as don't-care and stored, without stencil
/// use, from an undefined layout to the general layout.
pub open spec fn color_attachment() -> AttachmentDescription {
    AttachmentDescription {
        format: vk::FORMAT_R8G8B8A8_UNORM,
        samples: vk::SAMPLE_COUNT_1_BIT,
        load_op: vk::ATTACHMENT_LOAD_OP_DONT_CARE,
        store_op: vk::ATTACHMENT_STORE_OP_STORE,
        stencil_load_op: vk::ATTACHMENT_LOAD_OP_DONT_CARE,
        stencil_store_op: vk::ATTACHMENT_STORE_OP_DONT_CARE,
        initial_layout: vk::IMAGE_LAYOUT_UNDEFINED,
        final_layout: vk::IMAGE_LAYOUT_GENERAL,
    }
}

/// Whether `subpasses` can be wired against the render pass's attachments:
/// there is at least one, and each reference names an existing attachment.
pub open spec fn subpasses_valid(subpasses: Seq<SubPassModel>) -> bool {
    &&& subpasses.len() >= 1
    &&& forall|i: int, j: int|
        0 <= i < subpasses.len() && 0 <= j < subpasses[i].color_attachments.len()
            ==> #[trigger] subpasses[i].color_attachments[j].attachment < ATTACHMENT_COUNT
}

pub open spec fn models(subpasses: Seq<SubPass>) -> Seq<SubPassModel> {
    subpasses.map_values(|s: SubPass| s@)
}

/// Everything a render pass creation call is handed; there are no
/// dependencies between subpasses.
#[derive(Debug)]
pub struct RenderPassRequest {
    attachment: AttachmentDescription,
    subpasses: Vec<SubPass>,
}

impl RenderPassRequest {
    pub closed spec fn spec_attachment(&self) -> AttachmentDescription {
        self.attachment
    }

    pub closed spec fn spec_subpasses(&self) -> Seq<SubPassModel> {
        models(self.subpasses@)
    }

    /// The request for a render pass with the one color attachment and
    /// `subpasses`. Fails with `InvalidValue` when there is no subpass or a
    /// subpass refers to an attachment that does not exist.
    pub fn new(subpasses: &[SubPass]) -> (r: Result<RenderPassRequest, GMResult>)
        ensures
            match r {
                Ok(req) => subpasses_valid(models(subpasses@)) && req.spec_attachment()
                    == color_attachment() && req.spec_subpasses() == models(subpasses@),
                Err(e) => !subpasses_valid(models(subpasses@)) && e == GMResult::InvalidValue,
            },
    {
        if subpasses.len() == 0 {
            return Err(GMResult::InvalidValue);
        }
        let mut copies: Vec<SubPass> = Vec::new();
        let mut i: usize = 0;
        while i < subpasses.len()
            invariant
                i <= subpasses@.len(),
                models(copies@) =~= models(subpasses@).subrange(0, i as int),
                forall|a: int| 0 <= a < i ==> #[trigger] subpasses@[a].spec_refs_in_range(),
            decreases subpasses@.len() - i,
        {
            if !subpasses[i].refs_in_range() {
                proof {
                    let ms = models(subpasses@);
                    assert(ms[i as int] == subpasses@[i as int]@);
                    let j = choose|j: int|
                        0 <= j < ms[i as int].color_attachments.len()
                            && ms[i as int].color_attachments[j].attachment >= ATTACHMENT_COUNT;
                    assert(ms[i as int].color_attachments[j].attachment >= ATTACHMENT_COUNT);
                }
                return Err(GMResult::InvalidValue);
            }
            let c = subpasses[i].copy();
            let ghost before = copies@;
            copies.push(c);
            proof {
                let target = models(subpasses@).subrange(0, i + 1);
                assert(models(before).len() == before.len());
                assert(models(copies@).len() == copies@.len());
                assert(models(copies@).len() == target.len());
                assert forall|k: int| 0 <= k < target.len() implies models(copies@)[k]
                    == target[k] by {
                    if k < i {
                        assert(copies@[k] == before[k]);
                        assert(models(before)[k] == models(subpasses@).subrange(0, i as int)[k]);
                    } else {
                        assert(copies@[k] == c);
                    }
                }
                assert(models(copies@) =~= target);
            }
            i = i + 1;
        }
        proof {
            let ms = models(subpasses@);
            assert forall|a: int, b: int|
                0 <= a < ms.len() && 0 <= b < ms[a].color_attachments.len()
                    implies #[trigger] ms[a].color_attachments[b].attachment
                < ATTACHMENT_COUNT by {
                assert(ms[a] == subpasses@[a]@);
                assert(subpasses@[a].spec_refs_in_range());
            }
        }
        assert(models(copies@) =~= models(subpasses@));
        Ok(
            RenderPassRequest {
                attachment: AttachmentDescription {
                    format: vk::FORMAT_R8G8B8A8_UNORM,
                    samples: vk::SAMPLE_COUNT_1_BIT,
                    load_op: vk::ATTACHMENT_LOAD_OP_DONT_CARE,
                    store_op: vk::ATTACHMENT_STORE_OP_STORE,
                    stencil_load_op: vk::ATTACHMENT_LOAD_OP_DONT_CARE,
                    stencil_store_op: vk::ATTACHMENT_STORE_OP_DONT_CARE,
                    initial_layout: vk::IMAGE_LAYOUT_UNDEFINED,
                    final_layout: vk::IMAGE_LAYOUT_GENERAL,
                },
                subpasses: copies,
            },
        )
    }

    pub fn attachment(&self) -> (r: AttachmentDescription)
        ensures
            r == self.spec_attachment(),
    {
        self.attachment
    }

    pub fn subpasses(&self) -> (r: &Vec<SubPass>)
        ensures
            models(r@) == self.spec_subpasses(),
    {
        &self.subpasses
    }

    /// Takes the outcome of the render pass creation call.
    pub fn created(&self, created: Result<u64, i32>) -> (r: Result<RenderPass, GMResult>)
        ensures
            match created {
                Ok(h) => r == Ok::<RenderPass, GMResult>(
                    RenderPass { handle: h, format: self.spec_attachment().format },
                ),
                Err(code) => r == Err::<RenderPass, GMResult>(
                    error_for(CallSite::CreateRenderPass, code),
                ),
            },
    {
        match created {
            Ok(handle) => Ok(RenderPass { handle, format: self.attachment.format }),
            Err(code) => Err(map_error(CallSite::CreateRenderPass, code)),
        }
    }
}

/// A render pass of the driver, with the format of its color attachment.
#[derive(Clone, Copy, Debug, PartialEq, Eq, Structural)]
pub struct RenderPass {
    pub handle: u64,
    pub format: i32,
}

/// Everything a frame buffer creation call is handed: one view bound as the
/// single attachment of a render pass.
#[derive(Clone, Copy, Debug, PartialEq, Eq, Structural)]
pub struct FrameBufferRequest {
    pub render_pass: u64,
    pub attachment: u64,
    pub width: u32,
    pub height: u32,
    pub layers: u32,
}

pub open spec fn frame_buffer_request(
    view: ImageView,
    render_pass: RenderPass,
    width: u32,
    height: u32,
) -> FrameBufferRequest {
    FrameBufferRequest {
        render_pass: render_pass.handle,
        attachment: view.handle,
        width,
        height,
        layers: 1,
    }
}

impl ImageView {
    /// The request for a frame buffer of `width` by `height` with one layer
    /// that binds this view to `render_pass`.
    pub fn create_frame_buffer(&self, render_pass: &RenderPass, width: u32, height: u32) -> (r:
        FrameBufferRequest)
        ensures
            r == frame_buffer_request(*self, *render_pass, width, height),
    {
        FrameBufferRequest {
            render_pass: render_pass.handle,
            attachment: self.handle,
            width,
            height,
            layers: 1,
        }
    }
}

impl FrameBufferRequest {
    /// Takes the outcome of the frame buffer creation call.
    pub fn created(&self, created: Result<u64, i32>) -> (r: Result<FrameBuffer, GMResult>)
        ensures
            match created {
                Ok(h) => r == Ok::<FrameBuffer, GMResult>(
                    FrameBuffer { handle: h, width: self.width, height: self.height },
                ),
                Err(code) => r == Err::<FrameBuffer, GMResult>(
                    error_for(CallSite::CreateFrameBuffer, code),
                ),
            },
    {
        match created {
            Ok(handle) => Ok(FrameBuffer { handle, width: self.width, height: self.height }),
            Err(code) => Err(map_error(CallSite::CreateFrameBuffer, code)),
        }
    }
}

/// A render target binding a view to a render pass.
#[derive(Clone, Copy, Debug, PartialEq, Eq, Structural)]
pub struct FrameBuffer {
    pub handle: u64,
    pub width: u32,
    pub height: u32,
}

/// An image created at `width` by `height`, its whole view, and a render
/// pass made from one default subpass fit together: the render pass request
/// is accepted, the view has the format of the pass's color attachment and
/// of the image, every subpass reference names that attachment, and the
/// frame buffer request binds the view alone at the image's full extent.
pub proof fn lemma_image_view_frame_buffer_compatible(
    width: u32,
    height: u32,
    image: u64,
    view: u64,
    render_pass: u64,
    subpass: SubPassModel,
)
    requires
        width > 0,
        height > 0,
        subpass.color_attachments == seq![
            AttachmentRef { attachment: 0, layout: vk::IMAGE_LAYOUT_COLOR_ATTACHMENT_OPTIMAL },
        ],
    ensures
        subpasses_valid(seq![subpass]),
        image_view_request(image, vk::FORMAT_R8G8B8A8_UNORM).format == image_request(
            width,
            height,
        ).format,
        image_view_request(image, vk::FORMAT_R8G8B8A8_UNORM).format == color_attachment().format,
        ({
            let v = ImageView {
                handle: view,
                format: image_view_request(image, vk::FORMAT_R8G8B8A8_UNORM).format,
            };
            let rp = RenderPass { handle: render_pass, format: color_attachment().format };
            let fb = frame_buffer_request(v, rp, width, height);
            &&& v.format == rp.format
            &&& fb.attachment == view
            &&& fb.render_pass == render_pass
            &&& fb.width == image_request(width, height).width
            &&& fb.height == image_request(width, height).height
            &&& fb.layers == 1
        }),
{
    let s = seq![subpass];
    assert forall|i: int, j: int|
        0 <= i < s.len() && 0 <= j < s[i].color_attachments.len() implies #[trigger] s[i].color_attachments[j].attachment
        < ATTACHMENT_COUNT by {
        assert(s[i] == subpass);
    }
}

} // verus!
