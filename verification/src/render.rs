//! The render pass and its encoder: binds what the vertex and fragment functions read,
//! sets how primitives are drawn, and draws them.

use vstd::prelude::*;
use crate::buffer::MTLBuffer;
use crate::depthstencil::MTLDepthStencilState;
use crate::descriptor::Attachment;
use crate::descriptor::MTLRenderPassColorAttachmentDescriptor;
use crate::descriptor::MTLRenderPassColorAttachmentDescriptorArray;
use crate::descriptor::MTLRenderPassDepthAttachmentDescriptor;
use crate::descriptor::Slots;
use crate::driver::Driver;
use crate::encoder::bind;
use crate::encoder::bind_plain;
use crate::encoder::end;
use crate::encoder::rebase;
use crate::encoder::record;
use crate::encoder::record_with;
use crate::encoder::set_pipeline;
use crate::encoder::MTLCommandEncoder;
use crate::error::MetalError;
use crate::handle::Handle;
use crate::model::Binding;
use crate::model::Call;
use crate::model::ObjectKind;
use crate::model::ResourceClass;
use crate::model::Stage;
use crate::pipeline::MTLRenderPipelineState;
use crate::resource::MTLResource;
use crate::sampler::MTLSamplerState;
use crate::texture::MTLTexture;

verus! {

/// What the colour and the depth attachment of a render pass have in common.
pub trait MTLRenderPassAttachmentDescriptor {
    /// What the attachment holds.
    spec fn attachment(&self) -> Attachment;

    /// What the attachment holds.
    fn get_obj(&self) -> (attachment: Attachment)
        ensures
            attachment == self.attachment(),
    ;

    /// Sets the texture drawn to. The attachment names the texture and holds no reference
    /// to it.
    fn set_texture(&mut self, texture: &MTLTexture)
        ensures
            final(self).attachment() == (Attachment {
                texture: texture.0.0,
                ..old(self).attachment()
            }),
    ;

    /// Sets the mipmap level drawn to.
    fn set_level(&mut self, level: u64)
        ensures
            final(self).attachment() == (Attachment { level, ..old(self).attachment() }),
    ;

    /// Sets the slice drawn to.
    fn set_slice(&mut self, slice: u64)
        ensures
            final(self).attachment() == (Attachment { slice, ..old(self).attachment() }),
    ;

    /// Sets the depth plane drawn to.
    fn set_depth_plane(&mut self, plane: u64)
        ensures
            final(self).attachment() == (Attachment {
                depth_plane: plane,
                ..old(self).attachment()
            }),
    ;

    /// Sets what is done with the attachment when the pass begins.
    fn set_load_action(&mut self, action: u64)
        ensures
            final(self).attachment() == (Attachment {
                load_action: action,
                ..old(self).attachment()
            }),
    ;

    /// Sets what is done with the attachment when the pass ends.
    fn set_store_action(&mut self, action: u64)
        ensures
            final(self).attachment() == (Attachment {
                store_action: action,
                ..old(self).attachment()
            }),
    ;

    /// Sets the options of the store action.
    fn set_store_action_options(&mut self, options: u64)
        ensures
            final(self).attachment() == (Attachment {
                store_action_options: options,
                ..old(self).attachment()
            }),
    ;
}

impl MTLRenderPassAttachmentDescriptor for MTLRenderPassColorAttachmentDescriptor {
    open spec fn attachment(&self) -> Attachment {
        self.0
    }

    fn get_obj(&self) -> (attachment: Attachment) {
        self.0
    }

    fn set_texture(&mut self, texture: &MTLTexture) {
        self.0.texture = texture.0.0;
    }

    fn set_level(&mut self, level: u64) {
        self.0.level = level;
    }

    fn set_slice(&mut self, slice: u64) {
        self.0.slice = slice;
    }

    fn set_depth_plane(&mut self, plane: u64) {
        self.0.depth_plane = plane;
    }

    fn set_load_action(&mut self, action: u64) {
        self.0.load_action = action;
    }

    fn set_store_action(&mut self, action: u64) {
        self.0.store_action = action;
    }

    fn set_store_action_options(&mut self, options: u64) {
        self.0.store_action_options = options;
    }
}

impl MTLRenderPassAttachmentDescriptor for MTLRenderPassDepthAttachmentDescriptor {
    open spec fn attachment(&self) -> Attachment {
        self.0
    }

    fn get_obj(&self) -> (attachment: Attachment) {
        self.0
    }

    fn set_texture(&mut self, texture: &MTLTexture) {
        self.0.texture = texture.0.0;
    }

    fn set_level(&mut self, level: u64) {
        self.0.level = level;
    }

    fn set_slice(&mut self, slice: u64) {
        self.0.slice = slice;
    }

    fn set_depth_plane(&mut self, plane: u64) {
        self.0.depth_plane = plane;
    }

    fn set_load_action(&mut self, action: u64) {
        self.0.load_action = action;
    }

    fn set_store_action(&mut self, action: u64) {
        self.0.store_action = action;
    }

    fn set_store_action_options(&mut self, options: u64) {
        self.0.store_action_options = options;
    }
}

/// How many colour attachments a render pass has at most.
pub const MAX_COLOR_ATTACHMENTS: u64 = 8;

/// What a render pass draws to.
#[derive(Debug)]
pub struct MTLRenderPassDescriptor {
    pub color_attachments: MTLRenderPassColorAttachmentDescriptorArray,
    pub depth_attachment: MTLRenderPassDepthAttachmentDescriptor,
}

/// One thing that a render pass draws to: an attachment, its class, and its place among
/// the attachments of its class.
#[derive(Copy, Clone, Debug, PartialEq, Eq, Structural)]
pub struct Target {
    pub class: ResourceClass,
    pub index: u64,
    pub attachment: Attachment,
}

impl Target {
    /// The binding that stands for drawing to the target: its texture, at its level and
    /// slice.
    pub open spec fn binding(self) -> Binding {
        Binding {
            stage: Stage::Fragment,
            class: self.class,
            index: self.index,
            resource: self.attachment.texture,
            offset: self.attachment.level,
            length: self.attachment.slice,
        }
    }

    /// The call by which the pass is told of the target.
    pub open spec fn call(self) -> Call {
        Call::Attach { class: self.class, index: self.index, attachment: self.attachment }
    }

    /// The binding that stands for drawing to the target.
    pub fn get_binding(&self) -> (binding: Binding)
        ensures
            binding == self.binding(),
    {
        Binding {
            stage: Stage::Fragment,
            class: self.class,
            index: self.index,
            resource: self.attachment.texture,
            offset: self.attachment.level,
            length: self.attachment.slice,
        }
    }

    /// The call by which the pass is told of the target.
    pub fn get_call(&self) -> (call: Call)
        ensures
            call == self.call(),
    {
        Call::Attach { class: self.class, index: self.index, attachment: self.attachment }
    }
}

/// The colour attachments among the first `upto` of `slots` that have a texture, in the
/// order of their places.
pub open spec fn color_targets(
    slots: Slots<MTLRenderPassColorAttachmentDescriptor>,
    upto: nat,
) -> Seq<Target>
    decreases upto,
{
    if upto == 0 {
        Seq::empty()
    } else {
        let rest = color_targets(slots, (upto - 1) as nat);
        let attachment = slots.at((upto - 1) as u64).0;
        if attachment.texture == 0 {
            rest
        } else {
            rest.push(
                Target {
                    class: ResourceClass::ColorAttachment,
                    index: (upto - 1) as u64,
                    attachment,
                },
            )
        }
    }
}

impl MTLRenderPassDescriptor {
    /// The attachments of the pass that have a texture: the colour attachments in the order
    /// of their places, then the depth attachment.
    pub open spec fn targets(&self) -> Seq<Target> {
        let colors = color_targets(self.color_attachments.0, MAX_COLOR_ATTACHMENTS as nat);
        if self.depth_attachment.0.texture == 0 {
            colors
        } else {
            colors.push(
                Target {
                    class: ResourceClass::DepthAttachment,
                    index: 0,
                    attachment: self.depth_attachment.0,
                },
            )
        }
    }

    /// A pass that draws to nothing yet.
    pub fn new() -> (descriptor: MTLRenderPassDescriptor)
        ensures
            descriptor.color_attachments.0.entries@.len() == 0,
            descriptor.color_attachments.0.fallback
                == MTLRenderPassColorAttachmentDescriptor::initial(),
            descriptor.depth_attachment == MTLRenderPassDepthAttachmentDescriptor::initial(),
    {
        MTLRenderPassDescriptor {
            color_attachments: MTLRenderPassColorAttachmentDescriptorArray::filled(
                MTLRenderPassColorAttachmentDescriptor::new(),
            ),
            depth_attachment: MTLRenderPassDepthAttachmentDescriptor::new(),
        }
    }

    /// The colour attachments, to read and to set.
    pub fn get_color_attachments(
        &mut self,
    ) -> (attachments: &mut MTLRenderPassColorAttachmentDescriptorArray)
        ensures
            *attachments == old(self).color_attachments,
            final(self).color_attachments == *final(attachments),
            final(self).depth_attachment == old(self).depth_attachment,
    {
        &mut self.color_attachments
    }

    /// The depth attachment, to read and to set.
    pub fn get_depth_attachment(
        &mut self,
    ) -> (attachment: &mut MTLRenderPassDepthAttachmentDescriptor)
        ensures
            *attachment == old(self).depth_attachment,
            final(self).depth_attachment == *final(attachment),
            final(self).color_attachments == old(self).color_attachments,
    {
        &mut self.depth_attachment
    }

    /// The attachments of the pass that have a texture.
    pub fn get_targets(&self) -> (targets: Vec<Target>)
        ensures
            targets@ == self.targets(),
    {
        let mut targets: Vec<Target> = Vec::new();
        let mut index: u64 = 0;
        while index < MAX_COLOR_ATTACHMENTS
            invariant
                index <= MAX_COLOR_ATTACHMENTS,
                targets@ == color_targets(self.color_attachments.0, index as nat),
            decreases MAX_COLOR_ATTACHMENTS - index,
        {
            let attachment = self.color_attachments.object_at_indexed_subscript(index).0;
            if attachment.texture != 0 {
                targets.push(Target { class: ResourceClass::ColorAttachment, index, attachment });
            }
            index = index + 1;
        }
        let depth = self.depth_attachment.0;
        if depth.texture != 0 {
            targets.push(
                Target { class: ResourceClass::DepthAttachment, index: 0, attachment: depth },
            );
        }
        targets
    }
}

/// A handle to a render encoder.
#[derive(Debug, PartialEq, Eq)]
pub struct MTLRenderCommandEncoder(pub Handle);

impl MTLCommandEncoder for MTLRenderCommandEncoder {
    open spec fn raw(&self) -> u64 {
        self.0.0
    }

    open spec fn kind(&self) -> ObjectKind {
        ObjectKind::RenderCommandEncoder
    }

    fn get_obj(&self) -> (raw: u64) {
        self.0.0
    }

    fn end_encoding(&self, driver: &mut Driver) -> (res: Result<(), MetalError>) {
        end(driver, self.0.0, ObjectKind::RenderCommandEncoder)
    }
}

impl MTLRenderCommandEncoder {

    /// Sets the pipeline state that later draws run.
    pub fn set_render_pipeline_state(
        &self,
        driver: &mut Driver,
        state: MTLRenderPipelineState,
    ) -> (res: Result<(), MetalError>)
        ensures
            match old(driver)@.take_fault(
                self.0.0,
                ObjectKind::RenderCommandEncoder,
                state.0.0,
                ObjectKind::RenderPipelineState,
            ) {
                Some(e) => res == Err::<(), MetalError>(e) && final(driver)@ == old(driver)@,
                None => res is Ok && final(driver)@ == old(driver)@.set_pipeline(
                    self.0.0,
                    state.0.0,
                ),
            },
            old(driver)@.leads_to(final(driver)@),
    {
        set_pipeline(
            driver,
            self.0.0,
            ObjectKind::RenderCommandEncoder,
            state.0.0,
            ObjectKind::RenderPipelineState,
        )
    }

    /// Sets whether triangles are filled or outlined.
    pub fn set_triangle_fill_mode(
        &self,
        driver: &mut Driver,
        fill_mode: u64,
    ) -> (res: Result<(), MetalError>)
        ensures
            match old(driver)@.encoder_fault(self.0.0, ObjectKind::RenderCommandEncoder) {
                Some(e) => res == Err::<(), MetalError>(e) && final(driver)@ == old(driver)@,
                None => res is Ok && final(driver)@ == old(driver)@.record(
                    self.0.0,
                    (Call::SetTriangleFillMode { mode: fill_mode }),
                ),
            },
            old(driver)@.leads_to(final(driver)@),
    {
        record(
            driver,
            self.0.0,
            ObjectKind::RenderCommandEncoder,
            Call::SetTriangleFillMode { mode: fill_mode },
        )
    }

    /// Sets which winding faces the viewer.
    pub fn set_front_facing_winding(
        &self,
        driver: &mut Driver,
        face: u64,
    ) -> (res: Result<(), MetalError>)
        ensures
            match old(driver)@.encoder_fault(self.0.0, ObjectKind::RenderCommandEncoder) {
                Some(e) => res == Err::<(), MetalError>(e) && final(driver)@ == old(driver)@,
                None => res is Ok && final(driver)@ == old(driver)@.record(
                    self.0.0,
                    (Call::SetFrontFacingWinding { winding: face }),
                ),
            },
            old(driver)@.leads_to(final(driver)@),
    {
        record(
            driver,
            self.0.0,
            ObjectKind::RenderCommandEncoder,
            Call::SetFrontFacingWinding { winding: face },
        )
    }

    /// Sets which faces are left out.
    pub fn set_cull_mode(
        &self,
        driver: &mut Driver,
        cull_mode: u64,
    ) -> (res: Result<(), MetalError>)
        ensures
            match old(driver)@.encoder_fault(self.0.0, ObjectKind::RenderCommandEncoder) {
                Some(e) => res == Err::<(), MetalError>(e) && final(driver)@ == old(driver)@,
                None => res is Ok && final(driver)@ == old(driver)@.record(
                    self.0.0,
                    (Call::SetCullMode { mode: cull_mode }),
                ),
            },
            old(driver)@.leads_to(final(driver)@),
    {
        record(
            driver,
            self.0.0,
            ObjectKind::RenderCommandEncoder,
            Call::SetCullMode { mode: cull_mode },
        )
    }

    /// Sets how depths and stencils are tested and stored.
    pub fn set_depth_stencil_state(
        &self,
        driver: &mut Driver,
        state: MTLDepthStencilState,
    ) -> (res: Result<(), MetalError>)
        ensures
            match old(driver)@.take_fault(
                self.0.0,
                ObjectKind::RenderCommandEncoder,
                state.0.0,
                ObjectKind::DepthStencilState,
            ) {
                Some(e) => res == Err::<(), MetalError>(e) && final(driver)@ == old(driver)@,
                None => res is Ok && final(driver)@ == old(driver)@.record_with(
                    self.0.0,
                    (Call::SetDepthStencilState { state: state.0.0 }),
                    state.0.0,
                ),
            },
            old(driver)@.leads_to(final(driver)@),
    {
        record_with(
            driver,
            self.0.0,
            ObjectKind::RenderCommandEncoder,
            Call::SetDepthStencilState { state: state.0.0 },
            state.0.0,
            ObjectKind::DepthStencilState,
        )
    }

    /// Sets what is done with what lies beyond the near and far planes.
    pub fn set_depth_clip_mode(
        &self,
        driver: &mut Driver,
        mode: u64,
    ) -> (res: Result<(), MetalError>)
        ensures
            match old(driver)@.encoder_fault(self.0.0, ObjectKind::RenderCommandEncoder) {
                Some(e) => res == Err::<(), MetalError>(e) && final(driver)@ == old(driver)@,
                None => res is Ok && final(driver)@ == old(driver)@.record(
                    self.0.0,
                    (Call::SetDepthClipMode { mode }),
                ),
            },
            old(driver)@.leads_to(final(driver)@),
    {
        record(driver, self.0.0, ObjectKind::RenderCommandEncoder, Call::SetDepthClipMode { mode })
    }

    /// Sets the rectangle `(x, y, width, height)` outside of which nothing is drawn.
    pub fn set_scissor_rect(
        &self,
        driver: &mut Driver,
        rect: (u64, u64, u64, u64),
    ) -> (res: Result<(), MetalError>)
        ensures
            match old(driver)@.encoder_fault(self.0.0, ObjectKind::RenderCommandEncoder) {
                Some(e) => res == Err::<(), MetalError>(e) && final(driver)@ == old(driver)@,
                None => res is Ok && final(driver)@ == old(driver)@.record(
                    self.0.0,
                    (Call::SetScissorRect { x: rect.0, y: rect.1, width: rect.2, height: rect.3 }),
                ),
            },
            old(driver)@.leads_to(final(driver)@),
    {
        record(
            driver,
            self.0.0,
            ObjectKind::RenderCommandEncoder,
            Call::SetScissorRect { x: rect.0, y: rect.1, width: rect.2, height: rect.3 },
        )
    }

    /// Sets how it is counted what passes the tests, and where the count is written.
    pub fn set_visibility_result_mode(
        &self,
        driver: &mut Driver,
        mode: u64,
        offset: u64,
    ) -> (res: Result<(), MetalError>)
        ensures
            match old(driver)@.encoder_fault(self.0.0, ObjectKind::RenderCommandEncoder) {
                Some(e) => res == Err::<(), MetalError>(e) && final(driver)@ == old(driver)@,
                None => res is Ok && final(driver)@ == old(driver)@.record(
                    self.0.0,
                    (Call::SetVisibilityResultMode { mode, offset }),
                ),
            },
            old(driver)@.leads_to(final(driver)@),
    {
        record(
            driver,
            self.0.0,
            ObjectKind::RenderCommandEncoder,
            Call::SetVisibilityResultMode { mode, offset },
        )
    }

    /// Tells that `stages` use `resource` through an argument buffer, as `usage` says.
    pub fn use_resource<T: MTLResource>(
        &self,
        driver: &mut Driver,
        resource: T,
        usage: u64,
        stages: u64,
    ) -> (res: Result<(), MetalError>)
        ensures
            match old(driver)@.take_fault(
                self.0.0,
                ObjectKind::RenderCommandEncoder,
                resource.raw(),
                resource.kind(),
            ) {
                Some(e) => res == Err::<(), MetalError>(e) && final(driver)@ == old(driver)@,
                None => res is Ok && final(driver)@ == old(driver)@.record_with(
                    self.0.0,
                    (Call::UseResource { resource: resource.raw(), usage, stages }),
                    resource.raw(),
                ),
            },
            old(driver)@.leads_to(final(driver)@),
    {
        let raw = resource.get_obj();
        record_with(
            driver,
            self.0.0,
            ObjectKind::RenderCommandEncoder,
            Call::UseResource { resource: raw, usage, stages },
            raw,
            resource.get_kind(),
        )
    }

    /// Binds `buffer`, from `offset` on, to buffer slot `index` of the vertex function.
    pub fn set_vertex_buffer(
        &self,
        driver: &mut Driver,
        buffer: MTLBuffer,
        offset: u64,
        index: u64,
    ) -> (res: Result<(), MetalError>)
        ensures
            match old(driver)@.take_fault(
                self.0.0,
                ObjectKind::RenderCommandEncoder,
                buffer.0.0,
                ObjectKind::Buffer,
            ) {
                Some(e) => res == Err::<(), MetalError>(e) && final(driver)@ == old(driver)@,
                None => res is Ok && final(driver)@ == old(driver)@.bind(self.0.0, (Binding {
                    stage: Stage::Vertex,
                    class: ResourceClass::Buffer,
                    index,
                    resource: buffer.0.0,
                    offset,
                    length: 0,
                })),
            },
            old(driver)@.leads_to(final(driver)@),
    {
        bind(driver, self.0.0, ObjectKind::RenderCommandEncoder, Binding {
                    stage: Stage::Vertex,
                    class: ResourceClass::Buffer,
                    index,
                    resource: buffer.0.0,
                    offset,
                    length: 0,
                }, ObjectKind::Buffer)
    }

    /// Moves what buffer slot `index` of the vertex function holds to `offset`.
    pub fn set_vertex_buffer_offset(
        &self,
        driver: &mut Driver,
        offset: u64,
        index: u64,
    ) -> (res: Result<(), MetalError>)
        ensures
            match old(driver)@.encoder_fault(self.0.0, ObjectKind::RenderCommandEncoder) {
                Some(e) => res == Err::<(), MetalError>(e) && final(driver)@ == old(driver)@,
                None => res is Ok && final(driver)@ == old(driver)@.rebase(self.0.0, (Binding {
                    stage: Stage::Vertex,
                    class: ResourceClass::Buffer,
                    index,
                    resource: 0,
                    offset: 0,
                    length: 0,
                }), offset),
            },
            old(driver)@.leads_to(final(driver)@),
    {
        rebase(driver, self.0.0, ObjectKind::RenderCommandEncoder, Binding {
                    stage: Stage::Vertex,
                    class: ResourceClass::Buffer,
                    index,
                    resource: 0,
                    offset: 0,
                    length: 0,
                }, offset)
    }

    /// Binds a copy of `bytes` to buffer slot `index` of the vertex function.
    pub fn set_vertex_bytes(
        &self,
        driver: &mut Driver,
        bytes: &[u8],
        index: u64,
    ) -> (res: Result<(), MetalError>)
        ensures
            match old(driver)@.encoder_fault(self.0.0, ObjectKind::RenderCommandEncoder) {
                Some(e) => res == Err::<(), MetalError>(e) && final(driver)@ == old(driver)@,
                None => res is Ok && final(driver)@ == old(driver)@.bind_plain(self.0.0, (Binding {
                    stage: Stage::Vertex,
                    class: ResourceClass::Buffer,
                    index,
                    resource: 0,
                    offset: 0,
                    length: bytes@.len() as u64,
                })),
            },
            old(driver)@.leads_to(final(driver)@),
    {
        bind_plain(driver, self.0.0, ObjectKind::RenderCommandEncoder, Binding {
                    stage: Stage::Vertex,
                    class: ResourceClass::Buffer,
                    index,
                    resource: 0,
                    offset: 0,
                    length: bytes.len() as u64,
                })
    }

    /// Binds `state` to sampler slot `index` of the vertex function.
    pub fn set_vertex_sampler_state(
        &self,
        driver: &mut Driver,
        state: MTLSamplerState,
        index: u64,
    ) -> (res: Result<(), MetalError>)
        ensures
            match old(driver)@.take_fault(
                self.0.0,
                ObjectKind::RenderCommandEncoder,
                state.0.0,
                ObjectKind::SamplerState,
            ) {
                Some(e) => res == Err::<(), MetalError>(e) && final(driver)@ == old(driver)@,
                None => res is Ok && final(driver)@ == old(driver)@.bind(self.0.0, (Binding {
                    stage: Stage::Vertex,
                    class: ResourceClass::Sampler,
                    index,
                    resource: state.0.0,
                    offset: 0,
                    length: 0,
                })),
            },
            old(driver)@.leads_to(final(driver)@),
    {
        bind(driver, self.0.0, ObjectKind::RenderCommandEncoder, Binding {
                    stage: Stage::Vertex,
                    class: ResourceClass::Sampler,
                    index,
                    resource: state.0.0,
                    offset: 0,
                    length: 0,
                }, ObjectKind::SamplerState)
    }

    /// Binds `texture` to texture slot `index` of the vertex function.
    pub fn set_vertex_texture(
        &self,
        driver: &mut Driver,
        texture: MTLTexture,
        index: u64,
    ) -> (res: Result<(), MetalError>)
        ensures
            match old(driver)@.take_fault(
                self.0.0,
                ObjectKind::RenderCommandEncoder,
                texture.0.0,
                ObjectKind::Texture,
            ) {
                Some(e) => res == Err::<(), MetalError>(e) && final(driver)@ == old(driver)@,
                None => res is Ok && final(driver)@ == old(driver)@.bind(self.0.0, (Binding {
                    stage: Stage::Vertex,
                    class: ResourceClass::Texture,
                    index,
                    resource: texture.0.0,
                    offset: 0,
                    length: 0,
                })),
            },
            old(driver)@.leads_to(final(driver)@),
    {
        bind(driver, self.0.0, ObjectKind::RenderCommandEncoder, Binding {
                    stage: Stage::Vertex,
                    class: ResourceClass::Texture,
                    index,
                    resource: texture.0.0,
                    offset: 0,
                    length: 0,
                }, ObjectKind::Texture)
    }

    /// Binds `buffer`, from `offset` on, to buffer slot `index` of the fragment function.
    pub fn set_fragment_buffer(
        &self,
        driver: &mut Driver,
        buffer: MTLBuffer,
        offset: u64,
        index: u64,
    ) -> (res: Result<(), MetalError>)
        ensures
            match old(driver)@.take_fault(
                self.0.0,
                ObjectKind::RenderCommandEncoder,
                buffer.0.0,
                ObjectKind::Buffer,
            ) {
                Some(e) => res == Err::<(), MetalError>(e) && final(driver)@ == old(driver)@,
                None => res is Ok && final(driver)@ == old(driver)@.bind(self.0.0, (Binding {
                    stage: Stage::Fragment,
                    class: ResourceClass::Buffer,
                    index,
                    resource: buffer.0.0,
                    offset,
                    length: 0,
                })),
            },
            old(driver)@.leads_to(final(driver)@),
    {
        bind(driver, self.0.0, ObjectKind::RenderCommandEncoder, Binding {
                    stage: Stage::Fragment,
                    class: ResourceClass::Buffer,
                    index,
                    resource: buffer.0.0,
                    offset,
                    length: 0,
                }, ObjectKind::Buffer)
    }

    /// Moves what buffer slot `index` of the fragment function holds to `offset`.
    pub fn set_fragment_buffer_offset(
        &self,
        driver: &mut Driver,
        offset: u64,
        index: u64,
    ) -> (res: Result<(), MetalError>)
        ensures
            match old(driver)@.encoder_fault(self.0.0, ObjectKind::RenderCommandEncoder) {
                Some(e) => res == Err::<(), MetalError>(e) && final(driver)@ == old(driver)@,
                None => res is Ok && final(driver)@ == old(driver)@.rebase(self.0.0, (Binding {
                    stage: Stage::Fragment,
                    class: ResourceClass::Buffer,
                    index,
                    resource: 0,
                    offset: 0,
                    length: 0,
                }), offset),
            },
            old(driver)@.leads_to(final(driver)@),
    {
        rebase(driver, self.0.0, ObjectKind::RenderCommandEncoder, Binding {
                    stage: Stage::Fragment,
                    class: ResourceClass::Buffer,
                    index,
                    resource: 0,
                    offset: 0,
                    length: 0,
                }, offset)
    }

    /// Binds a copy of `bytes` to buffer slot `index` of the fragment function.
    pub fn set_fragment_bytes(
        &self,
        driver: &mut Driver,
        bytes: &[u8],
        index: u64,
    ) -> (res: Result<(), MetalError>)
        ensures
            match old(driver)@.encoder_fault(self.0.0, ObjectKind::RenderCommandEncoder) {
                Some(e) => res == Err::<(), MetalError>(e) && final(driver)@ == old(driver)@,
                None => res is Ok && final(driver)@ == old(driver)@.bind_plain(self.0.0, (Binding {
                    stage: Stage::Fragment,
                    class: ResourceClass::Buffer,
                    index,
                    resource: 0,
                    offset: 0,
                    length: bytes@.len() as u64,
                })),
            },
            old(driver)@.leads_to(final(driver)@),
    {
        bind_plain(driver, self.0.0, ObjectKind::RenderCommandEncoder, Binding {
                    stage: Stage::Fragment,
                    class: ResourceClass::Buffer,
                    index,
                    resource: 0,
                    offset: 0,
                    length: bytes.len() as u64,
                })
    }

    /// Binds `state` to sampler slot `index` of the fragment function.
    pub fn set_fragment_sampler_state(
        &self,
        driver: &mut Driver,
        state: MTLSamplerState,
        index: u64,
    ) -> (res: Result<(), MetalError>)
        ensures
            match old(driver)@.take_fault(
                self.0.0,
                ObjectKind::RenderCommandEncoder,
                state.0.0,
                ObjectKind::SamplerState,
            ) {
                Some(e) => res == Err::<(), MetalError>(e) && final(driver)@ == old(driver)@,
                None => res is Ok && final(driver)@ == old(driver)@.bind(self.0.0, (Binding {
                    stage: Stage::Fragment,
                    class: ResourceClass::Sampler,
                    index,
                    resource: state.0.0,
                    offset: 0,
                    length: 0,
                })),
            },
            old(driver)@.leads_to(final(driver)@),
    {
        bind(driver, self.0.0, ObjectKind::RenderCommandEncoder, Binding {
                    stage: Stage::Fragment,
                    class: ResourceClass::Sampler,
                    index,
                    resource: state.0.0,
                    offset: 0,
                    length: 0,
                }, ObjectKind::SamplerState)
    }

    /// Binds `texture` to texture slot `index` of the fragment function.
    pub fn set_fragment_texture(
        &self,
        driver: &mut Driver,
        texture: MTLTexture,
        index: u64,
    ) -> (res: Result<(), MetalError>)
        ensures
            match old(driver)@.take_fault(
                self.0.0,
                ObjectKind::RenderCommandEncoder,
                texture.0.0,
                ObjectKind::Texture,
            ) {
                Some(e) => res == Err::<(), MetalError>(e) && final(driver)@ == old(driver)@,
                None => res is Ok && final(driver)@ == old(driver)@.bind(self.0.0, (Binding {
                    stage: Stage::Fragment,
                    class: ResourceClass::Texture,
                    index,
                    resource: texture.0.0,
                    offset: 0,
                    length: 0,
                })),
            },
            old(driver)@.leads_to(final(driver)@),
    {
        bind(driver, self.0.0, ObjectKind::RenderCommandEncoder, Binding {
                    stage: Stage::Fragment,
                    class: ResourceClass::Texture,
                    index,
                    resource: texture.0.0,
                    offset: 0,
                    length: 0,
                }, ObjectKind::Texture)
    }

    /// Sets the buffer from which the tessellation factors of the patches are read.
    pub fn set_tessellation_factor_buffer(
        &self,
        driver: &mut Driver,
        buffer: MTLBuffer,
        offset: u64,
        instance_stride: u64,
    ) -> (res: Result<(), MetalError>)
        ensures
            match old(driver)@.take_fault(
                self.0.0,
                ObjectKind::RenderCommandEncoder,
                buffer.0.0,
                ObjectKind::Buffer,
            ) {
                Some(e) => res == Err::<(), MetalError>(e) && final(driver)@ == old(driver)@,
                None => res is Ok && final(driver)@ == old(driver)@.record_with(
                    self.0.0,
                    (Call::SetTessellationFactorBuffer {
                        buffer: buffer.0.0,
                        offset,
                        instance_stride,
                    }),
                    buffer.0.0,
                ),
            },
            old(driver)@.leads_to(final(driver)@),
    {
        record_with(
            driver,
            self.0.0,
            ObjectKind::RenderCommandEncoder,
            Call::SetTessellationFactorBuffer { buffer: buffer.0.0, offset, instance_stride },
            buffer.0.0,
            ObjectKind::Buffer,
        )
    }

    /// Draws `instances` instances of `count` vertices from `start` on as primitives of the
    /// kind `primitive`.
    pub fn draw_primitives(
        &self,
        driver: &mut Driver,
        primitive: u64,
        start: u64,
        count: u64,
        instances: u64,
        base_instance: u64,
    ) -> (res: Result<(), MetalError>)
        ensures
            match old(driver)@.encoder_fault(self.0.0, ObjectKind::RenderCommandEncoder) {
                Some(e) => res == Err::<(), MetalError>(e) && final(driver)@ == old(driver)@,
                None => res is Ok && final(driver)@ == old(driver)@.record(
                    self.0.0,
                    (Call::DrawPrimitives { primitive, start, count, instances, base_instance }),
                ),
            },
            old(driver)@.leads_to(final(driver)@),
    {
        record(
            driver,
            self.0.0,
            ObjectKind::RenderCommandEncoder,
            Call::DrawPrimitives { primitive, start, count, instances, base_instance },
        )
    }

    /// Draws `instances` instances of primitives of the kind `primitive`, whose `count`
    /// vertices `index_buffer` names from `index_buffer_offset` on.
    pub fn draw_indexed_primitives(
        &self,
        driver: &mut Driver,
        primitive: u64,
        count: u64,
        index_type: u64,
        index_buffer: MTLBuffer,
        index_buffer_offset: u64,
        instances: u64,
        base_vertex: u64,
        base_instance: u64,
    ) -> (res: Result<(), MetalError>)
        ensures
            match old(driver)@.take_fault(
                self.0.0,
                ObjectKind::RenderCommandEncoder,
                index_buffer.0.0,
                ObjectKind::Buffer,
            ) {
                Some(e) => res == Err::<(), MetalError>(e) && final(driver)@ == old(driver)@,
                None => res is Ok && final(driver)@ == old(driver)@.record_with(
                    self.0.0,
                    (Call::DrawIndexedPrimitives {
                        primitive,
                        count,
                        index_type,
                        index_buffer: index_buffer.0.0,
                        index_buffer_offset,
                        instances,
                        base_vertex,
                        base_instance,
                    }),
                    index_buffer.0.0,
                ),
            },
            old(driver)@.leads_to(final(driver)@),
    {
        record_with(
            driver,
            self.0.0,
            ObjectKind::RenderCommandEncoder,
            Call::DrawIndexedPrimitives {
                primitive,
                count,
                index_type,
                index_buffer: index_buffer.0.0,
                index_buffer_offset,
                instances,
                base_vertex,
                base_instance,
            },
            index_buffer.0.0,
            ObjectKind::Buffer,
        )
    }
}

} // verus!
