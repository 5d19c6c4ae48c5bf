//! The state of the driver as mathematics: what every contract of this crate speaks of.
//!
//! Objects are numbered from 1 in the order of their creation; 0 is the null reference.
//! An object is never moved or renumbered, and its kind never changes.

use vstd::prelude::*;
use crate::error::MetalError;
use crate::descriptor::Attachment;
use crate::descriptor::DeviceInfo;
use crate::descriptor::LayerSettings;
use crate::descriptor::MTLArgumentDescriptor;
use crate::descriptor::MTLDepthStencilDescriptor;
use crate::descriptor::MTLHeapDescriptor;
use crate::descriptor::MTLIndirectCommandBufferDescriptor;
use crate::descriptor::MTLSamplerDescriptor;
use crate::descriptor::PipelineFacts;
use crate::descriptor::MTLTextureDescriptor;
use crate::geometry::MTLRegion;
use crate::geometry::MTLSize;

verus! {

/// What a foreign object is.
#[derive(Copy, Clone, Debug, PartialEq, Eq, Structural)]
pub enum ObjectKind {
    Device,
    CommandQueue,
    CommandBuffer,
    ComputeCommandEncoder,
    RenderCommandEncoder,
    ArgumentEncoder,
    IndirectCommandBuffer,
    Buffer,
    Texture,
    SamplerState,
    DepthStencilState,
    Heap,
    Library,
    Function,
    ComputePipelineState,
    RenderPipelineState,
    Event,
    SharedEvent,
    SharedEventHandle,
    SharedTextureHandle,
    Fence,
    Layer,
    Drawable,
}

/// How far a command buffer has come.
#[derive(Copy, Clone, Debug, PartialEq, Eq, Structural)]
pub enum Status {
    Unscheduled,
    Enqueued,
    Committed,
    Scheduled,
    Completed,
}

impl Status {
    /// The states in the order in which a command buffer passes through them.
    pub open spec fn rank(self) -> int {
        match self {
            Status::Unscheduled => 0,
            Status::Enqueued => 1,
            Status::Committed => 2,
            Status::Scheduled => 3,
            Status::Completed => 4,
        }
    }

    /// Whether `commit` has been called.
    pub open spec fn committed(self) -> bool {
        self.rank() >= 2
    }

    /// Whether `commit` has been called.
    pub fn is_committed(&self) -> (yes: bool)
        ensures
            yes == self.committed(),
    {
        match self {
            Status::Unscheduled => false,
            Status::Enqueued => false,
            Status::Committed => true,
            Status::Scheduled => true,
            Status::Completed => true,
        }
    }
}

/// The shader stage that a binding serves.
#[derive(Copy, Clone, Debug, PartialEq, Eq, Structural)]
pub enum Stage {
    Vertex,
    Fragment,
    Kernel,
    /// No stage of its own: what an argument encoder writes serves whichever stage reads it.
    Any,
}

/// The table of an encoder that a binding goes to.
#[derive(Copy, Clone, Debug, PartialEq, Eq, Structural)]
pub enum ResourceClass {
    Buffer,
    Texture,
    Sampler,
    ThreadgroupMemory,
    ColorAttachment,
    DepthAttachment,
    RenderPipeline,
    ComputePipeline,
}

/// What is attached to a numbered slot of one stage: a resource from `offset` on, or, with
/// no resource, `length` bytes that the encoder holds itself.
#[derive(Copy, Clone, Debug, PartialEq, Eq, Structural)]
pub struct Binding {
    pub stage: Stage,
    pub class: ResourceClass,
    pub index: u64,
    pub resource: u64,
    pub offset: u64,
    pub length: u64,
}

impl Binding {
    /// Whether the two bindings go to the same slot.
    pub open spec fn same_slot(self, other: Binding) -> bool {
        self.stage == other.stage && self.class == other.class && self.index == other.index
    }

    /// Whether the two bindings go to the same slot.
    pub fn shares_slot(&self, other: &Binding) -> (yes: bool)
        ensures
            yes == self.same_slot(*other),
    {
        self.stage == other.stage && self.class == other.class && self.index == other.index
    }
}

/// `bindings` without those that go to the slot of `binding`.
pub open spec fn without_slot(bindings: Seq<Binding>, binding: Binding) -> Seq<Binding>
    decreases bindings.len(),
{
    if bindings.len() == 0 {
        bindings
    } else {
        let rest = without_slot(bindings.drop_last(), binding);
        if bindings.last().same_slot(binding) {
            rest
        } else {
            rest.push(bindings.last())
        }
    }
}

/// `bindings` after `binding` is made: what was bound to its slot is gone, and `binding`
/// is the latest.
pub open spec fn rebind(bindings: Seq<Binding>, binding: Binding) -> Seq<Binding> {
    without_slot(bindings, binding).push(binding)
}

/// `bindings` with `offset` as the offset of what is bound to the slot of `probe`.
pub open spec fn reoffset(bindings: Seq<Binding>, probe: Binding, offset: u64) -> Seq<Binding> {
    Seq::new(
        bindings.len(),
        |i: int|
            if bindings[i].same_slot(probe) {
                Binding { offset, ..bindings[i] }
            } else {
                bindings[i]
            },
    )
}

/// What is bound to the slot of `probe` in `bindings`: the latest binding made to it.
pub open spec fn bound(bindings: Seq<Binding>, probe: Binding) -> Option<Binding>
    decreases bindings.len(),
{
    if bindings.len() == 0 {
        None
    } else if bindings.last().same_slot(probe) {
        Some(bindings.last())
    } else {
        bound(bindings.drop_last(), probe)
    }
}

/// A piece of work as the native layer receives it, arguments packed.
#[derive(Copy, Clone, Debug, PartialEq, Eq, Structural)]
pub enum Call {
    DispatchThreadgroups { threadgroups_per_grid: MTLSize, threads_per_threadgroup: MTLSize },
    DispatchThreads { threads_per_grid: MTLSize, threads_per_threadgroup: MTLSize },
    DispatchThreadgroupsIndirect { buffer: u64, offset: u64, threads_per_threadgroup: MTLSize },
    DrawPrimitives { primitive: u64, start: u64, count: u64, instances: u64, base_instance: u64 },
    DrawIndexedPrimitives {
        primitive: u64,
        count: u64,
        index_type: u64,
        index_buffer: u64,
        index_buffer_offset: u64,
        instances: u64,
        base_vertex: u64,
        base_instance: u64,
    },
    PresentDrawable { drawable: u64 },
    UseResource { resource: u64, usage: u64, stages: u64 },
    UseHeap { heap: u64 },
    UpdateFence { fence: u64 },
    WaitForFence { fence: u64 },
    SetTriangleFillMode { mode: u64 },
    SetFrontFacingWinding { winding: u64 },
    SetCullMode { mode: u64 },
    SetDepthStencilState { state: u64 },
    SetDepthClipMode { mode: u64 },
    SetScissorRect { x: u64, y: u64, width: u64, height: u64 },
    SetVisibilityResultMode { mode: u64, offset: u64 },
    SetTessellationFactorBuffer { buffer: u64, offset: u64, instance_stride: u64 },
    /// A render pass draws to `attachment` as its attachment `index` of `class`.
    Attach { class: ResourceClass, index: u64, attachment: Attachment },
}

/// One recorded command: the call, the encoder that issued it (0 for the command buffer
/// itself), the pipeline state then set, and the bindings then in force, in bind order.
pub struct CommandView {
    pub encoder: u64,
    pub pipeline: u64,
    pub call: Call,
    pub bindings: Seq<Binding>,
}

/// What an object holds beyond its reference count.
#[allow(inconsistent_fields)]
pub enum PayloadView {
    /// Nothing that this model follows.
    Plain,
    /// A device: what it is like, its name, and the families and feature sets it supports.
    Device { info: DeviceInfo, name: Seq<char>, families: Seq<u64>, feature_sets: Seq<u64> },
    /// A queue: its device, how many command buffers it takes at a time, and its command
    /// buffers in the order in which they will run.
    CommandQueue { device: u64, capacity: u64, order: Seq<u64> },
    /// A command buffer: its queue, its state, whether it retains what is bound through
    /// its encoders, its open encoder (0 if none), and its commands in encoding order.
    CommandBuffer {
        queue: u64,
        status: Status,
        retains: bool,
        encoder: u64,
        commands: Seq<CommandView>,
    },
    /// An encoder: its command buffer, how its work is dispatched, the pipeline state set,
    /// and its bindings in bind order.
    Encoder { buffer: u64, dispatch: u64, pipeline: u64, bindings: Seq<Binding> },
    /// A buffer: its length in bytes, and the options it was made with.
    Buffer { length: u64, options: u64 },
    /// A texture: what it was made from, and, for a view, the texture or buffer whose
    /// memory it shows, and the level and slice of the parent at which it starts.
    Texture {
        descriptor: MTLTextureDescriptor,
        parent: u64,
        buffer: u64,
        level: u64,
        slice: u64,
        shareable: bool,
    },
    /// A heap: what it was made from, how many of its bytes are given out, and whether
    /// its memory may be taken back.
    Heap { descriptor: MTLHeapDescriptor, used: u64, purgeable: u64 },
    /// A library: the names of its functions.
    Library { functions: Seq<Seq<char>> },
    /// A function of a library, by its name.
    Function { library: u64, name: Seq<char> },
    /// A layer: its settings, and the drawables it has handed out.
    Layer { settings: LayerSettings, vended: Seq<u64> },
    /// A drawable: its layer, its texture, and whether it has been presented.
    Drawable { layer: u64, texture: u64, presented: bool },
    /// A sampler state: what it was made from.
    Sampler { descriptor: MTLSamplerDescriptor },
    /// A pipeline state: what the native layer says of it, and the functions it runs, as
    /// they were when it was made: the kernel, or the vertex and the fragment function.
    Pipeline { facts: PipelineFacts, first: u64, second: u64 },
    /// A depth and stencil state: what it was made from.
    DepthStencil { descriptor: MTLDepthStencilDescriptor },
    /// An indirect command buffer: what it was made from, how many commands it takes, and
    /// its options.
    Indirect { descriptor: MTLIndirectCommandBufferDescriptor, capacity: u64, options: u64 },
    /// A shared event: the value it has been signalled with.
    Signal { value: u64 },
    /// An argument encoder: the arguments it lays out; the buffer it writes to, and from
    /// which offset and at which element of an array of argument blocks; and what it has
    /// written.
    Arguments {
        arguments: Seq<MTLArgumentDescriptor>,
        buffer: u64,
        offset: u64,
        element: u64,
        entries: Seq<Binding>,
    },
}

/// One transfer of bytes between the caller's memory and a texture.
#[derive(Copy, Clone, Debug, PartialEq, Eq, Structural)]
pub struct Transfer {
    pub texture: u64,
    /// Whether the bytes went into the texture.
    pub write: bool,
    pub region: MTLRegion,
    pub mipmap_level: u64,
    pub slice: u64,
    pub bytes_per_row: u64,
    pub bytes_per_image: u64,
    /// How many bytes the caller's memory holds.
    pub length: u64,
}

/// One foreign object.
pub struct ObjectView {
    pub kind: ObjectKind,
    /// The references that handles and the native layer hold.
    pub strong: nat,
    /// Those among them that the native layer holds for itself.
    pub native: nat,
    /// The command buffers that keep this object alive until they complete.
    pub pins: Seq<u64>,
    pub payload: PayloadView,
}

/// The whole driver: its objects, object `raw` at position `raw - 1`; the numbers of the
/// devices of the system, in the order in which they were attached; and the transfers
/// between memory and textures, in the order in which they were made.
pub struct DriverView {
    pub objects: Seq<ObjectView>,
    pub devices: Seq<u64>,
    pub transfers: Seq<Transfer>,
}

/// Who holds the reference that a native call hands out.
#[derive(Copy, Clone, Debug, PartialEq, Eq, Structural)]
pub enum Ownership {
    /// The caller: the call created or copied the object for it.
    Owned,
    /// The native layer: the caller must retain the object to keep it.
    Borrowed,
}

/// What a holder of a handle can do to the count of its object.
#[derive(Copy, Clone, Debug, PartialEq, Eq, Structural)]
pub enum RefOp {
    /// Make a second handle.
    Clone,
    /// Give a handle up.
    Drop,
}

/// By how many the clones among `ops` outnumber the drops.
pub open spec fn surplus(ops: Seq<RefOp>) -> int
    decreases ops.len(),
{
    if ops.len() == 0 {
        0
    } else {
        surplus(ops.drop_last()) + if ops.last() == RefOp::Clone {
            1int
        } else {
            -1int
        }
    }
}

/// Whether every drop in `ops` has a clone of its own before it.
pub open spec fn drops_only_clones(ops: Seq<RefOp>) -> bool {
    forall|k: int| 0 <= k <= ops.len() ==> surplus(#[trigger] ops.take(k)) >= 0
}

impl ObjectView {
    /// A new object once its first handle is made. Where the caller owns the reference that
    /// the native call hands out, that is the only one; where the native layer keeps it, the
    /// handle has retained a second.
    pub open spec fn handed_out(
        kind: ObjectKind,
        ownership: Ownership,
        payload: PayloadView,
    ) -> ObjectView {
        ObjectView {
            kind,
            strong: if ownership == Ownership::Borrowed {
                2
            } else {
                1
            },
            native: if ownership == Ownership::Borrowed {
                1
            } else {
                0
            },
            pins: Seq::empty(),
            payload,
        }
    }

    /// This object in state `status`, if it is a command buffer.
    pub open spec fn with_status(self, status: Status) -> ObjectView {
        match self.payload {
            PayloadView::CommandBuffer {
                queue,
                status: _,
                retains,
                encoder,
                commands,
            } => ObjectView {
                payload: PayloadView::CommandBuffer { queue, status, retains, encoder, commands },
                ..self
            },
            _ => self,
        }
    }

    /// This object with `encoder` as its open encoder, if it is a command buffer.
    pub open spec fn with_encoder(self, encoder: u64) -> ObjectView {
        match self.payload {
            PayloadView::CommandBuffer {
                queue,
                status,
                retains,
                encoder: _,
                commands,
            } => ObjectView {
                payload: PayloadView::CommandBuffer { queue, status, retains, encoder, commands },
                ..self
            },
            _ => self,
        }
    }

    /// This object with `command` after its commands, if it is a command buffer.
    pub open spec fn with_command(self, command: CommandView) -> ObjectView {
        match self.payload {
            PayloadView::CommandBuffer { queue, status, retains, encoder, commands } => ObjectView {
                payload: PayloadView::CommandBuffer {
                    queue,
                    status,
                    retains,
                    encoder,
                    commands: commands.push(command),
                },
                ..self
            },
            _ => self,
        }
    }

    /// This object with `buffer` after the command buffers in its order, if it is a queue.
    pub open spec fn with_enlisted(self, buffer: u64) -> ObjectView {
        match self.payload {
            PayloadView::CommandQueue { device, capacity, order } => ObjectView {
                payload: PayloadView::CommandQueue { device, capacity, order: order.push(buffer) },
                ..self
            },
            _ => self,
        }
    }

    /// This object with `bindings` and `pipeline`, if it is an encoder.
    pub open spec fn with_bindings(self, bindings: Seq<Binding>) -> ObjectView {
        match self.payload {
            PayloadView::Encoder { buffer, dispatch, pipeline, bindings: _ } => ObjectView {
                payload: PayloadView::Encoder { buffer, dispatch, pipeline, bindings },
                ..self
            },
            _ => self,
        }
    }

    /// This object with `pipeline` as the pipeline state set, if it is an encoder.
    pub open spec fn with_pipeline(self, pipeline: u64) -> ObjectView {
        match self.payload {
            PayloadView::Encoder { buffer, dispatch, pipeline: _, bindings } => ObjectView {
                payload: PayloadView::Encoder { buffer, dispatch, pipeline, bindings },
                ..self
            },
            _ => self,
        }
    }

    /// This object with `settings`, if it is a layer.
    pub open spec fn with_settings(self, settings: LayerSettings) -> ObjectView {
        match self.payload {
            PayloadView::Layer { settings: _, vended } => ObjectView {
                payload: PayloadView::Layer { settings, vended },
                ..self
            },
            _ => self,
        }
    }

    /// This object with `drawable` after the drawables it has handed out, if it is a layer.
    pub open spec fn with_vended(self, drawable: u64) -> ObjectView {
        match self.payload {
            PayloadView::Layer { settings, vended } => ObjectView {
                payload: PayloadView::Layer { settings, vended: vended.push(drawable) },
                ..self
            },
            _ => self,
        }
    }

    /// This object presented, if it is a drawable.
    pub open spec fn with_presented(self) -> ObjectView {
        match self.payload {
            PayloadView::Drawable { layer, texture, presented: _ } => ObjectView {
                payload: PayloadView::Drawable { layer, texture, presented: true },
                ..self
            },
            _ => self,
        }
    }

    /// This object with `used` of its bytes given out, if it is a heap.
    pub open spec fn with_used(self, used: u64) -> ObjectView {
        match self.payload {
            PayloadView::Heap { descriptor, used: _, purgeable } => ObjectView {
                payload: PayloadView::Heap { descriptor, used, purgeable },
                ..self
            },
            _ => self,
        }
    }

    /// This object with `purgeable` for whether its memory may be taken back, if it is a
    /// heap.
    pub open spec fn with_purgeable(self, purgeable: u64) -> ObjectView {
        match self.payload {
            PayloadView::Heap { descriptor, used, purgeable: _ } => ObjectView {
                payload: PayloadView::Heap { descriptor, used, purgeable },
                ..self
            },
            _ => self,
        }
    }

    /// This object signalled with `value`, if it is a shared event.
    pub open spec fn with_signal(self, value: u64) -> ObjectView {
        match self.payload {
            PayloadView::Signal { value: _ } => ObjectView {
                payload: PayloadView::Signal { value },
                ..self
            },
            _ => self,
        }
    }

    /// This object writing to element `element` of the array that `buffer` holds from
    /// `offset` on, if it is an argument encoder.
    pub open spec fn with_target(self, buffer: u64, offset: u64, element: u64) -> ObjectView {
        match self.payload {
            PayloadView::Arguments {
                arguments,
                buffer: _,
                offset: _,
                element: _,
                entries,
            } => ObjectView {
                payload: PayloadView::Arguments { arguments, buffer, offset, element, entries },
                ..self
            },
            _ => self,
        }
    }

    /// This object with `entries` written, if it is an argument encoder.
    pub open spec fn with_entries(self, entries: Seq<Binding>) -> ObjectView {
        match self.payload {
            PayloadView::Arguments {
                arguments,
                buffer,
                offset,
                element,
                entries: _,
            } => ObjectView {
                payload: PayloadView::Arguments { arguments, buffer, offset, element, entries },
                ..self
            },
            _ => self,
        }
    }

    /// This object once the native layer has taken over one of the references that
    /// handles held.
    pub open spec fn kept(self) -> ObjectView {
        ObjectView { native: self.native + 1, ..self }
    }

    /// This object pinned by command buffer `buffer`, once.
    pub open spec fn pinned_by(self, buffer: u64) -> ObjectView {
        if self.pins.contains(buffer) {
            self
        } else {
            ObjectView { pins: self.pins.push(buffer), ..self }
        }
    }

    /// Whether the payload is the one that objects of this kind carry.
    pub open spec fn well_formed(self) -> bool {
        &&& self.native <= self.strong
        &&& self.strong <= u64::MAX
        &&& match self.payload {
            PayloadView::Plain => true,
            PayloadView::Device { .. } => self.kind == ObjectKind::Device,
            PayloadView::CommandQueue { .. } => self.kind == ObjectKind::CommandQueue,
            PayloadView::CommandBuffer { .. } => self.kind == ObjectKind::CommandBuffer
                && self.pins.len() == 0,
            PayloadView::Encoder { .. } => self.kind == ObjectKind::ComputeCommandEncoder
                || self.kind == ObjectKind::RenderCommandEncoder,
            PayloadView::Buffer { .. } => self.kind == ObjectKind::Buffer,
            PayloadView::Texture { .. } => self.kind == ObjectKind::Texture,
            PayloadView::Heap { descriptor, used, .. } => self.kind == ObjectKind::Heap && used
                <= descriptor.size,
            PayloadView::Library { .. } => self.kind == ObjectKind::Library,
            PayloadView::Function { .. } => self.kind == ObjectKind::Function,
            PayloadView::Layer { .. } => self.kind == ObjectKind::Layer,
            PayloadView::Drawable { .. } => self.kind == ObjectKind::Drawable,
            PayloadView::Sampler { .. } => self.kind == ObjectKind::SamplerState,
            PayloadView::Pipeline { .. } => self.kind == ObjectKind::ComputePipelineState
                || self.kind == ObjectKind::RenderPipelineState,
            PayloadView::DepthStencil { .. } => self.kind == ObjectKind::DepthStencilState,
            PayloadView::Indirect { .. } => self.kind == ObjectKind::IndirectCommandBuffer,
            PayloadView::Signal { .. } => self.kind == ObjectKind::SharedEvent,
            PayloadView::Arguments { .. } => self.kind == ObjectKind::ArgumentEncoder,
        }
    }
}

impl DriverView {
    /// Whether `raw` numbers an object that was ever created.
    pub open spec fn has(self, raw: u64) -> bool {
        1 <= raw <= self.objects.len()
    }

    /// The object numbered `raw`.
    pub open spec fn get(self, raw: u64) -> ObjectView
        recommends
            self.has(raw),
    {
        self.objects[raw - 1]
    }

    /// This state with object `raw` replaced.
    pub open spec fn with(self, raw: u64, object: ObjectView) -> DriverView
        recommends
            self.has(raw),
    {
        DriverView { objects: self.objects.update(raw - 1, object), ..self }
    }

    /// This state with `transfer` after its transfers.
    pub open spec fn with_transfer(self, transfer: Transfer) -> DriverView {
        DriverView { transfers: self.transfers.push(transfer), ..self }
    }

    /// This state with one more object, which gets the next number.
    pub open spec fn plus(self, object: ObjectView) -> DriverView {
        DriverView { objects: self.objects.push(object), ..self }
    }

    /// Whether no further object can be numbered.
    pub open spec fn full(self) -> bool {
        self.objects.len() >= u64::MAX
    }

    /// The number that the next object gets.
    pub open spec fn next(self) -> u64
        recommends
            !self.full(),
    {
        (self.objects.len() + 1) as u64
    }

    /// What holds of every state that the driver reaches: each object is well formed.
    pub open spec fn sound(self) -> bool {
        forall|raw: u64| self.has(raw) ==> (#[trigger] self.get(raw)).well_formed()
    }

    /// The state of command buffer `raw`, if it is one.
    pub open spec fn status(self, raw: u64) -> Option<Status> {
        if self.has(raw) {
            match self.get(raw).payload {
                PayloadView::CommandBuffer { status, .. } => Some(status),
                _ => None,
            }
        } else {
            None
        }
    }

    /// Whether `raw` is an encoder and the open one of its command buffer. An encoder that
    /// is not open has ended.
    pub open spec fn open(self, raw: u64) -> bool {
        &&& self.has(raw)
        &&& self.get(raw).payload matches PayloadView::Encoder { buffer, .. }
        &&& self.has(buffer)
        &&& self.get(buffer).payload matches PayloadView::CommandBuffer { encoder, .. }
        &&& encoder == raw
    }

    /// The open encoder of command buffer `raw`; 0 if it has none or is no command buffer.
    pub open spec fn encoder_of(self, raw: u64) -> u64 {
        if self.has(raw) {
            match self.get(raw).payload {
                PayloadView::CommandBuffer { encoder, .. } => encoder,
                _ => 0,
            }
        } else {
            0
        }
    }

    /// The queue of command buffer `raw`; 0 if it is no command buffer.
    pub open spec fn queue_of(self, raw: u64) -> u64 {
        if self.has(raw) {
            match self.get(raw).payload {
                PayloadView::CommandBuffer { queue, .. } => queue,
                _ => 0,
            }
        } else {
            0
        }
    }

    /// Whether command buffer `raw` retains what is bound through its encoders.
    pub open spec fn retains(self, raw: u64) -> bool {
        &&& self.has(raw)
        &&& self.get(raw).payload matches PayloadView::CommandBuffer { retains, .. }
        &&& retains
    }

    /// The commands of command buffer `raw`, in encoding order.
    pub open spec fn commands(self, raw: u64) -> Seq<CommandView> {
        if self.has(raw) {
            match self.get(raw).payload {
                PayloadView::CommandBuffer { commands, .. } => commands,
                _ => Seq::empty(),
            }
        } else {
            Seq::empty()
        }
    }

    /// The command buffers of queue `raw`, in the order in which they will run.
    pub open spec fn order(self, raw: u64) -> Seq<u64> {
        if self.has(raw) {
            match self.get(raw).payload {
                PayloadView::CommandQueue { order, .. } => order,
                _ => Seq::empty(),
            }
        } else {
            Seq::empty()
        }
    }

    /// How many command buffers queue `raw` takes at a time; 0 if it is no queue.
    pub open spec fn capacity(self, raw: u64) -> u64 {
        if self.has(raw) {
            match self.get(raw).payload {
                PayloadView::CommandQueue { capacity, .. } => capacity,
                _ => 0,
            }
        } else {
            0
        }
    }

    /// The length of buffer `raw` in bytes; 0 if it is no buffer.
    pub open spec fn length(self, raw: u64) -> u64 {
        if self.has(raw) {
            match self.get(raw).payload {
                PayloadView::Buffer { length, .. } => length,
                _ => 0,
            }
        } else {
            0
        }
    }

    /// The options that buffer `raw` was made with; 0 if it is no buffer.
    pub open spec fn options(self, raw: u64) -> u64 {
        if self.has(raw) {
            match self.get(raw).payload {
                PayloadView::Buffer { options, .. } => options,
                _ => 0,
            }
        } else {
            0
        }
    }

    /// The command buffer of encoder `raw`; 0 if it is no encoder.
    pub open spec fn buffer_of(self, raw: u64) -> u64 {
        if self.has(raw) {
            match self.get(raw).payload {
                PayloadView::Encoder { buffer, .. } => buffer,
                _ => 0,
            }
        } else {
            0
        }
    }

    /// The bindings of encoder `raw`, in bind order.
    pub open spec fn bindings(self, raw: u64) -> Seq<Binding> {
        if self.has(raw) {
            match self.get(raw).payload {
                PayloadView::Encoder { bindings, .. } => bindings,
                _ => Seq::empty(),
            }
        } else {
            Seq::empty()
        }
    }

    /// How encoder `raw` dispatches its work: 0 in turn, as every encoder does that was not
    /// made otherwise.
    pub open spec fn dispatch_of(self, raw: u64) -> u64 {
        if self.has(raw) {
            match self.get(raw).payload {
                PayloadView::Encoder { dispatch, .. } => dispatch,
                _ => 0,
            }
        } else {
            0
        }
    }

    /// The pipeline state set on encoder `raw`; 0 if none is.
    pub open spec fn pipeline_of(self, raw: u64) -> u64 {
        if self.has(raw) {
            match self.get(raw).payload {
                PayloadView::Encoder { pipeline, .. } => pipeline,
                _ => 0,
            }
        } else {
            0
        }
    }

    /// What device `raw` is like; a device of which nothing is known where it is none.
    pub open spec fn device_info(self, raw: u64) -> DeviceInfo {
        if self.has(raw) {
            match self.get(raw).payload {
                PayloadView::Device { info, .. } => info,
                _ => DeviceInfo::initial(),
            }
        } else {
            DeviceInfo::initial()
        }
    }

    /// The name of device `raw`.
    pub open spec fn device_name(self, raw: u64) -> Seq<char> {
        if self.has(raw) {
            match self.get(raw).payload {
                PayloadView::Device { name, .. } => name,
                _ => Seq::empty(),
            }
        } else {
            Seq::empty()
        }
    }

    /// The families that device `raw` supports.
    pub open spec fn families(self, raw: u64) -> Seq<u64> {
        if self.has(raw) {
            match self.get(raw).payload {
                PayloadView::Device { families, .. } => families,
                _ => Seq::empty(),
            }
        } else {
            Seq::empty()
        }
    }

    /// The feature sets that device `raw` supports.
    pub open spec fn feature_sets(self, raw: u64) -> Seq<u64> {
        if self.has(raw) {
            match self.get(raw).payload {
                PayloadView::Device { feature_sets, .. } => feature_sets,
                _ => Seq::empty(),
            }
        } else {
            Seq::empty()
        }
    }

    /// The options that resource `raw` was made with; 0 if it is no buffer or texture.
    pub open spec fn resource_options(self, raw: u64) -> u64 {
        if self.has(raw) {
            match self.get(raw).payload {
                PayloadView::Buffer { options, .. } => options,
                PayloadView::Texture { descriptor, .. } => descriptor.resource_options,
                _ => 0,
            }
        } else {
            0
        }
    }

    /// What texture `raw` was made from; the default where it is no texture.
    pub open spec fn texture_descriptor(self, raw: u64) -> MTLTextureDescriptor {
        if self.has(raw) {
            match self.get(raw).payload {
                PayloadView::Texture { descriptor, .. } => descriptor,
                _ => MTLTextureDescriptor::initial(),
            }
        } else {
            MTLTextureDescriptor::initial()
        }
    }

    /// The texture that texture `raw` is a view of; 0 if it is none.
    pub open spec fn parent_texture(self, raw: u64) -> u64 {
        if self.has(raw) {
            match self.get(raw).payload {
                PayloadView::Texture { parent, .. } => parent,
                _ => 0,
            }
        } else {
            0
        }
    }

    /// The buffer that texture `raw` is a view of; 0 if it is none.
    pub open spec fn parent_buffer(self, raw: u64) -> u64 {
        if self.has(raw) {
            match self.get(raw).payload {
                PayloadView::Texture { buffer, .. } => buffer,
                _ => 0,
            }
        } else {
            0
        }
    }

    /// The level of its parent at which texture `raw` starts.
    pub open spec fn parent_level(self, raw: u64) -> u64 {
        if self.has(raw) {
            match self.get(raw).payload {
                PayloadView::Texture { level, .. } => level,
                _ => 0,
            }
        } else {
            0
        }
    }

    /// The slice of its parent at which texture `raw` starts.
    pub open spec fn parent_slice(self, raw: u64) -> u64 {
        if self.has(raw) {
            match self.get(raw).payload {
                PayloadView::Texture { slice, .. } => slice,
                _ => 0,
            }
        } else {
            0
        }
    }

    /// Whether texture `raw` can cross to another process.
    pub open spec fn shareable(self, raw: u64) -> bool {
        &&& self.has(raw)
        &&& self.get(raw).payload matches PayloadView::Texture { shareable, .. }
        &&& shareable
    }

    /// What heap `raw` was made from; the default where it is no heap.
    pub open spec fn heap_descriptor(self, raw: u64) -> MTLHeapDescriptor {
        if self.has(raw) {
            match self.get(raw).payload {
                PayloadView::Heap { descriptor, .. } => descriptor,
                _ => MTLHeapDescriptor::initial(),
            }
        } else {
            MTLHeapDescriptor::initial()
        }
    }

    /// How many bytes of heap `raw` are given out.
    pub open spec fn used(self, raw: u64) -> u64 {
        if self.has(raw) {
            match self.get(raw).payload {
                PayloadView::Heap { used, .. } => used,
                _ => 0,
            }
        } else {
            0
        }
    }

    /// Whether the memory of heap `raw` may be taken back, as a number.
    pub open spec fn purgeable(self, raw: u64) -> u64 {
        if self.has(raw) {
            match self.get(raw).payload {
                PayloadView::Heap { purgeable, .. } => purgeable,
                _ => 0,
            }
        } else {
            0
        }
    }

    /// The names of the functions of library `raw`.
    pub open spec fn functions(self, raw: u64) -> Seq<Seq<char>> {
        if self.has(raw) {
            match self.get(raw).payload {
                PayloadView::Library { functions } => functions,
                _ => Seq::empty(),
            }
        } else {
            Seq::empty()
        }
    }

    /// The name of function `raw`.
    pub open spec fn function_name(self, raw: u64) -> Seq<char> {
        if self.has(raw) {
            match self.get(raw).payload {
                PayloadView::Function { name, .. } => name,
                _ => Seq::empty(),
            }
        } else {
            Seq::empty()
        }
    }

    /// The settings of layer `raw`; the default where it is no layer.
    pub open spec fn settings(self, raw: u64) -> LayerSettings {
        if self.has(raw) {
            match self.get(raw).payload {
                PayloadView::Layer { settings, .. } => settings,
                _ => LayerSettings::initial(),
            }
        } else {
            LayerSettings::initial()
        }
    }

    /// The drawables that layer `raw` has handed out, in turn.
    pub open spec fn vended(self, raw: u64) -> Seq<u64> {
        if self.has(raw) {
            match self.get(raw).payload {
                PayloadView::Layer { vended, .. } => vended,
                _ => Seq::empty(),
            }
        } else {
            Seq::empty()
        }
    }

    /// The texture of drawable `raw`; 0 if it is no drawable.
    pub open spec fn drawable_texture(self, raw: u64) -> u64 {
        if self.has(raw) {
            match self.get(raw).payload {
                PayloadView::Drawable { texture, .. } => texture,
                _ => 0,
            }
        } else {
            0
        }
    }

    /// Whether `raw` is a drawable that its layer waits for: one that was handed out and
    /// has not been presented.
    pub open spec fn in_use(self, raw: u64) -> bool {
        &&& self.has(raw)
        &&& self.get(raw).payload matches PayloadView::Drawable { presented, .. }
        &&& !presented
    }

    /// What the native layer says of pipeline state `raw`; nothing where it is none.
    pub open spec fn pipeline_facts(self, raw: u64) -> PipelineFacts {
        if self.has(raw) {
            match self.get(raw).payload {
                PayloadView::Pipeline { facts, .. } => facts,
                _ => PipelineFacts::initial(),
            }
        } else {
            PipelineFacts::initial()
        }
    }

    /// The functions that pipeline state `raw` runs: the kernel and nothing, or the vertex
    /// and the fragment function.
    pub open spec fn pipeline_functions(self, raw: u64) -> (u64, u64) {
        if self.has(raw) {
            match self.get(raw).payload {
                PayloadView::Pipeline { first, second, .. } => (first, second),
                _ => (0, 0),
            }
        } else {
            (0, 0)
        }
    }

    /// What sampler state `raw` was made from; the default where it is none.
    pub open spec fn sampler_descriptor(self, raw: u64) -> MTLSamplerDescriptor {
        if self.has(raw) {
            match self.get(raw).payload {
                PayloadView::Sampler { descriptor, .. } => descriptor,
                _ => MTLSamplerDescriptor::initial(),
            }
        } else {
            MTLSamplerDescriptor::initial()
        }
    }

    /// What depth and stencil state `raw` was made from; the default where it is none.
    pub open spec fn depth_stencil_descriptor(self, raw: u64) -> MTLDepthStencilDescriptor {
        if self.has(raw) {
            match self.get(raw).payload {
                PayloadView::DepthStencil { descriptor, .. } => descriptor,
                _ => MTLDepthStencilDescriptor::initial(),
            }
        } else {
            MTLDepthStencilDescriptor::initial()
        }
    }

    /// What indirect command buffer `raw` was made from; the default where it is none.
    pub open spec fn indirect_descriptor(self, raw: u64) -> MTLIndirectCommandBufferDescriptor {
        if self.has(raw) {
            match self.get(raw).payload {
                PayloadView::Indirect { descriptor, .. } => descriptor,
                _ => MTLIndirectCommandBufferDescriptor::initial(),
            }
        } else {
            MTLIndirectCommandBufferDescriptor::initial()
        }
    }

    /// How many commands indirect command buffer `raw` takes.
    pub open spec fn indirect_capacity(self, raw: u64) -> u64 {
        if self.has(raw) {
            match self.get(raw).payload {
                PayloadView::Indirect { capacity, .. } => capacity,
                _ => 0,
            }
        } else {
            0
        }
    }

    /// The value that shared event `raw` has been signalled with.
    pub open spec fn signaled(self, raw: u64) -> u64 {
        if self.has(raw) {
            match self.get(raw).payload {
                PayloadView::Signal { value, .. } => value,
                _ => 0,
            }
        } else {
            0
        }
    }

    /// The buffer that argument encoder `raw` writes to; 0 if none is set.
    pub open spec fn argument_buffer(self, raw: u64) -> u64 {
        if self.has(raw) {
            match self.get(raw).payload {
                PayloadView::Arguments { buffer, .. } => buffer,
                _ => 0,
            }
        } else {
            0
        }
    }

    /// The offset from which argument encoder `raw` writes to its buffer.
    pub open spec fn argument_offset(self, raw: u64) -> u64 {
        if self.has(raw) {
            match self.get(raw).payload {
                PayloadView::Arguments { offset, .. } => offset,
                _ => 0,
            }
        } else {
            0
        }
    }

    /// The element of an array of argument blocks that argument encoder `raw` writes to.
    pub open spec fn argument_element(self, raw: u64) -> u64 {
        if self.has(raw) {
            match self.get(raw).payload {
                PayloadView::Arguments { element, .. } => element,
                _ => 0,
            }
        } else {
            0
        }
    }

    /// What argument encoder `raw` has written, in the order in which it was written.
    pub open spec fn entries(self, raw: u64) -> Seq<Binding> {
        if self.has(raw) {
            match self.get(raw).payload {
                PayloadView::Arguments { entries, .. } => entries,
                _ => Seq::empty(),
            }
        } else {
            Seq::empty()
        }
    }

    /// The arguments that argument encoder `raw` lays out.
    pub open spec fn arguments(self, raw: u64) -> Seq<MTLArgumentDescriptor> {
        if self.has(raw) {
            match self.get(raw).payload {
                PayloadView::Arguments { arguments, .. } => arguments,
                _ => Seq::empty(),
            }
        } else {
            Seq::empty()
        }
    }

    /// Why a native call on `parent`, an object of `kind`, cannot hand out a new object, if
    /// it cannot.
    pub open spec fn make_fault(self, parent: u64, kind: ObjectKind) -> Option<MetalError> {
        match self.fault(parent, kind) {
            Some(e) => Some(e),
            None => if self.full() {
                Some(MetalError::Exhausted)
            } else {
                None
            },
        }
    }

    /// Whether object `raw` of this state can be as it is in `later`: it keeps its kind; if
    /// it is a command buffer, it has not gone back to an earlier state; if it is an
    /// encoder that has ended, it has stayed ended; and if it is a queue, every command
    /// buffer has kept its place in its order.
    pub open spec fn object_evolves(self, later: DriverView, raw: u64) -> bool {
        &&& later.get(raw).kind == self.get(raw).kind
        &&& (self.status(raw) matches Some(before) ==> later.status(raw) matches Some(after)
            && before.rank() <= after.rank())
        &&& (!self.open(raw) ==> !later.open(raw))
        &&& self.order(raw).len() <= later.order(raw).len()
        &&& forall|i: int|
            0 <= i < self.order(raw).len() ==> #[trigger] later.order(raw)[i] == self.order(raw)[i]
    }

    /// Whether `later` can come after this state: objects and devices keep their numbers,
    /// and every object is in `later` as it can be.
    pub open spec fn evolves_to(self, later: DriverView) -> bool {
        &&& self.objects.len() <= later.objects.len()
        &&& self.devices.len() <= later.devices.len()
        &&& forall|i: int| 0 <= i < self.devices.len() ==> later.devices[i] == self.devices[i]
        &&& forall|raw: u64|
            #![trigger later.get(raw)]
            self.has(raw) ==> self.object_evolves(later, raw)
    }

    /// Whether `later` can come after this state, and is sound if this state is.
    pub open spec fn leads_to(self, later: DriverView) -> bool {
        &&& self.evolves_to(later)
        &&& self.sound() ==> later.sound()
    }

    /// Whether `raw` is a command buffer that someone holds and that has not completed.
    pub open spec fn pending(self, raw: u64) -> bool {
        &&& self.has(raw)
        &&& self.get(raw).strong > 0
        &&& self.status(raw) matches Some(status)
        &&& status != Status::Completed
    }

    /// How many of `pins` are pending command buffers.
    pub open spec fn count_pending(self, pins: Seq<u64>) -> nat
        decreases pins.len(),
    {
        if pins.len() == 0 {
            0
        } else {
            self.count_pending(pins.drop_last()) + if self.pending(pins.last()) {
                1nat
            } else {
                0nat
            }
        }
    }

    /// The reference count of `raw`: the references held, and one for each pending command
    /// buffer that pins the object. An object that was never created has none.
    pub open spec fn retain_count(self, raw: u64) -> nat {
        if self.has(raw) {
            self.get(raw).strong + self.count_pending(self.get(raw).pins)
        } else {
            0
        }
    }

    /// Whether `raw` is an object that has not been destroyed.
    pub open spec fn live(self, raw: u64) -> bool {
        self.retain_count(raw) > 0
    }

    /// Why a call on `raw` as an object of `kind` is refused, if it is.
    pub open spec fn fault(self, raw: u64, kind: ObjectKind) -> Option<MetalError> {
        if raw == 0 {
            Some(MetalError::NullHandle)
        } else if !self.live(raw) {
            Some(MetalError::Dangling)
        } else if self.get(raw).kind != kind {
            Some(MetalError::WrongKind)
        } else {
            None
        }
    }

    /// Why a retain of `raw` is refused, if it is. The null reference is retained in vain.
    pub open spec fn retain_fault(self, raw: u64) -> Option<MetalError> {
        if raw == 0 {
            None
        } else if !self.live(raw) {
            Some(MetalError::Dangling)
        } else if self.get(raw).strong >= u64::MAX {
            Some(MetalError::CountOverflow)
        } else {
            None
        }
    }

    /// The state after a retain of `raw` that is not refused.
    pub open spec fn retain(self, raw: u64) -> DriverView {
        if raw == 0 {
            self
        } else {
            self.with(raw, ObjectView { strong: self.get(raw).strong + 1, ..self.get(raw) })
        }
    }

    /// Why a release of `raw` is refused, if it is. The null reference is released in vain;
    /// a reference that the native layer holds for itself cannot be released by a caller.
    pub open spec fn release_fault(self, raw: u64) -> Option<MetalError> {
        if raw == 0 {
            None
        } else if !self.live(raw) {
            Some(MetalError::Dangling)
        } else if self.get(raw).strong <= self.get(raw).native {
            Some(MetalError::OverRelease)
        } else {
            None
        }
    }

    /// The state after `ops` were done to `raw` in turn, none of them refused.
    pub open spec fn after(self, raw: u64, ops: Seq<RefOp>) -> DriverView
        decreases ops.len(),
    {
        if ops.len() == 0 {
            self
        } else {
            let before = self.after(raw, ops.drop_last());
            match ops.last() {
                RefOp::Clone => before.retain(raw),
                RefOp::Drop => before.release(raw),
            }
        }
    }

    /// Whether none of `ops`, done to `raw` in turn, is refused.
    pub open spec fn accepts(self, raw: u64, ops: Seq<RefOp>) -> bool
        decreases ops.len(),
    {
        if ops.len() == 0 {
            true
        } else {
            let before = self.after(raw, ops.drop_last());
            &&& self.accepts(raw, ops.drop_last())
            &&& match ops.last() {
                RefOp::Clone => before.retain_fault(raw) is None,
                RefOp::Drop => before.release_fault(raw) is None,
            }
        }
    }

    /// The state after a release of `raw` that is not refused.
    pub open spec fn release(self, raw: u64) -> DriverView {
        if raw == 0 {
            self
        } else {
            self.with(
                raw,
                ObjectView { strong: (self.get(raw).strong - 1) as nat, ..self.get(raw) },
            )
        }
    }
}

} // verus!
