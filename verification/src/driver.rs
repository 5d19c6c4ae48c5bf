//! The driver: an in-memory stand-in for the native layer, which keeps every foreign object
//! with its reference count and follows what is done to it.

use vstd::prelude::*;
use vstd::string::StringExecFns;
use crate::error::MetalError;
use crate::handle::Handle;
use crate::ownership::ownership_of;
use crate::ownership::ownership_of_selector;
use crate::laws::lemma_leads_to_itself;
use crate::laws::lemma_plus_evolves;
use crate::laws::lemma_plus_leads_to;
use crate::laws::lemma_with_leads_to;
use crate::model::Binding;
use crate::model::Call;
use crate::model::CommandView;
use crate::model::DriverView;
use crate::model::ObjectKind;
use crate::model::ObjectView;
use crate::model::Ownership;
use crate::model::PayloadView;
use crate::model::Status;
use crate::model::Transfer;
use crate::descriptor::DeviceInfo;
use crate::descriptor::LayerSettings;
use crate::descriptor::MTLArgumentDescriptor;
use crate::descriptor::MTLDepthStencilDescriptor;
use crate::descriptor::MTLHeapDescriptor;
use crate::descriptor::MTLIndirectCommandBufferDescriptor;
use crate::descriptor::MTLSamplerDescriptor;
use crate::descriptor::PipelineFacts;
use crate::descriptor::MTLTextureDescriptor;

verus! {

/// One recorded command.
#[derive(Debug, PartialEq, Eq)]
pub struct Command {
    pub encoder: u64,
    pub pipeline: u64,
    pub call: Call,
    pub bindings: Vec<Binding>,
}

impl Command {
    pub open spec fn view(&self) -> CommandView {
        CommandView {
            encoder: self.encoder,
            pipeline: self.pipeline,
            call: self.call,
            bindings: self.bindings@,
        }
    }
}

#[allow(inconsistent_fields)]
pub(crate) enum Payload {
    Plain,
    Device { info: DeviceInfo, name: String, families: Vec<u64>, feature_sets: Vec<u64> },
    CommandQueue { device: u64, capacity: u64, order: Vec<u64> },
    CommandBuffer {
        queue: u64,
        status: Status,
        retains: bool,
        encoder: u64,
        commands: Vec<Command>,
    },
    Encoder { buffer: u64, dispatch: u64, pipeline: u64, bindings: Vec<Binding> },
    Buffer { length: u64, options: u64 },
    Texture {
        descriptor: MTLTextureDescriptor,
        parent: u64,
        buffer: u64,
        level: u64,
        slice: u64,
        shareable: bool,
    },
    Heap { descriptor: MTLHeapDescriptor, used: u64, purgeable: u64 },
    Library { functions: Vec<String> },
    Function { library: u64, name: String },
    Layer { settings: LayerSettings, vended: Vec<u64> },
    Drawable { layer: u64, texture: u64, presented: bool },
    Sampler { descriptor: MTLSamplerDescriptor },
    Pipeline { facts: PipelineFacts, first: u64, second: u64 },
    DepthStencil { descriptor: MTLDepthStencilDescriptor },
    Indirect { descriptor: MTLIndirectCommandBufferDescriptor, capacity: u64, options: u64 },
    Signal { value: u64 },
    Arguments {
        arguments: Vec<MTLArgumentDescriptor>,
        buffer: u64,
        offset: u64,
        element: u64,
        entries: Vec<Binding>,
    },
}

impl Payload {
    pub(crate) open spec fn view(&self) -> PayloadView {
        match self {
            Payload::Plain => PayloadView::Plain,
            Payload::Device { info, name, families, feature_sets } => PayloadView::Device {
                info: *info,
                name: name@,
                families: families@,
                feature_sets: feature_sets@,
            },
            Payload::CommandQueue { device, capacity, order } => PayloadView::CommandQueue {
                device: *device,
                capacity: *capacity,
                order: order@,
            },
            Payload::CommandBuffer { queue, status, retains, encoder, commands } => {
                PayloadView::CommandBuffer {
                    queue: *queue,
                    status: *status,
                    retains: *retains,
                    encoder: *encoder,
                    commands: commands@.map_values(|c: Command| c@),
                }
            },
            Payload::Encoder { buffer, dispatch, pipeline, bindings } => PayloadView::Encoder {
                buffer: *buffer,
                dispatch: *dispatch,
                pipeline: *pipeline,
                bindings: bindings@,
            },
            Payload::Buffer { length, options } => PayloadView::Buffer {
                length: *length,
                options: *options,
            },
            Payload::Texture { descriptor, parent, buffer, level, slice, shareable } => {
                PayloadView::Texture {
                    descriptor: *descriptor,
                    parent: *parent,
                    buffer: *buffer,
                    level: *level,
                    slice: *slice,
                    shareable: *shareable,
                }
            },
            Payload::Heap { descriptor, used, purgeable } => PayloadView::Heap {
                descriptor: *descriptor,
                used: *used,
                purgeable: *purgeable,
            },
            Payload::Library { functions } => PayloadView::Library {
                functions: functions@.map_values(|name: String| name@),
            },
            Payload::Function { library, name } => PayloadView::Function {
                library: *library,
                name: name@,
            },
            Payload::Layer { settings, vended } => PayloadView::Layer {
                settings: *settings,
                vended: vended@,
            },
            Payload::Drawable { layer, texture, presented } => PayloadView::Drawable {
                layer: *layer,
                texture: *texture,
                presented: *presented,
            },
            Payload::Sampler { descriptor } => PayloadView::Sampler { descriptor: *descriptor },
            Payload::Pipeline { facts, first, second } => PayloadView::Pipeline {
                facts: *facts,
                first: *first,
                second: *second,
            },
            Payload::DepthStencil { descriptor } => PayloadView::DepthStencil {
                descriptor: *descriptor,
            },
            Payload::Indirect { descriptor, capacity, options } => PayloadView::Indirect {
                descriptor: *descriptor,
                capacity: *capacity,
                options: *options,
            },
            Payload::Signal { value } => PayloadView::Signal { value: *value },
            Payload::Arguments { arguments, buffer, offset, element, entries } => {
                PayloadView::Arguments {
                    arguments: arguments@,
                    buffer: *buffer,
                    offset: *offset,
                    element: *element,
                    entries: entries@,
                }
            },
        }
    }
}

pub(crate) struct Object {
    pub(crate) kind: ObjectKind,
    pub(crate) strong: u64,
    pub(crate) native: u64,
    pub(crate) pins: Vec<u64>,
    pub(crate) payload: Payload,
}

impl Object {
    pub(crate) open spec fn view(&self) -> ObjectView {
        ObjectView {
            kind: self.kind,
            strong: self.strong as nat,
            native: self.native as nat,
            pins: self.pins@,
            payload: self.payload@,
        }
    }
}

/// A copy of `bindings`.
pub(crate) fn copy_bindings(bindings: &Vec<Binding>) -> (copy: Vec<Binding>)
    ensures
        copy@ == bindings@,
{
    let mut copy: Vec<Binding> = Vec::new();
    let mut i: usize = 0;
    while i < bindings.len()
        invariant
            i <= bindings.len(),
            copy@ == bindings@.take(i as int),
        decreases bindings.len() - i,
    {
        copy.push(bindings[i]);
        assert(bindings@.take(i + 1) == bindings@.take(i as int).push(bindings@[i as int]));
        i = i + 1;
    }
    assert(bindings@.take(i as int) == bindings@);
    copy
}

/// A copy of `ids`.
pub(crate) fn copy_ids(ids: &Vec<u64>) -> (copy: Vec<u64>)
    ensures
        copy@ == ids@,
{
    let mut copy: Vec<u64> = Vec::new();
    let mut i: usize = 0;
    while i < ids.len()
        invariant
            i <= ids.len(),
            copy@ == ids@.take(i as int),
        decreases ids.len() - i,
    {
        copy.push(ids[i]);
        assert(ids@.take(i + 1) == ids@.take(i as int).push(ids@[i as int]));
        i = i + 1;
    }
    assert(ids@.take(i as int) == ids@);
    copy
}

/// Whether `id` is among `list`.
pub(crate) fn holds_id(list: &Vec<u64>, id: u64) -> (yes: bool)
    ensures
        yes == list@.contains(id),
{
    let mut i: usize = 0;
    while i < list.len()
        invariant
            i <= list.len(),
            forall|k: int| 0 <= k < i ==> list@[k] != id,
        decreases list.len() - i,
    {
        if list[i] == id {
            return true;
        }
        i = i + 1;
    }
    false
}

/// The stand-in for the native layer.
pub struct Driver {
    pub(crate) objects: Vec<Object>,
    pub(crate) devices: Vec<u64>,
    pub(crate) transfers: Vec<Transfer>,
}

impl Driver {
    /// The state that the contracts speak of.
    pub open(crate) spec fn view(&self) -> DriverView {
        DriverView {
            objects: self.objects@.map_values(|o: Object| o@),
            devices: self.devices@,
            transfers: self.transfers@,
        }
    }

    /// A driver without objects.
    pub fn new() -> (driver: Driver)
        ensures
            driver@ == (DriverView {
                objects: Seq::empty(),
                devices: Seq::empty(),
                transfers: Seq::empty(),
            }),
            driver@.sound(),
    {
        let driver = Driver { objects: Vec::new(), devices: Vec::new(), transfers: Vec::new() };
        assert(driver@.objects =~= Seq::empty());
        driver
    }

    /// How many objects were ever created.
    pub fn object_count(&self) -> (count: usize)
        ensures
            count == self@.objects.len(),
    {
        self.objects.len()
    }

    /// Numbers a new object and makes its first handle, as the naming rule has it for the
    /// native call `selector`.
    pub(crate) fn make(&mut self, kind: ObjectKind, selector: &str, payload: Payload) -> (res:
        Result<Handle, MetalError>)
        requires
            payload@ matches PayloadView::CommandBuffer { encoder, .. } ==> encoder == 0,
        ensures
            old(self)@.full() ==> res == Err::<Handle, MetalError>(MetalError::Exhausted)
                && final(self)@ == old(self)@,
            !old(self)@.full() ==> res == Ok::<Handle, MetalError>(Handle(old(self)@.next()))
                && final(self)@ == old(self)@.plus(
                ObjectView::handed_out(kind, ownership_of(selector@), payload@),
            ),
            old(self)@.evolves_to(final(self)@),
            ObjectView::handed_out(kind, ownership_of(selector@), payload@).well_formed()
                ==> old(self)@.leads_to(final(self)@),
    {
        if self.objects.len() as u64 == u64::MAX {
            proof {
                lemma_leads_to_itself(self@);
            }
            return Err(MetalError::Exhausted);
        }
        let ownership = ownership_of_selector(selector);
        proof {
            let object = ObjectView::handed_out(kind, ownership, payload@);
            if object.well_formed() {
                lemma_plus_leads_to(self@, object);
            } else {
                lemma_plus_evolves(self@, object);
            }
        }
        let raw: u64 = self.objects.len() as u64 + 1;
        let (strong, native): (u64, u64) = match ownership {
            Ownership::Owned => (1, 0),
            Ownership::Borrowed => (2, 1),
        };
        self.objects.push(Object { kind, strong, native, pins: Vec::new(), payload });
        assert(self@.objects =~= old(self)@.plus(
            ObjectView::handed_out(kind, ownership, payload@),
        ).objects);
        Ok(Handle(raw))
    }

    /// Where object `raw` stands, if it was ever created.
    pub(crate) fn position(&self, raw: u64) -> (at: Option<usize>)
        ensures
            at is Some == self@.has(raw),
            at matches Some(i) ==> i == raw - 1 && i < self.objects.len() && self@.get(raw)
                == self.objects[i as int]@,
    {
        if raw == 0 || raw > self.objects.len() as u64 {
            None
        } else {
            Some((raw - 1) as usize)
        }
    }

    /// The state of command buffer `raw`, if it is one.
    pub fn status(&self, raw: u64) -> (status: Option<Status>)
        ensures
            status == self@.status(raw),
    {
        let Some(index) = self.position(raw) else {
            return None;
        };
        match &self.objects[index].payload {
            Payload::CommandBuffer { status, .. } => Some(*status),
            _ => None,
        }
    }

    /// The open encoder of command buffer `raw`; 0 if it has none or is no command buffer.
    pub fn encoder_of(&self, raw: u64) -> (encoder: u64)
        ensures
            encoder == self@.encoder_of(raw),
    {
        let Some(index) = self.position(raw) else {
            return 0;
        };
        match &self.objects[index].payload {
            Payload::CommandBuffer { encoder, .. } => *encoder,
            _ => 0,
        }
    }

    /// The queue of command buffer `raw`; 0 if it is no command buffer.
    pub fn queue_of(&self, raw: u64) -> (queue: u64)
        ensures
            queue == self@.queue_of(raw),
    {
        let Some(index) = self.position(raw) else {
            return 0;
        };
        match &self.objects[index].payload {
            Payload::CommandBuffer { queue, .. } => *queue,
            _ => 0,
        }
    }

    /// Whether command buffer `raw` retains what is bound through its encoders.
    pub fn retains(&self, raw: u64) -> (yes: bool)
        ensures
            yes == self@.retains(raw),
    {
        let Some(index) = self.position(raw) else {
            return false;
        };
        match &self.objects[index].payload {
            Payload::CommandBuffer { retains, .. } => *retains,
            _ => false,
        }
    }

    /// How many command buffers queue `raw` takes at a time; 0 if it is no queue.
    pub fn capacity(&self, raw: u64) -> (capacity: u64)
        ensures
            capacity == self@.capacity(raw),
    {
        let Some(index) = self.position(raw) else {
            return 0;
        };
        match &self.objects[index].payload {
            Payload::CommandQueue { capacity, .. } => *capacity,
            _ => 0,
        }
    }

    /// The length of buffer `raw` in bytes; 0 if it is no buffer.
    pub fn length(&self, raw: u64) -> (length: u64)
        ensures
            length == self@.length(raw),
    {
        let Some(index) = self.position(raw) else {
            return 0;
        };
        match &self.objects[index].payload {
            Payload::Buffer { length, .. } => *length,
            _ => 0,
        }
    }

    /// The options that buffer `raw` was made with; 0 if it is no buffer.
    pub fn options(&self, raw: u64) -> (options: u64)
        ensures
            options == self@.options(raw),
    {
        let Some(index) = self.position(raw) else {
            return 0;
        };
        match &self.objects[index].payload {
            Payload::Buffer { options, .. } => *options,
            _ => 0,
        }
    }

    /// The commands of command buffer `raw`, in encoding order.
    pub fn commands(&self, raw: u64) -> (commands: Vec<Command>)
        ensures
            commands@.map_values(|c: Command| c@) == self@.commands(raw),
    {
        let mut copy: Vec<Command> = Vec::new();
        let Some(index) = self.position(raw) else {
            assert(copy@.map_values(|c: Command| c@) =~= Seq::empty());
            return copy;
        };
        match &self.objects[index].payload {
            Payload::CommandBuffer { commands, .. } => {
                let mut i: usize = 0;
                while i < commands.len()
                    invariant
                        i <= commands.len(),
                        copy@.len() == i,
                        forall|k: int| 0 <= k < i ==> copy@[k]@ == commands@[k]@,
                    decreases commands.len() - i,
                {
                    let command = &commands[i];
                    copy.push(
                        Command {
                            encoder: command.encoder,
                            pipeline: command.pipeline,
                            call: command.call,
                            bindings: copy_bindings(&command.bindings),
                        },
                    );
                    i = i + 1;
                }
                assert(copy@.map_values(|c: Command| c@) =~= commands@.map_values(
                    |c: Command| c@,
                ));
                copy
            },
            _ => {
                assert(copy@.map_values(|c: Command| c@) =~= Seq::empty());
                copy
            },
        }
    }

    /// Hands out a new object of `kind` from a native call on `parent`, an object of `of`,
    /// and makes its first handle, as the naming rule has it for the call `selector`.
    pub(crate) fn produce(
        &mut self,
        parent: u64,
        of: ObjectKind,
        kind: ObjectKind,
        selector: &str,
        payload: Payload,
    ) -> (res: Result<Handle, MetalError>)
        requires
            payload@ matches PayloadView::CommandBuffer { encoder, .. } ==> encoder == 0,
            ObjectView::handed_out(kind, ownership_of(selector@), payload@).well_formed(),
        ensures
            match old(self)@.make_fault(parent, of) {
                Some(e) => res == Err::<Handle, MetalError>(e) && final(self)@ == old(self)@,
                None => res == Ok::<Handle, MetalError>(Handle(old(self)@.next())) && final(self)@
                    == old(self)@.plus(
                    ObjectView::handed_out(kind, ownership_of(selector@), payload@),
                ),
            },
            old(self)@.leads_to(final(self)@),
    {
        match self.check(parent, of) {
            Err(e) => {
                proof {
                    lemma_leads_to_itself(self@);
                }
                Err(e)
            },
            Ok(()) => self.make(kind, selector, payload),
        }
    }

    /// What device `raw` is like; a device of which nothing is known where it is none.
    pub fn device_info(&self, raw: u64) -> (out: DeviceInfo)
        ensures
            out == self@.device_info(raw),
    {
        let Some(index) = self.position(raw) else {
            return DeviceInfo::new();
        };
        match &self.objects[index].payload {
            Payload::Device { info, .. } => *info,
            _ => DeviceInfo::new(),
        }
    }

    /// The name of device `raw`.
    pub fn device_name(&self, raw: u64) -> (name: String)
        ensures
            name@ == self@.device_name(raw),
    {
        let Some(index) = self.position(raw) else {
            return String::new();
        };
        match &self.objects[index].payload {
            Payload::Device { name, .. } => String::from_str(name.as_str()),
            _ => String::new(),
        }
    }

    /// Whether device `raw` supports the family `family`.
    pub fn has_family(&self, raw: u64, family: u64) -> (yes: bool)
        ensures
            yes == self@.families(raw).contains(family),
    {
        let Some(index) = self.position(raw) else {
            return false;
        };
        match &self.objects[index].payload {
            Payload::Device { families, .. } => holds_id(families, family),
            _ => false,
        }
    }

    /// Whether device `raw` supports the feature set `set`.
    pub fn has_feature_set(&self, raw: u64, set: u64) -> (yes: bool)
        ensures
            yes == self@.feature_sets(raw).contains(set),
    {
        let Some(index) = self.position(raw) else {
            return false;
        };
        match &self.objects[index].payload {
            Payload::Device { feature_sets, .. } => holds_id(feature_sets, set),
            _ => false,
        }
    }

    /// The options that resource `raw` was made with; 0 if it is no buffer or texture.
    pub fn resource_options(&self, raw: u64) -> (options: u64)
        ensures
            options == self@.resource_options(raw),
    {
        let Some(index) = self.position(raw) else {
            return 0;
        };
        match &self.objects[index].payload {
            Payload::Buffer { options, .. } => *options,
            Payload::Texture { descriptor, .. } => descriptor.resource_options,
            _ => 0,
        }
    }

    /// What texture `raw` was made from; the default where it is no texture.
    pub fn texture_descriptor(&self, raw: u64) -> (out: MTLTextureDescriptor)
        ensures
            out == self@.texture_descriptor(raw),
    {
        let Some(index) = self.position(raw) else {
            return MTLTextureDescriptor::new();
        };
        match &self.objects[index].payload {
            Payload::Texture { descriptor, .. } => *descriptor,
            _ => MTLTextureDescriptor::new(),
        }
    }

    /// The texture that texture `raw` is a view of; 0 if it is none.
    pub fn parent_texture(&self, raw: u64) -> (out: u64)
        ensures
            out == self@.parent_texture(raw),
    {
        let Some(index) = self.position(raw) else {
            return 0;
        };
        match &self.objects[index].payload {
            Payload::Texture { parent, .. } => *parent,
            _ => 0,
        }
    }

    /// The buffer that texture `raw` is a view of; 0 if it is none.
    pub fn parent_buffer(&self, raw: u64) -> (out: u64)
        ensures
            out == self@.parent_buffer(raw),
    {
        let Some(index) = self.position(raw) else {
            return 0;
        };
        match &self.objects[index].payload {
            Payload::Texture { buffer, .. } => *buffer,
            _ => 0,
        }
    }

    /// The level of its parent at which texture `raw` starts.
    pub fn parent_level(&self, raw: u64) -> (out: u64)
        ensures
            out == self@.parent_level(raw),
    {
        let Some(index) = self.position(raw) else {
            return 0;
        };
        match &self.objects[index].payload {
            Payload::Texture { level, .. } => *level,
            _ => 0,
        }
    }

    /// The slice of its parent at which texture `raw` starts.
    pub fn parent_slice(&self, raw: u64) -> (out: u64)
        ensures
            out == self@.parent_slice(raw),
    {
        let Some(index) = self.position(raw) else {
            return 0;
        };
        match &self.objects[index].payload {
            Payload::Texture { slice, .. } => *slice,
            _ => 0,
        }
    }

    /// Whether texture `raw` can cross to another process.
    pub fn shareable(&self, raw: u64) -> (yes: bool)
        ensures
            yes == self@.shareable(raw),
    {
        let Some(index) = self.position(raw) else {
            return false;
        };
        match &self.objects[index].payload {
            Payload::Texture { shareable, .. } => *shareable,
            _ => false,
        }
    }

    /// What heap `raw` was made from; the default where it is no heap.
    pub fn heap_descriptor(&self, raw: u64) -> (out: MTLHeapDescriptor)
        ensures
            out == self@.heap_descriptor(raw),
    {
        let Some(index) = self.position(raw) else {
            return MTLHeapDescriptor::new();
        };
        match &self.objects[index].payload {
            Payload::Heap { descriptor, .. } => *descriptor,
            _ => MTLHeapDescriptor::new(),
        }
    }

    /// How many bytes of heap `raw` are given out.
    pub fn used(&self, raw: u64) -> (out: u64)
        ensures
            out == self@.used(raw),
    {
        let Some(index) = self.position(raw) else {
            return 0;
        };
        match &self.objects[index].payload {
            Payload::Heap { used, .. } => *used,
            _ => 0,
        }
    }

    /// Whether the memory of heap `raw` may be taken back, as a number.
    pub fn purgeable(&self, raw: u64) -> (out: u64)
        ensures
            out == self@.purgeable(raw),
    {
        let Some(index) = self.position(raw) else {
            return 0;
        };
        match &self.objects[index].payload {
            Payload::Heap { purgeable, .. } => *purgeable,
            _ => 0,
        }
    }

    /// The settings of layer `raw`; the default where it is no layer.
    pub fn settings(&self, raw: u64) -> (out: LayerSettings)
        ensures
            out == self@.settings(raw),
    {
        let Some(index) = self.position(raw) else {
            return LayerSettings::new();
        };
        match &self.objects[index].payload {
            Payload::Layer { settings, .. } => *settings,
            _ => LayerSettings::new(),
        }
    }

    /// The texture of drawable `raw`; 0 if it is no drawable.
    pub fn drawable_texture(&self, raw: u64) -> (out: u64)
        ensures
            out == self@.drawable_texture(raw),
    {
        let Some(index) = self.position(raw) else {
            return 0;
        };
        match &self.objects[index].payload {
            Payload::Drawable { texture, .. } => *texture,
            _ => 0,
        }
    }

    /// Whether `raw` is a drawable that its layer waits for.
    pub fn is_in_use(&self, raw: u64) -> (yes: bool)
        ensures
            yes == self@.in_use(raw),
    {
        let Some(index) = self.position(raw) else {
            return false;
        };
        match &self.objects[index].payload {
            Payload::Drawable { presented, .. } => !*presented,
            _ => false,
        }
    }

    /// The drawables that layer `raw` has handed out, in turn.
    pub fn vended(&self, raw: u64) -> (vended: Vec<u64>)
        ensures
            vended@ == self@.vended(raw),
    {
        let Some(index) = self.position(raw) else {
            return Vec::new();
        };
        match &self.objects[index].payload {
            Payload::Layer { vended, .. } => copy_ids(vended),
            _ => Vec::new(),
        }
    }

    /// Whether library `raw` has a function named `name`.
    pub fn has_function(&self, raw: u64, name: &str) -> (yes: bool)
        ensures
            yes == self@.functions(raw).contains(name@),
    {
        let Some(index) = self.position(raw) else {
            return false;
        };
        match &self.objects[index].payload {
            Payload::Library { functions } => {
                let wanted = String::from_str(name);
                let mut i: usize = 0;
                while i < functions.len()
                    invariant
                        i <= functions.len(),
                        wanted@ == name@,
                        self@.functions(raw) == functions@.map_values(|name: String| name@),
                        forall|k: int| 0 <= k < i ==> self@.functions(raw)[k] != name@,
                    decreases functions.len() - i,
                {
                    if functions[i] == wanted {
                        assert(self@.functions(raw)[i as int] == name@);
                        return true;
                    }
                    i = i + 1;
                }
                false
            },
            _ => false,
        }
    }

    /// The names of the functions of library `raw`.
    pub fn function_names(&self, raw: u64) -> (names: Vec<String>)
        ensures
            names@.map_values(|name: String| name@) == self@.functions(raw),
    {
        let mut names: Vec<String> = Vec::new();
        let Some(index) = self.position(raw) else {
            assert(names@.map_values(|name: String| name@) =~= Seq::empty());
            return names;
        };
        match &self.objects[index].payload {
            Payload::Library { functions } => {
                let mut i: usize = 0;
                while i < functions.len()
                    invariant
                        i <= functions.len(),
                        names@.len() == i,
                        forall|k: int| 0 <= k < i ==> names@[k]@ == functions@[k]@,
                    decreases functions.len() - i,
                {
                    names.push(String::from_str(functions[i].as_str()));
                    i = i + 1;
                }
                assert(names@.map_values(|name: String| name@) =~= functions@.map_values(
                    |name: String| name@,
                ));
                names
            },
            _ => {
                assert(names@.map_values(|name: String| name@) =~= Seq::empty());
                names
            },
        }
    }

    /// The name of function `raw`.
    pub fn function_name(&self, raw: u64) -> (name: String)
        ensures
            name@ == self@.function_name(raw),
    {
        let Some(index) = self.position(raw) else {
            return String::new();
        };
        match &self.objects[index].payload {
            Payload::Function { name, .. } => String::from_str(name.as_str()),
            _ => String::new(),
        }
    }

    /// The transfers between memory and textures, in the order in which they were made.
    pub fn transfers(&self) -> (transfers: Vec<Transfer>)
        ensures
            transfers@ == self@.transfers,
    {
        let mut copy: Vec<Transfer> = Vec::new();
        let mut i: usize = 0;
        while i < self.transfers.len()
            invariant
                i <= self.transfers.len(),
                copy@ == self.transfers@.take(i as int),
            decreases self.transfers.len() - i,
        {
            copy.push(self.transfers[i]);
            assert(self.transfers@.take(i + 1) == self.transfers@.take(i as int).push(
                self.transfers@[i as int],
            ));
            i = i + 1;
        }
        assert(self.transfers@.take(i as int) == self.transfers@);
        copy
    }

    /// Puts `transfer` after the transfers.
    pub(crate) fn push_transfer(&mut self, transfer: Transfer)
        ensures
            final(self)@ == old(self)@.with_transfer(transfer),
    {
        self.transfers.push(transfer);
    }

    /// Gives layer `raw` the settings `settings`.
    pub(crate) fn set_settings(&mut self, raw: u64, settings: LayerSettings)
        requires
            old(self)@.has(raw),
        ensures
            final(self)@ == old(self)@.with(raw, old(self)@.get(raw).with_settings(settings)),
    {
        let Some(index) = self.position(raw) else {
            return ;
        };
        match &mut self.objects[index].payload {
            Payload::Layer { settings: slot, .. } => {
                *slot = settings;
            },
            _ => {},
        }
        assert(self@.objects =~= old(self)@.with(
            raw,
            old(self)@.get(raw).with_settings(settings),
        ).objects);
    }

    /// Puts `drawable` after the drawables that layer `raw` has handed out.
    pub(crate) fn push_vended(&mut self, raw: u64, drawable: u64)
        requires
            old(self)@.has(raw),
        ensures
            final(self)@ == old(self)@.with(raw, old(self)@.get(raw).with_vended(drawable)),
    {
        let Some(index) = self.position(raw) else {
            return ;
        };
        match &mut self.objects[index].payload {
            Payload::Layer { vended: slot, .. } => {
                slot.push(drawable);
            },
            _ => {},
        }
        assert(self@.objects =~= old(self)@.with(
            raw,
            old(self)@.get(raw).with_vended(drawable),
        ).objects);
    }

    /// Marks drawable `raw` as presented.
    pub(crate) fn set_presented(&mut self, raw: u64)
        requires
            old(self)@.has(raw),
        ensures
            final(self)@ == old(self)@.with(raw, old(self)@.get(raw).with_presented()),
    {
        let Some(index) = self.position(raw) else {
            return ;
        };
        match &mut self.objects[index].payload {
            Payload::Drawable { presented: slot, .. } => {
                *slot = true;
            },
            _ => {},
        }
        assert(self@.objects =~= old(self)@.with(
            raw,
            old(self)@.get(raw).with_presented(),
        ).objects);
    }

    /// Sets how many bytes of heap `raw` are given out.
    pub(crate) fn set_used(&mut self, raw: u64, used: u64)
        requires
            old(self)@.has(raw),
        ensures
            final(self)@ == old(self)@.with(raw, old(self)@.get(raw).with_used(used)),
    {
        let Some(index) = self.position(raw) else {
            return ;
        };
        match &mut self.objects[index].payload {
            Payload::Heap { used: slot, .. } => {
                *slot = used;
            },
            _ => {},
        }
        assert(self@.objects =~= old(self)@.with(raw, old(self)@.get(raw).with_used(used)).objects);
    }

    /// Sets whether the memory of heap `raw` may be taken back.
    pub(crate) fn set_purgeable(&mut self, raw: u64, purgeable: u64)
        requires
            old(self)@.has(raw),
        ensures
            final(self)@ == old(self)@.with(raw, old(self)@.get(raw).with_purgeable(purgeable)),
    {
        let Some(index) = self.position(raw) else {
            return ;
        };
        match &mut self.objects[index].payload {
            Payload::Heap { purgeable: slot, .. } => {
                *slot = purgeable;
            },
            _ => {},
        }
        assert(self@.objects =~= old(self)@.with(
            raw,
            old(self)@.get(raw).with_purgeable(purgeable),
        ).objects);
    }

    /// What the native layer says of pipeline state `raw`; nothing where it is none.
    pub fn pipeline_facts(&self, raw: u64) -> (out: PipelineFacts)
        ensures
            out == self@.pipeline_facts(raw),
    {
        let Some(index) = self.position(raw) else {
            return PipelineFacts::new();
        };
        match &self.objects[index].payload {
            Payload::Pipeline { facts, .. } => *facts,
            _ => PipelineFacts::new(),
        }
    }

    /// The functions that pipeline state `raw` runs: the kernel and nothing, or the vertex
    /// and the fragment function.
    pub fn pipeline_functions(&self, raw: u64) -> (functions: (u64, u64))
        ensures
            functions == self@.pipeline_functions(raw),
    {
        let Some(index) = self.position(raw) else {
            return (0, 0);
        };
        match &self.objects[index].payload {
            Payload::Pipeline { first, second, .. } => (*first, *second),
            _ => (0, 0),
        }
    }

    /// What sampler state `raw` was made from; the default where it is none.
    pub fn sampler_descriptor(&self, raw: u64) -> (out: MTLSamplerDescriptor)
        ensures
            out == self@.sampler_descriptor(raw),
    {
        let Some(index) = self.position(raw) else {
            return MTLSamplerDescriptor::new();
        };
        match &self.objects[index].payload {
            Payload::Sampler { descriptor, .. } => *descriptor,
            _ => MTLSamplerDescriptor::new(),
        }
    }

    /// What depth and stencil state `raw` was made from; the default where it is none.
    pub fn depth_stencil_descriptor(&self, raw: u64) -> (out: MTLDepthStencilDescriptor)
        ensures
            out == self@.depth_stencil_descriptor(raw),
    {
        let Some(index) = self.position(raw) else {
            return MTLDepthStencilDescriptor::new();
        };
        match &self.objects[index].payload {
            Payload::DepthStencil { descriptor, .. } => *descriptor,
            _ => MTLDepthStencilDescriptor::new(),
        }
    }

    /// What indirect command buffer `raw` was made from; the default where it is none.
    pub fn indirect_descriptor(&self, raw: u64) -> (out: MTLIndirectCommandBufferDescriptor)
        ensures
            out == self@.indirect_descriptor(raw),
    {
        let Some(index) = self.position(raw) else {
            return MTLIndirectCommandBufferDescriptor::new();
        };
        match &self.objects[index].payload {
            Payload::Indirect { descriptor, .. } => *descriptor,
            _ => MTLIndirectCommandBufferDescriptor::new(),
        }
    }

    /// How many commands indirect command buffer `raw` takes.
    pub fn indirect_capacity(&self, raw: u64) -> (out: u64)
        ensures
            out == self@.indirect_capacity(raw),
    {
        let Some(index) = self.position(raw) else {
            return 0;
        };
        match &self.objects[index].payload {
            Payload::Indirect { capacity, .. } => *capacity,
            _ => 0,
        }
    }

    /// The value that shared event `raw` has been signalled with.
    pub fn signaled(&self, raw: u64) -> (out: u64)
        ensures
            out == self@.signaled(raw),
    {
        let Some(index) = self.position(raw) else {
            return 0;
        };
        match &self.objects[index].payload {
            Payload::Signal { value, .. } => *value,
            _ => 0,
        }
    }

    /// The buffer that argument encoder `raw` writes to; 0 if none is set.
    pub fn argument_buffer(&self, raw: u64) -> (out: u64)
        ensures
            out == self@.argument_buffer(raw),
    {
        let Some(index) = self.position(raw) else {
            return 0;
        };
        match &self.objects[index].payload {
            Payload::Arguments { buffer, .. } => *buffer,
            _ => 0,
        }
    }

    /// The offset from which argument encoder `raw` writes to its buffer.
    pub fn argument_offset(&self, raw: u64) -> (out: u64)
        ensures
            out == self@.argument_offset(raw),
    {
        let Some(index) = self.position(raw) else {
            return 0;
        };
        match &self.objects[index].payload {
            Payload::Arguments { offset, .. } => *offset,
            _ => 0,
        }
    }

    /// The element of an array of argument blocks that argument encoder `raw` writes to.
    pub fn argument_element(&self, raw: u64) -> (out: u64)
        ensures
            out == self@.argument_element(raw),
    {
        let Some(index) = self.position(raw) else {
            return 0;
        };
        match &self.objects[index].payload {
            Payload::Arguments { element, .. } => *element,
            _ => 0,
        }
    }

    /// What argument encoder `raw` has written, in the order in which it was written.
    pub fn entries(&self, raw: u64) -> (entries: Vec<Binding>)
        ensures
            entries@ == self@.entries(raw),
    {
        let Some(index) = self.position(raw) else {
            return Vec::new();
        };
        match &self.objects[index].payload {
            Payload::Arguments { entries, .. } => copy_bindings(entries),
            _ => Vec::new(),
        }
    }

    /// Gives argument encoder `raw` the entries `entries`.
    pub(crate) fn set_entries(&mut self, raw: u64, entries: Vec<Binding>)
        requires
            old(self)@.has(raw),
        ensures
            final(self)@ == old(self)@.with(raw, old(self)@.get(raw).with_entries(entries@)),
    {
        let Some(index) = self.position(raw) else {
            return ;
        };
        match &mut self.objects[index].payload {
            Payload::Arguments { entries: slot, .. } => {
                *slot = entries;
            },
            _ => {},
        }
        assert(self@.objects =~= old(self)@.with(
            raw,
            old(self)@.get(raw).with_entries(entries@),
        ).objects);
    }

    /// The arguments that argument encoder `raw` lays out.
    pub fn arguments(&self, raw: u64) -> (arguments: Vec<MTLArgumentDescriptor>)
        ensures
            arguments@ == self@.arguments(raw),
    {
        let mut copy: Vec<MTLArgumentDescriptor> = Vec::new();
        let Some(index) = self.position(raw) else {
            return copy;
        };
        match &self.objects[index].payload {
            Payload::Arguments { arguments, .. } => {
                let mut i: usize = 0;
                while i < arguments.len()
                    invariant
                        i <= arguments.len(),
                        copy@ == arguments@.take(i as int),
                    decreases arguments.len() - i,
                {
                    copy.push(arguments[i]);
                    assert(arguments@.take(i + 1) == arguments@.take(i as int).push(
                        arguments@[i as int],
                    ));
                    i = i + 1;
                }
                assert(arguments@.take(i as int) == arguments@);
                copy
            },
            _ => copy,
        }
    }

    /// Signals shared event `raw` with `value`.
    pub(crate) fn set_signal(&mut self, raw: u64, value: u64)
        requires
            old(self)@.has(raw),
        ensures
            final(self)@ == old(self)@.with(raw, old(self)@.get(raw).with_signal(value)),
    {
        let Some(index) = self.position(raw) else {
            return ;
        };
        match &mut self.objects[index].payload {
            Payload::Signal { value: slot } => {
                *slot = value;
            },
            _ => {},
        }
        assert(self@.objects =~= old(self)@.with(
            raw,
            old(self)@.get(raw).with_signal(value),
        ).objects);
    }

    /// Makes argument encoder `raw` write to element `element` of the array that `buffer`
    /// holds from `offset` on.
    pub(crate) fn set_target(&mut self, raw: u64, buffer: u64, offset: u64, element: u64)
        requires
            old(self)@.has(raw),
        ensures
            final(self)@ == old(self)@.with(
                raw,
                old(self)@.get(raw).with_target(buffer, offset, element),
            ),
    {
        let Some(index) = self.position(raw) else {
            return ;
        };
        match &mut self.objects[index].payload {
            Payload::Arguments { buffer: slot, offset: place, element: at, .. } => {
                *slot = buffer;
                *place = offset;
                *at = element;
            },
            _ => {},
        }
        assert(self@.objects =~= old(self)@.with(
            raw,
            old(self)@.get(raw).with_target(buffer, offset, element),
        ).objects);
    }

    /// The command buffer of encoder `raw`; 0 if it is no encoder.
    pub fn buffer_of(&self, raw: u64) -> (buffer: u64)
        ensures
            buffer == self@.buffer_of(raw),
    {
        let Some(index) = self.position(raw) else {
            return 0;
        };
        match &self.objects[index].payload {
            Payload::Encoder { buffer, .. } => *buffer,
            _ => 0,
        }
    }

    /// How encoder `raw` dispatches its work.
    pub fn dispatch_of(&self, raw: u64) -> (dispatch: u64)
        ensures
            dispatch == self@.dispatch_of(raw),
    {
        let Some(index) = self.position(raw) else {
            return 0;
        };
        match &self.objects[index].payload {
            Payload::Encoder { dispatch, .. } => *dispatch,
            _ => 0,
        }
    }

    /// The pipeline state set on encoder `raw`; 0 if none is.
    pub fn pipeline_of(&self, raw: u64) -> (pipeline: u64)
        ensures
            pipeline == self@.pipeline_of(raw),
    {
        let Some(index) = self.position(raw) else {
            return 0;
        };
        match &self.objects[index].payload {
            Payload::Encoder { pipeline, .. } => *pipeline,
            _ => 0,
        }
    }

    /// Whether `raw` is an encoder and the open one of its command buffer.
    pub fn is_open(&self, raw: u64) -> (yes: bool)
        ensures
            yes == self@.open(raw),
    {
        let Some(index) = self.position(raw) else {
            return false;
        };
        match &self.objects[index].payload {
            Payload::Encoder { buffer, .. } => {
                let Some(at) = self.position(*buffer) else {
                    return false;
                };
                match &self.objects[at].payload {
                    Payload::CommandBuffer { encoder, .. } => *encoder == raw,
                    _ => false,
                }
            },
            _ => false,
        }
    }

    /// The bindings of encoder `raw`, in bind order.
    pub fn bindings(&self, raw: u64) -> (bindings: Vec<Binding>)
        ensures
            bindings@ == self@.bindings(raw),
    {
        let Some(index) = self.position(raw) else {
            return Vec::new();
        };
        match &self.objects[index].payload {
            Payload::Encoder { bindings, .. } => copy_bindings(bindings),
            _ => Vec::new(),
        }
    }

    /// The command buffers of queue `raw`, in the order in which they will run.
    pub fn order(&self, raw: u64) -> (order: Vec<u64>)
        ensures
            order@ == self@.order(raw),
    {
        let mut copy: Vec<u64> = Vec::new();
        let Some(index) = self.position(raw) else {
            return copy;
        };
        match &self.objects[index].payload {
            Payload::CommandQueue { order, .. } => {
                let mut i: usize = 0;
                while i < order.len()
                    invariant
                        i <= order.len(),
                        copy@ == order@.take(i as int),
                    decreases order.len() - i,
                {
                    copy.push(order[i]);
                    assert(order@.take(i + 1) == order@.take(i as int).push(order@[i as int]));
                    i = i + 1;
                }
                assert(order@.take(i as int) == order@);
                copy
            },
            _ => copy,
        }
    }

    /// Puts command buffer `raw` in state `status`.
    pub(crate) fn set_status(&mut self, raw: u64, status: Status)
        requires
            old(self)@.has(raw),
        ensures
            final(self)@ == old(self)@.with(raw, old(self)@.get(raw).with_status(status)),
    {
        let Some(index) = self.position(raw) else {
            return ;
        };
        match &mut self.objects[index].payload {
            Payload::CommandBuffer { status: slot, .. } => {
                *slot = status;
            },
            _ => {},
        }
        assert(self@.objects =~= old(self)@.with(
            raw,
            old(self)@.get(raw).with_status(status),
        ).objects);
    }

    /// Makes `encoder` the open encoder of command buffer `raw`.
    pub(crate) fn set_encoder(&mut self, raw: u64, encoder: u64)
        requires
            old(self)@.has(raw),
        ensures
            final(self)@ == old(self)@.with(raw, old(self)@.get(raw).with_encoder(encoder)),
    {
        let Some(index) = self.position(raw) else {
            return ;
        };
        match &mut self.objects[index].payload {
            Payload::CommandBuffer { encoder: slot, .. } => {
                *slot = encoder;
            },
            _ => {},
        }
        assert(self@.objects =~= old(self)@.with(
            raw,
            old(self)@.get(raw).with_encoder(encoder),
        ).objects);
    }

    /// Puts `command` after the commands of command buffer `raw`.
    pub(crate) fn push_command(&mut self, raw: u64, command: Command)
        requires
            old(self)@.has(raw),
        ensures
            final(self)@ == old(self)@.with(raw, old(self)@.get(raw).with_command(command@)),
    {
        let Some(index) = self.position(raw) else {
            return ;
        };
        let ghost view = command@;
        match &mut self.objects[index].payload {
            Payload::CommandBuffer { commands, .. } => {
                let ghost before = commands@;
                commands.push(command);
                assert(commands@.map_values(|c: Command| c@) =~= before.map_values(
                    |c: Command| c@,
                ).push(view));
            },
            _ => {},
        }
        assert(self@.objects =~= old(self)@.with(
            raw,
            old(self)@.get(raw).with_command(view),
        ).objects);
    }

    /// Puts command buffer `buffer` after those in the order of queue `raw`.
    pub(crate) fn enlist(&mut self, raw: u64, buffer: u64)
        requires
            old(self)@.has(raw),
        ensures
            final(self)@ == old(self)@.with(raw, old(self)@.get(raw).with_enlisted(buffer)),
    {
        let Some(index) = self.position(raw) else {
            return ;
        };
        match &mut self.objects[index].payload {
            Payload::CommandQueue { order, .. } => {
                order.push(buffer);
            },
            _ => {},
        }
        assert(self@.objects =~= old(self)@.with(
            raw,
            old(self)@.get(raw).with_enlisted(buffer),
        ).objects);
    }

    /// Gives encoder `raw` the bindings `bindings`.
    pub(crate) fn set_bindings(&mut self, raw: u64, bindings: Vec<Binding>)
        requires
            old(self)@.has(raw),
        ensures
            final(self)@ == old(self)@.with(raw, old(self)@.get(raw).with_bindings(bindings@)),
    {
        let Some(index) = self.position(raw) else {
            return ;
        };
        match &mut self.objects[index].payload {
            Payload::Encoder { bindings: slot, .. } => {
                *slot = bindings;
            },
            _ => {},
        }
        assert(self@.objects =~= old(self)@.with(
            raw,
            old(self)@.get(raw).with_bindings(bindings@),
        ).objects);
    }

    /// Sets `pipeline` as the pipeline state of encoder `raw`.
    pub(crate) fn set_pipeline(&mut self, raw: u64, pipeline: u64)
        requires
            old(self)@.has(raw),
        ensures
            final(self)@ == old(self)@.with(raw, old(self)@.get(raw).with_pipeline(pipeline)),
    {
        let Some(index) = self.position(raw) else {
            return ;
        };
        match &mut self.objects[index].payload {
            Payload::Encoder { pipeline: slot, .. } => {
                *slot = pipeline;
            },
            _ => {},
        }
        assert(self@.objects =~= old(self)@.with(
            raw,
            old(self)@.get(raw).with_pipeline(pipeline),
        ).objects);
    }

    /// Lets the native layer take over one of the references to `raw` that handles hold.
    pub(crate) fn keep(&mut self, raw: u64)
        requires
            old(self)@.has(raw),
            old(self)@.get(raw).native < old(self)@.get(raw).strong,
        ensures
            final(self)@ == old(self)@.with(raw, old(self)@.get(raw).kept()),
    {
        let Some(index) = self.position(raw) else {
            return ;
        };
        self.objects[index].native = self.objects[index].native + 1;
        assert(self@.objects =~= old(self)@.with(raw, old(self)@.get(raw).kept()).objects);
    }

    /// Pins object `raw` by command buffer `buffer`, once.
    pub(crate) fn pin(&mut self, raw: u64, buffer: u64)
        requires
            old(self)@.has(raw),
        ensures
            final(self)@ == old(self)@.with(raw, old(self)@.get(raw).pinned_by(buffer)),
    {
        let Some(index) = self.position(raw) else {
            return ;
        };
        let found = holds_id(&self.objects[index].pins, buffer);
        if !found {
            self.objects[index].pins.push(buffer);
        }
        assert(self@.objects =~= old(self)@.with(
            raw,
            old(self)@.get(raw).pinned_by(buffer),
        ).objects);
    }

    /// Whether `raw` is a command buffer that someone holds and that has not completed.
    pub fn is_pending(&self, raw: u64) -> (yes: bool)
        ensures
            yes == self@.pending(raw),
    {
        let Some(index) = self.position(raw) else {
            return false;
        };
        let object = &self.objects[index];
        if object.strong == 0 {
            return false;
        }
        match &object.payload {
            Payload::CommandBuffer { status, .. } => match status {
                Status::Completed => false,
                _ => true,
            },
            _ => false,
        }
    }

    /// The reference count of `raw`; 0 for an object that was never created or is destroyed.
    /// A count beyond `u64::MAX` is given as `u64::MAX`.
    pub fn retain_count(&self, raw: u64) -> (count: u64)
        ensures
            count == if self@.retain_count(raw) <= u64::MAX {
                self@.retain_count(raw)
            } else {
                u64::MAX as nat
            },
    {
        let Some(index) = self.position(raw) else {
            return 0;
        };
        let object = &self.objects[index];
        let mut count: u64 = object.strong;
        let mut i: usize = 0;
        while i < object.pins.len()
            invariant
                i <= object.pins.len(),
                count == if object.strong + self@.count_pending(object.pins@.take(i as int))
                    <= u64::MAX {
                    object.strong + self@.count_pending(object.pins@.take(i as int))
                } else {
                    u64::MAX as int
                },
            decreases object.pins.len() - i,
        {
            assert(object.pins@.take(i + 1).drop_last() == object.pins@.take(i as int));
            if self.is_pending(object.pins[i]) && count < u64::MAX {
                count = count + 1;
            }
            i = i + 1;
        }
        assert(object.pins@.take(i as int) == object.pins@);
        count
    }

    /// Whether `raw` is an object that has not been destroyed.
    pub fn is_live(&self, raw: u64) -> (yes: bool)
        ensures
            yes == self@.live(raw),
    {
        self.retain_count(raw) > 0
    }

    /// Tests that `raw` is a live object of `kind`.
    pub fn check(&self, raw: u64, kind: ObjectKind) -> (res: Result<(), MetalError>)
        ensures
            match self@.fault(raw, kind) {
                Some(e) => res == Err::<(), MetalError>(e),
                None => res is Ok,
            },
    {
        if raw == 0 {
            return Err(MetalError::NullHandle);
        }
        if !self.is_live(raw) {
            return Err(MetalError::Dangling);
        }
        let Some(index) = self.position(raw) else {
            return Err(MetalError::Dangling);
        };
        if self.objects[index].kind != kind {
            return Err(MetalError::WrongKind);
        }
        Ok(())
    }

    /// Adds one reference to `raw`.
    pub fn retain(&mut self, raw: u64) -> (res: Result<u64, MetalError>)
        ensures
            match old(self)@.retain_fault(raw) {
                Some(e) => res == Err::<u64, MetalError>(e) && final(self)@ == old(self)@,
                None => res == Ok::<u64, MetalError>(raw) && final(self)@ == old(self)@.retain(raw),
            },
            old(self)@.leads_to(final(self)@),
    {
        if raw == 0 {
            return Ok(raw);
        }
        if !self.is_live(raw) {
            return Err(MetalError::Dangling);
        }
        let Some(index) = self.position(raw) else {
            return Err(MetalError::Dangling);
        };
        if self.objects[index].strong == u64::MAX {
            return Err(MetalError::CountOverflow);
        }
        self.objects[index].strong = self.objects[index].strong + 1;
        assert(self@.objects =~= old(self)@.retain(raw).objects);
        proof {
            lemma_with_leads_to(old(self)@, raw, self@.get(raw));
        }
        Ok(raw)
    }

    /// Gives up one reference to `raw`.
    pub fn release(&mut self, raw: u64) -> (res: Result<(), MetalError>)
        ensures
            match old(self)@.release_fault(raw) {
                Some(e) => res == Err::<(), MetalError>(e) && final(self)@ == old(self)@,
                None => res is Ok && final(self)@ == old(self)@.release(raw),
            },
            old(self)@.leads_to(final(self)@),
    {
        if raw == 0 {
            return Ok(());
        }
        if !self.is_live(raw) {
            return Err(MetalError::Dangling);
        }
        let Some(index) = self.position(raw) else {
            return Err(MetalError::Dangling);
        };
        if self.objects[index].strong <= self.objects[index].native {
            return Err(MetalError::OverRelease);
        }
        self.objects[index].strong = self.objects[index].strong - 1;
        assert(self@.objects =~= old(self)@.release(raw).objects);
        proof {
            lemma_with_leads_to(old(self)@, raw, self@.get(raw));
        }
        Ok(())
    }
}

} // verus!
