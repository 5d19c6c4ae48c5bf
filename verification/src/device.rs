//! The device: the root of every other object.

use vstd::prelude::*;
use vstd::string::StringExecFns;
use crate::buffer::MTLBuffer;
use crate::commandqueue::MTLCommandQueue;
use crate::argument::MTLArgumentEncoder;
use crate::depthstencil::MTLDepthStencilState;
use crate::descriptor::DeviceInfo;
use crate::descriptor::MTLArgumentDescriptor;
use crate::descriptor::MTLDepthStencilDescriptor;
use crate::descriptor::MTLHeapDescriptor;
use crate::descriptor::MTLIndirectCommandBufferDescriptor;
use crate::descriptor::MTLSamplerDescriptor;
use crate::descriptor::MTLTextureDescriptor;
use crate::descriptor::PipelineFacts;
use crate::driver::Driver;
use crate::encoder::check_hand_over;
use crate::event::MTLSharedEventHandle;
use crate::heap::heap_made;
use crate::heap::MTLHeap;
use crate::heap::PURGEABLE_STATE_NON_VOLATILE;
use crate::indirect::MTLIndirectCommandBuffer;
use crate::laws::lemma_leads_to_is_transitive;
use crate::library::library_made;
use crate::library::MTLCompileOptions;
use crate::library::MTLFunction;
use crate::library::MTLLibrary;
use crate::ownership::ownership_of;
use crate::pipeline::MTLComputePipelineDescriptor;
use crate::pipeline::MTLComputePipelineState;
use crate::pipeline::MTLRenderPipelineDescriptor;
use crate::pipeline::MTLRenderPipelineState;
use crate::sampler::MTLSamplerState;
use crate::texture::texture_made;
use crate::texture::texture_object;
use crate::texture::MTLSharedTextureHandle;
use crate::texture::MTLTexture;
use crate::driver::Object;
use crate::driver::Payload;
use crate::error::MetalError;
use crate::event::MTLEvent;
use crate::event::MTLFence;
use crate::event::MTLSharedEvent;
use crate::geometry::MTLSize;
use crate::handle::Handle;
use crate::laws::lemma_leads_to_itself;
use crate::laws::lemma_plus_leads_to;
use crate::model::DriverView;
use crate::model::ObjectKind;
use crate::model::ObjectView;
use crate::model::Ownership;
use crate::model::PayloadView;
use crate::ownership::lemma_borrowed_names;
use crate::ownership::lemma_owned_names;
use crate::ownership::ownership_of_selector;

verus! {

/// A handle to a device.
#[derive(Debug, PartialEq, Eq)]
pub struct MTLDevice(pub Handle);

/// How many command buffers a queue takes at a time where nothing else is asked for.
pub const DEFAULT_QUEUE_CAPACITY: u64 = 64;

/// A device as the system holds it: what it is like, its name, and the families and
/// feature sets it supports.
pub open spec fn device_like(
    info: DeviceInfo,
    name: Seq<char>,
    families: Seq<u64>,
    feature_sets: Seq<u64>,
) -> ObjectView {
    ObjectView {
        kind: ObjectKind::Device,
        strong: 1,
        native: 1,
        pins: Seq::empty(),
        payload: PayloadView::Device { info, name, families, feature_sets },
    }
}

/// A device of which nothing is known, as the system holds it.
pub open spec fn device_attached() -> ObjectView {
    device_like(DeviceInfo::initial(), Seq::empty(), Seq::empty(), Seq::empty())
}

/// An object of `kind` that carries nothing, as a native call hands it to its caller.
pub open spec fn plain_made(kind: ObjectKind) -> ObjectView {
    ObjectView::handed_out(kind, Ownership::Owned, PayloadView::Plain)
}

/// A queue of `device` that takes `capacity` command buffers at a time, as the native
/// call hands it to its caller.
pub open spec fn queue_made(device: u64, capacity: u64) -> ObjectView {
    ObjectView::handed_out(
        ObjectKind::CommandQueue,
        Ownership::Owned,
        PayloadView::CommandQueue { device, capacity, order: Seq::empty() },
    )
}

/// A pipeline state of `kind` of which the native layer says `facts`, as the native call
/// hands it to its caller. It runs `first` and `second`: the kernel and nothing, or the
/// vertex and the fragment function.
pub open spec fn pipeline_made(
    kind: ObjectKind,
    facts: PipelineFacts,
    first: u64,
    second: u64,
) -> ObjectView {
    ObjectView::handed_out(kind, Ownership::Owned, PayloadView::Pipeline { facts, first, second })
}

/// A sampler state made from `descriptor`, as the native call hands it to its caller.
pub open spec fn sampler_made(descriptor: MTLSamplerDescriptor) -> ObjectView {
    ObjectView::handed_out(
        ObjectKind::SamplerState,
        Ownership::Owned,
        PayloadView::Sampler { descriptor },
    )
}

/// A depth and stencil state made from `descriptor`, as the native call hands it to its
/// caller.
pub open spec fn depth_stencil_made(descriptor: MTLDepthStencilDescriptor) -> ObjectView {
    ObjectView::handed_out(
        ObjectKind::DepthStencilState,
        Ownership::Owned,
        PayloadView::DepthStencil { descriptor },
    )
}

/// An indirect command buffer for `capacity` commands made from `descriptor`, as the
/// native call hands it to its caller.
pub open spec fn indirect_made(
    descriptor: MTLIndirectCommandBufferDescriptor,
    capacity: u64,
    options: u64,
) -> ObjectView {
    ObjectView::handed_out(
        ObjectKind::IndirectCommandBuffer,
        Ownership::Owned,
        PayloadView::Indirect { descriptor, capacity, options },
    )
}

/// An argument encoder for `arguments`, as the native call hands it to its caller: it
/// writes to no buffer yet.
pub open spec fn arguments_made(arguments: Seq<MTLArgumentDescriptor>) -> ObjectView {
    ObjectView::handed_out(
        ObjectKind::ArgumentEncoder,
        Ownership::Owned,
        PayloadView::Arguments {
            arguments,
            buffer: 0,
            offset: 0,
            element: 0,
            entries: Seq::empty(),
        },
    )
}

/// A shared event as the native call hands it to its caller: signalled with 0.
pub open spec fn shared_event_made() -> ObjectView {
    ObjectView::handed_out(
        ObjectKind::SharedEvent,
        Ownership::Owned,
        PayloadView::Signal { value: 0 },
    )
}

/// A copy of `descriptors`.
fn copy_arguments(descriptors: &[MTLArgumentDescriptor]) -> (copy: Vec<MTLArgumentDescriptor>)
    ensures
        copy@ == descriptors@,
{
    let mut copy: Vec<MTLArgumentDescriptor> = Vec::new();
    let mut i: usize = 0;
    while i < descriptors.len()
        invariant
            i <= descriptors.len(),
            copy@ == descriptors@.take(i as int),
        decreases descriptors.len() - i,
    {
        copy.push(descriptors[i]);
        assert(descriptors@.take(i + 1) == descriptors@.take(i as int).push(
            descriptors@[i as int],
        ));
        i = i + 1;
    }
    assert(descriptors@.take(i as int) == descriptors@);
    copy
}

/// Makes the library that the compiler answered with, or hands on what it said against it.
fn compile(
    driver: &mut Driver,
    device: u64,
    selector: &str,
    reply: Result<Vec<String>, String>,
) -> (res: Result<MTLLibrary, MetalError>)
    requires
        ownership_of(selector@) == Ownership::Owned,
    ensures
        match old(driver)@.fault(device, ObjectKind::Device) {
            Some(e) => res == Err::<MTLLibrary, MetalError>(e) && final(driver)@ == old(driver)@,
            None => match reply {
                Err(message) => res == Err::<MTLLibrary, MetalError>(
                    MetalError::Diagnostic(message),
                ) && final(driver)@ == old(driver)@,
                Ok(names) => if old(driver)@.full() {
                    &&& res == Err::<MTLLibrary, MetalError>(MetalError::Exhausted)
                    &&& final(driver)@ == old(driver)@
                } else {
                    &&& res == Ok::<MTLLibrary, MetalError>(MTLLibrary(Handle(old(driver)@.next())))
                    &&& final(driver)@ == old(driver)@.plus(
                        library_made(names@.map_values(|name: String| name@)),
                    )
                },
            },
        },
        old(driver)@.leads_to(final(driver)@),
{
    proof {
        lemma_leads_to_itself(driver@);
    }
    match driver.check(device, ObjectKind::Device) {
        Err(e) => {
            return Err(e);
        },
        Ok(()) => {},
    }
    match reply {
        Err(message) => Err(MetalError::Diagnostic(message)),
        Ok(names) => match driver.make(
            ObjectKind::Library,
            selector,
            Payload::Library { functions: names },
        ) {
            Ok(handle) => Ok(MTLLibrary(handle)),
            Err(e) => Err(e),
        },
    }
}

/// A buffer of `length` bytes, as the native call hands it to its caller.
pub open spec fn buffer_made(length: u64, options: u64) -> ObjectView {
    ObjectView::handed_out(
        ObjectKind::Buffer,
        Ownership::Owned,
        PayloadView::Buffer { length, options },
    )
}

impl DriverView {
    /// The device that the system offers first; 0 where it has none.
    pub open spec fn default_device(self) -> u64 {
        if self.devices.len() == 0 {
            0
        } else {
            self.devices[0]
        }
    }

    /// The state after the device `device` is attached to the system.
    pub open spec fn attach_like(self, device: ObjectView) -> DriverView {
        DriverView {
            objects: self.objects.push(device),
            devices: self.devices.push(self.next()),
            ..self
        }
    }

    /// The state after a device of which nothing is known is attached to the system.
    pub open spec fn attach(self) -> DriverView {
        self.attach_like(device_attached())
    }

    /// Whether device `raw` makes textures with `count` samples in each texel.
    pub open spec fn samples_supported(self, raw: u64, count: u64) -> bool {
        count < 64 && (self.device_info(raw).texture_sample_counts >> count) & 1 == 1
    }

    /// The state after `raws` were retained in turn, up to the first that is refused, and
    /// that refusal.
    pub open spec fn retain_all(self, raws: Seq<u64>) -> (DriverView, Option<MetalError>)
        decreases raws.len(),
    {
        if raws.len() == 0 {
            (self, None)
        } else {
            let (before, fault) = self.retain_all(raws.drop_last());
            match fault {
                Some(e) => (before, Some(e)),
                None => match before.retain_fault(raws.last()) {
                    Some(e) => (before, Some(e)),
                    None => (before.retain(raws.last()), None),
                },
            }
        }
    }
}

impl Driver {
    /// Attaches a device of which nothing is known to the system, which holds it from now
    /// on.
    pub fn attach_device(&mut self) -> (res: Result<u64, MetalError>)
        ensures
            old(self)@.full() ==> res == Err::<u64, MetalError>(
                MetalError::Exhausted,
            ) && final(self)@
                == old(self)@,
            !old(self)@.full() ==> res == Ok::<u64, MetalError>(old(self)@.next()) && final(self)@
                == old(self)@.attach(),
            old(self)@.leads_to(final(self)@),
    {
        proof {
            reveal_strlit("");
        }
        assert(""@ =~= Seq::<char>::empty());
        let families: Vec<u64> = Vec::new();
        let feature_sets: Vec<u64> = Vec::new();
        assert(families@ =~= Seq::<u64>::empty());
        assert(feature_sets@ =~= Seq::<u64>::empty());
        self.attach_device_with(DeviceInfo::new(), "", families, feature_sets)
    }

    /// Attaches a device to the system, which holds it from now on: one that is like
    /// `info`, is called `name`, and supports `families` and `feature_sets`.
    pub fn attach_device_with(
        &mut self,
        info: DeviceInfo,
        name: &str,
        families: Vec<u64>,
        feature_sets: Vec<u64>,
    ) -> (res: Result<u64, MetalError>)
        ensures
            old(self)@.full() ==> res == Err::<u64, MetalError>(
                MetalError::Exhausted,
            ) && final(self)@
                == old(self)@,
            !old(self)@.full() ==> res == Ok::<u64, MetalError>(old(self)@.next()) && final(self)@
                == old(self)@.attach_like(device_like(info, name@, families@, feature_sets@)),
            old(self)@.leads_to(final(self)@),
    {
        if self.objects.len() as u64 == u64::MAX {
            proof {
                lemma_leads_to_itself(self@);
            }
            return Err(MetalError::Exhausted);
        }
        let raw: u64 = self.objects.len() as u64 + 1;
        let ghost device = device_like(info, name@, families@, feature_sets@);
        proof {
            lemma_plus_leads_to(self@, device);
        }
        self.objects.push(
            Object {
                kind: ObjectKind::Device,
                strong: 1,
                native: 1,
                pins: Vec::new(),
                payload: Payload::Device {
                    info,
                    name: String::from_str(name),
                    families,
                    feature_sets,
                },
            },
        );
        self.devices.push(raw);
        assert(self@.objects =~= old(self)@.attach_like(device).objects);
        proof {
            let s = old(self)@;
            let mid = s.plus(device);
            let t = self@;
            assert(t.objects == mid.objects);
            assert forall|other: u64|
                #![trigger t.get(other)]
                s.has(other) implies s.object_evolves(t, other) by {
                assert(t.get(other) == mid.get(other));
                assert(mid.has(other));
                assert(t.open(other) == mid.open(other));
                assert(t.status(other) == mid.status(other));
            }
            if s.sound() {
                assert forall|other: u64| t.has(other) implies (#[trigger] t.get(
                    other,
                )).well_formed() by {
                    assert(mid.has(other));
                    assert(mid.get(other).well_formed());
                }
            }
        }
        Ok(raw)
    }

    /// The devices of the system, in the order in which they were attached.
    pub fn devices(&self) -> (devices: Vec<u64>)
        ensures
            devices@ == self@.devices,
    {
        let mut copy: Vec<u64> = Vec::new();
        let mut i: usize = 0;
        while i < self.devices.len()
            invariant
                i <= self.devices.len(),
                copy@ == self.devices@.take(i as int),
            decreases self.devices.len() - i,
        {
            copy.push(self.devices[i]);
            assert(self.devices@.take(i + 1) == self.devices@.take(i as int).push(
                self.devices@[i as int],
            ));
            i = i + 1;
        }
        assert(self.devices@.take(i as int) == self.devices@);
        copy
    }
}

impl MTLDevice {
    /// The device that the system offers first, retained; the null handle where the system
    /// has no device.
    pub fn create_system_default_device(driver: &mut Driver) -> (res: Result<MTLDevice, MetalError>)
        ensures
            match old(driver)@.retain_fault(old(driver)@.default_device()) {
                Some(e) => res == Err::<MTLDevice, MetalError>(e) && final(driver)@ == old(driver)@,
                None => res == Ok::<MTLDevice, MetalError>(
                    MTLDevice(Handle(old(driver)@.default_device())),
                ) && final(driver)@ == old(driver)@.retain(old(driver)@.default_device()),
            },
            old(driver)@.leads_to(final(driver)@),
    {
        proof {
            lemma_borrowed_names();
        }
        let raw: u64 = if driver.devices.len() == 0 {
            0
        } else {
            driver.devices[0]
        };
        match Handle::adopt(driver, raw, ownership_of_selector("MTLCreateSystemDefaultDevice")) {
            Ok(handle) => Ok(MTLDevice(handle)),
            Err(e) => Err(e),
        }
    }

    /// Every device of the system, each retained, in the order in which they were
    /// attached. Where a retain is refused, the devices before that one stay retained.
    pub fn copy_all_devices(driver: &mut Driver) -> (res: Result<Vec<MTLDevice>, MetalError>)
        ensures
            final(driver)@ == old(driver)@.retain_all(old(driver)@.devices).0,
            match old(driver)@.retain_all(old(driver)@.devices).1 {
                Some(e) => res == Err::<Vec<MTLDevice>, MetalError>(e),
                None => res matches Ok(handles) && handles@.len() == old(driver)@.devices.len()
                    && forall|i: int|
                    0 <= i < handles@.len() ==> handles@[i] == MTLDevice(
                        Handle(old(driver)@.devices[i]),
                    ),
            },
            old(driver)@.leads_to(final(driver)@),
    {
        let list = driver.devices();
        let mut handles: Vec<MTLDevice> = Vec::new();
        let mut i: usize = 0;
        proof {
            lemma_leads_to_itself(driver@);
        }
        while i < list.len()
            invariant
                i <= list.len(),
                list@ == old(driver)@.devices,
                (driver@, None::<MetalError>) == old(driver)@.retain_all(list@.take(i as int)),
                handles@.len() == i,
                forall|k: int| 0 <= k < i ==> handles@[k] == MTLDevice(Handle(list@[k])),
                old(driver)@.leads_to(driver@),
            decreases list.len() - i,
        {
            assert(list@.take(i + 1).drop_last() == list@.take(i as int));
            let ghost before = driver@;
            match driver.retain(list[i]) {
                Err(e) => {
                    proof {
                        lemma_retain_all_stops(old(driver)@, list@, i + 1);
                    }
                    return Err(e);
                },
                Ok(raw) => {
                    handles.push(MTLDevice(Handle(raw)));
                },
            }
            proof {
                crate::laws::lemma_leads_to_is_transitive(old(driver)@, before, driver@);
            }
            i = i + 1;
        }
        assert(list@.take(i as int) == list@);
        Ok(handles)
    }

    /// Whether the device drives no display.
    pub fn is_headless(&self, driver: &Driver) -> (res: Result<bool, MetalError>)
        ensures
            match driver@.fault(self.0.0, ObjectKind::Device) {
                Some(e) => res == Err::<bool, MetalError>(e),
                None => res == Ok::<bool, MetalError>(driver@.device_info(self.0.0).headless),
            },
    {
        match driver.check(self.0.0, ObjectKind::Device) {
            Err(e) => Err(e),
            Ok(()) => Ok(driver.device_info(self.0.0).headless),
        }
    }

    /// Whether the device spares power.
    pub fn is_low_power(&self, driver: &Driver) -> (res: Result<bool, MetalError>)
        ensures
            match driver@.fault(self.0.0, ObjectKind::Device) {
                Some(e) => res == Err::<bool, MetalError>(e),
                None => res == Ok::<bool, MetalError>(driver@.device_info(self.0.0).low_power),
            },
    {
        match driver.check(self.0.0, ObjectKind::Device) {
            Err(e) => Err(e),
            Ok(()) => Ok(driver.device_info(self.0.0).low_power),
        }
    }

    /// Whether the device can be taken out while the system runs.
    pub fn is_removable(&self, driver: &Driver) -> (res: Result<bool, MetalError>)
        ensures
            match driver@.fault(self.0.0, ObjectKind::Device) {
                Some(e) => res == Err::<bool, MetalError>(e),
                None => res == Ok::<bool, MetalError>(driver@.device_info(self.0.0).removable),
            },
    {
        match driver.check(self.0.0, ObjectKind::Device) {
            Err(e) => Err(e),
            Ok(()) => Ok(driver.device_info(self.0.0).removable),
        }
    }

    /// The number by which the system knows the device.
    pub fn get_registry_id(&self, driver: &Driver) -> (res: Result<u64, MetalError>)
        ensures
            match driver@.fault(self.0.0, ObjectKind::Device) {
                Some(e) => res == Err::<u64, MetalError>(e),
                None => res == Ok::<u64, MetalError>(driver@.device_info(self.0.0).registry_id),
            },
    {
        match driver.check(self.0.0, ObjectKind::Device) {
            Err(e) => Err(e),
            Ok(()) => Ok(driver.device_info(self.0.0).registry_id),
        }
    }

    /// Where the device sits.
    pub fn get_location(&self, driver: &Driver) -> (res: Result<u64, MetalError>)
        ensures
            match driver@.fault(self.0.0, ObjectKind::Device) {
                Some(e) => res == Err::<u64, MetalError>(e),
                None => res == Ok::<u64, MetalError>(driver@.device_info(self.0.0).location),
            },
    {
        match driver.check(self.0.0, ObjectKind::Device) {
            Err(e) => Err(e),
            Ok(()) => Ok(driver.device_info(self.0.0).location),
        }
    }

    /// The place in the machine at which the device sits.
    pub fn get_location_number(&self, driver: &Driver) -> (res: Result<u64, MetalError>)
        ensures
            match driver@.fault(self.0.0, ObjectKind::Device) {
                Some(e) => res == Err::<u64, MetalError>(e),
                None => res == Ok::<u64, MetalError>(driver@.device_info(self.0.0).location_number),
            },
    {
        match driver.check(self.0.0, ObjectKind::Device) {
            Err(e) => Err(e),
            Ok(()) => Ok(driver.device_info(self.0.0).location_number),
        }
    }

    /// The most bytes a second that pass between the device and memory.
    pub fn get_max_transfer_rate(&self, driver: &Driver) -> (res: Result<u64, MetalError>)
        ensures
            match driver@.fault(self.0.0, ObjectKind::Device) {
                Some(e) => res == Err::<u64, MetalError>(e),
                None => res == Ok::<u64, MetalError>(
                    driver@.device_info(self.0.0).max_transfer_rate,
                ),
            },
    {
        match driver.check(self.0.0, ObjectKind::Device) {
            Err(e) => Err(e),
            Ok(()) => Ok(driver.device_info(self.0.0).max_transfer_rate),
        }
    }

    /// Whether the device shares its memory with the processor.
    pub fn has_unified_memory(&self, driver: &Driver) -> (res: Result<bool, MetalError>)
        ensures
            match driver@.fault(self.0.0, ObjectKind::Device) {
                Some(e) => res == Err::<bool, MetalError>(e),
                None => res == Ok::<bool, MetalError>(driver@.device_info(self.0.0).unified_memory),
            },
    {
        match driver.check(self.0.0, ObjectKind::Device) {
            Err(e) => Err(e),
            Ok(()) => Ok(driver.device_info(self.0.0).unified_memory),
        }
    }

    /// The group of devices that the device shares memory with.
    pub fn get_peer_group_id(&self, driver: &Driver) -> (res: Result<u64, MetalError>)
        ensures
            match driver@.fault(self.0.0, ObjectKind::Device) {
                Some(e) => res == Err::<u64, MetalError>(e),
                None => res == Ok::<u64, MetalError>(driver@.device_info(self.0.0).peer_group_id),
            },
    {
        match driver.check(self.0.0, ObjectKind::Device) {
            Err(e) => Err(e),
            Ok(()) => Ok(driver.device_info(self.0.0).peer_group_id),
        }
    }

    /// How many devices are in that group.
    pub fn get_peer_count(&self, driver: &Driver) -> (res: Result<u32, MetalError>)
        ensures
            match driver@.fault(self.0.0, ObjectKind::Device) {
                Some(e) => res == Err::<u32, MetalError>(e),
                None => res == Ok::<u32, MetalError>(driver@.device_info(self.0.0).peer_count),
            },
    {
        match driver.check(self.0.0, ObjectKind::Device) {
            Err(e) => Err(e),
            Ok(()) => Ok(driver.device_info(self.0.0).peer_count),
        }
    }

    /// The place of the device in that group.
    pub fn get_peer_index(&self, driver: &Driver) -> (res: Result<u32, MetalError>)
        ensures
            match driver@.fault(self.0.0, ObjectKind::Device) {
                Some(e) => res == Err::<u32, MetalError>(e),
                None => res == Ok::<u32, MetalError>(driver@.device_info(self.0.0).peer_index),
            },
    {
        match driver.check(self.0.0, ObjectKind::Device) {
            Err(e) => Err(e),
            Ok(()) => Ok(driver.device_info(self.0.0).peer_index),
        }
    }

    /// The most bytes that should be in use at a time.
    pub fn get_recommended_max_working_set_size(
        &self,
        driver: &Driver,
    ) -> (res: Result<u64, MetalError>)
        ensures
            match driver@.fault(self.0.0, ObjectKind::Device) {
                Some(e) => res == Err::<u64, MetalError>(e),
                None => res == Ok::<u64, MetalError>(
                    driver@.device_info(self.0.0).recommended_max_working_set_size,
                ),
            },
    {
        match driver.check(self.0.0, ObjectKind::Device) {
            Err(e) => Err(e),
            Ok(()) => Ok(driver.device_info(self.0.0).recommended_max_working_set_size),
        }
    }

    /// The bytes that the device has given out.
    pub fn get_current_allocated_size(&self, driver: &Driver) -> (res: Result<u64, MetalError>)
        ensures
            match driver@.fault(self.0.0, ObjectKind::Device) {
                Some(e) => res == Err::<u64, MetalError>(e),
                None => res == Ok::<u64, MetalError>(
                    driver@.device_info(self.0.0).current_allocated_size,
                ),
            },
    {
        match driver.check(self.0.0, ObjectKind::Device) {
            Err(e) => Err(e),
            Ok(()) => Ok(driver.device_info(self.0.0).current_allocated_size),
        }
    }

    /// The most bytes of threadgroup memory.
    pub fn get_max_threadgroup_memory_length(
        &self,
        driver: &Driver,
    ) -> (res: Result<u64, MetalError>)
        ensures
            match driver@.fault(self.0.0, ObjectKind::Device) {
                Some(e) => res == Err::<u64, MetalError>(e),
                None => res == Ok::<u64, MetalError>(
                    driver@.device_info(self.0.0).max_threadgroup_memory_length,
                ),
            },
    {
        match driver.check(self.0.0, ObjectKind::Device) {
            Err(e) => Err(e),
            Ok(()) => Ok(driver.device_info(self.0.0).max_threadgroup_memory_length),
        }
    }

    /// Whether sample positions can be set.
    pub fn are_programmable_sample_positions_supported(
        &self,
        driver: &Driver,
    ) -> (res: Result<bool, MetalError>)
        ensures
            match driver@.fault(self.0.0, ObjectKind::Device) {
                Some(e) => res == Err::<bool, MetalError>(e),
                None => res == Ok::<bool, MetalError>(
                    driver@.device_info(self.0.0).programmable_sample_positions_supported,
                ),
            },
    {
        match driver.check(self.0.0, ObjectKind::Device) {
            Err(e) => Err(e),
            Ok(()) => Ok(driver.device_info(self.0.0).programmable_sample_positions_supported),
        }
    }

    /// Whether the packed depth and stencil format can be used.
    pub fn is_depth24_stencil8_pixel_format_supported(
        &self,
        driver: &Driver,
    ) -> (res: Result<bool, MetalError>)
        ensures
            match driver@.fault(self.0.0, ObjectKind::Device) {
                Some(e) => res == Err::<bool, MetalError>(e),
                None => res == Ok::<bool, MetalError>(
                    driver@.device_info(self.0.0).depth24_stencil8_pixel_format_supported,
                ),
            },
    {
        match driver.check(self.0.0, ObjectKind::Device) {
            Err(e) => Err(e),
            Ok(()) => Ok(driver.device_info(self.0.0).depth24_stencil8_pixel_format_supported),
        }
    }

    /// Whether fragment functions can read barycentric coordinates.
    pub fn are_barycentric_coords_supported(
        &self,
        driver: &Driver,
    ) -> (res: Result<bool, MetalError>)
        ensures
            match driver@.fault(self.0.0, ObjectKind::Device) {
                Some(e) => res == Err::<bool, MetalError>(e),
                None => res == Ok::<bool, MetalError>(
                    driver@.device_info(self.0.0).barycentric_coords_supported,
                ),
            },
    {
        match driver.check(self.0.0, ObjectKind::Device) {
            Err(e) => Err(e),
            Ok(()) => Ok(driver.device_info(self.0.0).barycentric_coords_supported),
        }
    }

    /// The most bytes a buffer can have.
    pub fn max_buffer_length(&self, driver: &Driver) -> (res: Result<u64, MetalError>)
        ensures
            match driver@.fault(self.0.0, ObjectKind::Device) {
                Some(e) => res == Err::<u64, MetalError>(e),
                None => res == Ok::<u64, MetalError>(
                    driver@.device_info(self.0.0).max_buffer_length,
                ),
            },
    {
        match driver.check(self.0.0, ObjectKind::Device) {
            Err(e) => Err(e),
            Ok(()) => Ok(driver.device_info(self.0.0).max_buffer_length),
        }
    }

    /// The tier of support for textures that are read and written.
    pub fn read_write_texture_support(&self, driver: &Driver) -> (res: Result<u64, MetalError>)
        ensures
            match driver@.fault(self.0.0, ObjectKind::Device) {
                Some(e) => res == Err::<u64, MetalError>(e),
                None => res == Ok::<u64, MetalError>(
                    driver@.device_info(self.0.0).read_write_texture_support,
                ),
            },
    {
        match driver.check(self.0.0, ObjectKind::Device) {
            Err(e) => Err(e),
            Ok(()) => Ok(driver.device_info(self.0.0).read_write_texture_support),
        }
    }

    /// The tier of support for argument buffers.
    pub fn get_argument_buffers_support(&self, driver: &Driver) -> (res: Result<u64, MetalError>)
        ensures
            match driver@.fault(self.0.0, ObjectKind::Device) {
                Some(e) => res == Err::<u64, MetalError>(e),
                None => res == Ok::<u64, MetalError>(
                    driver@.device_info(self.0.0).argument_buffers_support,
                ),
            },
    {
        match driver.check(self.0.0, ObjectKind::Device) {
            Err(e) => Err(e),
            Ok(()) => Ok(driver.device_info(self.0.0).argument_buffers_support),
        }
    }

    /// The most samplers an argument buffer can name.
    pub fn get_max_argument_buffer_sampler_count(
        &self,
        driver: &Driver,
    ) -> (res: Result<u64, MetalError>)
        ensures
            match driver@.fault(self.0.0, ObjectKind::Device) {
                Some(e) => res == Err::<u64, MetalError>(e),
                None => res == Ok::<u64, MetalError>(
                    driver@.device_info(self.0.0).max_argument_buffer_sampler_count,
                ),
            },
    {
        match driver.check(self.0.0, ObjectKind::Device) {
            Err(e) => Err(e),
            Ok(()) => Ok(driver.device_info(self.0.0).max_argument_buffer_sampler_count),
        }
    }

    /// The name of the device.
    pub fn get_name(&self, driver: &Driver) -> (res: Result<String, MetalError>)
        ensures
            match driver@.fault(self.0.0, ObjectKind::Device) {
                Some(e) => res == Err::<String, MetalError>(e),
                None => res matches Ok(name) && name@ == driver@.device_name(self.0.0),
            },
    {
        match driver.check(self.0.0, ObjectKind::Device) {
            Err(e) => Err(e),
            Ok(()) => Ok(driver.device_name(self.0.0)),
        }
    }

    /// The most threads a threadgroup can have in each dimension, as `(width, height, depth)`.
    pub fn get_max_threads_per_threadgroup(&self, driver: &Driver) -> (res: Result<
        (u64, u64, u64),
        MetalError,
    >)
        ensures
            match driver@.fault(self.0.0, ObjectKind::Device) {
                Some(e) => res == Err::<(u64, u64, u64), MetalError>(e),
                None => res matches Ok(extent) && MTLSize::packed(extent) == driver@.device_info(
                    self.0.0,
                ).max_threads_per_threadgroup,
            },
    {
        match driver.check(self.0.0, ObjectKind::Device) {
            Err(e) => Err(e),
            Ok(()) => {
                let size = driver.device_info(self.0.0).max_threads_per_threadgroup;
                Ok((size.w, size.h, size.d))
            },
        }
    }

    /// Whether the device supports the family `family`.
    pub fn supports_family(&self, driver: &Driver, family: u64) -> (res: Result<bool, MetalError>)
        ensures
            match driver@.fault(self.0.0, ObjectKind::Device) {
                Some(e) => res == Err::<bool, MetalError>(e),
                None => res == Ok::<bool, MetalError>(driver@.families(self.0.0).contains(family)),
            },
    {
        match driver.check(self.0.0, ObjectKind::Device) {
            Err(e) => Err(e),
            Ok(()) => Ok(driver.has_family(self.0.0, family)),
        }
    }

    /// Whether the device supports the feature set `set`.
    pub fn supports_feature_set(&self, driver: &Driver, set: u64) -> (res: Result<bool, MetalError>)
        ensures
            match driver@.fault(self.0.0, ObjectKind::Device) {
                Some(e) => res == Err::<bool, MetalError>(e),
                None => res == Ok::<bool, MetalError>(driver@.feature_sets(self.0.0).contains(set)),
            },
    {
        match driver.check(self.0.0, ObjectKind::Device) {
            Err(e) => Err(e),
            Ok(()) => Ok(driver.has_feature_set(self.0.0, set)),
        }
    }

    /// Whether the device amplifies a vertex `count` times: it does up to the most it can.
    pub fn supports_vertex_amplification_count(&self, driver: &Driver, count: u64) -> (res: Result<
        bool,
        MetalError,
    >)
        ensures
            match driver@.fault(self.0.0, ObjectKind::Device) {
                Some(e) => res == Err::<bool, MetalError>(e),
                None => res == Ok::<bool, MetalError>(
                    1 <= count <= driver@.device_info(self.0.0).max_vertex_amplification_count,
                ),
            },
    {
        match driver.check(self.0.0, ObjectKind::Device) {
            Err(e) => Err(e),
            Ok(()) => Ok(
                1 <= count && count <= driver.device_info(self.0.0).max_vertex_amplification_count,
            ),
        }
    }

    /// Whether the device makes textures with `count` samples in each texel.
    pub fn supports_texture_sample_count(&self, driver: &Driver, count: u64) -> (res: Result<
        bool,
        MetalError,
    >)
        ensures
            match driver@.fault(self.0.0, ObjectKind::Device) {
                Some(e) => res == Err::<bool, MetalError>(e),
                None => res == Ok::<bool, MetalError>(driver@.samples_supported(self.0.0, count)),
            },
    {
        match driver.check(self.0.0, ObjectKind::Device) {
            Err(e) => Err(e),
            Ok(()) => Ok(
                count < 64 && (driver.device_info(self.0.0).texture_sample_counts >> count) & 1
                    == 1,
            ),
        }
    }

    /// The alignment that a linear texture in `format` needs in its buffer.
    pub fn minimum_linear_texture_alignment_for_pixel_format(
        &self,
        driver: &Driver,
        format: u64,
    ) -> (res: Result<u64, MetalError>)
        ensures
            match driver@.fault(self.0.0, ObjectKind::Device) {
                Some(e) => res == Err::<u64, MetalError>(e),
                None => res == Ok::<u64, MetalError>(
                    driver@.device_info(self.0.0).linear_texture_alignment,
                ),
            },
    {
        match driver.check(self.0.0, ObjectKind::Device) {
            Err(e) => Err(e),
            Ok(()) => Ok(driver.device_info(self.0.0).linear_texture_alignment),
        }
    }

    /// The alignment that a texture buffer in `format` needs in its buffer.
    pub fn minimum_texture_buffer_alignment_for_pixel_format(
        &self,
        driver: &Driver,
        format: u64,
    ) -> (res: Result<u64, MetalError>)
        ensures
            match driver@.fault(self.0.0, ObjectKind::Device) {
                Some(e) => res == Err::<u64, MetalError>(e),
                None => res == Ok::<u64, MetalError>(
                    driver@.device_info(self.0.0).texture_buffer_alignment,
                ),
            },
    {
        match driver.check(self.0.0, ObjectKind::Device) {
            Err(e) => Err(e),
            Ok(()) => Ok(driver.device_info(self.0.0).texture_buffer_alignment),
        }
    }

    /// A new command queue.
    pub fn new_command_queue(
        &self,
        driver: &mut Driver,
    ) -> (res: Result<MTLCommandQueue, MetalError>)
        ensures
            match old(driver)@.make_fault(self.0.0, ObjectKind::Device) {
                Some(e) => res == Err::<MTLCommandQueue, MetalError>(
                    e,
                ) && final(driver)@ == old(driver)@,
                None => res == Ok::<MTLCommandQueue, MetalError>(
                    MTLCommandQueue(Handle(old(driver)@.next())),
                ) && final(driver)@ == old(driver)@.plus(
                    queue_made(self.0.0, DEFAULT_QUEUE_CAPACITY),
                ),
            },
            old(driver)@.leads_to(final(driver)@),
    {
        proof {
            lemma_owned_names();
        }
        match driver.produce(
            self.0.0,
            ObjectKind::Device,
            ObjectKind::CommandQueue,
            "newCommandQueue",
            Payload::CommandQueue {
                device: self.0.0,
                capacity: DEFAULT_QUEUE_CAPACITY,
                order: Vec::new(),
            },
        ) {
            Ok(handle) => Ok(MTLCommandQueue(handle)),
            Err(e) => Err(e),
        }
    }

    /// A new command queue that takes `max_command_buffers` command buffers at a time.
    pub fn new_command_queue_with_max_command_buffers(
        &self,
        driver: &mut Driver,
        max_command_buffers: u64,
    ) -> (res: Result<MTLCommandQueue, MetalError>)
        ensures
            match old(driver)@.make_fault(self.0.0, ObjectKind::Device) {
                Some(e) => res == Err::<MTLCommandQueue, MetalError>(
                    e,
                ) && final(driver)@ == old(driver)@,
                None => res == Ok::<MTLCommandQueue, MetalError>(
                    MTLCommandQueue(Handle(old(driver)@.next())),
                ) && final(driver)@ == old(driver)@.plus(queue_made(self.0.0, max_command_buffers)),
            },
            old(driver)@.leads_to(final(driver)@),
    {
        proof {
            lemma_owned_names();
        }
        match driver.produce(
            self.0.0,
            ObjectKind::Device,
            ObjectKind::CommandQueue,
            "newCommandQueueWithMaxCommandBufferCount",
            Payload::CommandQueue {
                device: self.0.0,
                capacity: max_command_buffers,
                order: Vec::new(),
            },
        ) {
            Ok(handle) => Ok(MTLCommandQueue(handle)),
            Err(e) => Err(e),
        }
    }

    /// A new buffer of `length` bytes.
    pub fn new_buffer_with_length(&self, driver: &mut Driver, length: u64, options: u64) -> (res:
        Result<MTLBuffer, MetalError>)
        ensures
            match old(driver)@.make_fault(self.0.0, ObjectKind::Device) {
                Some(e) => res == Err::<MTLBuffer, MetalError>(e) && final(driver)@ == old(driver)@,
                None => res == Ok::<MTLBuffer, MetalError>(MTLBuffer(Handle(old(driver)@.next())))
                    && final(driver)@ == old(driver)@.plus(buffer_made(length, options)),
            },
            old(driver)@.leads_to(final(driver)@),
    {
        proof {
            lemma_owned_names();
        }
        match driver.produce(
            self.0.0,
            ObjectKind::Device,
            ObjectKind::Buffer,
            "newBufferWithLength",
            Payload::Buffer { length, options },
        ) {
            Ok(handle) => Ok(MTLBuffer(handle)),
            Err(e) => Err(e),
        }
    }

    /// A new buffer that holds a copy of `bytes`.
    pub fn new_buffer_with_bytes(&self, driver: &mut Driver, bytes: &[u8], options: u64) -> (res:
        Result<MTLBuffer, MetalError>)
        ensures
            match old(driver)@.make_fault(self.0.0, ObjectKind::Device) {
                Some(e) => res == Err::<MTLBuffer, MetalError>(e) && final(driver)@ == old(driver)@,
                None => res == Ok::<MTLBuffer, MetalError>(MTLBuffer(Handle(old(driver)@.next())))
                    && final(driver)@ == old(driver)@.plus(
                    buffer_made(bytes@.len() as u64, options),
                ),
            },
            old(driver)@.leads_to(final(driver)@),
    {
        proof {
            lemma_owned_names();
        }
        match driver.produce(
            self.0.0,
            ObjectKind::Device,
            ObjectKind::Buffer,
            "newBufferWithBytes",
            Payload::Buffer { length: bytes.len() as u64, options },
        ) {
            Ok(handle) => Ok(MTLBuffer(handle)),
            Err(e) => Err(e),
        }
    }

    /// A new event.
    pub fn new_event(&self, driver: &mut Driver) -> (res: Result<MTLEvent, MetalError>)
        ensures
            match old(driver)@.make_fault(self.0.0, ObjectKind::Device) {
                Some(e) => res == Err::<MTLEvent, MetalError>(e) && final(driver)@ == old(driver)@,
                None => res == Ok::<MTLEvent, MetalError>(MTLEvent(Handle(old(driver)@.next())))
                    && final(driver)@ == old(driver)@.plus(plain_made(ObjectKind::Event)),
            },
            old(driver)@.leads_to(final(driver)@),
    {
        proof {
            lemma_owned_names();
        }
        match driver.produce(
            self.0.0,
            ObjectKind::Device,
            ObjectKind::Event,
            "newEvent",
            Payload::Plain,
        ) {
            Ok(handle) => Ok(MTLEvent(handle)),
            Err(e) => Err(e),
        }
    }

    /// A new shared event.
    pub fn new_shared_event(&self, driver: &mut Driver) -> (res: Result<MTLSharedEvent, MetalError>)
        ensures
            match old(driver)@.make_fault(self.0.0, ObjectKind::Device) {
                Some(e) => res == Err::<MTLSharedEvent, MetalError>(
                    e,
                ) && final(driver)@ == old(driver)@,
                None => res == Ok::<MTLSharedEvent, MetalError>(
                    MTLSharedEvent(Handle(old(driver)@.next())),
                ) && final(driver)@ == old(driver)@.plus(shared_event_made()),
            },
            old(driver)@.leads_to(final(driver)@),
    {
        proof {
            lemma_owned_names();
        }
        match driver.produce(
            self.0.0,
            ObjectKind::Device,
            ObjectKind::SharedEvent,
            "newSharedEvent",
            Payload::Signal { value: 0 },
        ) {
            Ok(handle) => Ok(MTLSharedEvent(handle)),
            Err(e) => Err(e),
        }
    }

    /// A new fence.
    pub fn new_fence(&self, driver: &mut Driver) -> (res: Result<MTLFence, MetalError>)
        ensures
            match old(driver)@.make_fault(self.0.0, ObjectKind::Device) {
                Some(e) => res == Err::<MTLFence, MetalError>(e) && final(driver)@ == old(driver)@,
                None => res == Ok::<MTLFence, MetalError>(MTLFence(Handle(old(driver)@.next())))
                    && final(driver)@ == old(driver)@.plus(plain_made(ObjectKind::Fence)),
            },
            old(driver)@.leads_to(final(driver)@),
    {
        proof {
            lemma_owned_names();
        }
        match driver.produce(
            self.0.0,
            ObjectKind::Device,
            ObjectKind::Fence,
            "newFence",
            Payload::Plain,
        ) {
            Ok(handle) => Ok(MTLFence(handle)),
            Err(e) => Err(e),
        }
    }


    /// A library from compiled `data`. `reply` is what the compiler answered: the names of
    /// the functions it compiled, or what it said against the library.
    pub fn new_library_with_data(
        &self,
        driver: &mut Driver,
        data: &[u8],
        reply: Result<Vec<String>, String>,
    ) -> (res: Result<MTLLibrary, MetalError>)
        ensures
            match old(driver)@.fault(self.0.0, ObjectKind::Device) {
                Some(e) => res == Err::<MTLLibrary, MetalError>(
                    e,
                ) && final(driver)@ == old(driver)@,
                None => match reply {
                    Err(message) => res == Err::<MTLLibrary, MetalError>(
                        MetalError::Diagnostic(message),
                    ) && final(driver)@ == old(driver)@,
                    Ok(names) => if old(driver)@.full() {
                        &&& res == Err::<MTLLibrary, MetalError>(MetalError::Exhausted)
                        &&& final(driver)@ == old(driver)@
                    } else {
                        &&& res == Ok::<MTLLibrary, MetalError>(
                            MTLLibrary(Handle(old(driver)@.next())),
                        )
                        &&& final(driver)@ == old(driver)@.plus(
                            library_made(names@.map_values(|name: String| name@)),
                        )
                    },
                },
            },
            old(driver)@.leads_to(final(driver)@),
    {
        proof {
            lemma_owned_names();
        }
        compile(driver, self.0.0, "newLibraryWithData", reply)
    }

    /// A library compiled from `source` as `options` say. `reply` is what the compiler
    /// answered: the names of the functions it compiled, or what it said against the
    /// library.
    pub fn new_library_with_source(
        &self,
        driver: &mut Driver,
        source: &str,
        options: MTLCompileOptions,
        reply: Result<Vec<String>, String>,
    ) -> (res: Result<MTLLibrary, MetalError>)
        ensures
            match old(driver)@.fault(self.0.0, ObjectKind::Device) {
                Some(e) => res == Err::<MTLLibrary, MetalError>(
                    e,
                ) && final(driver)@ == old(driver)@,
                None => match reply {
                    Err(message) => res == Err::<MTLLibrary, MetalError>(
                        MetalError::Diagnostic(message),
                    ) && final(driver)@ == old(driver)@,
                    Ok(names) => if old(driver)@.full() {
                        &&& res == Err::<MTLLibrary, MetalError>(MetalError::Exhausted)
                        &&& final(driver)@ == old(driver)@
                    } else {
                        &&& res == Ok::<MTLLibrary, MetalError>(
                            MTLLibrary(Handle(old(driver)@.next())),
                        )
                        &&& final(driver)@ == old(driver)@.plus(
                            library_made(names@.map_values(|name: String| name@)),
                        )
                    },
                },
            },
            old(driver)@.leads_to(final(driver)@),
    {
        proof {
            lemma_owned_names();
        }
        compile(driver, self.0.0, "newLibraryWithSource", reply)
    }

    /// A library from the compiled file at `path`. `reply` is what the compiler answered:
    /// the names of the functions it compiled, or what it said against the library.
    pub fn new_library_with_file(
        &self,
        driver: &mut Driver,
        path: &str,
        reply: Result<Vec<String>, String>,
    ) -> (res: Result<MTLLibrary, MetalError>)
        ensures
            match old(driver)@.fault(self.0.0, ObjectKind::Device) {
                Some(e) => res == Err::<MTLLibrary, MetalError>(
                    e,
                ) && final(driver)@ == old(driver)@,
                None => match reply {
                    Err(message) => res == Err::<MTLLibrary, MetalError>(
                        MetalError::Diagnostic(message),
                    ) && final(driver)@ == old(driver)@,
                    Ok(names) => if old(driver)@.full() {
                        &&& res == Err::<MTLLibrary, MetalError>(MetalError::Exhausted)
                        &&& final(driver)@ == old(driver)@
                    } else {
                        &&& res == Ok::<MTLLibrary, MetalError>(
                            MTLLibrary(Handle(old(driver)@.next())),
                        )
                        &&& final(driver)@ == old(driver)@.plus(
                            library_made(names@.map_values(|name: String| name@)),
                        )
                    },
                },
            },
            old(driver)@.leads_to(final(driver)@),
    {
        proof {
            lemma_owned_names();
        }
        compile(driver, self.0.0, "newLibraryWithFile", reply)
    }

    /// A render pipeline state made as `descriptor` says, whose vertex function must be at
    /// hand. `reply` is what the native layer answered: what it says of the state it made,
    /// or what it said against the pipeline.
    pub fn new_render_pipeline_state_with_descriptor(
        &self,
        driver: &mut Driver,
        descriptor: &MTLRenderPipelineDescriptor,
        reply: Result<PipelineFacts, String>,
    ) -> (res: Result<MTLRenderPipelineState, MetalError>)
        ensures
            match old(driver)@.fault(self.0.0, ObjectKind::Device) {
                Some(e) => res == Err::<MTLRenderPipelineState, MetalError>(
                    e,
                ) && final(driver)@ == old(driver)@,
                None => match old(driver)@.fault(descriptor.vertex_function, ObjectKind::Function) {
                    Some(e) => res == Err::<MTLRenderPipelineState, MetalError>(
                        e,
                    ) && final(driver)@ == old(driver)@,
                    None => match reply {
                        Err(message) => res == Err::<MTLRenderPipelineState, MetalError>(
                            MetalError::Diagnostic(message),
                        ) && final(driver)@ == old(driver)@,
                        Ok(facts) => if old(driver)@.full() {
                            &&& res == Err::<MTLRenderPipelineState, MetalError>(
                                MetalError::Exhausted,
                            )
                            &&& final(driver)@ == old(driver)@
                        } else {
                            &&& res == Ok::<MTLRenderPipelineState, MetalError>(
                                MTLRenderPipelineState(Handle(old(driver)@.next())),
                            )
                            &&& final(driver)@ == old(driver)@.plus(
                                pipeline_made(
                                    ObjectKind::RenderPipelineState,
                                    facts,
                                    descriptor.vertex_function,
                                    descriptor.fragment_function,
                                ),
                            )
                        },
                    },
                },
            },
            old(driver)@.leads_to(final(driver)@),
    {
        proof {
            lemma_leads_to_itself(driver@);
            lemma_owned_names();
        }
        match driver.check(self.0.0, ObjectKind::Device) {
            Err(e) => {
                return Err(e);
            },
            Ok(()) => {},
        }
        match driver.check(descriptor.vertex_function, ObjectKind::Function) {
            Err(e) => {
                return Err(e);
            },
            Ok(()) => {},
        }
        match reply {
            Err(message) => Err(MetalError::Diagnostic(message)),
            Ok(facts) => match driver.make(
                ObjectKind::RenderPipelineState,
                "newRenderPipelineStateWithDescriptor",
                Payload::Pipeline {
                    facts,
                    first: descriptor.vertex_function,
                    second: descriptor.fragment_function,
                },
            ) {
                Ok(handle) => Ok(MTLRenderPipelineState(handle)),
                Err(e) => Err(e),
            },
        }
    }

    /// A compute pipeline state that runs `function`, whose handle gives its reference up
    /// once the native layer has answered. `reply` is what the native layer answered: what
    /// it says of the state it made, or what it said against the pipeline.
    pub fn new_compute_pipeline_state_with_function(
        &self,
        driver: &mut Driver,
        function: MTLFunction,
        reply: Result<PipelineFacts, String>,
    ) -> (res: Result<MTLComputePipelineState, MetalError>)
        ensures
            match old(driver)@.fault(self.0.0, ObjectKind::Device) {
                Some(e) => res == Err::<MTLComputePipelineState, MetalError>(e) && final(driver)@
                    == old(driver)@,
                None => match old(driver)@.hand_over_fault(function.0.0, ObjectKind::Function) {
                    Some(e) => res == Err::<MTLComputePipelineState, MetalError>(
                        e,
                    ) && final(driver)@
                        == old(driver)@,
                    None => match reply {
                        Err(message) => res == Err::<MTLComputePipelineState, MetalError>(
                            MetalError::Diagnostic(message),
                        ) && final(driver)@ == old(driver)@.release(function.0.0),
                        Ok(facts) => if old(driver)@.full() {
                            &&& res == Err::<MTLComputePipelineState, MetalError>(
                                MetalError::Exhausted,
                            )
                            &&& final(driver)@ == old(driver)@
                        } else {
                            &&& res == Ok::<MTLComputePipelineState, MetalError>(
                                MTLComputePipelineState(Handle(old(driver)@.next())),
                            )
                            &&& final(driver)@ == old(driver)@.plus(
                                pipeline_made(
                                    ObjectKind::ComputePipelineState,
                                    facts,
                                    function.0.0,
                                    0,
                                ),
                            ).release(function.0.0)
                        },
                    },
                },
            },
            old(driver)@.leads_to(final(driver)@),
    {
        proof {
            lemma_leads_to_itself(driver@);
            lemma_owned_names();
        }
        match driver.check(self.0.0, ObjectKind::Device) {
            Err(e) => {
                return Err(e);
            },
            Ok(()) => {},
        }
        match check_hand_over(driver, function.0.0, ObjectKind::Function) {
            Err(e) => {
                return Err(e);
            },
            Ok(()) => {},
        }
        match reply {
            Err(message) => {
                let _ = driver.release(function.0.0);
                Err(MetalError::Diagnostic(message))
            },
            Ok(facts) => match driver.make(
                ObjectKind::ComputePipelineState,
                "newComputePipelineStateWithFunction",
                Payload::Pipeline { facts, first: function.0.0, second: 0 },
            ) {
                Err(e) => Err(e),
                Ok(handle) => {
                    let ghost mid = driver@;
                    assert(mid.get(function.0.0) == old(driver)@.get(function.0.0));
                    assert(mid.live(function.0.0)) by {
                        assert(mid.get(function.0.0).strong > 0);
                    }
                    let _ = driver.release(function.0.0);
                    proof {
                        lemma_leads_to_is_transitive(old(driver)@, mid, driver@);
                    }
                    Ok(MTLComputePipelineState(handle))
                },
            },
        }
    }

    /// A compute pipeline state made as `descriptor` says, whose kernel must be at hand.
    /// `reply` is what the native layer answered: what it says of the state it made, or
    /// what it said against the pipeline.
    pub fn new_compute_pipeline_state_with_descriptor(
        &self,
        driver: &mut Driver,
        descriptor: &MTLComputePipelineDescriptor,
        reply: Result<PipelineFacts, String>,
    ) -> (res: Result<MTLComputePipelineState, MetalError>)
        ensures
            match old(driver)@.fault(self.0.0, ObjectKind::Device) {
                Some(e) => res == Err::<MTLComputePipelineState, MetalError>(
                    e,
                ) && final(driver)@ == old(driver)@,
                None => match old(driver)@.fault(
                    descriptor.compute_function,
                    ObjectKind::Function,
                ) {
                    Some(e) => res == Err::<MTLComputePipelineState, MetalError>(
                        e,
                    ) && final(driver)@ == old(driver)@,
                    None => match reply {
                        Err(message) => res == Err::<MTLComputePipelineState, MetalError>(
                            MetalError::Diagnostic(message),
                        ) && final(driver)@ == old(driver)@,
                        Ok(facts) => if old(driver)@.full() {
                            &&& res == Err::<MTLComputePipelineState, MetalError>(
                                MetalError::Exhausted,
                            )
                            &&& final(driver)@ == old(driver)@
                        } else {
                            &&& res == Ok::<MTLComputePipelineState, MetalError>(
                                MTLComputePipelineState(Handle(old(driver)@.next())),
                            )
                            &&& final(driver)@ == old(driver)@.plus(
                                pipeline_made(
                                    ObjectKind::ComputePipelineState,
                                    facts,
                                    descriptor.compute_function,
                                    0,
                                ),
                            )
                        },
                    },
                },
            },
            old(driver)@.leads_to(final(driver)@),
    {
        proof {
            lemma_leads_to_itself(driver@);
            lemma_owned_names();
        }
        match driver.check(self.0.0, ObjectKind::Device) {
            Err(e) => {
                return Err(e);
            },
            Ok(()) => {},
        }
        match driver.check(descriptor.compute_function, ObjectKind::Function) {
            Err(e) => {
                return Err(e);
            },
            Ok(()) => {},
        }
        match reply {
            Err(message) => Err(MetalError::Diagnostic(message)),
            Ok(facts) => match driver.make(
                ObjectKind::ComputePipelineState,
                "newComputePipelineStateWithDescriptor",
                Payload::Pipeline { facts, first: descriptor.compute_function, second: 0 },
            ) {
                Ok(handle) => Ok(MTLComputePipelineState(handle)),
                Err(e) => Err(e),
            },
        }
    }

    /// A new texture made as `descriptor` says.
    pub fn new_texture_with_descriptor(
        &self,
        driver: &mut Driver,
        descriptor: MTLTextureDescriptor,
    ) -> (res: Result<MTLTexture, MetalError>)
        ensures
            match old(driver)@.make_fault(self.0.0, ObjectKind::Device) {
                Some(e) => res == Err::<MTLTexture, MetalError>(
                    e,
                ) && final(driver)@ == old(driver)@,
                None => res == Ok::<MTLTexture, MetalError>(MTLTexture(Handle(old(driver)@.next())))
                    && final(driver)@ == old(driver)@.plus(texture_made(descriptor)),
            },
            old(driver)@.leads_to(final(driver)@),
    {
        proof {
            lemma_owned_names();
        }
        match driver.produce(
            self.0.0,
            ObjectKind::Device,
            ObjectKind::Texture,
            "newTextureWithDescriptor",
            Payload::Texture {
                descriptor,
                parent: 0,
                buffer: 0,
                level: 0,
                slice: 0,
                shareable: false,
            },
        ) {
            Ok(handle) => Ok(MTLTexture(handle)),
            Err(e) => Err(e),
        }
    }

    /// A new texture made as `descriptor` says, which can cross to another process.
    pub fn new_shared_texture_with_descriptor(
        &self,
        driver: &mut Driver,
        descriptor: MTLTextureDescriptor,
    ) -> (res: Result<MTLTexture, MetalError>)
        ensures
            match old(driver)@.make_fault(self.0.0, ObjectKind::Device) {
                Some(e) => res == Err::<MTLTexture, MetalError>(
                    e,
                ) && final(driver)@ == old(driver)@,
                None => res == Ok::<MTLTexture, MetalError>(MTLTexture(Handle(old(driver)@.next())))
                    && final(driver)@ == old(driver)@.plus(
                        texture_object(descriptor, 0, 0, 0, true),
                    ),
            },
            old(driver)@.leads_to(final(driver)@),
    {
        proof {
            lemma_owned_names();
        }
        match driver.produce(
            self.0.0,
            ObjectKind::Device,
            ObjectKind::Texture,
            "newSharedTextureWithDescriptor",
            Payload::Texture {
                descriptor,
                parent: 0,
                buffer: 0,
                level: 0,
                slice: 0,
                shareable: true,
            },
        ) {
            Ok(handle) => Ok(MTLTexture(handle)),
            Err(e) => Err(e),
        }
    }

    /// The texture that came from another process by `handle`, which gives its reference up.
    pub fn new_shared_texture_with_handle(
        &self,
        driver: &mut Driver,
        handle: MTLSharedTextureHandle,
    ) -> (res: Result<MTLTexture, MetalError>)
        ensures
            match old(driver)@.fault(self.0.0, ObjectKind::Device) {
                Some(e) => res == Err::<MTLTexture, MetalError>(
                    e,
                ) && final(driver)@ == old(driver)@,
                None => match old(driver)@.hand_over_fault(
                    handle.0.0,
                    ObjectKind::SharedTextureHandle,
                ) {
                    Some(e) => res == Err::<MTLTexture, MetalError>(
                        e,
                    ) && final(driver)@ == old(driver)@,
                    None => if old(driver)@.full() {
                        &&& res == Err::<MTLTexture, MetalError>(MetalError::Exhausted)
                        &&& final(driver)@ == old(driver)@
                    } else {
                        &&& res == Ok::<MTLTexture, MetalError>(
                            MTLTexture(Handle(old(driver)@.next())),
                        )
                        &&& final(driver)@ == old(driver)@.plus(
                            texture_object(MTLTextureDescriptor::initial(), 0, 0, 0, true),
                        ).release(handle.0.0)
                    },
                },
            },
            old(driver)@.leads_to(final(driver)@),
    {
        proof {
            lemma_leads_to_itself(driver@);
            lemma_owned_names();
        }
        match driver.check(self.0.0, ObjectKind::Device) {
            Err(e) => {
                return Err(e);
            },
            Ok(()) => {},
        }
        match check_hand_over(driver, handle.0.0, ObjectKind::SharedTextureHandle) {
            Err(e) => {
                return Err(e);
            },
            Ok(()) => {},
        }
        match driver.make(ObjectKind::Texture, "newSharedTextureWithHandle", Payload::Texture {
                descriptor: MTLTextureDescriptor::new(),
                parent: 0,
                buffer: 0,
                level: 0,
                slice: 0,
                shareable: true,
            }) {
            Err(e) => Err(e),
            Ok(made) => {
                let ghost mid = driver@;
                assert(mid.get(handle.0.0) == old(driver)@.get(handle.0.0));
                assert(mid.live(handle.0.0)) by {
                    assert(mid.get(handle.0.0).strong > 0);
                }
                let _ = driver.release(handle.0.0);
                proof {
                    lemma_leads_to_is_transitive(old(driver)@, mid, driver@);
                }
                Ok(MTLTexture(made))
            },
        }
    }

    /// A new sampler state made as `descriptor` says.
    pub fn new_sampler_state_with_descriptor(
        &self,
        driver: &mut Driver,
        descriptor: MTLSamplerDescriptor,
    ) -> (res: Result<MTLSamplerState, MetalError>)
        ensures
            match old(driver)@.make_fault(self.0.0, ObjectKind::Device) {
                Some(e) => res == Err::<MTLSamplerState, MetalError>(
                    e,
                ) && final(driver)@ == old(driver)@,
                None => res == Ok::<MTLSamplerState, MetalError>(
                    MTLSamplerState(Handle(old(driver)@.next())),
                )
                    && final(driver)@ == old(driver)@.plus(sampler_made(descriptor)),
            },
            old(driver)@.leads_to(final(driver)@),
    {
        proof {
            lemma_owned_names();
        }
        match driver.produce(
            self.0.0,
            ObjectKind::Device,
            ObjectKind::SamplerState,
            "newSamplerStateWithDescriptor",
            Payload::Sampler { descriptor },
        ) {
            Ok(handle) => Ok(MTLSamplerState(handle)),
            Err(e) => Err(e),
        }
    }

    /// A new depth and stencil state made as `descriptor` says.
    pub fn new_depth_stencil_state(
        &self,
        driver: &mut Driver,
        descriptor: MTLDepthStencilDescriptor,
    ) -> (res: Result<MTLDepthStencilState, MetalError>)
        ensures
            match old(driver)@.make_fault(self.0.0, ObjectKind::Device) {
                Some(e) => res == Err::<MTLDepthStencilState, MetalError>(
                    e,
                ) && final(driver)@ == old(driver)@,
                None => res == Ok::<MTLDepthStencilState, MetalError>(
                    MTLDepthStencilState(Handle(old(driver)@.next())),
                )
                    && final(driver)@ == old(driver)@.plus(depth_stencil_made(descriptor)),
            },
            old(driver)@.leads_to(final(driver)@),
    {
        proof {
            lemma_owned_names();
        }
        match driver.produce(
            self.0.0,
            ObjectKind::Device,
            ObjectKind::DepthStencilState,
            "newDepthStencilStateWithDescriptor",
            Payload::DepthStencil { descriptor },
        ) {
            Ok(handle) => Ok(MTLDepthStencilState(handle)),
            Err(e) => Err(e),
        }
    }

    /// A new heap made as `descriptor` says.
    pub fn new_heap_with_descriptor(
        &self,
        driver: &mut Driver,
        descriptor: MTLHeapDescriptor,
    ) -> (res: Result<MTLHeap, MetalError>)
        ensures
            match old(driver)@.make_fault(self.0.0, ObjectKind::Device) {
                Some(e) => res == Err::<MTLHeap, MetalError>(e) && final(driver)@ == old(driver)@,
                None => res == Ok::<MTLHeap, MetalError>(MTLHeap(Handle(old(driver)@.next())))
                    && final(driver)@ == old(driver)@.plus(heap_made(descriptor)),
            },
            old(driver)@.leads_to(final(driver)@),
    {
        proof {
            lemma_owned_names();
        }
        match driver.produce(
            self.0.0,
            ObjectKind::Device,
            ObjectKind::Heap,
            "newHeapWithDescriptor",
            Payload::Heap { descriptor, used: 0, purgeable: PURGEABLE_STATE_NON_VOLATILE },
        ) {
            Ok(handle) => Ok(MTLHeap(handle)),
            Err(e) => Err(e),
        }
    }

    /// A new indirect command buffer for `max_command_count` commands, made as `descriptor` says.
    pub fn new_indirect_command_buffer_with_descriptor(
        &self,
        driver: &mut Driver,
        descriptor: MTLIndirectCommandBufferDescriptor,
        max_command_count: u64,
        res_options: u64,
    ) -> (res: Result<MTLIndirectCommandBuffer, MetalError>)
        ensures
            match old(driver)@.make_fault(self.0.0, ObjectKind::Device) {
                Some(e) => res == Err::<MTLIndirectCommandBuffer, MetalError>(
                    e,
                ) && final(driver)@ == old(driver)@,
                None => res == Ok::<MTLIndirectCommandBuffer, MetalError>(
                    MTLIndirectCommandBuffer(Handle(old(driver)@.next())),
                )
                    && final(driver)@ == old(driver)@.plus(
                        indirect_made(descriptor, max_command_count, res_options),
                    ),
            },
            old(driver)@.leads_to(final(driver)@),
    {
        proof {
            lemma_owned_names();
        }
        match driver.produce(
            self.0.0,
            ObjectKind::Device,
            ObjectKind::IndirectCommandBuffer,
            "newIndirectCommandBufferWithDescriptor",
            Payload::Indirect { descriptor, capacity: max_command_count, options: res_options },
        ) {
            Ok(handle) => Ok(MTLIndirectCommandBuffer(handle)),
            Err(e) => Err(e),
        }
    }

    /// A new argument encoder that lays out the arguments that `descriptors` describe.
    pub fn new_argument_encoder_with_arguments(
        &self,
        driver: &mut Driver,
        descriptors: &[MTLArgumentDescriptor],
    ) -> (res: Result<MTLArgumentEncoder, MetalError>)
        ensures
            match old(driver)@.make_fault(self.0.0, ObjectKind::Device) {
                Some(e) => res == Err::<MTLArgumentEncoder, MetalError>(
                    e,
                ) && final(driver)@ == old(driver)@,
                None => res == Ok::<MTLArgumentEncoder, MetalError>(
                    MTLArgumentEncoder(Handle(old(driver)@.next())),
                )
                    && final(driver)@ == old(driver)@.plus(arguments_made(descriptors@)),
            },
            old(driver)@.leads_to(final(driver)@),
    {
        proof {
            lemma_owned_names();
        }
        let arguments = copy_arguments(descriptors);
        match driver.produce(
            self.0.0,
            ObjectKind::Device,
            ObjectKind::ArgumentEncoder,
            "newArgumentEncoderWithArguments",
            Payload::Arguments {
                arguments,
                buffer: 0,
                offset: 0,
                element: 0,
                entries: Vec::new(),
            },
        ) {
            Ok(handle) => Ok(MTLArgumentEncoder(handle)),
            Err(e) => Err(e),
        }
    }

    /// The shared event that came from another process by `handle`, which gives its reference up.
    pub fn new_shared_event_with_handle(
        &self,
        driver: &mut Driver,
        handle: MTLSharedEventHandle,
    ) -> (res: Result<MTLSharedEvent, MetalError>)
        ensures
            match old(driver)@.fault(self.0.0, ObjectKind::Device) {
                Some(e) => res == Err::<MTLSharedEvent, MetalError>(
                    e,
                ) && final(driver)@ == old(driver)@,
                None => match old(driver)@.hand_over_fault(
                    handle.0.0,
                    ObjectKind::SharedEventHandle,
                ) {
                    Some(e) => res == Err::<MTLSharedEvent, MetalError>(
                        e,
                    ) && final(driver)@ == old(driver)@,
                    None => if old(driver)@.full() {
                        &&& res == Err::<MTLSharedEvent, MetalError>(MetalError::Exhausted)
                        &&& final(driver)@ == old(driver)@
                    } else {
                        &&& res == Ok::<MTLSharedEvent, MetalError>(
                            MTLSharedEvent(Handle(old(driver)@.next())),
                        )
                        &&& final(driver)@ == old(driver)@.plus(
                            shared_event_made(),
                        ).release(handle.0.0)
                    },
                },
            },
            old(driver)@.leads_to(final(driver)@),
    {
        proof {
            lemma_leads_to_itself(driver@);
            lemma_owned_names();
        }
        match driver.check(self.0.0, ObjectKind::Device) {
            Err(e) => {
                return Err(e);
            },
            Ok(()) => {},
        }
        match check_hand_over(driver, handle.0.0, ObjectKind::SharedEventHandle) {
            Err(e) => {
                return Err(e);
            },
            Ok(()) => {},
        }
        match driver.make(
            ObjectKind::SharedEvent,
            "newSharedEventWithHandle",
            Payload::Signal { value: 0 },
        ) {
            Err(e) => Err(e),
            Ok(made) => {
                let ghost mid = driver@;
                assert(mid.get(handle.0.0) == old(driver)@.get(handle.0.0));
                assert(mid.live(handle.0.0)) by {
                    assert(mid.get(handle.0.0).strong > 0);
                }
                let _ = driver.release(handle.0.0);
                proof {
                    lemma_leads_to_is_transitive(old(driver)@, mid, driver@);
                }
                Ok(MTLSharedEvent(made))
            },
        }
    }
}

/// Once a retain among the first `upto` of `raws` is refused, the retains of all `raws`
/// end as those of the first `upto` do.
pub proof fn lemma_retain_all_stops(s: DriverView, raws: Seq<u64>, upto: int)
    requires
        0 <= upto <= raws.len(),
        s.retain_all(raws.take(upto)).1 is Some,
    ensures
        s.retain_all(raws) == s.retain_all(raws.take(upto)),
    decreases raws.len() - upto,
{
    if upto < raws.len() {
        assert(raws.take(upto + 1).drop_last() == raws.take(upto));
        lemma_retain_all_stops(s, raws, upto + 1);
    } else {
        assert(raws.take(upto) == raws);
    }
}

} // verus!
