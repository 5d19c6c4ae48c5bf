//! The heap: memory that buffers and textures are carved from.

use vstd::prelude::*;
use crate::buffer::MTLBuffer;
use crate::descriptor::MTLHeapDescriptor;
use crate::descriptor::MTLTextureDescriptor;
use crate::device::buffer_made;
use crate::driver::Driver;
use crate::driver::Payload;
use crate::error::MetalError;
use crate::handle::Handle;
use crate::laws::lemma_leads_to_is_transitive;
use crate::laws::lemma_leads_to_itself;
use crate::laws::lemma_with_leads_to;
use crate::model::DriverView;
use crate::model::ObjectKind;
use crate::model::ObjectView;
use crate::model::Ownership;
use crate::model::PayloadView;
use crate::ownership::lemma_owned_names;
use crate::texture::texture_made;
use crate::texture::MTLTexture;

verus! {

/// A handle to a heap.
#[derive(Debug, PartialEq, Eq)]
pub struct MTLHeap(pub Handle);

/// The state in which memory is kept whatever happens.
pub const PURGEABLE_STATE_NON_VOLATILE: u64 = 2;

/// The state that asks for no change.
pub const PURGEABLE_STATE_KEEP_CURRENT: u64 = 1;

/// A heap made from `descriptor`, as the native call hands it to its caller: none of its
/// bytes is given out.
pub open spec fn heap_made(descriptor: MTLHeapDescriptor) -> ObjectView {
    ObjectView::handed_out(
        ObjectKind::Heap,
        Ownership::Owned,
        PayloadView::Heap { descriptor, used: 0, purgeable: PURGEABLE_STATE_NON_VOLATILE },
    )
}

/// The largest multiple of `alignment` in `room` bytes; `room` itself where nothing is to
/// be aligned.
pub open spec fn aligned_room(room: u64, alignment: u64) -> u64 {
    if alignment == 0 {
        room
    } else {
        (room - room % alignment) as u64
    }
}

impl DriverView {
    /// How many bytes of heap `raw` are not given out.
    pub open spec fn unused(self, raw: u64) -> u64 {
        if self.used(raw) >= self.heap_descriptor(raw).size {
            0
        } else {
            (self.heap_descriptor(raw).size - self.used(raw)) as u64
        }
    }

    /// Whether heap `raw` has room for `length` bytes: after those given out where the heap
    /// places them, from `offset` on where the caller does.
    pub open spec fn room(self, raw: u64, length: u64, offset: Option<u64>) -> bool {
        match offset {
            None => self.used(raw) + length <= self.heap_descriptor(raw).size,
            Some(at) => at + length <= self.heap_descriptor(raw).size,
        }
    }

    /// Why heap `raw` cannot be asked for `length` bytes, if it cannot. That it has no room
    /// is no refusal.
    pub open spec fn carve_fault(self, raw: u64, length: u64, offset: Option<u64>) -> Option<
        MetalError,
    > {
        match self.fault(raw, ObjectKind::Heap) {
            Some(e) => Some(e),
            None => if self.room(raw, length, offset) && self.full() {
                Some(MetalError::Exhausted)
            } else {
                None
            },
        }
    }

    /// The state after `object`, of `length` bytes, is carved from heap `raw`: where the
    /// heap places it, that many more bytes are given out.
    pub open spec fn carve(
        self,
        raw: u64,
        length: u64,
        offset: Option<u64>,
        object: ObjectView,
    ) -> DriverView {
        let made = self.plus(object);
        match offset {
            None => made.with(raw, made.get(raw).with_used((self.used(raw) + length) as u64)),
            Some(_) => made,
        }
    }

    /// The state after heap `raw` is asked to keep its memory as `state` says: to keep it
    /// as it is changes nothing.
    pub open spec fn purge(self, raw: u64, state: u64) -> DriverView {
        if state == PURGEABLE_STATE_KEEP_CURRENT {
            self
        } else {
            self.with(raw, self.get(raw).with_purgeable(state))
        }
    }
}

/// Whether a heap of `size` bytes, `used` of them given out, has room for `length` bytes.
fn fits(size: u64, used: u64, length: u64, offset: Option<u64>) -> (yes: bool)
    ensures
        yes == match offset {
            None => used + length <= size,
            Some(at) => at + length <= size,
        },
{
    let start = match offset {
        None => used,
        Some(at) => at,
    };
    start <= size && length <= size - start
}

impl MTLHeap {
    /// How the heap places what is carved from it.
    pub fn get_type(&self, driver: &Driver) -> (res: Result<u64, MetalError>)
        ensures
            match driver@.fault(self.0.0, ObjectKind::Heap) {
                Some(e) => res == Err::<u64, MetalError>(e),
                None => res == Ok::<u64, MetalError>(driver@.heap_descriptor(self.0.0).heap_type),
            },
    {
        match driver.check(self.0.0, ObjectKind::Heap) {
            Err(e) => Err(e),
            Ok(()) => Ok(driver.heap_descriptor(self.0.0).heap_type),
        }
    }

    /// Where the memory lies and who reaches it.
    pub fn get_storage_mode(&self, driver: &Driver) -> (res: Result<u64, MetalError>)
        ensures
            match driver@.fault(self.0.0, ObjectKind::Heap) {
                Some(e) => res == Err::<u64, MetalError>(e),
                None => res == Ok::<u64, MetalError>(
                    driver@.heap_descriptor(self.0.0).storage_mode,
                ),
            },
    {
        match driver.check(self.0.0, ObjectKind::Heap) {
            Err(e) => Err(e),
            Ok(()) => Ok(driver.heap_descriptor(self.0.0).storage_mode),
        }
    }

    /// How the processor caches the memory.
    pub fn get_cpu_cache_mode(&self, driver: &Driver) -> (res: Result<u64, MetalError>)
        ensures
            match driver@.fault(self.0.0, ObjectKind::Heap) {
                Some(e) => res == Err::<u64, MetalError>(e),
                None => res == Ok::<u64, MetalError>(
                    driver@.heap_descriptor(self.0.0).cpu_cache_mode,
                ),
            },
    {
        match driver.check(self.0.0, ObjectKind::Heap) {
            Err(e) => Err(e),
            Ok(()) => Ok(driver.heap_descriptor(self.0.0).cpu_cache_mode),
        }
    }

    /// Whether hazards are tracked.
    pub fn get_hazard_tracking_mode(&self, driver: &Driver) -> (res: Result<u64, MetalError>)
        ensures
            match driver@.fault(self.0.0, ObjectKind::Heap) {
                Some(e) => res == Err::<u64, MetalError>(e),
                None => res == Ok::<u64, MetalError>(
                    driver@.heap_descriptor(self.0.0).hazard_tracking_mode,
                ),
            },
    {
        match driver.check(self.0.0, ObjectKind::Heap) {
            Err(e) => Err(e),
            Ok(()) => Ok(driver.heap_descriptor(self.0.0).hazard_tracking_mode),
        }
    }

    /// The options of every resource of the heap.
    pub fn get_resource_options(&self, driver: &Driver) -> (res: Result<u64, MetalError>)
        ensures
            match driver@.fault(self.0.0, ObjectKind::Heap) {
                Some(e) => res == Err::<u64, MetalError>(e),
                None => res == Ok::<u64, MetalError>(
                    driver@.heap_descriptor(self.0.0).resource_options,
                ),
            },
    {
        match driver.check(self.0.0, ObjectKind::Heap) {
            Err(e) => Err(e),
            Ok(()) => Ok(driver.heap_descriptor(self.0.0).resource_options),
        }
    }

    /// The size of the heap in bytes.
    pub fn get_size(&self, driver: &Driver) -> (res: Result<u64, MetalError>)
        ensures
            match driver@.fault(self.0.0, ObjectKind::Heap) {
                Some(e) => res == Err::<u64, MetalError>(e),
                None => res == Ok::<u64, MetalError>(driver@.heap_descriptor(self.0.0).size),
            },
    {
        match driver.check(self.0.0, ObjectKind::Heap) {
            Err(e) => Err(e),
            Ok(()) => Ok(driver.heap_descriptor(self.0.0).size),
        }
    }

    /// The bytes that the heap takes from the device: its size.
    pub fn get_current_allocated_size(&self, driver: &Driver) -> (res: Result<u64, MetalError>)
        ensures
            match driver@.fault(self.0.0, ObjectKind::Heap) {
                Some(e) => res == Err::<u64, MetalError>(e),
                None => res == Ok::<u64, MetalError>(driver@.heap_descriptor(self.0.0).size),
            },
    {
        match driver.check(self.0.0, ObjectKind::Heap) {
            Err(e) => Err(e),
            Ok(()) => Ok(driver.heap_descriptor(self.0.0).size),
        }
    }

    /// How many bytes of the heap are given out.
    pub fn get_used_size(&self, driver: &Driver) -> (res: Result<u64, MetalError>)
        ensures
            match driver@.fault(self.0.0, ObjectKind::Heap) {
                Some(e) => res == Err::<u64, MetalError>(e),
                None => res == Ok::<u64, MetalError>(driver@.used(self.0.0)),
            },
    {
        match driver.check(self.0.0, ObjectKind::Heap) {
            Err(e) => Err(e),
            Ok(()) => Ok(driver.used(self.0.0)),
        }
    }

    /// The most bytes that something aligned to `alignment` can still take from the heap.
    pub fn get_max_available_size_with_alignment(&self, driver: &Driver, alignment: u64) -> (res:
        Result<u64, MetalError>)
        ensures
            match driver@.fault(self.0.0, ObjectKind::Heap) {
                Some(e) => res == Err::<u64, MetalError>(e),
                None => res == Ok::<u64, MetalError>(
                    aligned_room(driver@.unused(self.0.0), alignment),
                ),
            },
    {
        match driver.check(self.0.0, ObjectKind::Heap) {
            Err(e) => Err(e),
            Ok(()) => {
                let size = driver.heap_descriptor(self.0.0).size;
                let used = driver.used(self.0.0);
                let room: u64 = if used >= size {
                    0
                } else {
                    size - used
                };
                if alignment == 0 {
                    Ok(room)
                } else {
                    assert(room % alignment <= room) by (nonlinear_arith)
                        requires
                            alignment > 0,
                    ;
                    Ok(room - room % alignment)
                }
            },
        }
    }

    /// Asks the heap to keep its memory as `state` says.
    pub fn set_purgeable_state(
        &self,
        driver: &mut Driver,
        state: u64,
    ) -> (res: Result<(), MetalError>)
        ensures
            match old(driver)@.fault(self.0.0, ObjectKind::Heap) {
                Some(e) => res == Err::<(), MetalError>(e) && final(driver)@ == old(driver)@,
                None => res is Ok && final(driver)@ == old(driver)@.purge(self.0.0, state),
            },
            old(driver)@.leads_to(final(driver)@),
    {
        proof {
            lemma_leads_to_itself(driver@);
        }
        match driver.check(self.0.0, ObjectKind::Heap) {
            Err(e) => {
                return Err(e);
            },
            Ok(()) => {},
        }
        if state != PURGEABLE_STATE_KEEP_CURRENT {
            driver.set_purgeable(self.0.0, state);
            proof {
                lemma_with_leads_to(old(driver)@, self.0.0, driver@.get(self.0.0));
            }
        }
        Ok(())
    }

    /// A new buffer of `length` bytes from the memory of the heap, or none where the heap
    /// has no room for it. With an `offset` the caller places the buffer; without, the
    /// heap does.
    pub fn new_buffer_with_length(
        &self,
        driver: &mut Driver,
        length: u64,
        options: u64,
        offset: Option<u64>,
    ) -> (res: Result<Option<MTLBuffer>, MetalError>)
        ensures
            match old(driver)@.carve_fault(self.0.0, length, offset) {
                Some(e) => res == Err::<Option<MTLBuffer>, MetalError>(e) && final(driver)@ == old(
                    driver,
                )@,
                None => if old(driver)@.room(self.0.0, length, offset) {
                    &&& res == Ok::<Option<MTLBuffer>, MetalError>(
                        Some(MTLBuffer(Handle(old(driver)@.next()))),
                    )
                    &&& final(driver)@ == old(driver)@.carve(
                        self.0.0,
                        length,
                        offset,
                        buffer_made(length, options),
                    )
                } else {
                    &&& res == Ok::<Option<MTLBuffer>, MetalError>(None)
                    &&& final(driver)@ == old(driver)@
                },
            },
            old(driver)@.leads_to(final(driver)@),
    {
        proof {
            lemma_leads_to_itself(driver@);
            lemma_owned_names();
        }
        let raw = self.0.0;
        match driver.check(raw, ObjectKind::Heap) {
            Err(e) => {
                return Err(e);
            },
            Ok(()) => {},
        }
        let size = driver.heap_descriptor(raw).size;
        let used = driver.used(raw);
        if !fits(size, used, length, offset) {
            return Ok(None);
        }
        match driver.make(
            ObjectKind::Buffer,
            "newBufferWithLength",
            Payload::Buffer { length, options },
        ) {
            Err(e) => Err(e),
            Ok(handle) => {
                if offset.is_none() {
                    let ghost mid = driver@;
                    driver.set_used(raw, used + length);
                    proof {
                        lemma_with_leads_to(mid, raw, driver@.get(raw));
                        lemma_leads_to_is_transitive(old(driver)@, mid, driver@);
                    }
                }
                Ok(Some(MTLBuffer(handle)))
            },
        }
    }

    /// A new texture from the memory of the heap, of which it takes `size` bytes, or none
    /// where the heap has no room for it.
    pub fn new_texture_with_descriptor(
        &self,
        driver: &mut Driver,
        descriptor: MTLTextureDescriptor,
        offset: Option<u64>,
        size: u64,
    ) -> (res: Result<Option<MTLTexture>, MetalError>)
        ensures
            match old(driver)@.carve_fault(self.0.0, size, offset) {
                Some(e) => res == Err::<Option<MTLTexture>, MetalError>(e) && final(driver)@ == old(
                    driver,
                )@,
                None => if old(driver)@.room(self.0.0, size, offset) {
                    &&& res == Ok::<Option<MTLTexture>, MetalError>(
                        Some(MTLTexture(Handle(old(driver)@.next()))),
                    )
                    &&& final(driver)@ == old(driver)@.carve(
                        self.0.0,
                        size,
                        offset,
                        texture_made(descriptor),
                    )
                } else {
                    &&& res == Ok::<Option<MTLTexture>, MetalError>(None)
                    &&& final(driver)@ == old(driver)@
                },
            },
            old(driver)@.leads_to(final(driver)@),
    {
        proof {
            lemma_leads_to_itself(driver@);
            lemma_owned_names();
        }
        let raw = self.0.0;
        match driver.check(raw, ObjectKind::Heap) {
            Err(e) => {
                return Err(e);
            },
            Ok(()) => {},
        }
        let extent = driver.heap_descriptor(raw).size;
        let used = driver.used(raw);
        if !fits(extent, used, size, offset) {
            return Ok(None);
        }
        match driver.make(
            ObjectKind::Texture,
            "newTextureWithDescriptor",
            Payload::Texture {
                descriptor,
                parent: 0,
                buffer: 0,
                level: 0,
                slice: 0,
                shareable: false,
            },
        ) {
            Err(e) => Err(e),
            Ok(handle) => {
                if offset.is_none() {
                    let ghost mid = driver@;
                    driver.set_used(raw, used + size);
                    proof {
                        lemma_with_leads_to(mid, raw, driver@.get(raw));
                        lemma_leads_to_is_transitive(old(driver)@, mid, driver@);
                    }
                }
                Ok(Some(MTLTexture(handle)))
            },
        }
    }
}

} // verus!
