//! The argument encoder: writes resources into a buffer from which a function reads them.

use vstd::prelude::*;
use crate::buffer::MTLBuffer;
use crate::driver::Driver;
use crate::encoder::check_hand_over;
use crate::encoder::rebound;
use crate::error::MetalError;
use crate::handle::Handle;
use crate::laws::lemma_leads_to_is_transitive;
use crate::laws::lemma_leads_to_itself;
use crate::laws::lemma_with_leads_to;
use crate::model::rebind;
use crate::model::Binding;
use crate::model::DriverView;
use crate::model::ObjectKind;
use crate::model::ResourceClass;
use crate::model::Stage;
use crate::pipeline::MTLComputePipelineState;
use crate::pipeline::MTLRenderPipelineState;
use crate::sampler::MTLSamplerState;

verus! {

/// A handle to an argument encoder.
#[derive(Debug, PartialEq, Eq)]
pub struct MTLArgumentEncoder(pub Handle);

impl DriverView {
    /// Why argument encoder `raw` cannot take the handle to `resource`, an object of `of`,
    /// if it cannot.
    pub open spec fn write_fault(self, raw: u64, resource: u64, of: ObjectKind) -> Option<
        MetalError,
    > {
        match self.fault(raw, ObjectKind::ArgumentEncoder) {
            Some(e) => Some(e),
            None => self.hand_over_fault(resource, of),
        }
    }

    /// The state after argument encoder `raw` has written `entry`: the entry replaces what
    /// its place held, and the handle to its resource has given its reference up.
    pub open spec fn write(self, raw: u64, entry: Binding) -> DriverView {
        self.with(raw, self.get(raw).with_entries(rebind(self.entries(raw), entry))).release(
            entry.resource,
        )
    }

    /// The state after argument encoder `raw` was set to write to element `element` of
    /// the array that `buffer` holds from `offset` on; the handle to the buffer has given
    /// its reference up.
    pub open spec fn target(self, raw: u64, buffer: u64, offset: u64, element: u64) -> DriverView {
        self.with(raw, self.get(raw).with_target(buffer, offset, element)).release(buffer)
    }
}

/// Writes `entry`, whose resource is an object of `of` that came by a handle, with
/// argument encoder `raw`.
fn write(
    driver: &mut Driver,
    raw: u64,
    entry: Binding,
    of: ObjectKind,
) -> (res: Result<(), MetalError>)
    ensures
        match old(driver)@.write_fault(raw, entry.resource, of) {
            Some(e) => res == Err::<(), MetalError>(e) && final(driver)@ == old(driver)@,
            None => res is Ok && final(driver)@ == old(driver)@.write(raw, entry),
        },
        old(driver)@.leads_to(final(driver)@),
{
    proof {
        lemma_leads_to_itself(driver@);
    }
    match driver.check(raw, ObjectKind::ArgumentEncoder) {
        Err(e) => {
            return Err(e);
        },
        Ok(()) => {},
    }
    match check_hand_over(driver, entry.resource, of) {
        Err(e) => {
            return Err(e);
        },
        Ok(()) => {},
    }
    let held = driver.entries(raw);
    driver.set_entries(raw, rebound(&held, entry));
    let ghost mid = driver@;
    proof {
        lemma_with_leads_to(old(driver)@, raw, mid.get(raw));
    }
    assert(mid.get(entry.resource).strong >= old(driver)@.get(entry.resource).strong);
    assert(mid.get(entry.resource).native == old(driver)@.get(entry.resource).native);
    assert(mid.live(entry.resource)) by {
        assert(mid.get(entry.resource).strong > 0);
    }
    let _ = driver.release(entry.resource);
    proof {
        lemma_leads_to_is_transitive(old(driver)@, mid, driver@);
    }
    Ok(())
}

/// Sets argument encoder `raw` to write to element `element` of the array that `buffer`
/// holds from `offset` on.
fn aim(driver: &mut Driver, raw: u64, buffer: u64, offset: u64, element: u64) -> (res: Result<
    (),
    MetalError,
>)
    ensures
        match old(driver)@.write_fault(raw, buffer, ObjectKind::Buffer) {
            Some(e) => res == Err::<(), MetalError>(e) && final(driver)@ == old(driver)@,
            None => res is Ok && final(driver)@ == old(driver)@.target(
                raw,
                buffer,
                offset,
                element,
            ),
        },
        old(driver)@.leads_to(final(driver)@),
{
    proof {
        lemma_leads_to_itself(driver@);
    }
    match driver.check(raw, ObjectKind::ArgumentEncoder) {
        Err(e) => {
            return Err(e);
        },
        Ok(()) => {},
    }
    match check_hand_over(driver, buffer, ObjectKind::Buffer) {
        Err(e) => {
            return Err(e);
        },
        Ok(()) => {},
    }
    driver.set_target(raw, buffer, offset, element);
    let ghost mid = driver@;
    proof {
        lemma_with_leads_to(old(driver)@, raw, mid.get(raw));
    }
    assert(mid.get(buffer).strong >= old(driver)@.get(buffer).strong);
    assert(mid.get(buffer).native == old(driver)@.get(buffer).native);
    assert(mid.live(buffer)) by {
        assert(mid.get(buffer).strong > 0);
    }
    let _ = driver.release(buffer);
    proof {
        lemma_leads_to_is_transitive(old(driver)@, mid, driver@);
    }
    Ok(())
}

impl MTLArgumentEncoder {
    /// Sets the buffer that the encoder writes to, from `offset` on. The handle gives its
    /// reference up.
    pub fn set_argument_buffer(&self, driver: &mut Driver, buffer: MTLBuffer, offset: u64) -> (res:
        Result<(), MetalError>)
        ensures
            match old(driver)@.write_fault(self.0.0, buffer.0.0, ObjectKind::Buffer) {
                Some(e) => res == Err::<(), MetalError>(e) && final(driver)@ == old(driver)@,
                None => res is Ok && final(driver)@ == old(driver)@.target(
                    self.0.0,
                    buffer.0.0,
                    offset,
                    0,
                ),
            },
            old(driver)@.leads_to(final(driver)@),
    {
        aim(driver, self.0.0, buffer.0.0, offset, 0)
    }

    /// Sets the buffer that the encoder writes to: element `array_element` of the array
    /// of argument blocks that the buffer holds from `start_offset` on. The handle gives
    /// its reference up.
    pub fn set_argument_buffer_with_start_offset(
        &self,
        driver: &mut Driver,
        buffer: MTLBuffer,
        start_offset: u64,
        array_element: u64,
    ) -> (res: Result<(), MetalError>)
        ensures
            match old(driver)@.write_fault(self.0.0, buffer.0.0, ObjectKind::Buffer) {
                Some(e) => res == Err::<(), MetalError>(e) && final(driver)@ == old(driver)@,
                None => res is Ok && final(driver)@ == old(driver)@.target(
                    self.0.0,
                    buffer.0.0,
                    start_offset,
                    array_element,
                ),
            },
            old(driver)@.leads_to(final(driver)@),
    {
        aim(driver, self.0.0, buffer.0.0, start_offset, array_element)
    }

    /// The arguments that the encoder lays out.
    pub fn get_arguments(&self, driver: &Driver) -> (res: Result<
        Vec<crate::descriptor::MTLArgumentDescriptor>,
        MetalError,
    >)
        ensures
            match driver@.fault(self.0.0, ObjectKind::ArgumentEncoder) {
                Some(e) => res == Err::<Vec<crate::descriptor::MTLArgumentDescriptor>, MetalError>(
                    e,
                ),
                None => res matches Ok(arguments) && arguments@ == driver@.arguments(self.0.0),
            },
    {
        match driver.check(self.0.0, ObjectKind::ArgumentEncoder) {
            Err(e) => Err(e),
            Ok(()) => Ok(driver.arguments(self.0.0)),
        }
    }

    /// Writes `buffer`, from `offset` on, as argument `index`. The handle gives its
    /// reference up: what an argument buffer names it does not keep alive.
    pub fn set_buffer(
        &self,
        driver: &mut Driver,
        buffer: MTLBuffer,
        offset: u64,
        index: u64,
    ) -> (res: Result<(), MetalError>)
        ensures
            match old(driver)@.write_fault(self.0.0, buffer.0.0, ObjectKind::Buffer) {
                Some(e) => res == Err::<(), MetalError>(e) && final(driver)@ == old(driver)@,
                None => res is Ok && final(driver)@ == old(driver)@.write(
                    self.0.0,
                    (Binding {
                    stage: Stage::Any,
                    class: ResourceClass::Buffer,
                    index,
                    resource: buffer.0.0,
                    offset,
                    length: 0,
                }),
                ),
            },
            old(driver)@.leads_to(final(driver)@),
    {
        write(
            driver,
            self.0.0,
            Binding {
                    stage: Stage::Any,
                    class: ResourceClass::Buffer,
                    index,
                    resource: buffer.0.0,
                    offset,
                    length: 0,
                },
            ObjectKind::Buffer,
        )
    }

    /// Writes `state` as argument `index`. The handle gives its reference up: what an
    /// argument buffer names it does not keep alive.
    pub fn set_sampler_state(
        &self,
        driver: &mut Driver,
        state: MTLSamplerState,
        index: u64,
    ) -> (res: Result<(), MetalError>)
        ensures
            match old(driver)@.write_fault(self.0.0, state.0.0, ObjectKind::SamplerState) {
                Some(e) => res == Err::<(), MetalError>(e) && final(driver)@ == old(driver)@,
                None => res is Ok && final(driver)@ == old(driver)@.write(
                    self.0.0,
                    (Binding {
                    stage: Stage::Any,
                    class: ResourceClass::Sampler,
                    index,
                    resource: state.0.0,
                    offset: 0,
                    length: 0,
                }),
                ),
            },
            old(driver)@.leads_to(final(driver)@),
    {
        write(
            driver,
            self.0.0,
            Binding {
                    stage: Stage::Any,
                    class: ResourceClass::Sampler,
                    index,
                    resource: state.0.0,
                    offset: 0,
                    length: 0,
                },
            ObjectKind::SamplerState,
        )
    }

    /// Writes `state` as argument `index`. The handle gives its reference up: what an
    /// argument buffer names it does not keep alive.
    pub fn set_render_pipeline_state(
        &self,
        driver: &mut Driver,
        state: MTLRenderPipelineState,
        index: u64,
    ) -> (res: Result<(), MetalError>)
        ensures
            match old(driver)@.write_fault(self.0.0, state.0.0, ObjectKind::RenderPipelineState) {
                Some(e) => res == Err::<(), MetalError>(e) && final(driver)@ == old(driver)@,
                None => res is Ok && final(driver)@ == old(driver)@.write(
                    self.0.0,
                    (Binding {
                    stage: Stage::Any,
                    class: ResourceClass::RenderPipeline,
                    index,
                    resource: state.0.0,
                    offset: 0,
                    length: 0,
                }),
                ),
            },
            old(driver)@.leads_to(final(driver)@),
    {
        write(
            driver,
            self.0.0,
            Binding {
                    stage: Stage::Any,
                    class: ResourceClass::RenderPipeline,
                    index,
                    resource: state.0.0,
                    offset: 0,
                    length: 0,
                },
            ObjectKind::RenderPipelineState,
        )
    }

    /// Writes `state` as argument `index`. The handle gives its reference up: what an
    /// argument buffer names it does not keep alive.
    pub fn set_compute_pipeline_state(
        &self,
        driver: &mut Driver,
        state: MTLComputePipelineState,
        index: u64,
    ) -> (res: Result<(), MetalError>)
        ensures
            match old(driver)@.write_fault(self.0.0, state.0.0, ObjectKind::ComputePipelineState) {
                Some(e) => res == Err::<(), MetalError>(e) && final(driver)@ == old(driver)@,
                None => res is Ok && final(driver)@ == old(driver)@.write(
                    self.0.0,
                    (Binding {
                    stage: Stage::Any,
                    class: ResourceClass::ComputePipeline,
                    index,
                    resource: state.0.0,
                    offset: 0,
                    length: 0,
                }),
                ),
            },
            old(driver)@.leads_to(final(driver)@),
    {
        write(
            driver,
            self.0.0,
            Binding {
                    stage: Stage::Any,
                    class: ResourceClass::ComputePipeline,
                    index,
                    resource: state.0.0,
                    offset: 0,
                    length: 0,
                },
            ObjectKind::ComputePipelineState,
        )
    }
}

} // verus!
