//! Samplers: how a texture is read.

use vstd::prelude::*;
use crate::descriptor::MTLSamplerDescriptor;
use crate::driver::Driver;
use crate::error::MetalError;
use crate::handle::Handle;
use crate::model::ObjectKind;

verus! {

/// A handle to a sampler state.
#[derive(Debug, PartialEq, Eq)]
pub struct MTLSamplerState(pub Handle);

impl MTLSamplerState {
    /// What the state was made from.
    pub fn get_descriptor(&self, driver: &Driver) -> (res: Result<MTLSamplerDescriptor, MetalError>)
        ensures
            match driver@.fault(self.0.0, ObjectKind::SamplerState) {
                Some(e) => res == Err::<MTLSamplerDescriptor, MetalError>(e),
                None => res == Ok::<MTLSamplerDescriptor, MetalError>(
                    driver@.sampler_descriptor(self.0.0),
                ),
            },
    {
        match driver.check(self.0.0, ObjectKind::SamplerState) {
            Err(e) => Err(e),
            Ok(()) => Ok(driver.sampler_descriptor(self.0.0)),
        }
    }
}

} // verus!
