//! Depth and stencil states.

use vstd::prelude::*;
use crate::descriptor::MTLDepthStencilDescriptor;
use crate::driver::Driver;
use crate::error::MetalError;
use crate::handle::Handle;
use crate::model::ObjectKind;

verus! {

/// A handle to a depth and stencil state.
#[derive(Debug, PartialEq, Eq)]
pub struct MTLDepthStencilState(pub Handle);

impl MTLDepthStencilState {
    /// What the state was made from.
    pub fn get_descriptor(
        &self,
        driver: &Driver,
    ) -> (res: Result<MTLDepthStencilDescriptor, MetalError>)
        ensures
            match driver@.fault(self.0.0, ObjectKind::DepthStencilState) {
                Some(e) => res == Err::<MTLDepthStencilDescriptor, MetalError>(e),
                None => res == Ok::<MTLDepthStencilDescriptor, MetalError>(
                    driver@.depth_stencil_descriptor(self.0.0),
                ),
            },
    {
        match driver.check(self.0.0, ObjectKind::DepthStencilState) {
            Err(e) => Err(e),
            Ok(()) => Ok(driver.depth_stencil_descriptor(self.0.0)),
        }
    }
}

} // verus!
