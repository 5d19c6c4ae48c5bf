//! Indirect command buffers: commands that the graphics processor itself encodes.

use vstd::prelude::*;
use crate::driver::Driver;
use crate::error::MetalError;
use crate::handle::Handle;
use crate::model::ObjectKind;

verus! {

/// A handle to an indirect command buffer.
#[derive(Debug, PartialEq, Eq)]
pub struct MTLIndirectCommandBuffer(pub Handle);

impl MTLIndirectCommandBuffer {
    /// How many commands the buffer takes.
    pub fn get_size(&self, driver: &Driver) -> (res: Result<u64, MetalError>)
        ensures
            match driver@.fault(self.0.0, ObjectKind::IndirectCommandBuffer) {
                Some(e) => res == Err::<u64, MetalError>(e),
                None => res == Ok::<u64, MetalError>(driver@.indirect_capacity(self.0.0)),
            },
    {
        match driver.check(self.0.0, ObjectKind::IndirectCommandBuffer) {
            Err(e) => Err(e),
            Ok(()) => Ok(driver.indirect_capacity(self.0.0)),
        }
    }
}

} // verus!
