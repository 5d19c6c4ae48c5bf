//! The buffer: untyped memory of a fixed length.

use vstd::prelude::*;
use crate::driver::Driver;
use crate::error::MetalError;
use crate::handle::Handle;
use crate::model::ObjectKind;
use crate::resource::MTLResource;

verus! {

/// A handle to a buffer.
#[derive(Debug, PartialEq, Eq)]
pub struct MTLBuffer(pub Handle);

impl MTLBuffer {
    /// The length of the buffer in bytes.
    pub fn get_length(&self, driver: &Driver) -> (res: Result<u64, MetalError>)
        ensures
            match driver@.fault(self.0.0, ObjectKind::Buffer) {
                Some(e) => res == Err::<u64, MetalError>(e),
                None => res == Ok::<u64, MetalError>(driver@.length(self.0.0)),
            },
    {
        match driver.check(self.0.0, ObjectKind::Buffer) {
            Err(e) => Err(e),
            Ok(()) => Ok(driver.length(self.0.0)),
        }
    }
}

impl MTLBuffer {
    /// Tells that the processor has written the bytes of the buffer from `range.start` up
    /// to, not including, `range.end`. The native call takes both bounds as they are; the
    /// driver keeps nothing of it.
    pub fn did_modify_range(&self, driver: &Driver, range: (u64, u64)) -> (res: Result<
        (u64, u64),
        MetalError,
    >)
        ensures
            match driver@.fault(self.0.0, ObjectKind::Buffer) {
                Some(e) => res == Err::<(u64, u64), MetalError>(e),
                None => res == Ok::<(u64, u64), MetalError>(range),
            },
    {
        match driver.check(self.0.0, ObjectKind::Buffer) {
            Err(e) => Err(e),
            Ok(()) => Ok(range),
        }
    }
}

impl MTLResource for MTLBuffer {
    open spec fn raw(&self) -> u64 {
        self.0.0
    }

    open spec fn kind(&self) -> ObjectKind {
        ObjectKind::Buffer
    }

    fn get_obj(&self) -> (raw: u64) {
        self.0.0
    }

    fn get_kind(&self) -> (kind: ObjectKind) {
        ObjectKind::Buffer
    }

    fn get_resource_options(&self, driver: &Driver) -> (res: Result<u64, MetalError>) {
        match driver.check(self.0.0, ObjectKind::Buffer) {
            Err(e) => Err(e),
            Ok(()) => Ok(driver.resource_options(self.0.0)),
        }
    }
}

} // verus!
