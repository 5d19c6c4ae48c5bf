//! What buffers and textures have in common.

use vstd::prelude::*;
use crate::driver::Driver;
use crate::error::MetalError;
use crate::model::ObjectKind;

verus! {

/// A handle to memory that encoders can use.
pub trait MTLResource {
    /// The number of the resource's object.
    spec fn raw(&self) -> u64;

    /// The kind of the resource's object.
    spec fn kind(&self) -> ObjectKind;

    /// The number of the resource's object.
    fn get_obj(&self) -> (raw: u64)
        ensures
            raw == self.raw(),
    ;

    /// The kind of the resource's object: a buffer or a texture.
    fn get_kind(&self) -> (kind: ObjectKind)
        ensures
            kind == self.kind(),
            kind == ObjectKind::Buffer || kind == ObjectKind::Texture,
    ;

    /// The options that the resource was made with.
    fn get_resource_options(&self, driver: &Driver) -> (res: Result<u64, MetalError>)
        ensures
            match driver@.fault(self.raw(), self.kind()) {
                Some(e) => res == Err::<u64, MetalError>(e),
                None => res == Ok::<u64, MetalError>(driver@.resource_options(self.raw())),
            },
    ;
}

} // verus!
