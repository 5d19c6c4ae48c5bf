//! The handle: one counted reference to a foreign object.

use vstd::prelude::*;
use crate::driver::Driver;
use crate::error::MetalError;
use crate::model::Ownership;

verus! {

/// A reference to the foreign object numbered by the field; 0 is the null handle, which
/// holds nothing. Several handles may name one object: it lives as long as any of them.
#[derive(Debug, PartialEq, Eq)]
pub struct Handle(pub u64);

/// Gives up one reference to the object numbered `obj`.
pub fn release(driver: &mut Driver, obj: u64) -> (res: Result<(), MetalError>)
    ensures
        match old(driver)@.release_fault(obj) {
            Some(e) => res == Err::<(), MetalError>(e) && final(driver)@ == old(driver)@,
            None => res is Ok && final(driver)@ == old(driver)@.release(obj),
        },
        old(driver)@.leads_to(final(driver)@),
{
    driver.release(obj)
}

/// Adds one reference to the object numbered `obj`, and gives the number back.
pub fn retain(driver: &mut Driver, obj: u64) -> (res: Result<u64, MetalError>)
    ensures
        match old(driver)@.retain_fault(obj) {
            Some(e) => res == Err::<u64, MetalError>(e) && final(driver)@ == old(driver)@,
            None => res == Ok::<u64, MetalError>(obj) && final(driver)@ == old(driver)@.retain(obj),
        },
        old(driver)@.leads_to(final(driver)@),
{
    driver.retain(obj)
}

impl Handle {
    /// Takes over a reference that the caller already owns. The count is not touched.
    pub fn wrap(raw: u64) -> (handle: Handle)
        ensures
            handle == Handle(raw),
    {
        Handle(raw)
    }

    /// Retains `raw`, then wraps it: for a reference that is borrowed from the native layer.
    pub fn wrap_and_retain(driver: &mut Driver, raw: u64) -> (res: Result<Handle, MetalError>)
        ensures
            match old(driver)@.retain_fault(raw) {
                Some(e) => res == Err::<Handle, MetalError>(e) && final(driver)@ == old(driver)@,
                None => res == Ok::<Handle, MetalError>(
                    Handle(raw),
                ) && final(driver)@ == old(driver)@.retain(raw),
            },
            old(driver)@.leads_to(final(driver)@),
    {
        match driver.retain(raw) {
            Ok(kept) => Ok(Handle(kept)),
            Err(e) => Err(e),
        }
    }

    /// Wraps what a native call handed out: as it is where the caller owns it, retained
    /// where the native layer does.
    pub fn adopt(driver: &mut Driver, raw: u64, ownership: Ownership) -> (res: Result<
        Handle,
        MetalError,
    >)
        ensures
            ownership == Ownership::Owned ==> res == Ok::<Handle, MetalError>(Handle(raw))
                && final(driver)@ == old(driver)@,
            ownership == Ownership::Borrowed ==> match old(driver)@.retain_fault(raw) {
                Some(e) => res == Err::<Handle, MetalError>(e) && final(driver)@ == old(driver)@,
                None => res == Ok::<Handle, MetalError>(
                    Handle(raw),
                ) && final(driver)@ == old(driver)@.retain(raw),
            },
            old(driver)@.leads_to(final(driver)@),
    {
        match ownership {
            Ownership::Owned => {
                proof {
                    crate::laws::lemma_leads_to_itself(driver@);
                }
                Ok(Handle::wrap(raw))
            },
            Ownership::Borrowed => Handle::wrap_and_retain(driver, raw),
        }
    }

    /// A second handle to the same object, with a reference of its own.
    pub fn clone(&self, driver: &mut Driver) -> (res: Result<Handle, MetalError>)
        ensures
            match old(driver)@.retain_fault(self.0) {
                Some(e) => res == Err::<Handle, MetalError>(e) && final(driver)@ == old(driver)@,
                None => res == Ok::<Handle, MetalError>(
                    Handle(self.0),
                ) && final(driver)@ == old(driver)@.retain(self.0),
            },
            old(driver)@.leads_to(final(driver)@),
    {
        Handle::wrap_and_retain(driver, self.0)
    }

    /// Gives the handle's reference up. A handle that is refused is lost all the same.
    pub fn drop(self, driver: &mut Driver) -> (res: Result<(), MetalError>)
        ensures
            match old(driver)@.release_fault(self.0) {
                Some(e) => res == Err::<(), MetalError>(e) && final(driver)@ == old(driver)@,
                None => res is Ok && final(driver)@ == old(driver)@.release(self.0),
            },
            old(driver)@.leads_to(final(driver)@),
    {
        driver.release(self.0)
    }

    /// Whether this is the null handle.
    pub fn is_null(&self) -> (null: bool)
        ensures
            null == (self.0 == 0),
    {
        self.0 == 0
    }
}

} // verus!
