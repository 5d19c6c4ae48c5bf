//! Events and fences: opaque values by which work on different queues or encoders is put in
//! order.

use vstd::prelude::*;
use crate::device::plain_made;
use crate::driver::Driver;
use crate::driver::Payload;
use crate::error::MetalError;
use crate::handle::Handle;
use crate::laws::lemma_leads_to_itself;
use crate::laws::lemma_with_leads_to;
use crate::model::ObjectKind;
use crate::ownership::lemma_owned_names;

verus! {

/// A handle to an event.
#[derive(Debug, PartialEq, Eq)]
pub struct MTLEvent(pub Handle);

/// A handle to a shared event.
#[derive(Debug, PartialEq, Eq)]
pub struct MTLSharedEvent(pub Handle);

/// The handle by which a shared event crosses to another process.
#[derive(Debug, PartialEq, Eq)]
pub struct MTLSharedEventHandle(pub Handle);

/// A handle to a fence.
#[derive(Debug, PartialEq, Eq)]
pub struct MTLFence(pub Handle);

impl MTLSharedEvent {
    /// The value that the event has been signalled with.
    pub fn get_signaled_value(&self, driver: &Driver) -> (res: Result<u64, MetalError>)
        ensures
            match driver@.fault(self.0.0, ObjectKind::SharedEvent) {
                Some(e) => res == Err::<u64, MetalError>(e),
                None => res == Ok::<u64, MetalError>(driver@.signaled(self.0.0)),
            },
    {
        match driver.check(self.0.0, ObjectKind::SharedEvent) {
            Err(e) => Err(e),
            Ok(()) => Ok(driver.signaled(self.0.0)),
        }
    }

    /// Signals the event with `value`.
    pub fn set_signaled_value(
        &self,
        driver: &mut Driver,
        value: u64,
    ) -> (res: Result<(), MetalError>)
        ensures
            match old(driver)@.fault(self.0.0, ObjectKind::SharedEvent) {
                Some(e) => res == Err::<(), MetalError>(e) && final(driver)@ == old(driver)@,
                None => res is Ok && final(driver)@ == old(driver)@.with(
                    self.0.0,
                    old(driver)@.get(self.0.0).with_signal(value),
                ),
            },
            old(driver)@.leads_to(final(driver)@),
    {
        proof {
            lemma_leads_to_itself(driver@);
        }
        match driver.check(self.0.0, ObjectKind::SharedEvent) {
            Err(e) => {
                return Err(e);
            },
            Ok(()) => {},
        }
        driver.set_signal(self.0.0, value);
        proof {
            lemma_with_leads_to(old(driver)@, self.0.0, driver@.get(self.0.0));
        }
        Ok(())
    }

    /// A handle by which the event crosses to another process.
    pub fn new_shared_event_handle(&self, driver: &mut Driver) -> (res: Result<
        MTLSharedEventHandle,
        MetalError,
    >)
        ensures
            match old(driver)@.make_fault(self.0.0, ObjectKind::SharedEvent) {
                Some(e) => res == Err::<MTLSharedEventHandle, MetalError>(e) && final(driver)@
                    == old(driver)@,
                None => res == Ok::<MTLSharedEventHandle, MetalError>(
                    MTLSharedEventHandle(Handle(old(driver)@.next())),
                ) && final(driver)@ == old(driver)@.plus(plain_made(ObjectKind::SharedEventHandle)),
            },
            old(driver)@.leads_to(final(driver)@),
    {
        proof {
            lemma_owned_names();
        }
        match driver.produce(
            self.0.0,
            ObjectKind::SharedEvent,
            ObjectKind::SharedEventHandle,
            "newSharedEventHandle",
            Payload::Plain,
        ) {
            Ok(handle) => Ok(MTLSharedEventHandle(handle)),
            Err(e) => Err(e),
        }
    }
}

} // verus!
