//! The command queue: where command buffers come from, and the order in which they run.

use vstd::prelude::*;
use crate::commandbuffer::MTLCommandBuffer;
use crate::driver::Driver;
use crate::driver::Payload;
use crate::error::MetalError;
use crate::handle::Handle;
use crate::model::ObjectKind;
use crate::model::ObjectView;
use crate::model::Ownership;
use crate::model::PayloadView;
use crate::model::Status;
use crate::ownership::lemma_borrowed_names;

verus! {

/// A handle to a command queue.
#[derive(Debug, PartialEq, Eq)]
pub struct MTLCommandQueue(pub Handle);

/// A command buffer as queue `queue` hands it out: unscheduled, without commands or an open
/// encoder. The queue keeps the reference it hands out, so the handle retains its own.
pub open spec fn command_buffer_made(queue: u64, retains: bool) -> ObjectView {
    ObjectView::handed_out(
        ObjectKind::CommandBuffer,
        Ownership::Borrowed,
        PayloadView::CommandBuffer {
            queue,
            status: Status::Unscheduled,
            retains,
            encoder: 0,
            commands: Seq::empty(),
        },
    )
}

impl MTLCommandQueue {
    /// A new command buffer, which retains what is bound through its encoders until it
    /// completes.
    pub fn new_command_buffer(&self, driver: &mut Driver) -> (res: Result<
        MTLCommandBuffer,
        MetalError,
    >)
        ensures
            match old(driver)@.make_fault(self.0.0, ObjectKind::CommandQueue) {
                Some(e) => res == Err::<MTLCommandBuffer, MetalError>(e) && final(driver)@ == old(
                    driver,
                )@,
                None => res == Ok::<MTLCommandBuffer, MetalError>(
                    MTLCommandBuffer(Handle(old(driver)@.next())),
                ) && final(driver)@ == old(driver)@.plus(command_buffer_made(self.0.0, true)),
            },
            old(driver)@.leads_to(final(driver)@),
    {
        proof {
            lemma_borrowed_names();
        }
        let payload = Payload::CommandBuffer {
            queue: self.0.0,
            status: Status::Unscheduled,
            retains: true,
            encoder: 0,
            commands: Vec::new(),
        };
        proof {
            match payload@ {
                PayloadView::CommandBuffer { commands, .. } => {
                    assert(commands =~= Seq::empty());
                },
                _ => {},
            }
        }
        match driver.produce(
            self.0.0,
            ObjectKind::CommandQueue,
            ObjectKind::CommandBuffer,
            "commandBuffer",
            payload,
        ) {
            Ok(handle) => Ok(MTLCommandBuffer(handle)),
            Err(e) => Err(e),
        }
    }

    /// A new command buffer that retains nothing: what is bound through its encoders lives
    /// only as long as its other holders keep it.
    pub fn new_command_buffer_with_unretained_references(&self, driver: &mut Driver) -> (res:
        Result<MTLCommandBuffer, MetalError>)
        ensures
            match old(driver)@.make_fault(self.0.0, ObjectKind::CommandQueue) {
                Some(e) => res == Err::<MTLCommandBuffer, MetalError>(e) && final(driver)@ == old(
                    driver,
                )@,
                None => res == Ok::<MTLCommandBuffer, MetalError>(
                    MTLCommandBuffer(Handle(old(driver)@.next())),
                ) && final(driver)@ == old(driver)@.plus(command_buffer_made(self.0.0, false)),
            },
            old(driver)@.leads_to(final(driver)@),
    {
        proof {
            lemma_borrowed_names();
        }
        let payload = Payload::CommandBuffer {
            queue: self.0.0,
            status: Status::Unscheduled,
            retains: false,
            encoder: 0,
            commands: Vec::new(),
        };
        proof {
            match payload@ {
                PayloadView::CommandBuffer { commands, .. } => {
                    assert(commands =~= Seq::empty());
                },
                _ => {},
            }
        }
        match driver.produce(
            self.0.0,
            ObjectKind::CommandQueue,
            ObjectKind::CommandBuffer,
            "commandBufferWithUnretainedReferences",
            payload,
        ) {
            Ok(handle) => Ok(MTLCommandBuffer(handle)),
            Err(e) => Err(e),
        }
    }
}

} // verus!
