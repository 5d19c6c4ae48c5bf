//! The command buffer: a unit of work that is encoded, committed once, and then run.

use vstd::prelude::*;
use crate::compute::MTLComputeCommandEncoder;
use crate::driver::Command;
use crate::driver::Driver;
use crate::encoder::check_hand_over;
use crate::encoder::hand_over;
use crate::encoder::rebound;
use crate::encoder::record;
use crate::layer::CAMetalDrawable;
use crate::model::rebind;
use crate::model::Call;
use crate::model::CommandView;
use crate::render::MTLRenderCommandEncoder;
use crate::render::MTLRenderPassDescriptor;
use crate::render::Target;
use crate::encoder::begin;
use crate::error::MetalError;
use crate::handle::Handle;
use crate::laws::lemma_leads_to_is_transitive;
use crate::laws::lemma_leads_to_itself;
use crate::laws::lemma_with_leads_to;
use crate::model::DriverView;
use crate::model::ObjectKind;
use crate::model::Status;
use crate::ownership::lemma_borrowed_names;

verus! {

/// A handle to a command buffer.
#[derive(Debug, PartialEq, Eq)]
pub struct MTLCommandBuffer(pub Handle);

impl DriverView {
    /// Why command buffer `raw` cannot take its place in the queue, if it cannot.
    pub open spec fn enqueue_fault(self, raw: u64) -> Option<MetalError> {
        match self.fault(raw, ObjectKind::CommandBuffer) {
            Some(e) => Some(e),
            None => match self.status(raw) {
                None => Some(MetalError::WrongKind),
                Some(status) => if status.committed() {
                    Some(MetalError::AlreadyCommitted)
                } else if status == Status::Enqueued {
                    Some(MetalError::AlreadyEnqueued)
                } else {
                    None
                },
            },
        }
    }

    /// The state after command buffer `raw` is put after those in the order of its queue,
    /// in state `status`.
    pub open spec fn place(self, raw: u64, status: Status) -> DriverView {
        let queue = self.queue_of(raw);
        let placed = if self.has(queue) {
            self.with(queue, self.get(queue).with_enlisted(raw))
        } else {
            self
        };
        placed.with(raw, placed.get(raw).with_status(status))
    }

    /// The state after command buffer `raw` has taken its place in the queue.
    pub open spec fn enqueue(self, raw: u64) -> DriverView {
        self.place(raw, Status::Enqueued)
    }

    /// Why command buffer `raw` cannot be committed, if it cannot: it is committed once,
    /// and with no encoder open.
    pub open spec fn commit_fault(self, raw: u64) -> Option<MetalError> {
        match self.fault(raw, ObjectKind::CommandBuffer) {
            Some(e) => Some(e),
            None => match self.status(raw) {
                None => Some(MetalError::WrongKind),
                Some(status) => if status.committed() {
                    Some(MetalError::AlreadyCommitted)
                } else if self.encoder_of(raw) != 0 {
                    Some(MetalError::EncoderOpen)
                } else {
                    None
                },
            },
        }
    }

    /// The state after command buffer `raw` is committed: it keeps the place it took when
    /// it was enqueued, or else takes the next.
    pub open spec fn commit(self, raw: u64) -> DriverView {
        if self.status(raw) == Some(Status::Enqueued) {
            self.with(raw, self.get(raw).with_status(Status::Committed))
        } else {
            self.place(raw, Status::Committed)
        }
    }

    /// Why the caller cannot wait for command buffer `raw`, if it cannot: nothing runs
    /// before the commit.
    pub open spec fn wait_fault(self, raw: u64) -> Option<MetalError> {
        match self.fault(raw, ObjectKind::CommandBuffer) {
            Some(e) => Some(e),
            None => match self.status(raw) {
                None => Some(MetalError::WrongKind),
                Some(status) => if status.committed() {
                    None
                } else {
                    Some(MetalError::NotCommitted)
                },
            },
        }
    }

    /// The state once command buffer `raw` has come to `target` at least.
    pub open spec fn reach(self, raw: u64, target: Status) -> DriverView {
        match self.status(raw) {
            Some(status) => if status.rank() < target.rank() {
                self.with(raw, self.get(raw).with_status(target))
            } else {
                self
            },
            None => self,
        }
    }
}

impl DriverView {
    /// Why the textures of `targets` cannot be drawn to, if they cannot: each must be a
    /// live texture.
    pub open spec fn targets_fault(self, targets: Seq<Target>) -> Option<MetalError>
        decreases targets.len(),
    {
        if targets.len() == 0 {
            None
        } else {
            match self.targets_fault(targets.drop_last()) {
                Some(e) => Some(e),
                None => self.fault(targets.last().attachment.texture, ObjectKind::Texture),
            }
        }
    }

    /// Why no render pass over `targets` can begin on command buffer `raw`, if none can.
    pub open spec fn begin_pass_fault(self, raw: u64, targets: Seq<Target>) -> Option<MetalError> {
        match self.begin_fault(raw) {
            Some(e) => Some(e),
            None => self.targets_fault(targets),
        }
    }

    /// The state after encoder `raw` is aimed at `target`: the target is bound, a command
    /// buffer that retains pins its texture, and the call that tells of the target stands
    /// after the commands.
    pub open spec fn aim(self, raw: u64, target: Target) -> DriverView {
        let bound = self.with(
            raw,
            self.get(raw).with_bindings(rebind(self.bindings(raw), target.binding())),
        );
        let texture = target.attachment.texture;
        let pinned = if bound.retains(bound.buffer_of(raw)) {
            bound.with(texture, bound.get(texture).pinned_by(bound.buffer_of(raw)))
        } else {
            bound
        };
        pinned.record(raw, target.call())
    }

    /// The state after encoder `raw` is aimed at `targets`, in turn.
    pub open spec fn aim_all(self, raw: u64, targets: Seq<Target>) -> DriverView
        decreases targets.len(),
    {
        if targets.len() == 0 {
            self
        } else {
            self.aim_all(raw, targets.drop_last()).aim(raw, targets.last())
        }
    }

    /// The state after a render pass over `targets` has begun on command buffer `raw`: its
    /// encoder is the next object, open, and aimed at the targets.
    pub open spec fn begin_pass(self, raw: u64, targets: Seq<Target>) -> DriverView {
        self.begin(raw, ObjectKind::RenderCommandEncoder, 0).aim_all(self.next(), targets)
    }

    /// Why command buffer `raw` cannot take the handle to `drawable` to present it, if it
    /// cannot.
    pub open spec fn present_fault(self, raw: u64, drawable: u64) -> Option<MetalError> {
        match self.fault(raw, ObjectKind::CommandBuffer) {
            Some(e) => Some(e),
            None => match self.status(raw) {
                None => Some(MetalError::WrongKind),
                Some(status) => if status.committed() {
                    Some(MetalError::AlreadyCommitted)
                } else {
                    self.hand_over_fault(drawable, ObjectKind::Drawable)
                },
            },
        }
    }

    /// The command by which a command buffer presents `drawable`.
    pub open spec fn presentation(drawable: u64) -> CommandView {
        CommandView {
            encoder: 0,
            pipeline: 0,
            call: Call::PresentDrawable { drawable },
            bindings: Seq::empty(),
        }
    }

    /// The state after command buffer `raw` has taken `drawable` to present it: the
    /// presentation stands after its commands, the layer no longer waits for the drawable,
    /// and the handle is handed over.
    pub open spec fn present(self, raw: u64, drawable: u64) -> DriverView {
        let recorded = self.with(
            raw,
            self.get(raw).with_command(DriverView::presentation(drawable)),
        );
        let shown = recorded.with(drawable, recorded.get(drawable).with_presented());
        shown.hand_over(drawable, raw)
    }
}

/// Tests that an encoder can be opened on command buffer `raw`.
fn check_begin(driver: &Driver, raw: u64) -> (res: Result<(), MetalError>)
    ensures
        match driver@.begin_fault(raw) {
            Some(e) => res == Err::<(), MetalError>(e),
            None => res is Ok,
        },
{
    match driver.check(raw, ObjectKind::CommandBuffer) {
        Err(e) => {
            return Err(e);
        },
        Ok(()) => {},
    }
    let Some(status) = driver.status(raw) else {
        return Err(MetalError::WrongKind);
    };
    if status.is_committed() {
        return Err(MetalError::AlreadyCommitted);
    }
    if driver.encoder_of(raw) != 0 {
        return Err(MetalError::EncoderOpen);
    }
    if driver.object_count() as u64 == u64::MAX {
        return Err(MetalError::Exhausted);
    }
    Ok(())
}

/// Tests that the textures of `targets` can be drawn to.
fn check_targets(driver: &Driver, targets: &Vec<Target>) -> (res: Result<(), MetalError>)
    ensures
        match driver@.targets_fault(targets@) {
            Some(e) => res == Err::<(), MetalError>(e),
            None => res is Ok,
        },
{
    let mut i: usize = 0;
    while i < targets.len()
        invariant
            i <= targets.len(),
            driver@.targets_fault(targets@.take(i as int)) is None,
        decreases targets.len() - i,
    {
        assert(targets@.take(i + 1).drop_last() == targets@.take(i as int));
        match driver.check(targets[i].attachment.texture, ObjectKind::Texture) {
            Err(e) => {
                proof {
                    lemma_targets_fault_stops(driver@, targets@, i + 1);
                }
                return Err(e);
            },
            Ok(()) => {},
        }
        i = i + 1;
    }
    assert(targets@.take(i as int) == targets@);
    Ok(())
}

/// Once a target among the first `upto` of `targets` cannot be drawn to, the targets
/// cannot, for the same reason.
pub proof fn lemma_targets_fault_stops(s: DriverView, targets: Seq<Target>, upto: int)
    requires
        0 <= upto <= targets.len(),
        s.targets_fault(targets.take(upto)) is Some,
    ensures
        s.targets_fault(targets) == s.targets_fault(targets.take(upto)),
    decreases targets.len() - upto,
{
    if upto < targets.len() {
        assert(targets.take(upto + 1).drop_last() == targets.take(upto));
        lemma_targets_fault_stops(s, targets, upto + 1);
    } else {
        assert(targets.take(upto) == targets);
    }
}

/// Targets that can be drawn to are textures at hand, each of them.
pub proof fn lemma_targets_at_hand(s: DriverView, targets: Seq<Target>, at: int)
    requires
        s.targets_fault(targets) is None,
        0 <= at < targets.len(),
    ensures
        s.has(targets[at].attachment.texture),
        s.get(targets[at].attachment.texture).kind == ObjectKind::Texture,
    decreases targets.len(),
{
    if at < targets.len() - 1 {
        lemma_targets_at_hand(s, targets.drop_last(), at);
    }
}

/// Aims encoder `raw` at `target`.
fn aim(driver: &mut Driver, raw: u64, target: Target)
    requires
        old(driver)@.encoder_fault(raw, ObjectKind::RenderCommandEncoder) is None,
        old(driver)@.has(target.attachment.texture),
        old(driver)@.get(target.attachment.texture).kind == ObjectKind::Texture,
    ensures
        final(driver)@ == old(driver)@.aim(raw, target),
        final(driver)@.encoder_fault(raw, ObjectKind::RenderCommandEncoder) is None,
        old(driver)@.leads_to(final(driver)@),
{
    let texture = target.attachment.texture;
    let held = driver.bindings(raw);
    driver.set_bindings(raw, rebound(&held, target.get_binding()));
    let ghost mid = driver@;
    proof {
        lemma_with_leads_to(old(driver)@, raw, mid.get(raw));
        crate::laws::lemma_relabel_keeps_live(old(driver)@, raw, mid.get(raw), raw);
    }
    let buffer = driver.buffer_of(raw);
    if driver.retains(buffer) {
        driver.pin(texture, buffer);
        proof {
            lemma_with_leads_to(mid, texture, driver@.get(texture));
            lemma_leads_to_is_transitive(old(driver)@, mid, driver@);
            crate::laws::lemma_repin_keeps_others(mid, texture, driver@.get(texture), raw);
        }
    }
    let ghost pinned = driver@;
    assert(pinned.live(raw));
    assert(pinned.open(raw));
    let recorded = record(driver, raw, ObjectKind::RenderCommandEncoder, target.get_call());
    proof {
        lemma_leads_to_is_transitive(old(driver)@, pinned, driver@);
        let buffer = pinned.buffer_of(raw);
        crate::laws::lemma_relabel_keeps_live(pinned, buffer, driver@.get(buffer), raw);
    }
}

impl MTLCommandBuffer {
    /// Begins a render pass that draws to what `descriptor` says, and opens its encoder. A
    /// command buffer that is committed, or has an encoder open, opens none; every
    /// texture that the pass names must be at hand.
    pub fn new_render_command_encoder_with_descriptor(
        &self,
        driver: &mut Driver,
        descriptor: &MTLRenderPassDescriptor,
    ) -> (res: Result<MTLRenderCommandEncoder, MetalError>)
        ensures
            match old(driver)@.begin_pass_fault(self.0.0, descriptor.targets()) {
                Some(e) => res == Err::<MTLRenderCommandEncoder, MetalError>(e) && final(driver)@
                    == old(driver)@,
                None => res == Ok::<MTLRenderCommandEncoder, MetalError>(
                    MTLRenderCommandEncoder(Handle(old(driver)@.next())),
                ) && final(driver)@ == old(driver)@.begin_pass(self.0.0, descriptor.targets()),
            },
            old(driver)@.leads_to(final(driver)@),
    {
        proof {
            lemma_leads_to_itself(driver@);
            lemma_borrowed_names();
        }
        match check_begin(driver, self.0.0) {
            Err(e) => {
                return Err(e);
            },
            Ok(()) => {},
        }
        let targets = descriptor.get_targets();
        match check_targets(driver, &targets) {
            Err(e) => {
                return Err(e);
            },
            Ok(()) => {},
        }
        let opened = begin(
            driver,
            self.0.0,
            ObjectKind::RenderCommandEncoder,
            0,
            "renderCommandEncoderWithDescriptor",
        );
        let Ok(handle) = opened else {
            return Err(MetalError::Exhausted);
        };
        let raw = handle.0;
        let ghost begun = driver@;
        assert(begun.live(raw)) by {
            assert(begun.get(raw).strong > 0);
        }
        let mut i: usize = 0;
        while i < targets.len()
            invariant
                i <= targets.len(),
                targets@ == descriptor.targets(),
                old(driver)@.targets_fault(targets@) is None,
                old(driver)@.leads_to(begun),
                begun.has(raw),
                begun.leads_to(driver@),
                driver@.encoder_fault(raw, ObjectKind::RenderCommandEncoder) is None,
                driver@ == begun.aim_all(raw, targets@.take(i as int)),
            decreases targets.len() - i,
        {
            assert(targets@.take(i + 1).drop_last() == targets@.take(i as int));
            proof {
                lemma_targets_at_hand(old(driver)@, targets@, i as int);
                lemma_leads_to_is_transitive(old(driver)@, begun, driver@);
                let x = driver@.get(targets@[i as int].attachment.texture);
                let y = driver@.get(raw);
            }
            let ghost before = driver@;
            aim(driver, raw, targets[i]);
            proof {
                lemma_leads_to_is_transitive(begun, before, driver@);
            }
            i = i + 1;
        }
        assert(targets@.take(i as int) == targets@);
        proof {
            lemma_leads_to_is_transitive(old(driver)@, begun, driver@);
        }
        Ok(MTLRenderCommandEncoder(handle))
    }

    /// Has `drawable` presented once the command buffer is scheduled. The handle is handed
    /// over.
    pub fn present_drawable(&self, driver: &mut Driver, drawable: CAMetalDrawable) -> (res: Result<
        (),
        MetalError,
    >)
        ensures
            match old(driver)@.present_fault(self.0.0, drawable.0.0) {
                Some(e) => res == Err::<(), MetalError>(e) && final(driver)@ == old(driver)@,
                None => res is Ok && final(driver)@ == old(driver)@.present(
                    self.0.0,
                    drawable.0.0,
                ),
            },
            old(driver)@.leads_to(final(driver)@),
    {
        proof {
            lemma_leads_to_itself(driver@);
        }
        let raw = self.0.0;
        match driver.check(raw, ObjectKind::CommandBuffer) {
            Err(e) => {
                return Err(e);
            },
            Ok(()) => {},
        }
        let Some(status) = driver.status(raw) else {
            return Err(MetalError::WrongKind);
        };
        if status.is_committed() {
            return Err(MetalError::AlreadyCommitted);
        }
        match check_hand_over(driver, drawable.0.0, ObjectKind::Drawable) {
            Err(e) => {
                return Err(e);
            },
            Ok(()) => {},
        }
        driver.push_command(
            raw,
            Command {
                encoder: 0,
                pipeline: 0,
                call: Call::PresentDrawable { drawable: drawable.0.0 },
                bindings: Vec::new(),
            },
        );
        let ghost recorded = driver@;
        proof {
            lemma_with_leads_to(old(driver)@, raw, recorded.get(raw));
        }
        driver.set_presented(drawable.0.0);
        let ghost shown = driver@;
        proof {
            lemma_with_leads_to(recorded, drawable.0.0, shown.get(drawable.0.0));
            lemma_leads_to_is_transitive(old(driver)@, recorded, shown);
        }
        assert(shown.get(drawable.0.0).strong > shown.get(drawable.0.0).native);
        assert(shown.live(drawable.0.0)) by {
            assert(shown.get(drawable.0.0).strong > 0);
        }
        hand_over(driver, drawable.0.0, ObjectKind::Drawable, raw);
        proof {
            lemma_leads_to_is_transitive(old(driver)@, shown, driver@);
        }
        Ok(())
    }

    /// Opens a compute encoder. A command buffer that is committed, or has an encoder
    /// open, opens none.
    pub fn new_compute_command_encoder(&self, driver: &mut Driver) -> (res: Result<
        MTLComputeCommandEncoder,
        MetalError,
    >)
        ensures
            match old(driver)@.begin_fault(self.0.0) {
                Some(e) => res == Err::<MTLComputeCommandEncoder, MetalError>(e) && final(driver)@
                    == old(driver)@,
                None => res == Ok::<MTLComputeCommandEncoder, MetalError>(
                    MTLComputeCommandEncoder(Handle(old(driver)@.next())),
                ) && final(driver)@ == old(driver)@.begin(
                    self.0.0,
                    ObjectKind::ComputeCommandEncoder,
                    0,
                ),
            },
            res is Ok ==> final(driver)@.open(old(driver)@.next()),
            old(driver)@.leads_to(final(driver)@),
    {
        proof {
            lemma_borrowed_names();
        }
        match begin(
            driver,
            self.0.0,
            ObjectKind::ComputeCommandEncoder,
            0,
            "computeCommandEncoder",
        ) {
            Ok(handle) => Ok(MTLComputeCommandEncoder(handle)),
            Err(e) => Err(e),
        }
    }

    /// Opens a compute encoder that dispatches its work as `dispatch_type` says.
    pub fn new_compute_command_encoder_with_dispatch_type(
        &self,
        driver: &mut Driver,
        dispatch_type: u64,
    ) -> (res: Result<MTLComputeCommandEncoder, MetalError>)
        ensures
            match old(driver)@.begin_fault(self.0.0) {
                Some(e) => res == Err::<MTLComputeCommandEncoder, MetalError>(e) && final(driver)@
                    == old(driver)@,
                None => res == Ok::<MTLComputeCommandEncoder, MetalError>(
                    MTLComputeCommandEncoder(Handle(old(driver)@.next())),
                ) && final(driver)@ == old(driver)@.begin(
                    self.0.0,
                    ObjectKind::ComputeCommandEncoder,
                    dispatch_type,
                ),
            },
            res is Ok ==> final(driver)@.open(old(driver)@.next()),
            old(driver)@.leads_to(final(driver)@),
    {
        proof {
            lemma_borrowed_names();
        }
        match begin(
            driver,
            self.0.0,
            ObjectKind::ComputeCommandEncoder,
            dispatch_type,
            "computeCommandEncoderWithDispatchType",
        ) {
            Ok(handle) => Ok(MTLComputeCommandEncoder(handle)),
            Err(e) => Err(e),
        }
    }

    /// Takes the command buffer's place in the order of its queue, ahead of the commit.
    pub fn enqueue(&self, driver: &mut Driver) -> (res: Result<(), MetalError>)
        ensures
            match old(driver)@.enqueue_fault(self.0.0) {
                Some(e) => res == Err::<(), MetalError>(e) && final(driver)@ == old(driver)@,
                None => res is Ok && final(driver)@ == old(driver)@.enqueue(self.0.0),
            },
            old(driver)@.leads_to(final(driver)@),
    {
        proof {
            lemma_leads_to_itself(driver@);
        }
        let raw = self.0.0;
        match driver.check(raw, ObjectKind::CommandBuffer) {
            Err(e) => {
                return Err(e);
            },
            Ok(()) => {},
        }
        let Some(status) = driver.status(raw) else {
            return Err(MetalError::WrongKind);
        };
        if status.is_committed() {
            return Err(MetalError::AlreadyCommitted);
        }
        if status == Status::Enqueued {
            return Err(MetalError::AlreadyEnqueued);
        }
        place(driver, raw, Status::Enqueued);
        Ok(())
    }

    /// Commits the command buffer: from now on it takes no encoder.
    pub fn commit(&self, driver: &mut Driver) -> (res: Result<(), MetalError>)
        ensures
            match old(driver)@.commit_fault(self.0.0) {
                Some(e) => res == Err::<(), MetalError>(e) && final(driver)@ == old(driver)@,
                None => res is Ok && final(driver)@ == old(driver)@.commit(self.0.0),
            },
            res is Ok ==> final(driver)@.status(self.0.0) == Some(Status::Committed),
            old(driver)@.leads_to(final(driver)@),
    {
        proof {
            lemma_leads_to_itself(driver@);
        }
        let raw = self.0.0;
        match driver.check(raw, ObjectKind::CommandBuffer) {
            Err(e) => {
                return Err(e);
            },
            Ok(()) => {},
        }
        let Some(status) = driver.status(raw) else {
            return Err(MetalError::WrongKind);
        };
        if status.is_committed() {
            return Err(MetalError::AlreadyCommitted);
        }
        if driver.encoder_of(raw) != 0 {
            return Err(MetalError::EncoderOpen);
        }
        if status == Status::Enqueued {
            driver.set_status(raw, Status::Committed);
            proof {
                lemma_with_leads_to(old(driver)@, raw, driver@.get(raw));
            }
        } else {
            place(driver, raw, Status::Committed);
        }
        Ok(())
    }

    /// Waits until the command buffer is scheduled.
    pub fn wait_until_scheduled(&self, driver: &mut Driver) -> (res: Result<(), MetalError>)
        ensures
            match old(driver)@.wait_fault(self.0.0) {
                Some(e) => res == Err::<(), MetalError>(e) && final(driver)@ == old(driver)@,
                None => res is Ok && final(driver)@ == old(driver)@.reach(
                    self.0.0,
                    Status::Scheduled,
                ),
            },
            old(driver)@.leads_to(final(driver)@),
    {
        reach(driver, self.0.0, Status::Scheduled)
    }

    /// Waits until the command buffer has completed.
    pub fn wait_until_completed(&self, driver: &mut Driver) -> (res: Result<(), MetalError>)
        ensures
            match old(driver)@.wait_fault(self.0.0) {
                Some(e) => res == Err::<(), MetalError>(e) && final(driver)@ == old(driver)@,
                None => res is Ok && final(driver)@ == old(driver)@.reach(
                    self.0.0,
                    Status::Completed,
                ),
            },
            res is Ok ==> final(driver)@.status(self.0.0) == Some(Status::Completed),
            old(driver)@.leads_to(final(driver)@),
    {
        reach(driver, self.0.0, Status::Completed)
    }
}

/// Whether `earlier` comes before `later` in the order of the states.
fn before(earlier: Status, later: Status) -> (yes: bool)
    ensures
        yes == (earlier.rank() < later.rank()),
{
    match earlier {
        Status::Unscheduled => match later {
            Status::Unscheduled => false,
            _ => true,
        },
        Status::Enqueued => match later {
            Status::Unscheduled => false,
            Status::Enqueued => false,
            _ => true,
        },
        Status::Committed => match later {
            Status::Scheduled => true,
            Status::Completed => true,
            _ => false,
        },
        Status::Scheduled => match later {
            Status::Completed => true,
            _ => false,
        },
        Status::Completed => false,
    }
}

/// Puts command buffer `raw` after those in the order of its queue, in state `status`.
fn place(driver: &mut Driver, raw: u64, status: Status)
    requires
        old(driver)@.has(raw),
        old(driver)@.status(raw) matches Some(before) && before.rank() <= status.rank(),
    ensures
        final(driver)@ == old(driver)@.place(raw, status),
        old(driver)@.leads_to(final(driver)@),
{
    proof {
        lemma_leads_to_itself(driver@);
    }
    let queue = driver.queue_of(raw);
    if driver.position(queue).is_some() {
        driver.enlist(queue, raw);
        proof {
            lemma_with_leads_to(old(driver)@, queue, driver@.get(queue));
        }
    }
    let ghost mid = driver@;
    driver.set_status(raw, status);
    proof {
        lemma_with_leads_to(mid, raw, driver@.get(raw));
        lemma_leads_to_is_transitive(old(driver)@, mid, driver@);
    }
}

/// Waits until command buffer `raw` has come to `target` at least.
fn reach(driver: &mut Driver, raw: u64, target: Status) -> (res: Result<(), MetalError>)
    ensures
        match old(driver)@.wait_fault(raw) {
            Some(e) => res == Err::<(), MetalError>(e) && final(driver)@ == old(driver)@,
            None => res is Ok && final(driver)@ == old(driver)@.reach(raw, target),
        },
        res is Ok && target.committed() ==> (final(driver)@.status(raw) matches Some(status)
            && status.rank() >= target.rank()),
        old(driver)@.leads_to(final(driver)@),
{
    proof {
        lemma_leads_to_itself(driver@);
    }
    match driver.check(raw, ObjectKind::CommandBuffer) {
        Err(e) => {
            return Err(e);
        },
        Ok(()) => {},
    }
    let Some(status) = driver.status(raw) else {
        return Err(MetalError::WrongKind);
    };
    if !status.is_committed() {
        return Err(MetalError::NotCommitted);
    }
    if before(status, target) {
        driver.set_status(raw, target);
        proof {
            lemma_with_leads_to(old(driver)@, raw, driver@.get(raw));
        }
    }
    Ok(())
}

} // verus!
