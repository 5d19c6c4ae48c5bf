//! What the encoders share: opening and ending, binding, and recording commands.

use vstd::prelude::*;
use crate::driver::Command;
use crate::driver::Driver;
use crate::driver::Payload;
use crate::error::MetalError;
use crate::handle::Handle;
use crate::laws::lemma_leads_to_is_transitive;
use crate::laws::lemma_leads_to_itself;
use crate::laws::lemma_with_leads_to;
use crate::model::rebind;
use crate::model::reoffset;
use crate::model::without_slot;
use crate::model::Binding;
use crate::model::Call;
use crate::model::CommandView;
use crate::model::DriverView;
use crate::model::ObjectKind;
use crate::model::ObjectView;
use crate::model::Ownership;
use crate::model::PayloadView;
use crate::ownership::ownership_of;

verus! {

/// Whether `kind` is a kind of encoder that records into a command buffer.
pub open spec fn encodes(kind: ObjectKind) -> bool {
    kind == ObjectKind::ComputeCommandEncoder || kind == ObjectKind::RenderCommandEncoder
}

impl DriverView {
    /// Why no encoder can be opened on command buffer `raw`, if none can: the command
    /// buffer has been committed, or one of its encoders is still open.
    pub open spec fn begin_fault(self, raw: u64) -> Option<MetalError> {
        match self.fault(raw, ObjectKind::CommandBuffer) {
            Some(e) => Some(e),
            None => match self.status(raw) {
                None => Some(MetalError::WrongKind),
                Some(status) => if status.committed() {
                    Some(MetalError::AlreadyCommitted)
                } else if self.encoder_of(raw) != 0 {
                    Some(MetalError::EncoderOpen)
                } else if self.full() {
                    Some(MetalError::Exhausted)
                } else {
                    None
                },
            },
        }
    }

    /// The state after an encoder of `kind` is opened on command buffer `raw`: the encoder
    /// is the next object, without bindings, and the open encoder of `raw`.
    pub open spec fn begin(self, raw: u64, kind: ObjectKind, dispatch: u64) -> DriverView {
        let made = self.plus(
            ObjectView::handed_out(
                kind,
                Ownership::Borrowed,
                PayloadView::Encoder { buffer: raw, dispatch, pipeline: 0, bindings: Seq::empty() },
            ),
        );
        made.with(raw, made.get(raw).with_encoder(self.next()))
    }

    /// Why a call on `raw` as an encoder of `kind` is refused, if it is: a call on an
    /// encoder that has ended is.
    pub open spec fn encoder_fault(self, raw: u64, kind: ObjectKind) -> Option<MetalError> {
        match self.fault(raw, kind) {
            Some(e) => Some(e),
            None => if self.open(raw) {
                None
            } else {
                Some(MetalError::EncoderEnded)
            },
        }
    }

    /// The state after encoder `raw` has ended: its command buffer has no open encoder.
    pub open spec fn end(self, raw: u64) -> DriverView {
        let buffer = self.buffer_of(raw);
        self.with(buffer, self.get(buffer).with_encoder(0))
    }

    /// The command that encoder `raw` records for `call`: with the pipeline state set and
    /// the bindings in force.
    pub open spec fn command(self, raw: u64, call: Call) -> CommandView {
        CommandView {
            encoder: raw,
            pipeline: self.pipeline_of(raw),
            call,
            bindings: self.bindings(raw),
        }
    }

    /// The state after encoder `raw` has recorded `call`: the command stands after those
    /// of its command buffer.
    pub open spec fn record(self, raw: u64, call: Call) -> DriverView {
        let buffer = self.buffer_of(raw);
        self.with(buffer, self.get(buffer).with_command(self.command(raw, call)))
    }

    /// Why the handle to `resource`, an object of `kind`, cannot be handed over, if it
    /// cannot: the handle must hold a reference of the caller's.
    pub open spec fn hand_over_fault(self, resource: u64, kind: ObjectKind) -> Option<MetalError> {
        match self.fault(resource, kind) {
            Some(e) => Some(e),
            None => if self.get(resource).strong <= self.get(resource).native {
                Some(MetalError::OverRelease)
            } else {
                None
            },
        }
    }

    /// The state after the handle to `resource` was handed over to command buffer
    /// `buffer`: a command buffer that retains pins the object until it completes; the
    /// handle's own reference is given up.
    pub open spec fn hand_over(self, resource: u64, buffer: u64) -> DriverView {
        let pinned = if self.retains(buffer) {
            self.with(resource, self.get(resource).pinned_by(buffer))
        } else {
            self
        };
        pinned.release(resource)
    }

    /// Why encoder `raw` of `kind` cannot take the handle to `resource`, if it cannot.
    pub open spec fn take_fault(
        self,
        raw: u64,
        kind: ObjectKind,
        resource: u64,
        of: ObjectKind,
    ) -> Option<
        MetalError,
    > {
        match self.encoder_fault(raw, kind) {
            Some(e) => Some(e),
            None => self.hand_over_fault(resource, of),
        }
    }

    /// The state after encoder `raw` has bound `binding`, whose resource came by a handle:
    /// the binding replaces what its slot held, and the handle is handed over.
    pub open spec fn bind(self, raw: u64, binding: Binding) -> DriverView {
        self.with(raw, self.get(raw).with_bindings(rebind(self.bindings(raw), binding))).hand_over(
            binding.resource,
            self.buffer_of(raw),
        )
    }

    /// The state after encoder `raw` has bound `binding`, which holds no resource.
    pub open spec fn bind_plain(self, raw: u64, binding: Binding) -> DriverView {
        self.with(raw, self.get(raw).with_bindings(rebind(self.bindings(raw), binding)))
    }

    /// The state after encoder `raw` has moved what the slot of `probe` holds to `offset`.
    pub open spec fn rebase(self, raw: u64, probe: Binding, offset: u64) -> DriverView {
        self.with(raw, self.get(raw).with_bindings(reoffset(self.bindings(raw), probe, offset)))
    }

    /// The state after encoder `raw` has recorded `call`, which names `resource`, whose
    /// handle is handed over.
    pub open spec fn record_with(self, raw: u64, call: Call, resource: u64) -> DriverView {
        self.record(raw, call).hand_over(resource, self.buffer_of(raw))
    }

    /// The state after `pipeline` was set on encoder `raw`, its handle handed over.
    pub open spec fn set_pipeline(self, raw: u64, pipeline: u64) -> DriverView {
        self.with(raw, self.get(raw).with_pipeline(pipeline)).hand_over(
            pipeline,
            self.buffer_of(raw),
        )
    }
}

/// A session that records commands of one kind into a command buffer, until it is ended.
pub trait MTLCommandEncoder {
    /// The number of the encoder's object.
    spec fn raw(&self) -> u64;

    /// The kind of the encoder's object.
    spec fn kind(&self) -> ObjectKind;

    /// The number of the encoder's object.
    fn get_obj(&self) -> (raw: u64)
        ensures
            raw == self.raw(),
    ;

    /// Ends the session. An encoder ends once: to end it again is refused, as is every
    /// later call on it.
    fn end_encoding(&self, driver: &mut Driver) -> (res: Result<(), MetalError>)
        ensures
            match old(driver)@.encoder_fault(self.raw(), self.kind()) {
                Some(e) => res == Err::<(), MetalError>(e) && final(driver)@ == old(driver)@,
                None => res is Ok && final(driver)@ == old(driver)@.end(self.raw()),
            },
            res is Ok ==> !final(driver)@.open(self.raw()),
            old(driver)@.leads_to(final(driver)@),
    ;
}

/// Opens an encoder of `kind` on command buffer `raw`.
pub(crate) fn begin(
    driver: &mut Driver,
    raw: u64,
    kind: ObjectKind,
    dispatch: u64,
    selector: &str,
) -> (res: Result<Handle, MetalError>)
    requires
        encodes(kind),
        ownership_of(selector@) == Ownership::Borrowed,
    ensures
        match old(driver)@.begin_fault(raw) {
            Some(e) => res == Err::<Handle, MetalError>(e) && final(driver)@ == old(driver)@,
            None => res == Ok::<Handle, MetalError>(Handle(old(driver)@.next())) && final(driver)@
                == old(driver)@.begin(raw, kind, dispatch),
        },
        res is Ok ==> final(driver)@.open(old(driver)@.next()),
        old(driver)@.leads_to(final(driver)@),
{
    proof {
        lemma_leads_to_itself(driver@);
    }
    match driver.check(raw, ObjectKind::CommandBuffer) {
        Err(e) => {
            return Err(e);
        },
        Ok(()) => {},
    }
    let Some(status) = driver.status(raw) else {
        return Err(MetalError::WrongKind);
    };
    if status.is_committed() {
        return Err(MetalError::AlreadyCommitted);
    }
    if driver.encoder_of(raw) != 0 {
        return Err(MetalError::EncoderOpen);
    }
    let made = driver.make(
        kind,
        selector,
        Payload::Encoder { buffer: raw, dispatch, pipeline: 0, bindings: Vec::new() },
    );
    match made {
        Err(e) => Err(e),
        Ok(handle) => {
            let ghost mid = driver@;
            driver.set_encoder(raw, handle.0);
            proof {
                let s = old(driver)@;
                let t = driver@;
                assert forall|other: u64|
                    #![trigger t.get(other)]
                    s.has(other) implies s.object_evolves(t, other) by {
                    assert(mid.get(other) == s.get(other));
                }
                if s.sound() {
                    assert forall|other: u64| t.has(other) implies (#[trigger] t.get(
                        other,
                    )).well_formed() by {
                        if s.has(other) {
                            assert(s.get(other).well_formed());
                        }
                    }
                }
            }
            Ok(handle)
        },
    }
}

/// Ends encoder `raw` of `kind`.
pub(crate) fn end(driver: &mut Driver, raw: u64, kind: ObjectKind) -> (res: Result<(), MetalError>)
    ensures
        match old(driver)@.encoder_fault(raw, kind) {
            Some(e) => res == Err::<(), MetalError>(e) && final(driver)@ == old(driver)@,
            None => res is Ok && final(driver)@ == old(driver)@.end(raw),
        },
        res is Ok ==> !final(driver)@.open(raw),
        old(driver)@.leads_to(final(driver)@),
{
    proof {
        lemma_leads_to_itself(driver@);
    }
    match driver.check(raw, kind) {
        Err(e) => {
            return Err(e);
        },
        Ok(()) => {},
    }
    if !driver.is_open(raw) {
        return Err(MetalError::EncoderEnded);
    }
    let buffer = driver.buffer_of(raw);
    driver.set_encoder(buffer, 0);
    proof {
        lemma_with_leads_to(old(driver)@, buffer, driver@.get(buffer));
    }
    Ok(())
}

/// `bindings` after `binding` is made.
pub(crate) fn rebound(bindings: &Vec<Binding>, binding: Binding) -> (fresh: Vec<Binding>)
    ensures
        fresh@ == rebind(bindings@, binding),
{
    let mut fresh: Vec<Binding> = Vec::new();
    let mut i: usize = 0;
    while i < bindings.len()
        invariant
            i <= bindings.len(),
            fresh@ == without_slot(bindings@.take(i as int), binding),
        decreases bindings.len() - i,
    {
        assert(bindings@.take(i + 1).drop_last() == bindings@.take(i as int));
        if !bindings[i].shares_slot(&binding) {
            fresh.push(bindings[i]);
        }
        i = i + 1;
    }
    assert(bindings@.take(i as int) == bindings@);
    fresh.push(binding);
    fresh
}

/// `bindings` with `offset` as the offset of what is bound to the slot of `probe`.
pub(crate) fn rebased(bindings: &Vec<Binding>, probe: Binding, offset: u64) -> (fresh: Vec<Binding>)
    ensures
        fresh@ == reoffset(bindings@, probe, offset),
{
    let mut fresh: Vec<Binding> = Vec::new();
    let mut i: usize = 0;
    while i < bindings.len()
        invariant
            i <= bindings.len(),
            fresh@.len() == i,
            forall|k: int| 0 <= k < i ==> fresh@[k] == reoffset(bindings@, probe, offset)[k],
        decreases bindings.len() - i,
    {
        let held = bindings[i];
        if held.shares_slot(&probe) {
            fresh.push(
                Binding {
                    stage: held.stage,
                    class: held.class,
                    index: held.index,
                    resource: held.resource,
                    offset,
                    length: held.length,
                },
            );
        } else {
            fresh.push(held);
        }
        i = i + 1;
    }
    assert(fresh@ =~= reoffset(bindings@, probe, offset));
    fresh
}

/// Tests that `raw` is an open encoder of `kind`.
pub(crate) fn check_open(
    driver: &Driver,
    raw: u64,
    kind: ObjectKind,
) -> (res: Result<(), MetalError>)
    ensures
        match driver@.encoder_fault(raw, kind) {
            Some(e) => res == Err::<(), MetalError>(e),
            None => res is Ok,
        },
{
    match driver.check(raw, kind) {
        Err(e) => {
            return Err(e);
        },
        Ok(()) => {},
    }
    if !driver.is_open(raw) {
        return Err(MetalError::EncoderEnded);
    }
    Ok(())
}

/// Tests that the handle to `resource`, an object of `kind`, can be handed over.
pub(crate) fn check_hand_over(driver: &Driver, resource: u64, kind: ObjectKind) -> (res: Result<
    (),
    MetalError,
>)
    ensures
        match driver@.hand_over_fault(resource, kind) {
            Some(e) => res == Err::<(), MetalError>(e),
            None => res is Ok,
        },
{
    match driver.check(resource, kind) {
        Err(e) => {
            return Err(e);
        },
        Ok(()) => {},
    }
    let Some(index) = driver.position(resource) else {
        return Err(MetalError::Dangling);
    };
    if driver.objects[index].strong <= driver.objects[index].native {
        return Err(MetalError::OverRelease);
    }
    Ok(())
}

/// Hands the handle to `resource` over to command buffer `buffer`.
pub(crate) fn hand_over(driver: &mut Driver, resource: u64, kind: ObjectKind, buffer: u64)
    requires
        old(driver)@.hand_over_fault(resource, kind) is None,
        kind != ObjectKind::CommandBuffer,
    ensures
        final(driver)@ == old(driver)@.hand_over(resource, buffer),
        old(driver)@.leads_to(final(driver)@),
{
    proof {
        lemma_leads_to_itself(driver@);
    }
    if driver.retains(buffer) {
        driver.pin(resource, buffer);
        proof {
            lemma_with_leads_to(old(driver)@, resource, driver@.get(resource));
        }
    }
    let ghost mid = driver@;
    assert(mid.get(resource).strong > mid.get(resource).native);
    assert(mid.live(resource));
    let _ = driver.release(resource);
    proof {
        lemma_leads_to_is_transitive(old(driver)@, mid, driver@);
    }
}

/// Records `call` on encoder `raw` of `kind`.
pub(crate) fn record(driver: &mut Driver, raw: u64, kind: ObjectKind, call: Call) -> (res: Result<
    (),
    MetalError,
>)
    ensures
        match old(driver)@.encoder_fault(raw, kind) {
            Some(e) => res == Err::<(), MetalError>(e) && final(driver)@ == old(driver)@,
            None => res is Ok && final(driver)@ == old(driver)@.record(raw, call),
        },
        old(driver)@.leads_to(final(driver)@),
{
    proof {
        lemma_leads_to_itself(driver@);
    }
    match check_open(driver, raw, kind) {
        Err(e) => {
            return Err(e);
        },
        Ok(()) => {},
    }
    let buffer = driver.buffer_of(raw);
    let command = Command {
        encoder: raw,
        pipeline: driver.pipeline_of(raw),
        call,
        bindings: driver.bindings(raw),
    };
    driver.push_command(buffer, command);
    proof {
        lemma_with_leads_to(old(driver)@, buffer, driver@.get(buffer));
    }
    Ok(())
}

/// Records `call`, which names `resource`, on encoder `raw` of `kind`, and hands the
/// handle to `resource` over.
pub(crate) fn record_with(
    driver: &mut Driver,
    raw: u64,
    kind: ObjectKind,
    call: Call,
    resource: u64,
    of: ObjectKind,
) -> (res: Result<(), MetalError>)
    requires
        of != ObjectKind::CommandBuffer,
    ensures
        match old(driver)@.take_fault(raw, kind, resource, of) {
            Some(e) => res == Err::<(), MetalError>(e) && final(driver)@ == old(driver)@,
            None => res is Ok && final(driver)@ == old(driver)@.record_with(raw, call, resource),
        },
        old(driver)@.leads_to(final(driver)@),
{
    proof {
        lemma_leads_to_itself(driver@);
    }
    match check_open(driver, raw, kind) {
        Err(e) => {
            return Err(e);
        },
        Ok(()) => {},
    }
    match check_hand_over(driver, resource, of) {
        Err(e) => {
            return Err(e);
        },
        Ok(()) => {},
    }
    let buffer = driver.buffer_of(raw);
    let _ = record(driver, raw, kind, call);
    let ghost mid = driver@;
    assert(mid.get(resource).strong >= old(driver)@.get(resource).strong);
    assert(mid.get(resource).native == old(driver)@.get(resource).native);
    hand_over(driver, resource, of, buffer);
    proof {
        lemma_leads_to_is_transitive(old(driver)@, mid, driver@);
    }
    Ok(())
}

/// Binds `binding`, whose resource is an object of `of` that came by a handle, on encoder
/// `raw` of `kind`.
pub(crate) fn bind(
    driver: &mut Driver,
    raw: u64,
    kind: ObjectKind,
    binding: Binding,
    of: ObjectKind,
) -> (res: Result<(), MetalError>)
    requires
        of != ObjectKind::CommandBuffer,
    ensures
        match old(driver)@.take_fault(raw, kind, binding.resource, of) {
            Some(e) => res == Err::<(), MetalError>(e) && final(driver)@ == old(driver)@,
            None => res is Ok && final(driver)@ == old(driver)@.bind(raw, binding),
        },
        old(driver)@.leads_to(final(driver)@),
{
    proof {
        lemma_leads_to_itself(driver@);
    }
    match check_open(driver, raw, kind) {
        Err(e) => {
            return Err(e);
        },
        Ok(()) => {},
    }
    match check_hand_over(driver, binding.resource, of) {
        Err(e) => {
            return Err(e);
        },
        Ok(()) => {},
    }
    let buffer = driver.buffer_of(raw);
    let held = driver.bindings(raw);
    driver.set_bindings(raw, rebound(&held, binding));
    let ghost mid = driver@;
    proof {
        lemma_with_leads_to(old(driver)@, raw, mid.get(raw));
    }
    assert(mid.get(binding.resource).strong >= old(driver)@.get(binding.resource).strong);
    assert(mid.get(binding.resource).native == old(driver)@.get(binding.resource).native);
    hand_over(driver, binding.resource, of, buffer);
    proof {
        lemma_leads_to_is_transitive(old(driver)@, mid, driver@);
    }
    Ok(())
}

/// Binds `binding`, which holds no resource, on encoder `raw` of `kind`.
pub(crate) fn bind_plain(driver: &mut Driver, raw: u64, kind: ObjectKind, binding: Binding) -> (res:
    Result<(), MetalError>)
    ensures
        match old(driver)@.encoder_fault(raw, kind) {
            Some(e) => res == Err::<(), MetalError>(e) && final(driver)@ == old(driver)@,
            None => res is Ok && final(driver)@ == old(driver)@.bind_plain(raw, binding),
        },
        old(driver)@.leads_to(final(driver)@),
{
    proof {
        lemma_leads_to_itself(driver@);
    }
    match check_open(driver, raw, kind) {
        Err(e) => {
            return Err(e);
        },
        Ok(()) => {},
    }
    let held = driver.bindings(raw);
    driver.set_bindings(raw, rebound(&held, binding));
    proof {
        lemma_with_leads_to(old(driver)@, raw, driver@.get(raw));
    }
    Ok(())
}

/// Moves what the slot of `probe` holds on encoder `raw` of `kind` to `offset`.
pub(crate) fn rebase(
    driver: &mut Driver,
    raw: u64,
    kind: ObjectKind,
    probe: Binding,
    offset: u64,
) -> (res: Result<(), MetalError>)
    ensures
        match old(driver)@.encoder_fault(raw, kind) {
            Some(e) => res == Err::<(), MetalError>(e) && final(driver)@ == old(driver)@,
            None => res is Ok && final(driver)@ == old(driver)@.rebase(raw, probe, offset),
        },
        old(driver)@.leads_to(final(driver)@),
{
    proof {
        lemma_leads_to_itself(driver@);
    }
    match check_open(driver, raw, kind) {
        Err(e) => {
            return Err(e);
        },
        Ok(()) => {},
    }
    let held = driver.bindings(raw);
    driver.set_bindings(raw, rebased(&held, probe, offset));
    proof {
        lemma_with_leads_to(old(driver)@, raw, driver@.get(raw));
    }
    Ok(())
}

/// Sets `pipeline`, an object of `of` that came by a handle, on encoder `raw` of `kind`.
pub(crate) fn set_pipeline(
    driver: &mut Driver,
    raw: u64,
    kind: ObjectKind,
    pipeline: u64,
    of: ObjectKind,
) -> (res: Result<(), MetalError>)
    requires
        of != ObjectKind::CommandBuffer,
    ensures
        match old(driver)@.take_fault(raw, kind, pipeline, of) {
            Some(e) => res == Err::<(), MetalError>(e) && final(driver)@ == old(driver)@,
            None => res is Ok && final(driver)@ == old(driver)@.set_pipeline(raw, pipeline),
        },
        old(driver)@.leads_to(final(driver)@),
{
    proof {
        lemma_leads_to_itself(driver@);
    }
    match check_open(driver, raw, kind) {
        Err(e) => {
            return Err(e);
        },
        Ok(()) => {},
    }
    match check_hand_over(driver, pipeline, of) {
        Err(e) => {
            return Err(e);
        },
        Ok(()) => {},
    }
    let buffer = driver.buffer_of(raw);
    driver.set_pipeline(raw, pipeline);
    let ghost mid = driver@;
    proof {
        lemma_with_leads_to(old(driver)@, raw, mid.get(raw));
    }
    assert(mid.get(pipeline).strong >= old(driver)@.get(pipeline).strong);
    assert(mid.get(pipeline).native == old(driver)@.get(pipeline).native);
    hand_over(driver, pipeline, of, buffer);
    proof {
        lemma_leads_to_is_transitive(old(driver)@, mid, driver@);
    }
    Ok(())
}

} // verus!
