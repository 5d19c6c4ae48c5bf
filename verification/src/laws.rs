//! What holds of the driver's states, whatever is done to it.

use vstd::prelude::*;
use crate::error::MetalError;
use crate::model::bound;
use crate::model::drops_only_clones;
use crate::model::rebind;
use crate::model::surplus;
use crate::model::without_slot;
use crate::model::Binding;
use crate::model::DriverView;
use crate::model::ObjectKind;
use crate::model::ObjectView;
use crate::model::PayloadView;
use crate::model::RefOp;
use crate::model::Status;

verus! {

/// Every state can come after itself.
pub proof fn lemma_leads_to_itself(s: DriverView)
    ensures
        s.leads_to(s),
{
}

/// A state that can come after a state that can come after a first can come after the first.
pub proof fn lemma_leads_to_is_transitive(a: DriverView, b: DriverView, c: DriverView)
    requires
        a.leads_to(b),
        b.leads_to(c),
    ensures
        a.leads_to(c),
{
    assert forall|raw: u64| #![trigger c.get(raw)] a.has(raw) implies a.object_evolves(c, raw) by {
        let x = b.get(raw);
        assert(b.has(raw));
        assert(a.object_evolves(b, raw));
        assert(b.object_evolves(c, raw));
        assert forall|i: int| 0 <= i < a.order(raw).len() implies #[trigger] c.order(raw)[i]
            == a.order(raw)[i] by {
            assert(b.order(raw)[i] == a.order(raw)[i]);
        }
    }
}

/// Whether two states agree on which command buffers are pending.
pub open spec fn same_pending(a: DriverView, b: DriverView) -> bool {
    forall|raw: u64| a.pending(raw) == b.pending(raw)
}

/// States that agree on which command buffers are pending count the same pins.
pub proof fn lemma_count_pending_agrees(a: DriverView, b: DriverView, pins: Seq<u64>)
    requires
        forall|i: int| 0 <= i < pins.len() ==> a.pending(pins[i]) == b.pending(pins[i]),
    ensures
        a.count_pending(pins) == b.count_pending(pins),
    decreases pins.len(),
{
    if pins.len() > 0 {
        lemma_count_pending_agrees(a, b, pins.drop_last());
    }
}

/// A change to one object that keeps it well formed, of its kind, in its state, as open as
/// it was and, if it is a queue, with its order as far as it went leads to a state that
/// can come after.
pub proof fn lemma_with_leads_to(s: DriverView, raw: u64, object: ObjectView)
    requires
        s.has(raw),
        object.kind == s.get(raw).kind,
        s.get(raw).well_formed() ==> object.well_formed(),
        s.status(raw) matches Some(before) ==> s.with(raw, object).status(raw) matches Some(after)
            && before.rank() <= after.rank(),
        forall|other: u64| !s.open(other) ==> !s.with(raw, object).open(other),
        s.order(raw).len() <= s.with(raw, object).order(raw).len(),
        forall|i: int|
            0 <= i < s.order(raw).len() ==> #[trigger] s.with(raw, object).order(raw)[i]
                == s.order(raw)[i],
    ensures
        s.leads_to(s.with(raw, object)),
{
    let t = s.with(raw, object);
    if s.sound() {
        assert forall|other: u64| t.has(other) implies (#[trigger] t.get(other)).well_formed() by {
            assert(s.get(other).well_formed());
        }
    }
    assert forall|other: u64| #![trigger t.get(other)] s.has(other) implies s.object_evolves(
        t,
        other,
    ) by {
    }
}

/// A new object that is no command buffer with an encoder open leads to a state that the
/// old one evolves to.
pub proof fn lemma_plus_evolves(s: DriverView, object: ObjectView)
    requires
        !s.full(),
        object.payload matches PayloadView::CommandBuffer { encoder, .. } ==> encoder == 0,
    ensures
        s.evolves_to(s.plus(object)),
{
    let t = s.plus(object);
    assert forall|other: u64| #![trigger t.get(other)] s.has(other) implies s.object_evolves(
        t,
        other,
    ) by {
    }
}

/// A new object that is well formed, and is no command buffer with an encoder open, leads
/// to a state that can come after.
pub proof fn lemma_plus_leads_to(s: DriverView, object: ObjectView)
    requires
        !s.full(),
        object.well_formed(),
        object.payload matches PayloadView::CommandBuffer { encoder, .. } ==> encoder == 0,
    ensures
        s.leads_to(s.plus(object)),
{
    let t = s.plus(object);
    lemma_plus_evolves(s, object);
    if s.sound() {
        assert forall|other: u64| t.has(other) implies (#[trigger] t.get(other)).well_formed() by {
            if s.has(other) {
                assert(s.get(other).well_formed());
            }
        }
    }
}

/// A change of the number of references to one object changes no command buffer's being
/// pending, as long as a command buffer that was held stays held.
pub proof fn lemma_recount_keeps_pending(s: DriverView, raw: u64, strong: nat)
    requires
        s.has(raw),
        s.status(raw) is Some ==> s.get(raw).strong > 0 && strong > 0,
    ensures
        same_pending(s, s.with(raw, ObjectView { strong, ..s.get(raw) })),
{
    let t = s.with(raw, ObjectView { strong, ..s.get(raw) });
    assert forall|other: u64| s.pending(other) == t.pending(other) by {
        if s.has(other) && other != raw {
            assert(t.get(other) == s.get(other));
        }
    }
}

/// By how much the count of `raw` differs once its references are `strong`.
pub proof fn lemma_recount(s: DriverView, raw: u64, strong: nat)
    requires
        s.sound(),
        s.live(raw),
        strong > 0,
    ensures
        s.with(raw, ObjectView { strong, ..s.get(raw) }).retain_count(raw) == s.retain_count(raw)
            - s.get(raw).strong + strong,
{
    let t = s.with(raw, ObjectView { strong, ..s.get(raw) });
    assert(s.get(raw).well_formed());
    if s.status(raw) is Some {
        assert(s.get(raw).pins.len() == 0);
        assert(s.count_pending(s.get(raw).pins) == 0);
    }
    lemma_recount_keeps_pending(s, raw, strong);
    lemma_count_pending_agrees(s, t, s.get(raw).pins);
}

/// To retain and then wrap leaves the count of the object one above what it is when the
/// reference is only wrapped, which leaves the count as it was.
pub proof fn law_wrap_and_retain_counts_one_more(s: DriverView, raw: u64)
    requires
        s.sound(),
        raw != 0,
        s.retain_fault(raw) is None,
    ensures
        s.retain(raw).retain_count(raw) == s.retain_count(raw) + 1,
{
    lemma_recount(s, raw, s.get(raw).strong + 1);
}

/// To drop a handle lowers the count of its object by one: the drop of the last reference
/// takes the count of an object that nothing pins to zero.
pub proof fn law_drop_counts_one_less(s: DriverView, raw: u64)
    requires
        s.sound(),
        raw != 0,
        s.release_fault(raw) is None,
    ensures
        s.release(raw).retain_count(raw) == s.retain_count(raw) - 1,
        s.get(raw).strong == 1 && s.count_pending(s.get(raw).pins) == 0 ==> !s.release(raw).live(
            raw,
        ),
{
    let t = s.release(raw);
    let pins = s.get(raw).pins;
    assert(s.get(raw).well_formed());
    assert forall|i: int| 0 <= i < pins.len() implies s.pending(pins[i]) == t.pending(pins[i]) by {
        let x = pins[i];
        if s.has(x) && x != raw {
            assert(t.get(x) == s.get(x));
        }
    }
    lemma_count_pending_agrees(s, t, pins);
}

/// The clones among `ops` outnumber the drops by no more than there are `ops`.
pub proof fn lemma_surplus_bound(ops: Seq<RefOp>)
    ensures
        -ops.len() <= surplus(ops) <= ops.len(),
    decreases ops.len(),
{
    if ops.len() > 0 {
        lemma_surplus_bound(ops.drop_last());
    }
}

/// Clones and drops of the handles to one object, in any order in which only clones are
/// dropped, are all accepted, and leave the count changed by the number of clones that
/// were not dropped. The object lives all the while. Once every clone is dropped, the
/// driver is in the state in which it was before the first clone, and the handle that was
/// cloned can be dropped, which lowers the count by one more.
pub proof fn law_clones_and_drops_balance(s: DriverView, raw: u64, ops: Seq<RefOp>)
    requires
        s.sound(),
        raw != 0,
        s.live(raw),
        s.get(raw).strong > s.get(raw).native,
        s.get(raw).strong + ops.len() <= u64::MAX,
        drops_only_clones(ops),
    ensures
        s.accepts(raw, ops),
        s.after(raw, ops) == s.with(
            raw,
            ObjectView { strong: (s.get(raw).strong + surplus(ops)) as nat, ..s.get(raw) },
        ),
        s.after(raw, ops).retain_count(raw) == s.retain_count(raw) + surplus(ops),
        s.after(raw, ops).live(raw),
        surplus(ops) == 0 ==> s.after(raw, ops) == s,
        surplus(ops) == 0 ==> s.after(raw, ops).release_fault(raw) is None && s.after(
            raw,
            ops,
        ).release(raw).retain_count(raw) == s.retain_count(raw) - 1,
    decreases ops.len(),
{
    assert(ops.take(ops.len() as int) == ops);
    let strong = s.get(raw).strong;
    if ops.len() == 0 {
        assert(s.with(raw, s.get(raw)).objects =~= s.objects);
    } else {
        let front = ops.drop_last();
        assert forall|k: int| 0 <= k <= front.len() implies surplus(#[trigger] front.take(k))
            >= 0 by {
            assert(front.take(k) == ops.take(k));
        }
        assert(front == ops.take(front.len() as int));
        law_clones_and_drops_balance(s, raw, front);
        lemma_surplus_bound(front);
        let mid = s.after(raw, front);
        lemma_recount(s, raw, (strong + surplus(front)) as nat);
        let end = s.after(raw, ops);
        assert(end.objects =~= s.with(
            raw,
            ObjectView { strong: (strong + surplus(ops)) as nat, ..s.get(raw) },
        ).objects);
        lemma_recount(s, raw, (strong + surplus(ops)) as nat);
        if surplus(ops) == 0 {
            assert(end.objects =~= s.objects);
        }
    }
    if surplus(ops) == 0 {
        law_drop_counts_one_less(s, raw);
    }
}

/// A command buffer that has been committed opens no encoder, whatever was done to the
/// driver since the commit: while its handle is good, the refusal says that it was committed.
pub proof fn law_committed_buffer_opens_no_encoder(
    at_commit: DriverView,
    later: DriverView,
    raw: u64,
)
    requires
        at_commit.status(raw) matches Some(status) && status.committed(),
        at_commit.leads_to(later),
    ensures
        later.begin_fault(raw) is Some,
        later.fault(raw, ObjectKind::CommandBuffer) is None ==> later.begin_fault(raw) == Some(
            MetalError::AlreadyCommitted,
        ),
        later.commit_fault(raw) is Some,
        later.enqueue_fault(raw) is Some,
{
    let x = later.get(raw);
}

/// A command buffer has one open encoder at most.
pub proof fn law_one_open_encoder(s: DriverView, first: u64, second: u64)
    requires
        s.open(first),
        s.open(second),
        s.buffer_of(first) == s.buffer_of(second),
    ensures
        first == second,
{
}

/// While an encoder is open, its command buffer opens no other, and cannot be committed.
pub proof fn law_open_encoder_excludes_another(s: DriverView, encoder: u64)
    requires
        s.open(encoder),
    ensures
        s.begin_fault(s.buffer_of(encoder)) is Some,
        s.commit_fault(s.buffer_of(encoder)) is Some,
{
}

/// An encoder that has ended stays ended, whatever is done to the driver: every later call
/// on it, a second end among them, is refused.
pub proof fn law_ended_encoder_stays_ended(
    at_end: DriverView,
    later: DriverView,
    raw: u64,
    kind: ObjectKind,
)
    requires
        at_end.has(raw),
        !at_end.open(raw),
        at_end.leads_to(later),
    ensures
        !later.open(raw),
        later.encoder_fault(raw, kind) is Some,
        forall|resource: u64, of: ObjectKind| later.take_fault(raw, kind, resource, of) is Some,
{
    let x = later.get(raw);
}

/// To end an encoder that is open ends it.
pub proof fn law_end_ends(s: DriverView, raw: u64, kind: ObjectKind)
    requires
        s.encoder_fault(raw, kind) is None,
    ensures
        !s.end(raw).open(raw),
        s.end(raw).encoder_fault(raw, kind) == Some(MetalError::EncoderEnded),
{
    let t = s.end(raw);
    let buffer = s.buffer_of(raw);
    assert(t.get(raw).kind == s.get(raw).kind);
    lemma_relabel_keeps_live(s, buffer, s.get(buffer).with_encoder(0), raw);
}

/// A change to one object that leaves its references, its pins and its state as a command
/// buffer alone leaves every object as live as it was.
pub proof fn lemma_relabel_keeps_live(s: DriverView, raw: u64, object: ObjectView, other: u64)
    requires
        s.has(raw),
        object.strong == s.get(raw).strong,
        object.pins == s.get(raw).pins,
        s.with(raw, object).status(raw) == s.status(raw),
    ensures
        s.with(raw, object).retain_count(other) == s.retain_count(other),
        s.with(raw, object).live(other) == s.live(other),
{
    let t = s.with(raw, object);
    assert forall|x: u64| s.pending(x) == t.pending(x) by {
        if s.has(x) && x != raw {
            assert(t.get(x) == s.get(x));
        }
    }
    if s.has(other) {
        lemma_count_pending_agrees(s, t, s.get(other).pins);
    }
}

/// A change to one object that leaves its references and its state as a command buffer
/// alone leaves every other object as live as it was.
pub proof fn lemma_repin_keeps_others(s: DriverView, raw: u64, object: ObjectView, other: u64)
    requires
        s.has(raw),
        other != raw,
        object.strong == s.get(raw).strong,
        s.with(raw, object).status(raw) == s.status(raw),
    ensures
        s.with(raw, object).retain_count(other) == s.retain_count(other),
        s.with(raw, object).live(other) == s.live(other),
{
    let t = s.with(raw, object);
    assert forall|x: u64| s.pending(x) == t.pending(x) by {
        if s.has(x) && x != raw {
            assert(t.get(x) == s.get(x));
        }
    }
    if s.has(other) {
        assert(t.get(other) == s.get(other));
        lemma_count_pending_agrees(s, t, s.get(other).pins);
    }
}

/// What a slot other than that of `binding` holds is what it held before `binding` was
/// taken out.
pub proof fn lemma_without_slot_keeps_others(
    bindings: Seq<Binding>,
    binding: Binding,
    probe: Binding,
)
    requires
        !probe.same_slot(binding),
    ensures
        bound(without_slot(bindings, binding), probe) == bound(bindings, probe),
    decreases bindings.len(),
{
    if bindings.len() > 0 {
        lemma_without_slot_keeps_others(bindings.drop_last(), binding, probe);
        if !bindings.last().same_slot(binding) {
            assert(without_slot(bindings, binding).drop_last() == without_slot(
                bindings.drop_last(),
                binding,
            ));
        }
    }
}

/// The last binding made to a slot is the one that the slot holds; a binding changes what
/// no other slot holds.
pub proof fn law_last_binding_wins(bindings: Seq<Binding>, binding: Binding, probe: Binding)
    ensures
        bound(rebind(bindings, binding), probe) == if probe.same_slot(binding) {
            Some(binding)
        } else {
            bound(bindings, probe)
        },
{
    let after = rebind(bindings, binding);
    assert(after.last() == binding);
    assert(after.drop_last() == without_slot(bindings, binding));
    if !probe.same_slot(binding) {
        lemma_without_slot_keeps_others(bindings, binding, probe);
    }
}

/// What is bound on one encoder is not seen by any other.
pub proof fn law_bindings_are_private(s: DriverView, raw: u64, binding: Binding, other: u64)
    requires
        s.has(raw),
        s.has(binding.resource),
        other != raw,
        other != binding.resource,
    ensures
        s.bind(raw, binding).bindings(other) == s.bindings(other),
        s.bind_plain(raw, binding).bindings(other) == s.bindings(other),
{
    let bound = s.with(raw, s.get(raw).with_bindings(rebind(s.bindings(raw), binding)));
    let buffer = s.buffer_of(raw);
    let resource = binding.resource;
    let pinned = if bound.retains(buffer) {
        bound.with(resource, bound.get(resource).pinned_by(buffer))
    } else {
        bound
    };
    assert(pinned.has(other) == s.has(other));
    if s.has(other) {
        assert(pinned.get(other) == s.get(other));
        assert(pinned.release(resource).get(other) == s.get(other));
    }
}

/// A list of pins among which one is a pending command buffer counts one at least.
pub proof fn lemma_pending_pin_counts(s: DriverView, pins: Seq<u64>, at: int)
    requires
        0 <= at < pins.len(),
        s.pending(pins[at]),
    ensures
        s.count_pending(pins) >= 1,
    decreases pins.len(),
{
    if at < pins.len() - 1 {
        lemma_pending_pin_counts(s, pins.drop_last(), at);
    }
}

/// An object that a pending command buffer pins is live, whoever else has let go of it.
pub proof fn law_pinned_object_lives(s: DriverView, resource: u64, buffer: u64)
    requires
        s.has(resource),
        s.get(resource).pins.contains(buffer),
        s.pending(buffer),
    ensures
        s.live(resource),
{
    let pins = s.get(resource).pins;
    let at = choose|at: int| 0 <= at < pins.len() && pins[at] == buffer;
    lemma_pending_pin_counts(s, pins, at);
}

/// What is handed over to a command buffer that retains is pinned by it.
pub proof fn law_hand_over_pins(s: DriverView, resource: u64, buffer: u64)
    requires
        s.has(resource),
        resource != 0,
        s.retains(buffer),
    ensures
        s.hand_over(resource, buffer).get(resource).pins.contains(buffer),
{
    let pinned = s.with(resource, s.get(resource).pinned_by(buffer));
    let pins = s.get(resource).pins;
    if !pins.contains(buffer) {
        assert(pins.push(buffer)[pins.len() as int] == buffer);
    }
    assert(pinned.get(resource).pins.contains(buffer));
}

/// A command buffer that was enqueued keeps its place in the order of its queue when it
/// is committed; one that was not takes the place after the last.
pub proof fn law_commit_keeps_the_place(s: DriverView, raw: u64)
    requires
        s.commit_fault(raw) is None,
        s.has(s.queue_of(raw)),
        s.queue_of(raw) != raw,
    ensures
        s.status(raw) == Some(Status::Enqueued) ==> s.commit(raw).order(s.queue_of(raw)) == s.order(
            s.queue_of(raw),
        ),
        s.status(raw) == Some(Status::Unscheduled) ==> s.commit(raw).order(s.queue_of(raw))
            == s.order(s.queue_of(raw)).push(raw) || s.get(s.queue_of(raw)).payload
            !is CommandQueue,
{
}

/// A heap gives out no more bytes than it has.
pub proof fn law_heap_within_its_size(s: DriverView, raw: u64)
    requires
        s.sound(),
        s.fault(raw, ObjectKind::Heap) is None,
    ensures
        s.used(raw) <= s.heap_descriptor(raw).size,
        s.unused(raw) == s.heap_descriptor(raw).size - s.used(raw),
{
    assert(s.get(raw).well_formed());
}

/// A request for a drawable of a layer that has as many in use as it hands out at a time
/// is answered with none: it is not refused, and nothing changes.
pub proof fn law_no_drawable_is_no_refusal(s: DriverView, raw: u64)
    requires
        s.fault(raw, ObjectKind::Layer) is None,
        !s.drawable_available(raw),
    ensures
        s.next_drawable_fault(raw) is None,
{
}

/// A command buffer that takes its place in the order of its queue, by being enqueued or
/// by being committed without, takes the place after the last.
pub proof fn law_a_place_is_taken_at_the_end(s: DriverView, raw: u64)
    requires
        s.has(raw),
        s.has(s.queue_of(raw)),
        s.get(s.queue_of(raw)).payload is CommandQueue,
    ensures
        s.enqueue(raw).order(s.queue_of(raw)) == s.order(s.queue_of(raw)).push(raw),
        s.status(raw) != Some(Status::Enqueued) ==> s.commit(raw).order(s.queue_of(raw)) == s.order(
            s.queue_of(raw),
        ).push(raw),
{
}

/// Command buffers keep their places: what stands at a place in the order of a queue
/// stands there in every later state. So the command buffers of a queue run in the order
/// in which they were enqueued or, if they were not, committed.
pub proof fn law_places_are_kept(earlier: DriverView, later: DriverView, queue: u64, place: int)
    requires
        earlier.has(queue),
        0 <= place < earlier.order(queue).len(),
        earlier.leads_to(later),
    ensures
        place < later.order(queue).len(),
        later.order(queue)[place] == earlier.order(queue)[place],
{
    let x = later.get(queue);
    assert(earlier.object_evolves(later, queue));
}

} // verus!
