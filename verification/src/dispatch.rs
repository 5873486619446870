//! The message dispatcher: a pure consume step over inbound envelopes.
//! Recognized kinds are decoded and surfaced in arrival order; a malformed
//! payload of a recognized kind aborts the whole run; unrecognized kinds
//! are skipped without error, so that future kinds do not break old
//! clients.

use vstd::prelude::*;

use crate::codec::{
    decode_new_peak, decode_new_transaction, parsed_new_peak, parsed_new_transaction, NewPeak,
    NewPeakModel, NewTransaction, NewTransactionModel,
};
use crate::protocol::{DecodeError, Message, MessageKind, MessageModel};

verus! {

/// A decoded message of a recognized kind, surfaced to the caller.
#[derive(Clone, Debug, PartialEq, Eq)]
pub enum Event {
    Peak(NewPeak),
    Transaction(NewTransaction),
}

pub enum EventModel {
    Peak(NewPeakModel),
    Transaction(NewTransactionModel),
}

impl View for Event {
    type V = EventModel;

    open spec fn view(&self) -> EventModel {
        match self {
            Event::Peak(p) => EventModel::Peak(p@),
            Event::Transaction(t) => EventModel::Transaction(t@),
        }
    }
}

/// What one envelope means to the dispatcher: surfaced, skipped, or a
/// failure of the whole run.
pub enum DispatchStep {
    Surface(EventModel),
    Skip,
    Fail,
}

/// The dispatcher's decision on one envelope: new-peak and
/// new-transaction announcements are decoded, everything else is skipped.
pub open spec fn spec_dispatch_step(m: MessageModel) -> DispatchStep {
    if m.kind == MessageKind::NewPeak {
        match parsed_new_peak(m.data) {
            Some(p) => DispatchStep::Surface(EventModel::Peak(p)),
            None => DispatchStep::Fail,
        }
    } else if m.kind == MessageKind::NewTransaction {
        match parsed_new_transaction(m.data) {
            Some(t) => DispatchStep::Surface(EventModel::Transaction(t)),
            None => DispatchStep::Fail,
        }
    } else {
        DispatchStep::Skip
    }
}

/// The dispatcher's result over a whole arrival sequence: the surfaced
/// events in arrival order, or nothing if any recognized payload is
/// malformed.
pub open spec fn spec_dispatch(ms: Seq<MessageModel>) -> Option<Seq<EventModel>>
    decreases ms.len(),
{
    if ms.len() == 0 {
        Some(Seq::empty())
    } else {
        match spec_dispatch_step(ms[0]) {
            DispatchStep::Fail => None,
            DispatchStep::Skip => spec_dispatch(ms.drop_first()),
            DispatchStep::Surface(e) => match spec_dispatch(ms.drop_first()) {
                None => None,
                Some(rest) => Some(seq![e] + rest),
            },
        }
    }
}

pub open spec fn spec_msgs_view(ms: Seq<Message>) -> Seq<MessageModel> {
    ms.map_values(|m: Message| m@)
}

pub open spec fn spec_events_view(es: Seq<Event>) -> Seq<EventModel> {
    es.map_values(|e: Event| e@)
}

/// Inspect one envelope: decode it if its kind is recognized, skip it
/// otherwise.
pub fn dispatch_message(m: &Message) -> (r: Result<Option<Event>, DecodeError>)
    ensures
        match spec_dispatch_step(m@) {
            DispatchStep::Surface(e) => r matches Ok(Some(ev)) && ev@ == e,
            DispatchStep::Skip => r matches Ok(None),
            DispatchStep::Fail => r matches Err(ee) && ee == DecodeError,
        },
{
    if m.kind == MessageKind::NewPeak {
        match decode_new_peak(&m.data) {
            Ok(p) => Ok(Some(Event::Peak(p))),
            Err(e) => Err(e),
        }
    } else if m.kind == MessageKind::NewTransaction {
        match decode_new_transaction(&m.data) {
            Ok(t) => Ok(Some(Event::Transaction(t))),
            Err(e) => Err(e),
        }
    } else {
        Ok(None)
    }
}

/// Consume a whole arrival sequence, surfacing the recognized messages in
/// arrival order and skipping the rest; the first malformed payload of a
/// recognized kind aborts the run.
pub fn dispatch_all(ms: &Vec<Message>) -> (r: Result<Vec<Event>, DecodeError>)
    ensures
        match r {
            Ok(es) => spec_dispatch(spec_msgs_view(ms@)) == Some(spec_events_view(es@)),
            Err(_) => spec_dispatch(spec_msgs_view(ms@)) is None,
        },
{
    let ghost vms = spec_msgs_view(ms@);
    let mut events: Vec<Event> = Vec::new();
    let mut i: usize = 0;
    proof {
        assert(vms.skip(0) =~= vms);
        if spec_dispatch(vms) is Some {
            let all = spec_dispatch(vms)->0;
            assert(spec_events_view(events@) + all =~= all);
        }
    }
    while i < ms.len()
        invariant
            i <= ms.len(),
            vms == spec_msgs_view(ms@),
            vms.len() == ms@.len(),
            match spec_dispatch(vms.skip(i as int)) {
                None => spec_dispatch(vms) is None,
                Some(rest) => spec_dispatch(vms) == Some(spec_events_view(events@) + rest),
            },
        decreases ms@.len() - i,
    {
        proof {
            assert(vms.skip(i as int)[0] == ms@[i as int]@);
            assert(vms.skip(i as int).drop_first() =~= vms.skip(i as int + 1));
        }
        let ghost old_events = events@;
        match dispatch_message(&ms[i]) {
            Ok(Some(e)) => {
                let ghost ev = e@;
                events.push(e);
                proof {
                    assert(spec_events_view(events@) =~= spec_events_view(old_events)
                        + seq![ev]);
                    if spec_dispatch(vms.skip(i as int + 1)) is Some {
                        let rest = spec_dispatch(vms.skip(i as int + 1))->0;
                        assert((spec_events_view(old_events) + (seq![ev] + rest)) =~= (
                        spec_events_view(events@) + rest));
                    }
                }
            },
            Ok(None) => {},
            Err(e) => {
                return Err(e);
            },
        }
        i = i + 1;
    }
    proof {
        assert(vms.skip(ms@.len() as int) =~= Seq::<MessageModel>::empty());
        assert(spec_events_view(events@) + Seq::<EventModel>::empty() =~= spec_events_view(
            events@,
        ));
    }
    Ok(events)
}

/// A run over two arrival sequences in order surfaces the events of the
/// first followed by the events of the second, provided neither aborts:
/// arrival order is preserved across the whole stream.
pub proof fn lemma_dispatch_append(a: Seq<MessageModel>, b: Seq<MessageModel>, ea: Seq<EventModel>, eb: Seq<EventModel>)
    requires
        spec_dispatch(a) == Some(ea),
        spec_dispatch(b) == Some(eb),
    ensures
        spec_dispatch(a + b) == Some(ea + eb),
    decreases a.len(),
{
    if a.len() == 0 {
        assert(a + b =~= b);
        assert(ea =~= Seq::<EventModel>::empty());
        assert(ea + eb =~= eb);
    } else {
        assert((a + b)[0] == a[0]);
        assert((a + b).drop_first() =~= a.drop_first() + b);
        match spec_dispatch_step(a[0]) {
            DispatchStep::Fail => {},
            DispatchStep::Skip => {
                lemma_dispatch_append(a.drop_first(), b, ea, eb);
            },
            DispatchStep::Surface(e) => {
                let rest = spec_dispatch(a.drop_first())->0;
                lemma_dispatch_append(a.drop_first(), b, rest, eb);
                assert(seq![e] + (rest + eb) =~= (seq![e] + rest) + eb);
            },
        }
    }
}

/// No envelope in the sequence is a recognized kind with a malformed
/// payload.
pub open spec fn spec_no_failures(ms: Seq<MessageModel>) -> bool {
    forall|i: int| 0 <= i < ms.len() ==> !(#[trigger] spec_dispatch_step(ms[i]) is Fail)
}

/// A run never aborts unless some recognized payload is malformed: over a
/// sequence free of such payloads the dispatcher succeeds, however the
/// recognized and unrecognized kinds are mixed.
pub proof fn lemma_dispatch_succeeds_without_failures(ms: Seq<MessageModel>)
    requires
        spec_no_failures(ms),
    ensures
        spec_dispatch(ms) is Some,
    decreases ms.len(),
{
    if ms.len() > 0 {
        assert(!(spec_dispatch_step(ms[0]) is Fail));
        assert forall|i: int| 0 <= i < ms.drop_first().len() implies !(#[trigger] spec_dispatch_step(
            ms.drop_first()[i],
        ) is Fail) by {
            assert(ms.drop_first()[i] == ms[i + 1]);
        }
        lemma_dispatch_succeeds_without_failures(ms.drop_first());
    }
}

/// A sequence with no recognized kinds is skipped entirely: the run
/// succeeds and surfaces nothing.
pub proof fn lemma_dispatch_skips_unrecognized(ms: Seq<MessageModel>)
    requires
        forall|i: int|
            0 <= i < ms.len() ==> #[trigger] ms[i].kind != MessageKind::NewPeak && ms[i].kind
                != MessageKind::NewTransaction,
    ensures
        spec_dispatch(ms) == Some(Seq::<EventModel>::empty()),
    decreases ms.len(),
{
    if ms.len() > 0 {
        lemma_dispatch_skips_unrecognized(ms.drop_first());
    }
}

} // verus!
