//! The publisher: hands each key event to every plugin that still listens.
use vstd::prelude::*;

use crate::kbd_event::KbdEvent;
use crate::Event;

verus! {

#[verifier::external_type_specification]
#[verifier::external_body]
#[verifier::reject_recursive_types(T)]
pub struct ExSender<T>(tokio::sync::mpsc::Sender<T>);

/// What became of an event offered to a plugin's channel.
#[derive(Debug, Clone, Copy, PartialEq, Eq, Structural)]
pub enum SendOutcome {
    /// The event is in the channel.
    Sent,
    /// The channel was full; the event was dropped for this plugin.
    Full,
    /// The plugin no longer listens.
    Closed,
}

/// The events offered to the channel through this sender, oldest first.
pub uninterp spec fn channel_offers(tx: tokio::sync::mpsc::Sender<Event>) -> Seq<Event>;

/// What became of each event offered through this sender, oldest first.
pub uninterp spec fn channel_outcomes(tx: tokio::sync::mpsc::Sender<Event>) -> Seq<SendOutcome>;

/// Calls `tokio::sync::mpsc::Sender::try_send`, which offers the event to
/// the channel without waiting, and tells which of its three outcomes came.
/// The offer and its outcome are recorded on the sender; which outcome comes
/// depends on the receiving plugin, so nothing more is stated of it.
#[verifier::external_body]
fn try_send(tx: &mut tokio::sync::mpsc::Sender<Event>, event: Event) -> (o: SendOutcome)
    ensures
        channel_offers(*final(tx)) == channel_offers(*old(tx)).push(event),
        channel_outcomes(*final(tx)) == channel_outcomes(*old(tx)).push(o),
{
    match tx.try_send(event) {
        Ok(()) => SendOutcome::Sent,
        Err(tokio::sync::mpsc::error::TrySendError::Full(_)) => SendOutcome::Full,
        Err(tokio::sync::mpsc::error::TrySendError::Closed(_)) => SendOutcome::Closed,
    }
}

/// The items whose outcome is not `Closed`, in their order.
pub open spec fn keep_open<T>(items: Seq<T>, outcomes: Seq<SendOutcome>) -> Seq<T>
    decreases items.len(),
{
    if items.len() == 0 || outcomes.len() == 0 {
        Seq::empty()
    } else if outcomes.last() == SendOutcome::Closed {
        keep_open(items.drop_last(), outcomes.drop_last())
    } else {
        keep_open(items.drop_last(), outcomes.drop_last()).push(items.last())
    }
}

/// Keeps the items whose outcome is not `Closed`, in their order.
pub fn retain_open<T>(items: Vec<T>, outcomes: &Vec<SendOutcome>) -> (kept: Vec<T>)
    requires
        items@.len() == outcomes@.len(),
    ensures
        kept@ == keep_open(items@, outcomes@),
{
    let n = outcomes.len();
    let ghost all = items@;
    let mut rest = items;
    let mut kept: Vec<T> = Vec::new();
    let mut i: usize = 0;
    while i < n
        invariant
            n == outcomes@.len(),
            n == all.len(),
            i <= n,
            rest@ == all.subrange(i as int, n as int),
            kept@ == keep_open(all.subrange(0, i as int), outcomes@.subrange(0, i as int)),
        decreases n - i,
    {
        let x = rest.remove(0);
        proof {
            let s = all.subrange(0, i + 1);
            let o = outcomes@.subrange(0, i + 1);
            assert(s.drop_last() =~= all.subrange(0, i as int));
            assert(o.drop_last() =~= outcomes@.subrange(0, i as int));
            assert(s.last() == x);
            assert(rest@ =~= all.subrange(i + 1, n as int));
        }
        if outcomes[i] != SendOutcome::Closed {
            kept.push(x);
        }
        i = i + 1;
    }
    assert(all.subrange(0, n as int) =~= all);
    assert(outcomes@.subrange(0, n as int) =~= outcomes@);
    kept
}

/// Whether `after` are the senders `before` once `event` was offered through
/// each of them, in order, with the outcomes `outcomes`.
pub open spec fn offered_to_each(
    before: Seq<tokio::sync::mpsc::Sender<Event>>,
    event: Event,
    after: Seq<tokio::sync::mpsc::Sender<Event>>,
    outcomes: Seq<SendOutcome>,
) -> bool {
    &&& after.len() == before.len()
    &&& outcomes.len() == before.len()
    &&& forall|i: int|
        0 <= i < before.len() ==> {
            &&& channel_offers(#[trigger] after[i]) == channel_offers(before[i]).push(event)
            &&& channel_outcomes(after[i]) == channel_outcomes(before[i]).push(outcomes[i])
        }
}

/// A publisher of keyboard events to the plugins.
pub trait KeyboardEventPublisher {
    /// Publishes the keyboard events until there are none or no plugin
    /// listens, then asks the plugins to finish.
    fn run(&mut self);
}

/// The publisher's side of the plugins' channels.
///
/// Beside the channels it keeps, as a ghost, the events it offered to the
/// plugins, oldest first.
pub struct DefaultKeyboardEventPublisher {
    plugin_event_txs: Vec<tokio::sync::mpsc::Sender<Event>>,
    offered: Ghost<Seq<Event>>,
}

impl DefaultKeyboardEventPublisher {
    pub fn new(plugin_event_txs: Vec<tokio::sync::mpsc::Sender<Event>>) -> (p: Self)
        ensures
            p.senders() == plugin_event_txs@,
            p.offered() == Seq::<Event>::empty(),
    {
        DefaultKeyboardEventPublisher { plugin_event_txs, offered: Ghost(Seq::empty()) }
    }

    /// The channels of the plugins that still listen, in their order.
    pub closed spec fn senders(&self) -> Seq<tokio::sync::mpsc::Sender<Event>> {
        self.plugin_event_txs@
    }

    /// The events offered to the plugins that listened, oldest first.
    pub closed spec fn offered(&self) -> Seq<Event> {
        self.offered@
    }

    /// Offers the event to every plugin, and forgets the plugins that no
    /// longer listen; the others keep their order.
    pub fn send_to_all(&mut self, event: Event)
        ensures
            exists|after: Seq<tokio::sync::mpsc::Sender<Event>>, outcomes: Seq<SendOutcome>|
                offered_to_each(old(self).senders(), event, after, outcomes) && final(self).senders()
                    == #[trigger] keep_open(after, outcomes),
            final(self).offered() == old(self).offered().push(event),
    {
        let mut rest: Vec<tokio::sync::mpsc::Sender<Event>> = Vec::new();
        std::mem::swap(&mut rest, &mut self.plugin_event_txs);
        let ghost before = rest@;
        let n = rest.len();
        let mut offered: Vec<tokio::sync::mpsc::Sender<Event>> = Vec::new();
        let mut outcomes: Vec<SendOutcome> = Vec::new();
        let mut i: usize = 0;
        while i < n
            invariant
                n == before.len(),
                before == old(self).plugin_event_txs@,
                i <= n,
                rest@ == before.subrange(i as int, n as int),
                offered_to_each(before.subrange(0, i as int), event, offered@, outcomes@),
            decreases n - i,
        {
            let mut tx = rest.remove(0);
            assert(tx == before[i as int]);
            assert(rest@ =~= before.subrange(i + 1, n as int));
            let outcome = try_send(&mut tx, event);
            let ghost done = offered@;
            offered.push(tx);
            outcomes.push(outcome);
            proof {
                let b = before.subrange(0, i + 1);
                assert forall|j: int| 0 <= j < b.len() implies {
                    &&& channel_offers(#[trigger] offered@[j]) == channel_offers(b[j]).push(event)
                    &&& channel_outcomes(offered@[j]) == channel_outcomes(b[j]).push(outcomes@[j])
                } by {
                    if j < i {
                        assert(offered@[j] == done[j]);
                        assert(b[j] == before.subrange(0, i as int)[j]);
                    }
                }
            }
            i = i + 1;
        }
        assert(before.subrange(0, n as int) =~= before);
        let ghost after = offered@;
        self.plugin_event_txs = retain_open(offered, &outcomes);
        assert(keep_open(after, outcomes@) == self.plugin_event_txs@);
        proof {
            self.offered@ = self.offered@.push(event);
        }
    }

    /// Offers a key event to every plugin, and tells whether any plugin still
    /// listens.
    pub fn publish(&mut self, kbd_event: KbdEvent) -> (any_left: bool)
        ensures
            exists|after: Seq<tokio::sync::mpsc::Sender<Event>>, outcomes: Seq<SendOutcome>|
                offered_to_each(old(self).senders(), Event::KeyEvent(kbd_event), after, outcomes)
                    && final(self).senders() == #[trigger] keep_open(after, outcomes),
            any_left == (final(self).senders().len() > 0),
            final(self).offered() == old(self).offered().push(Event::KeyEvent(kbd_event)),
    {
        self.send_to_all(Event::from(kbd_event));
        !self.plugin_event_txs.is_empty()
    }

    /// Whether no plugin listens any more.
    pub fn is_empty(&self) -> (b: bool)
        ensures
            b == (self.senders().len() == 0),
    {
        self.plugin_event_txs.is_empty()
    }
}

/// A plugin that no longer listens is never offered an event again: the
/// plugins kept are a part of those offered, in the same order.
pub proof fn lemma_keep_open_is_subsequence<T>(items: Seq<T>, outcomes: Seq<SendOutcome>)
    ensures
        keep_open(items, outcomes).len() <= items.len(),
        forall|k: int|
            0 <= k < keep_open(items, outcomes).len() ==> items.contains(
                #[trigger] keep_open(items, outcomes)[k],
            ),
    decreases items.len(),
{
    if items.len() == 0 || outcomes.len() == 0 {
    } else {
        let rest = keep_open(items.drop_last(), outcomes.drop_last());
        lemma_keep_open_is_subsequence(items.drop_last(), outcomes.drop_last());
        assert forall|k: int| 0 <= k < rest.len() implies items.contains(rest[k]) by {
            let j = choose|j: int| 0 <= j < items.drop_last().len() && items.drop_last()[j] == rest[k];
            assert(items[j] == rest[k]);
        }
        if outcomes.last() != SendOutcome::Closed {
            assert(items[items.len() - 1] == items.last());
        }
    }
}

} // verus!
