//! The single slot that holds the handle of the running browser subprocess.
//!
//! The slot is meant to live behind a lock. Every method takes it by `&mut`,
//! so whoever calls one holds the slot alone for the length of the call:
//! clearing the slot and deciding whether to notify happen in one step.

use vstd::prelude::*;
use crate::events::ProcessEvent;

verus! {

/// What made a caller look at the slot.
#[derive(Debug, Clone, Copy, PartialEq, Eq, Structural)]
pub enum Trigger {
    /// The monitor saw the subprocess end, with a status or with a wait error.
    Exit,
    /// Somebody asked for the subprocess to be terminated.
    Kill,
}

/// What the caller has to do after the slot was settled.
pub struct Settled<H> {
    /// The handle on which termination is to be requested, without waiting
    /// for it to take effect.
    pub terminate: Option<H>,
    /// The notification to send.
    pub notify: Option<ProcessEvent>,
}

/// The slot: empty, or holding the handle of the one running subprocess.
pub struct PuppeteerProcess<H> {
    child: Option<H>,
}

impl<H> View for PuppeteerProcess<H> {
    type V = Option<H>;

    closed spec fn view(&self) -> Option<H> {
        self.child
    }
}

/// The slot after a trigger: always empty.
pub open spec fn after_trigger<H>(slot: Option<H>, trigger: Trigger) -> Option<H> {
    None
}

/// What a trigger asks of the caller, given the slot it found. Only the
/// trigger that finds a handle acts: it sends `Enabled`, and a kill also
/// hands out the handle. A trigger that finds the slot empty does nothing.
pub open spec fn settled<H>(slot: Option<H>, trigger: Trigger) -> Settled<H> {
    match slot {
        Some(handle) => Settled {
            terminate: if trigger == Trigger::Kill {
                Some(handle)
            } else {
                None
            },
            notify: Some(ProcessEvent::Enabled),
        },
        None => Settled { terminate: None, notify: None },
    }
}

/// The notifications sent while a sequence of triggers reaches the slot one
/// after the other, in the order in which they got hold of it.
pub open spec fn notifications<H>(slot: Option<H>, triggers: Seq<Trigger>) -> Seq<ProcessEvent>
    decreases triggers.len(),
{
    if triggers.len() == 0 {
        Seq::empty()
    } else {
        let rest = notifications(after_trigger(slot, triggers[0]), triggers.drop_first());
        match settled(slot, triggers[0]).notify {
            Some(event) => seq![event] + rest,
            None => rest,
        }
    }
}

/// The slot after a sequence of triggers.
pub open spec fn after_triggers<H>(slot: Option<H>, triggers: Seq<Trigger>) -> Option<H>
    decreases triggers.len(),
{
    if triggers.len() == 0 {
        slot
    } else {
        after_triggers(after_trigger(slot, triggers[0]), triggers.drop_first())
    }
}

/// An empty slot stays empty and silent, whatever reaches it.
pub proof fn lemma_empty_slot_is_silent<H>(triggers: Seq<Trigger>)
    ensures
        notifications(None::<H>, triggers) == Seq::<ProcessEvent>::empty(),
        after_triggers(None::<H>, triggers) == None::<H>,
    decreases triggers.len(),
{
    if triggers.len() > 0 {
        lemma_empty_slot_is_silent::<H>(triggers.drop_first());
    }
}

/// One subprocess gives one `Enabled`: whether it ends by itself, is killed,
/// or both triggers race in either order and any number of times, the first
/// to get hold of the slot empties it and notifies, and every later one finds
/// it empty. The notifications are never two.
pub proof fn lemma_one_enabled_per_subprocess<H>(handle: H, triggers: Seq<Trigger>)
    requires
        triggers.len() > 0,
    ensures
        notifications(Some(handle), triggers) == seq![ProcessEvent::Enabled],
        after_triggers(Some(handle), triggers) == None::<H>,
{
    lemma_empty_slot_is_silent::<H>(triggers.drop_first());
    assert(notifications(Some(handle), triggers) =~= seq![ProcessEvent::Enabled]);
}

/// What may happen to the slot: a subprocess is registered, or a trigger
/// reaches it.
pub enum SlotEvent<H> {
    Install(H),
    Settle(Trigger),
}

/// What has happened to the slot, counted.
pub struct Tally<H> {
    /// The slot as it is now.
    pub slot: Option<H>,
    /// How many subprocesses were registered.
    pub installed: nat,
    /// How many handles were pushed out of the slot by a later subprocess.
    pub displaced: nat,
    /// How many times `Enabled` was sent.
    pub enabled: nat,
}

/// The tally after one more event.
pub open spec fn count<H>(tally: Tally<H>, event: SlotEvent<H>) -> Tally<H> {
    match event {
        SlotEvent::Install(handle) => Tally {
            slot: Some(handle),
            installed: tally.installed + 1,
            displaced: if tally.slot is Some {
                tally.displaced + 1
            } else {
                tally.displaced
            },
            enabled: tally.enabled,
        },
        SlotEvent::Settle(trigger) => Tally {
            slot: after_trigger(tally.slot, trigger),
            installed: tally.installed,
            displaced: tally.displaced,
            enabled: if settled(tally.slot, trigger).notify is Some {
                tally.enabled + 1
            } else {
                tally.enabled
            },
        },
    }
}

/// The tally after a sequence of events.
pub open spec fn count_all<H>(tally: Tally<H>, events: Seq<SlotEvent<H>>) -> Tally<H>
    decreases events.len(),
{
    if events.len() == 0 {
        tally
    } else {
        count_all(count(tally, events[0]), events.drop_first())
    }
}

/// The tally before anything has happened.
pub open spec fn nothing_yet<H>() -> Tally<H> {
    Tally { slot: None, installed: 0, displaced: 0, enabled: 0 }
}

/// The subprocesses of a tally are all accounted for, each once: its handle
/// is still in the slot, or it was displaced, or it was settled with one
/// `Enabled`.
pub open spec fn balanced<H>(tally: Tally<H>) -> bool {
    tally.installed == tally.enabled + tally.displaced + if tally.slot is Some {
        1nat
    } else {
        0nat
    }
}

proof fn lemma_balance_is_kept<H>(tally: Tally<H>, events: Seq<SlotEvent<H>>)
    requires
        balanced(tally),
    ensures
        balanced(count_all(tally, events)),
    decreases events.len(),
{
    if events.len() > 0 {
        lemma_balance_is_kept(count(tally, events[0]), events.drop_first());
    }
}

/// However registrations, exits and kills follow one another, every
/// registered subprocess is accounted for once. So there are never more
/// `Enabled` than subprocesses.
pub proof fn lemma_every_subprocess_is_accounted_for<H>(events: Seq<SlotEvent<H>>)
    ensures
        balanced(count_all(nothing_yet::<H>(), events)),
        count_all(nothing_yet::<H>(), events).enabled <= count_all(
            nothing_yet::<H>(),
            events,
        ).installed,
{
    lemma_balance_is_kept(nothing_yet::<H>(), events);
}

impl<H> PuppeteerProcess<H> {
    /// An empty slot.
    pub fn new() -> (slot: Self)
        ensures
            slot@ is None,
    {
        PuppeteerProcess { child: None }
    }

    /// Whether a subprocess is registered.
    pub fn is_running(&self) -> (running: bool)
        ensures
            running == (self@ is Some),
    {
        self.child.is_some()
    }

    /// Registers a freshly spawned subprocess. A handle that was still in the
    /// slot is handed back: it is no longer tracked, and the caller decides
    /// what becomes of it.
    pub fn install(&mut self, child: H) -> (displaced: Option<H>)
        ensures
            final(self)@ == Some(child),
            displaced == old(self)@,
    {
        let displaced = self.child.take();
        self.child = Some(child);
        displaced
    }

    /// Empties the slot for the given trigger and says what is left to do.
    pub fn settle(&mut self, trigger: Trigger) -> (todo: Settled<H>)
        ensures
            final(self)@ == after_trigger(old(self)@, trigger),
            todo == settled(old(self)@, trigger),
    {
        match self.child.take() {
            Some(handle) => {
                let terminate = match trigger {
                    Trigger::Kill => Some(handle),
                    Trigger::Exit => None,
                };
                Settled { terminate, notify: Some(ProcessEvent::Enabled) }
            },
            None => Settled { terminate: None, notify: None },
        }
    }

    /// The monitor's step once the subprocess has ended, with a status or
    /// with a wait error alike.
    pub fn exited(&mut self) -> (notify: Option<ProcessEvent>)
        ensures
            final(self)@ is None,
            notify == settled(old(self)@, Trigger::Exit).notify,
    {
        self.settle(Trigger::Exit).notify
    }

    /// Takes the handle out for termination.
    pub fn kill(&mut self) -> (todo: Settled<H>)
        ensures
            final(self)@ is None,
            todo == settled(old(self)@, Trigger::Kill),
    {
        self.settle(Trigger::Kill)
    }
}

} // verus!
