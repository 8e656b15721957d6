//! Keeping the wireless link up, and seeding the network stack.

use vstd::prelude::*;

verus! {

/// How long to wait before the next attempt to connect.
pub const RECONNECT_DELAY_MS: u64 = 5_000;

/// What the link does next.
#[derive(Clone, Copy, Debug, PartialEq, Eq, Structural)]
pub enum LinkAction {
    /// Try to connect.
    Connect,
    /// Wait until the connection is lost.
    AwaitDisconnect,
    /// Do nothing for this many milliseconds.
    Sleep(u64),
}

/// How an action ended.
#[derive(Clone, Copy, Debug, PartialEq, Eq, Structural)]
pub enum LinkEvent {
    /// The action succeeded or is over.
    Done,
    /// The action failed.
    Failed,
}

impl LinkAction {
    /// The pause before another attempt.
    pub open spec fn pause() -> LinkAction {
        LinkAction::Sleep(RECONNECT_DELAY_MS)
    }

    /// What follows an action. A connection that was made is kept until it is
    /// lost; a failed attempt and a lost connection are followed by a pause,
    /// and a pause by a new attempt.
    pub open spec fn next(self, event: LinkEvent) -> LinkAction {
        match self {
            LinkAction::Connect => if event == LinkEvent::Done {
                LinkAction::AwaitDisconnect
            } else {
                LinkAction::pause()
            },
            LinkAction::AwaitDisconnect => LinkAction::pause(),
            LinkAction::Sleep(_) => LinkAction::Connect,
        }
    }

    /// What is done after these events.
    pub open spec fn after(self, events: Seq<LinkEvent>) -> LinkAction
        decreases events.len(),
    {
        if events.len() == 0 {
            self
        } else {
            self.after(events.drop_last()).next(events.last())
        }
    }
}

/// The supervisor of the wireless link.
pub struct Link {
    action: LinkAction,
}

impl View for Link {
    type V = LinkAction;

    closed spec fn view(&self) -> LinkAction {
        self.action
    }
}

impl Link {
    /// A link that is about to connect for the first time.
    pub fn new() -> (link: Link)
        ensures
            link@ == LinkAction::Connect,
    {
        Link { action: LinkAction::Connect }
    }

    /// What to do now.
    pub fn action(&self) -> (action: LinkAction)
        ensures
            action == self@,
    {
        self.action
    }

    /// Goes on once the action has ended.
    pub fn resume(&mut self, event: LinkEvent)
        ensures
            final(self)@ == old(self)@.next(event),
            final(self)@ == LinkAction::Connect <==> old(self)@ is Sleep,
            final(self)@ == LinkAction::AwaitDisconnect <==> old(self)@ == LinkAction::Connect
                && event == LinkEvent::Done,
            final(self)@ is Sleep ==> final(self)@ == LinkAction::Sleep(5_000),
    {
        self.action = match self.action {
            LinkAction::Connect => match event {
                LinkEvent::Done => LinkAction::AwaitDisconnect,
                LinkEvent::Failed => LinkAction::Sleep(RECONNECT_DELAY_MS),
            },
            LinkAction::AwaitDisconnect => LinkAction::Sleep(RECONNECT_DELAY_MS),
            LinkAction::Sleep(_) => LinkAction::Connect,
        };
    }
}

/// A lost connection is followed by a pause of five seconds, however the wait for
/// the loss ended, and a pause by a new attempt, however the pause ended.
pub proof fn law_lost_link_is_brought_up_again(lost: LinkEvent, paused: LinkEvent)
    ensures
        LinkAction::AwaitDisconnect.next(lost) == LinkAction::Sleep(5_000),
        LinkAction::AwaitDisconnect.next(lost).next(paused) == LinkAction::Connect,
{
}

/// A pause, however long, ends in an attempt to connect.
pub proof fn law_pause_ends_in_an_attempt(millis: u64, event: LinkEvent)
    ensures
        LinkAction::Sleep(millis).next(event) == LinkAction::Connect,
{
}

/// An attempt that succeeds is followed by waiting for the loss of the connection,
/// and one that fails by a pause of five seconds.
pub proof fn law_outcome_of_an_attempt(event: LinkEvent)
    ensures
        LinkAction::Connect.next(event) == LinkAction::AwaitDisconnect <==> event
            == LinkEvent::Done,
        LinkAction::Connect.next(event) == LinkAction::Sleep(5_000) <==> event
            == LinkEvent::Failed,
{
}

/// The link never stops trying: whatever it is doing and however that and what
/// follows ends, it makes an attempt to connect within three events.
pub proof fn law_another_attempt_always_comes(
    action: LinkAction,
    first: LinkEvent,
    second: LinkEvent,
    third: LinkEvent,
)
    ensures
        action.next(first) == LinkAction::Connect || action.next(first).next(second)
            == LinkAction::Connect || action.next(first).next(second).next(third)
            == LinkAction::Connect,
{
}

/// Every attempt to connect but the first comes right after a full pause.
pub proof fn law_attempts_are_spaced(events: Seq<LinkEvent>)
    requires
        events.len() > 0,
        LinkAction::Connect.after(events) == LinkAction::Connect,
    ensures
        LinkAction::Connect.after(events.drop_last()) == LinkAction::Sleep(5_000),
{
    lemma_only_full_pauses(events.drop_last());
}

proof fn lemma_only_full_pauses(events: Seq<LinkEvent>)
    ensures
        LinkAction::Connect.after(events) matches LinkAction::Sleep(millis) ==> millis
            == RECONNECT_DELAY_MS,
    decreases events.len(),
{
    if events.len() > 0 {
        lemma_only_full_pauses(events.drop_last());
    }
}

/// The weight of the upper half of a seed.
pub open spec fn upper_weight() -> int {
    0x1_0000_0000
}

/// The seed of the network stack, made of two random words.
pub fn net_seed(low: u32, high: u32) -> (seed: u64)
    ensures
        seed == low + high * upper_weight(),
        seed % 0x1_0000_0000 == low,
        seed / 0x1_0000_0000 == high,
{
    let lower: u64 = low as u64;
    let upper: u64 = high as u64;
    assert(lower | (upper << 32) == lower + upper * 0x1_0000_0000) by (bit_vector)
        requires
            lower <= 0xffff_ffff,
            upper <= 0xffff_ffff,
    ;
    lower | (upper << 32)
}

/// No randomness is lost: two pairs of words that give the same seed are equal.
pub proof fn law_seed_is_injective(low1: u32, high1: u32, low2: u32, high2: u32)
    requires
        low1 + high1 * upper_weight() == low2 + high2 * upper_weight(),
    ensures
        low1 == low2,
        high1 == high2,
{
}

/// Both words can be read off the seed.
pub proof fn law_seed_holds_both_words(low: u32, high: u32, seed: u64)
    requires
        seed == low + high * upper_weight(),
    ensures
        seed % 0x1_0000_0000 == low,
        seed / 0x1_0000_0000 == high,
{
}

} // verus!
