//! `cosmic-toplevel-info` with `ext-foreign-toplevel-list`: COSMIC.
use super::toplevels::{
    focused, is_silent, lemma_listed_windows, lemma_tells_the_focus, lists, noted, notified,
    others_stay, tells_the_focus, titled, unknown, State, Toplevel,
};
use super::wire::{holds_word, words};
use vstd::prelude::*;

verus! {

/// The number of the state "activated" in a list of states.
pub const STATE_ACTIVATED: u32 = 2;

/// What the compositor tells. Windows go by the number of their protocol object
/// on the toplevel list.
pub enum Event {
    /// There is a window. Its states have to be asked for separately.
    Toplevel { id: u32 },
    /// Its title.
    Title { id: u32, title: String },
    /// Its states, as an array of numbers.
    State { id: u32, states: Vec<u8> },
    /// It is gone.
    Closed { id: u32 },
    /// Something of no interest.
    Other,
}

/// What an event does. Each counts at once; the states of a window that is not
/// on the list are dropped.
pub open spec fn responds(
    before: State,
    event: Event,
    little_endian: bool,
    sent: Option<Option<String>>,
    after: State,
) -> bool {
    let windows = before.windows@;
    match event {
        Event::Toplevel { id } => noted(before, windows.insert(id, unknown()), sent, after),
        Event::Title { id, title } => notified(before, titled(windows, id, title), sent, after),
        Event::State { id, states } => notified(
            before,
            if windows.contains_key(id) {
                focused(windows, id, words(states@, little_endian).contains(STATE_ACTIVATED))
            } else {
                windows
            },
            sent,
            after,
        ),
        Event::Closed { id } => notified(before, windows.remove(id), sent, after),
        Event::Other => noted(before, windows, sent, after),
    }
}

/// Takes note of an event: what is to be sent to the matcher, if anything.
pub fn event(state: &mut State, told: Event, little_endian: bool) -> (sent: Option<Option<String>>)
    ensures
        responds(*old(state), told, little_endian, sent, *final(state)),
{
    match told {
        Event::Toplevel { id } => {
            state.announce(id);
            None
        },
        Event::Title { id, title } => {
            state.set_title(id, title);
            state.maybe_notify()
        },
        Event::State { id, states } => {
            if state.is_known(id) {
                state.set_activated(
                    id,
                    holds_word(states.as_slice(), STATE_ACTIVATED, little_endian),
                );
            }
            state.maybe_notify()
        },
        Event::Closed { id } => {
            state.close(id);
            state.maybe_notify()
        },
        Event::Other => None,
    }
}

/// Begins to watch, provided the compositor offers the protocol.
pub fn watch(bound: bool) -> (state: Option<State>)
    ensures
        state is Some <==> bound,
        state matches Some(s) ==> s.windows@ == Map::<u32, Toplevel>::empty() && s.watching
            && s.last_sent is None,
{
    if bound {
        Some(State::new(true))
    } else {
        None
    }
}

/// The titles of the collected windows, or `None` where the compositor does not
/// offer the protocol or stopped answering.
pub fn list_window_titles(collected: Option<&State>) -> (titles: Option<Vec<String>>)
    ensures
        match collected {
            Some(state) => titles matches Some(t) && lists(state.windows@, t@),
            None => titles is None,
        },
{
    match collected {
        Some(state) => Some(state.titles()),
        None => None,
    }
}

/// A window on the list has the focus exactly if the number 2 is among its states,
/// whatever else is, and the focus is told at once. The states of a window that is
/// not on the list put none there.
pub proof fn law_activated_state_gives_the_focus(
    state: &mut State,
    id: u32,
    states: Vec<u8>,
    little_endian: bool,
    sent: Option<Option<String>>,
)
    requires
        call_ensures(event, (state, Event::State { id, states }, little_endian), sent),
    ensures
        final(state).windows@.contains_key(id) <==> old(state).windows@.contains_key(id),
        old(state).windows@.contains_key(id) ==> (final(state).windows@[id].activated <==> exists|
            i: int,
        |
            0 <= i < words(states@, little_endian).len() && #[trigger] words(
                states@,
                little_endian,
            )[i] == 2),
        old(state).windows@.contains_key(id) ==> final(state).windows@[id].title == old(state).windows@[id].title,
        others_stay(*old(state), *final(state), id),
        tells_the_focus(*old(state), sent, *final(state)),
{
    lemma_tells_the_focus(*old(state), final(state).windows@, sent, *final(state));
}

/// Windows come without title and focus, get titles, and go; a title and a window
/// that goes tell the focus, a new window and what is of no interest tell nothing.
pub proof fn law_windows_come_and_go(
    state: &mut State,
    told: Event,
    little_endian: bool,
    sent: Option<Option<String>>,
)
    requires
        call_ensures(event, (state, told, little_endian), sent),
    ensures
        told matches Event::Toplevel { id } ==> final(state).windows@.contains_key(id) && final(state).windows@[id].title is None && !final(state).windows@[id].activated && others_stay(
            *old(state),
            *final(state),
            id,
        ) && is_silent(*old(state), sent, *final(state)),
        told matches Event::Title { id, title } ==> final(state).windows@.contains_key(id) && final(state).windows@[id].title == Some(title) && final(state).windows@[id].activated == (old(state).windows@.contains_key(id) && old(state).windows@[id].activated) && others_stay(
            *old(state),
            *final(state),
            id,
        ) && tells_the_focus(*old(state), sent, *final(state)),
        told matches Event::Closed { id } ==> !final(state).windows@.contains_key(id)
            && others_stay(*old(state), *final(state), id) && tells_the_focus(
            *old(state),
            sent,
            *final(state),
        ),
        told is Other ==> final(state).windows@ == old(state).windows@ && is_silent(
            *old(state),
            sent,
            *final(state),
        ),
{
    match told {
        Event::Title { .. } | Event::Closed { .. } => {
            lemma_tells_the_focus(*old(state), final(state).windows@, sent, *final(state));
        },
        _ => {},
    }
}

/// Watching begins exactly if the compositor offers the protocol, with no window and
/// nothing told; what is listed afterwards are the windows collected, and nothing
/// without an answer.
pub proof fn law_watching_and_listing(
    offered: Option<State>,
    missing: Option<State>,
    id: u32,
    collected: &State,
    titles: Option<Vec<String>>,
    unanswered: Option<Vec<String>>,
    i: int,
)
    requires
        call_ensures(watch, (true,), offered),
        call_ensures(watch, (false,), missing),
        call_ensures(list_window_titles, (Some(collected),), titles),
        call_ensures(list_window_titles, (None,), unanswered),
    ensures
        offered matches Some(s) && s.watching && s.last_sent is None && !s.windows@.contains_key(id),
        missing is None,
        titles is Some,
        unanswered is None,
        collected.windows@.contains_key(id) && (collected.windows@[id].title matches Some(t)
            && t@.len() > 0) ==> titles->0@.contains(collected.windows@[id].title->0),
        0 <= i < titles->0@.len() ==> titles->0@[i]@.len() > 0 && exists|other: u32| #[trigger]
            collected.windows@.contains_key(other) && collected.windows@[other].title == Some(
                titles->0@[i],
            ),
{
    lemma_listed_windows(collected.windows@, titles->0@, id, i);
}

} // verus!
