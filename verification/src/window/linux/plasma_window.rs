//! `plasma-window-management`: KWin.
use super::toplevels::{
    focused, is_silent, lemma_listed_windows, lemma_tells_the_focus, lists, noted, notified,
    others_stay, tells_the_focus, titled, unknown, State, Toplevel,
};
use vstd::prelude::*;

verus! {

/// The flag that marks the focused window.
pub const STATE_ACTIVE: u32 = 0x1;

/// What the compositor tells. Windows go by the number of their protocol object.
pub enum Event {
    /// There is a window, announced by number or by uuid.
    Window { id: u32 },
    /// Its title.
    TitleChanged { id: u32, title: String },
    /// Its state flags.
    StateChanged { id: u32, flags: u32 },
    /// It is gone.
    Unmapped { id: u32 },
    /// Something of no interest.
    Other,
}

/// What an event does. Each counts at once.
pub open spec fn responds(
    before: State,
    event: Event,
    sent: Option<Option<String>>,
    after: State,
) -> bool {
    let windows = before.windows@;
    match event {
        Event::Window { id } => noted(before, windows.insert(id, unknown()), sent, after),
        Event::TitleChanged { id, title } => notified(
            before,
            titled(windows, id, title),
            sent,
            after,
        ),
        Event::StateChanged { id, flags } => notified(
            before,
            focused(windows, id, flags & STATE_ACTIVE != 0),
            sent,
            after,
        ),
        Event::Unmapped { id } => notified(before, windows.remove(id), sent, after),
        Event::Other => noted(before, windows, sent, after),
    }
}

/// Takes note of an event: what is to be sent to the matcher, if anything.
pub fn event(state: &mut State, told: Event) -> (sent: Option<Option<String>>)
    ensures
        responds(*old(state), told, sent, *final(state)),
{
    match told {
        Event::Window { id } => {
            state.announce(id);
            None
        },
        Event::TitleChanged { id, title } => {
            state.set_title(id, title);
            state.maybe_notify()
        },
        Event::StateChanged { id, flags } => {
            state.set_activated(id, flags & STATE_ACTIVE != 0);
            state.maybe_notify()
        },
        Event::Unmapped { id } => {
            state.close(id);
            state.maybe_notify()
        },
        Event::Other => None,
    }
}

/// Begins to watch, provided the compositor offers the protocol.
pub fn watch(bound: bool) -> (state: Option<State>)
    ensures
        state is Some <==> bound,
        state matches Some(s) ==> s.windows@ == Map::<u32, Toplevel>::empty() && s.watching
            && s.last_sent is None,
{
    if bound {
        Some(State::new(true))
    } else {
        None
    }
}

/// The titles of the collected windows, or `None` where the compositor does not
/// offer the protocol or stopped answering.
pub fn list_window_titles(collected: Option<&State>) -> (titles: Option<Vec<String>>)
    ensures
        match collected {
            Some(state) => titles matches Some(t) && lists(state.windows@, t@),
            None => titles is None,
        },
{
    match collected {
        Some(state) => Some(state.titles()),
        None => None,
    }
}

/// A window has the focus exactly if its flags are odd, whatever other flags are set,
/// and the focus is told at once.
pub proof fn law_active_flag_gives_the_focus(
    state: &mut State,
    id: u32,
    flags: u32,
    sent: Option<Option<String>>,
)
    requires
        call_ensures(event, (state, Event::StateChanged { id, flags }), sent),
    ensures
        final(state).windows@.contains_key(id),
        final(state).windows@[id].activated <==> flags % 2 == 1,
        old(state).windows@.contains_key(id) ==> final(state).windows@[id].title == old(state).windows@[id].title,
        !old(state).windows@.contains_key(id) ==> final(state).windows@[id].title is None,
        others_stay(*old(state), *final(state), id),
        tells_the_focus(*old(state), sent, *final(state)),
{
    assert((flags & 1 != 0) == (flags % 2 == 1)) by (bit_vector);
    lemma_tells_the_focus(*old(state), final(state).windows@, sent, *final(state));
}

/// Windows come without title and focus, get titles, and go; a title and a window
/// that goes tell the focus, a new window and what is of no interest tell nothing.
pub proof fn law_windows_come_and_go(
    state: &mut State,
    told: Event,
    sent: Option<Option<String>>,
)
    requires
        call_ensures(event, (state, told), sent),
    ensures
        told matches Event::Window { id } ==> final(state).windows@.contains_key(id) && final(state).windows@[id].title is None && !final(state).windows@[id].activated && others_stay(
            *old(state),
            *final(state),
            id,
        ) && is_silent(*old(state), sent, *final(state)),
        told matches Event::TitleChanged { id, title } ==> final(state).windows@.contains_key(id)
            && final(state).windows@[id].title == Some(title) && final(state).windows@[id].activated
            == (old(state).windows@.contains_key(id) && old(state).windows@[id].activated)
            && others_stay(*old(state), *final(state), id) && tells_the_focus(
            *old(state),
            sent,
            *final(state),
        ),
        told matches Event::Unmapped { id } ==> !final(state).windows@.contains_key(id)
            && others_stay(*old(state), *final(state), id) && tells_the_focus(
            *old(state),
            sent,
            *final(state),
        ),
        told is Other ==> final(state).windows@ == old(state).windows@ && is_silent(
            *old(state),
            sent,
            *final(state),
        ),
{
    match told {
        Event::TitleChanged { .. } | Event::Unmapped { .. } => {
            lemma_tells_the_focus(*old(state), final(state).windows@, sent, *final(state));
        },
        _ => {},
    }
}

/// Watching begins exactly if the compositor offers the protocol, with no window and
/// nothing told; what is listed afterwards are the windows collected, and nothing
/// without an answer.
pub proof fn law_watching_and_listing(
    offered: Option<State>,
    missing: Option<State>,
    id: u32,
    collected: &State,
    titles: Option<Vec<String>>,
    unanswered: Option<Vec<String>>,
    i: int,
)
    requires
        call_ensures(watch, (true,), offered),
        call_ensures(watch, (false,), missing),
        call_ensures(list_window_titles, (Some(collected),), titles),
        call_ensures(list_window_titles, (None,), unanswered),
    ensures
        offered matches Some(s) && s.watching && s.last_sent is None && !s.windows@.contains_key(id),
        missing is None,
        titles is Some,
        unanswered is None,
        collected.windows@.contains_key(id) && (collected.windows@[id].title matches Some(t)
            && t@.len() > 0) ==> titles->0@.contains(collected.windows@[id].title->0),
        0 <= i < titles->0@.len() ==> titles->0@[i]@.len() > 0 && exists|other: u32| #[trigger]
            collected.windows@.contains_key(other) && collected.windows@[other].title == Some(
                titles->0@[i],
            ),
{
    lemma_listed_windows(collected.windows@, titles->0@, id, i);
}

} // verus!
