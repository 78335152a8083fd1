//! The windows that a Wayland compositor has told about.
use crate::text::{chars_of, copy_text, same_text};
use std::collections::HashMap;
use vstd::prelude::*;

verus! {

broadcast use vstd::std_specs::hash::group_hash_axioms;

/// What is known of a window.
pub struct Toplevel {
    pub title: Option<String>,
    pub activated: bool,
}

/// The windows by the number of their protocol object, and what was last told
/// about the focus.
pub struct State {
    pub windows: HashMap<u32, Toplevel>,
    /// Whether focus changes are reported, or the windows only collected.
    pub watching: bool,
    pub last_sent: Option<String>,
}

/// A window of which nothing is known yet.
pub open spec fn unknown() -> Toplevel {
    Toplevel { title: None, activated: false }
}

fn unknown_toplevel() -> (window: Toplevel)
    ensures
        window == unknown(),
{
    Toplevel { title: None, activated: false }
}

/// What is known of a window, which may not have been announced.
pub open spec fn known(windows: Map<u32, Toplevel>, id: u32) -> Toplevel {
    if windows.contains_key(id) {
        windows[id]
    } else {
        unknown()
    }
}

/// Whether `title` can be the title of the focused window: that of an activated
/// window, or none if no window is activated.
pub open spec fn is_active_title(windows: Map<u32, Toplevel>, title: Option<String>) -> bool {
    if exists|id: u32| #[trigger] windows.contains_key(id) && windows[id].activated {
        exists|id: u32| #[trigger]
            windows.contains_key(id) && windows[id].activated && windows[id].title == title
    } else {
        title is None
    }
}

/// What comes of telling that the focused title is `current`: it is sent if it
/// differs from what was sent last, and only while watching.
pub open spec fn told(
    before: State,
    current: Option<String>,
    sent: Option<Option<String>>,
    after: State,
) -> bool {
    &&& after.watching == before.watching
    &&& if before.watching && chars_of(current) != chars_of(before.last_sent) {
        sent == Some(current) && after.last_sent == current
    } else {
        sent is None && after.last_sent == before.last_sent
    }
}

/// The windows are now `windows`, and the focus among them was told.
pub open spec fn notified(
    before: State,
    windows: Map<u32, Toplevel>,
    sent: Option<Option<String>>,
    after: State,
) -> bool {
    &&& after.windows@ == windows
    &&& exists|current: Option<String>| #[trigger]
        is_active_title(windows, current) && told(before, current, sent, after)
}

/// The windows are now `windows`, and nothing was told.
pub open spec fn noted(
    before: State,
    windows: Map<u32, Toplevel>,
    sent: Option<Option<String>>,
    after: State,
) -> bool {
    &&& after.windows@ == windows
    &&& sent is None
    &&& after.watching == before.watching
    &&& after.last_sent == before.last_sent
}

/// The windows after one got a title.
pub open spec fn titled(windows: Map<u32, Toplevel>, id: u32, title: String) -> Map<u32, Toplevel> {
    windows.insert(id, Toplevel { title: Some(title), ..known(windows, id) })
}

/// The windows after one got or lost the focus.
pub open spec fn focused(windows: Map<u32, Toplevel>, id: u32, activated: bool) -> Map<
    u32,
    Toplevel,
> {
    windows.insert(id, Toplevel { activated, ..known(windows, id) })
}

/// Non-empty titles, in order.
pub open spec fn present(titles: Seq<Option<String>>) -> Seq<String>
    decreases titles.len(),
{
    if titles.len() == 0 {
        seq![]
    } else {
        let before = present(titles.drop_last());
        match titles.last() {
            Some(t) => if t@.len() > 0 {
                before.push(t)
            } else {
                before
            },
            None => before,
        }
    }
}

/// Keeps the titles that are there and not empty.
pub fn present_titles(titles: &Vec<Option<String>>) -> (kept: Vec<String>)
    ensures
        kept@ == present(titles@),
{
    let mut kept: Vec<String> = Vec::new();
    let mut i: usize = 0;
    while i < titles.len()
        invariant
            i <= titles@.len(),
            kept@ == present(titles@.take(i as int)),
        decreases titles@.len() - i,
    {
        proof {
            assert(titles@.take(i + 1).drop_last() =~= titles@.take(i as int));
        }
        match &titles[i] {
            Some(t) => {
                if !t.as_str().is_empty() {
                    kept.push(t.clone());
                }
            },
            None => {},
        }
        i = i + 1;
    }
    assert(titles@.take(i as int) =~= titles@);
    kept
}

/// The titles of the windows, visited in the order `ids`.
pub open spec fn titles_along(windows: Map<u32, Toplevel>, ids: Seq<u32>) -> Seq<Option<String>> {
    ids.map_values(|id: u32| windows[id].title)
}

/// Whether `ids` visits every window once.
pub open spec fn visits_all(windows: Map<u32, Toplevel>, ids: Seq<u32>) -> bool {
    &&& ids.no_duplicates()
    &&& forall|id: u32| #[trigger] ids.contains(id) <==> windows.contains_key(id)
}

/// Whether `titles` are the non-empty titles of the windows, visited in some
/// order.
pub open spec fn lists(windows: Map<u32, Toplevel>, titles: Seq<String>) -> bool {
    exists|ids: Seq<u32>| #[trigger]
        visits_all(windows, ids) && titles == present(titles_along(windows, ids))
}

impl State {
    /// Starts out with no windows.
    pub fn new(watching: bool) -> (state: Self)
        ensures
            state.windows@ == Map::<u32, Toplevel>::empty(),
            state.watching == watching,
            state.last_sent is None,
    {
        State { windows: HashMap::new(), watching, last_sent: None }
    }

    /// A window was announced.
    pub fn announce(&mut self, id: u32)
        ensures
            *final(self) == (State { windows: final(self).windows, ..*old(self) }),
            final(self).windows@ == old(self).windows@.insert(id, unknown()),
    {
        self.windows.insert(id, unknown_toplevel());
    }

    /// A window got a title.
    pub fn set_title(&mut self, id: u32, title: String)
        ensures
            *final(self) == (State { windows: final(self).windows, ..*old(self) }),
            final(self).windows@ == titled(old(self).windows@, id, title),
    {
        let window = self.windows.entry(id).or_insert(unknown_toplevel());
        window.title = Some(title);
    }

    /// A window got or lost the focus.
    pub fn set_activated(&mut self, id: u32, activated: bool)
        ensures
            *final(self) == (State { windows: final(self).windows, ..*old(self) }),
            final(self).windows@ == focused(old(self).windows@, id, activated),
    {
        let window = self.windows.entry(id).or_insert(unknown_toplevel());
        window.activated = activated;
    }

    /// A window is gone.
    pub fn close(&mut self, id: u32)
        ensures
            *final(self) == (State { windows: final(self).windows, ..*old(self) }),
            final(self).windows@ == old(self).windows@.remove(id),
    {
        self.windows.remove(&id);
    }

    /// Whether a window is on the list.
    pub fn is_known(&self, id: u32) -> (listed: bool)
        ensures
            listed == self.windows@.contains_key(id),
    {
        self.windows.contains_key(&id)
    }

    /// The title of the focused window. Were several windows activated at once,
    /// it would be that of any of them.
    pub fn active_title(&self) -> (title: Option<String>)
        ensures
            is_active_title(self.windows@, title),
    {
        let ghost windows = self.windows@;
        for entry in walk: self.windows.iter()
            invariant
                windows == self.windows@,
                forall|i: int|
                    0 <= i < walk.index() ==> !(#[trigger] walk.seq()[i]).1.activated,
        {
            let (id, window) = entry;
            if window.activated {
                assert(windows.contains_key(*id) && windows[*id] == *window);
                return copy_text(&window.title);
            }
        }
        None
    }

    /// Tells that the focused title is `current`: what is to be sent, if it
    /// differs from what was sent last.
    pub fn tell(&mut self, current: Option<String>) -> (sent: Option<Option<String>>)
        ensures
            told(*old(self), current, sent, *final(self)),
            final(self).windows == old(self).windows,
    {
        if self.watching && !same_text(&current, &self.last_sent) {
            self.last_sent = copy_text(&current);
            Some(current)
        } else {
            None
        }
    }

    /// Looks at the focus: what is to be sent, if it changed.
    pub fn maybe_notify(&mut self) -> (sent: Option<Option<String>>)
        ensures
            notified(*old(self), old(self).windows@, sent, *final(self)),
    {
        let current = self.active_title();
        self.tell(current)
    }

    /// The titles of all windows that have one, in no particular order.
    pub fn titles(&self) -> (titles: Vec<String>)
        ensures
            lists(self.windows@, titles@),
    {
        let ghost windows = self.windows@;
        let mut collected: Vec<Option<String>> = Vec::new();
        let ghost mut ids: Seq<u32> = seq![];
        for entry in walk: self.windows.iter()
            invariant
                windows == self.windows@,
                collected@.len() == walk.index(),
                ids.len() == walk.index(),
                walk.seq().no_duplicates(),
                forall|i: int|
                    0 <= i < walk.seq().len() ==> windows.contains_key(
                        *(#[trigger] walk.seq()[i]).0,
                    ) && windows[*walk.seq()[i].0] == *walk.seq()[i].1,
                forall|id: u32| #[trigger]
                    windows.contains_key(id) ==> walk.seq().contains((&id, &windows[id])),
                forall|i: int|
                    #![trigger ids[i]]
                    #![trigger walk.seq()[i]]
                    0 <= i < walk.index() ==> ids[i] == *walk.seq()[i].0,
                forall|i: int|
                    0 <= i < walk.index() ==> #[trigger] collected@[i] == walk.seq()[i].1.title,
                walk.index() == walk.seq().len() ==> visits_all(windows, ids),
        {
            let (id, window) = entry;
            collected.push(copy_text(&window.title));
            proof {
                ids = ids.push(*id);
            }
            assert(forall|i: int|
                #![trigger walk.seq()[i]]
                0 <= i < ids.len() ==> ids[i] == *walk.seq()[i].0);
            assert forall|i: int, j: int|
                0 <= i < ids.len() && 0 <= j < ids.len() && i != j implies ids[i] != ids[j] by {
                assert(walk.seq()[i] != walk.seq()[j]);
            }
            assert(ids.no_duplicates());
            assert forall|id: u32|
                ids.len() == walk.seq().len() && #[trigger] windows.contains_key(
                    id,
                ) implies ids.contains(id) by {
                assert(walk.seq().contains((&id, &windows[id])));
            }
        }
        assert(collected@ =~= titles_along(windows, ids));
        present_titles(&collected)
    }
}

/// News is sent only when it is news: what is sent differs from what was sent
/// before, and becomes what was sent last.
pub proof fn law_only_changes_are_sent(
    before: State,
    windows: Map<u32, Toplevel>,
    sent: Option<Option<String>>,
    after: State,
)
    requires
        notified(before, windows, sent, after),
    ensures
        sent matches Some(title) ==> before.watching && chars_of(title) != chars_of(
            before.last_sent,
        ) && after.last_sent == title && is_active_title(windows, title),
        sent is None ==> after.last_sent == before.last_sent,
{
}

/// While watching, what was sent last is always the title of a focused window
/// as soon as the focus has been looked at.
pub proof fn law_last_sent_is_up_to_date(
    before: State,
    windows: Map<u32, Toplevel>,
    sent: Option<Option<String>>,
    after: State,
)
    requires
        before.watching,
        notified(before, windows, sent, after),
    ensures
        exists|current: Option<String>| #[trigger]
            is_active_title(windows, current) && chars_of(current) == chars_of(after.last_sent),
{
}

/// With one activated window, the focused title is its title.
pub proof fn law_the_activated_window_has_the_focus(
    windows: Map<u32, Toplevel>,
    id: u32,
    title: Option<String>,
)
    requires
        windows.contains_key(id) && windows[id].activated,
        forall|other: u32| #[trigger]
            windows.contains_key(other) && windows[other].activated ==> other == id,
        is_active_title(windows, title),
    ensures
        title == windows[id].title,
{
}

/// Closing the only activated window leaves no focused title.
pub proof fn law_closed_window_loses_the_focus(
    windows: Map<u32, Toplevel>,
    id: u32,
    title: Option<String>,
)
    requires
        forall|other: u32| #[trigger]
            windows.contains_key(other) && windows[other].activated ==> other == id,
        is_active_title(windows.remove(id), title),
    ensures
        title is None,
{
    assert(forall|other: u32| #[trigger]
        windows.remove(id).contains_key(other) ==> windows.contains_key(other));
}

/// No empty title is ever listed, and each listed one is a window's title.
pub proof fn law_listed_titles_are_window_titles(titles: Seq<Option<String>>, i: int)
    requires
        0 <= i < present(titles).len(),
    ensures
        present(titles)[i]@.len() > 0,
        titles.contains(Some(present(titles)[i])),
    decreases titles.len(),
{
    if titles.len() > 0 {
        let shorter = titles.drop_last();
        if i < present(shorter).len() {
            law_listed_titles_are_window_titles(shorter, i);
            let j = choose|j: int|
                0 <= j < shorter.len() && shorter[j] == Some(present(titles)[i]);
            assert(titles[j] == Some(present(titles)[i]));
        } else {
            assert(titles[titles.len() - 1] == Some(present(titles)[i]));
        }
    }
}

/// Every non-empty title is listed.
pub proof fn law_every_title_is_listed(titles: Seq<Option<String>>, j: int)
    requires
        0 <= j < titles.len(),
        titles[j] matches Some(t) && t@.len() > 0,
    ensures
        present(titles).contains(titles[j]->0),
    decreases titles.len(),
{
    let shorter = titles.drop_last();
    let t = titles[j]->0;
    if j < shorter.len() {
        law_every_title_is_listed(shorter, j);
        let i = choose|i: int| 0 <= i < present(shorter).len() && present(shorter)[i] == t;
        assert(present(titles)[i] == t);
    } else {
        assert(present(titles)[present(titles).len() - 1] == t);
    }
}

/// What is known of every window but one is the same.
pub open spec fn others_stay(before: State, after: State, id: u32) -> bool {
    forall|other: u32|
        other != id ==> (#[trigger] after.windows@.contains_key(other)
            <==> before.windows@.contains_key(other)) && (before.windows@.contains_key(other)
            ==> after.windows@[other] == before.windows@[other])
}

/// Nothing was told, and what was told last is the same.
pub open spec fn is_silent(before: State, sent: Option<Option<String>>, after: State) -> bool {
    &&& sent is None
    &&& after.watching == before.watching
    &&& after.last_sent == before.last_sent
}

/// One window alone is activated.
pub open spec fn is_focused_alone(state: State, id: u32) -> bool {
    &&& state.windows@.contains_key(id) && state.windows@[id].activated
    &&& forall|other: u32| #[trigger]
        state.windows@.contains_key(other) && state.windows@[other].activated ==> other == id
}

/// No window is activated.
pub open spec fn is_unfocused(state: State) -> bool {
    forall|id: u32| #[trigger] state.windows@.contains_key(id) ==> !state.windows@[id].activated
}

/// The title of the one activated window, or that there is none, is told exactly if
/// it reads otherwise than what was told last, and only while watching.
pub open spec fn tells_the_focus(
    before: State,
    sent: Option<Option<String>>,
    after: State,
) -> bool {
    &&& after.watching == before.watching
    &&& forall|id: u32| #[trigger]
        is_focused_alone(after, id) ==> if before.watching && chars_of(after.windows@[id].title)
            != chars_of(before.last_sent) {
            sent == Some(after.windows@[id].title)
        } else {
            sent is None
        }
    &&& is_unfocused(after) ==> if before.watching && before.last_sent is Some {
        sent == Some(None::<String>)
    } else {
        sent is None
    }
    &&& sent is None ==> after.last_sent == before.last_sent
    &&& sent matches Some(title) ==> {
        &&& before.watching
        &&& after.last_sent == title
        &&& chars_of(title) != chars_of(before.last_sent)
        &&& is_unfocused(after) && title is None || exists|id: u32| #[trigger]
            after.windows@.contains_key(id) && after.windows@[id].activated
                && after.windows@[id].title == title
    }
}

pub(crate) proof fn lemma_tells_the_focus(
    before: State,
    windows: Map<u32, Toplevel>,
    sent: Option<Option<String>>,
    after: State,
)
    requires
        notified(before, windows, sent, after),
    ensures
        tells_the_focus(before, sent, after),
{
    let current = choose|current: Option<String>| #[trigger]
        is_active_title(windows, current) && told(before, current, sent, after);
    assert forall|id: u32| #[trigger] is_focused_alone(after, id) implies current
        == after.windows@[id].title by {
        law_the_activated_window_has_the_focus(windows, id, current);
    }
    if is_unfocused(after) {
        assert(current is None);
    } else {
        let id = choose|id: u32| #[trigger]
            after.windows@.contains_key(id) && after.windows@[id].activated;
        assert(windows.contains_key(id) && windows[id].activated);
    }
}

/// A new list of windows is empty, and nothing was told yet.
pub proof fn law_new_list_is_empty(watching: bool, state: State, id: u32)
    requires
        call_ensures(State::new, (watching,), state),
    ensures
        !state.windows@.contains_key(id),
        state.watching == watching,
        state.last_sent is None,
{
}

/// An announced window has no title and is not activated.
pub proof fn law_announced_window_is_blank(state: &mut State, id: u32)
    requires
        call_ensures(State::announce, (state, id), ()),
    ensures
        final(state).windows@.contains_key(id),
        final(state).windows@[id].title is None && !final(state).windows@[id].activated,
        others_stay(*old(state), *final(state), id),
        is_silent(*old(state), None, *final(state)),
{
}

/// A window's title is what it was last said to be, and says nothing of its focus.
pub proof fn law_title_is_set_alone(state: &mut State, id: u32, title: String)
    requires
        call_ensures(State::set_title, (state, id, title), ()),
    ensures
        final(state).windows@.contains_key(id),
        final(state).windows@[id].title == Some(title),
        final(state).windows@[id].activated == (old(state).windows@.contains_key(id) && old(state).windows@[id].activated),
        others_stay(*old(state), *final(state), id),
        is_silent(*old(state), None, *final(state)),
{
}

/// A window's focus is what it was last said to be, and says nothing of its title.
pub proof fn law_focus_is_set_alone(state: &mut State, id: u32, activated: bool)
    requires
        call_ensures(State::set_activated, (state, id, activated), ()),
    ensures
        final(state).windows@.contains_key(id),
        final(state).windows@[id].activated == activated,
        old(state).windows@.contains_key(id) ==> final(state).windows@[id].title == old(state).windows@[id].title,
        !old(state).windows@.contains_key(id) ==> final(state).windows@[id].title is None,
        others_stay(*old(state), *final(state), id),
        is_silent(*old(state), None, *final(state)),
{
}

/// A closed window is not on the list any more, and is then not known.
pub proof fn law_closed_window_is_gone(state: &mut State, id: u32, known: bool)
    requires
        call_ensures(State::close, (state, id), ()),
        call_ensures(State::is_known, (final(state), id), known),
    ensures
        !final(state).windows@.contains_key(id),
        !known,
        others_stay(*old(state), *final(state), id),
        is_silent(*old(state), None, *final(state)),
{
}

/// A window is known exactly while it is on the list.
pub proof fn law_known_windows_are_listed(state: State, id: u32, known: bool)
    requires
        call_ensures(State::is_known, (&state, id), known),
    ensures
        known <==> state.windows@.contains_key(id),
{
}

/// The focused title is that of an activated window, and none without one.
pub proof fn law_focused_title(state: State, title: Option<String>)
    requires
        call_ensures(State::active_title, (&state,), title),
    ensures
        is_unfocused(state) ==> title is None,
        !is_unfocused(state) ==> exists|id: u32| #[trigger]
            state.windows@.contains_key(id) && state.windows@[id].activated
                && state.windows@[id].title == title,
{
}

/// A title is told exactly if it reads otherwise than the last one told, while
/// watching; telling changes no window.
pub proof fn law_telling(state: &mut State, title: Option<String>, sent: Option<Option<String>>)
    requires
        call_ensures(State::tell, (state, title), sent),
    ensures
        final(state).windows@ == old(state).windows@,
        final(state).watching == old(state).watching,
        sent is Some <==> old(state).watching && chars_of(title) != chars_of(old(state).last_sent),
        sent is Some ==> sent == Some(title) && final(state).last_sent == title,
        sent is None ==> final(state).last_sent == old(state).last_sent,
{
}

/// A look at the focus tells it and changes no window.
pub proof fn law_looking_tells_the_focus(state: &mut State, sent: Option<Option<String>>)
    requires
        call_ensures(State::maybe_notify, (state,), sent),
    ensures
        final(state).windows@ == old(state).windows@,
        tells_the_focus(*old(state), sent, *final(state)),
{
    lemma_tells_the_focus(*old(state), old(state).windows@, sent, *final(state));
}

/// The titles listed are those of the windows that have one that is not empty, and
/// every such window is listed.
pub proof fn law_listed_windows(state: State, titles: Vec<String>, id: u32, i: int)
    requires
        call_ensures(State::titles, (&state,), titles),
    ensures
        state.windows@.contains_key(id) && (state.windows@[id].title matches Some(t) && t@.len()
            > 0) ==> titles@.contains(state.windows@[id].title->0),
        0 <= i < titles@.len() ==> titles@[i]@.len() > 0 && exists|id: u32| #[trigger]
            state.windows@.contains_key(id) && state.windows@[id].title == Some(titles@[i]),
{
    lemma_listed_windows(state.windows@, titles@, id, i);
}

pub(crate) proof fn lemma_listed_windows(
    windows: Map<u32, Toplevel>,
    titles: Seq<String>,
    id: u32,
    i: int,
)
    requires
        lists(windows, titles),
    ensures
        windows.contains_key(id) && (windows[id].title matches Some(t) && t@.len() > 0)
            ==> titles.contains(windows[id].title->0),
        0 <= i < titles.len() ==> titles[i]@.len() > 0 && exists|id: u32| #[trigger]
            windows.contains_key(id) && windows[id].title == Some(titles[i]),
{
    let ids = choose|ids: Seq<u32>| #[trigger]
        visits_all(windows, ids) && titles == present(titles_along(windows, ids));
    let all = titles_along(windows, ids);
    if windows.contains_key(id) && (windows[id].title matches Some(t) && t@.len() > 0) {
        assert(ids.contains(id));
        let j = choose|j: int| 0 <= j < ids.len() && ids[j] == id;
        assert(all[j] == windows[id].title);
        law_every_title_is_listed(all, j);
    }
    if 0 <= i < titles.len() {
        law_listed_titles_are_window_titles(all, i);
        let j = choose|j: int| 0 <= j < all.len() && all[j] == Some(titles[i]);
        assert(ids.contains(ids[j]));
        assert(windows.contains_key(ids[j]));
    }
}

/// One more title is kept at the end if it is there and not empty, and nothing of it
/// otherwise; no titles leave none.
pub proof fn law_titles_are_kept_in_order(
    titles: Vec<Option<String>>,
    more: Vec<Option<String>>,
    none: Vec<Option<String>>,
    title: Option<String>,
    kept: Vec<String>,
    extended: Vec<String>,
    empty: Vec<String>,
)
    requires
        more@ == titles@.push(title),
        none@.len() == 0,
        call_ensures(present_titles, (&titles,), kept),
        call_ensures(present_titles, (&more,), extended),
        call_ensures(present_titles, (&none,), empty),
    ensures
        empty@.len() == 0,
        title matches Some(t) ==> t@.len() > 0 ==> extended@ == kept@.push(t),
        !(title matches Some(t) && t@.len() > 0) ==> extended@ == kept@,
{
    assert(titles@.push(title).drop_last() =~= titles@);
}

/// Every window with a title that is not empty is listed once: there are as many
/// titles as such windows, even where some read the same.
pub proof fn law_every_window_is_listed_once(state: State, titles: Vec<String>)
    requires
        call_ensures(State::titles, (&state,), titles),
    ensures
        titles@.len() == state.windows@.dom().filter(
            |id: u32| state.windows@[id].title matches Some(t) && t@.len() > 0,
        ).len(),
{
    let windows = state.windows@;
    let ids = choose|ids: Seq<u32>| #[trigger]
        visits_all(windows, ids) && titles@ == present(titles_along(windows, ids));
    lemma_present_count(windows, ids);
    assert(ids.to_set() =~= windows.dom()) by {
        assert forall|id: u32| ids.to_set().contains(id) <==> windows.dom().contains(id) by {
            assert(ids.contains(id) <==> windows.contains_key(id));
        }
    }
}

proof fn lemma_present_count(windows: Map<u32, Toplevel>, ids: Seq<u32>)
    requires
        ids.no_duplicates(),
    ensures
        present(titles_along(windows, ids)).len() == ids.to_set().filter(
            |id: u32| windows[id].title matches Some(t) && t@.len() > 0,
        ).len(),
    decreases ids.len(),
{
    let titled = |id: u32| windows[id].title matches Some(t) && t@.len() > 0;
    if ids.len() == 0 {
        assert(ids.to_set().filter(titled) =~= Set::empty());
    } else {
        let shorter = ids.drop_last();
        let last = ids.last();
        lemma_present_count(windows, shorter);
        assert(titles_along(windows, ids).drop_last() =~= titles_along(windows, shorter));
        vstd::seq_lib::seq_to_set_is_finite(shorter);
        assert(!shorter.contains(last));
        assert(ids.to_set() =~= shorter.to_set().insert(last)) by {
            assert forall|id: u32| ids.to_set().contains(id) <==> shorter.to_set().insert(
                last,
            ).contains(id) by {
                if ids.contains(id) && id != last {
                    let k = choose|k: int| 0 <= k < ids.len() && ids[k] == id;
                    assert(shorter[k] == id);
                }
                if shorter.contains(id) {
                    let k = choose|k: int| 0 <= k < shorter.len() && shorter[k] == id;
                    assert(ids[k] == id);
                }
                assert(ids[ids.len() - 1] == last);
            }
        }
        let before = shorter.to_set().filter(titled);
        assert(before.finite());
        assert(!before.contains(last));
        if titled(last) {
            assert(ids.to_set().filter(titled) =~= before.insert(last));
        } else {
            assert(ids.to_set().filter(titled) =~= before);
        }
    }
}

} // verus!
