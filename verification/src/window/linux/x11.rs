//! X11 by way of EWMH properties: `_NET_ACTIVE_WINDOW` names the focused
//! window, and changes of it, and of the window's title, are announced. Covers
//! effectively any EWMH-compliant window manager.
use super::toplevels::{present, present_titles};
use super::wire::{read_words, words};
use crate::text::{chars_of, copy_text, latin1, latin1_text, same_text, utf8_text};
use vstd::prelude::*;
use vstd::utf8::{decode_utf8, valid_utf8};

verus! {

/// The numbers that the server gives to property names.
#[derive(Clone, Copy)]
pub struct Atoms {
    pub net_active_window: u32,
    pub net_wm_name: u32,
    pub utf8_string: u32,
    pub wm_name: u32,
    pub net_client_list: u32,
}

/// What came of asking for a property.
pub enum PropertyReply {
    /// The question could not be sent.
    Refused,
    /// The server answered with an error, or not at all.
    Failed,
    /// The value; `format` is the number of bits of its elements.
    Value { format: u8, value: Vec<u8> },
}

/// How a title is found out.
pub enum TitleStep {
    /// This is it, or there is none.
    Title(Option<String>),
    /// The legacy property has to be asked for.
    AskLegacy,
}

/// The title of a window from its UTF-8 name; where that is missing or empty,
/// the legacy name has to be asked for. A name that is not UTF-8 gives none.
pub fn window_title(net_wm_name: PropertyReply) -> (step: TitleStep)
    ensures
        match net_wm_name {
            PropertyReply::Refused => step == TitleStep::Title(None),
            PropertyReply::Failed => step is AskLegacy,
            PropertyReply::Value { format, value } => if value@.len() == 0 {
                step is AskLegacy
            } else {
                step matches TitleStep::Title(title) && chars_of(title) == (if valid_utf8(value@) {
                    Some(decode_utf8(value@))
                } else {
                    None
                })
            },
        },
{
    match net_wm_name {
        PropertyReply::Refused => TitleStep::Title(None),
        PropertyReply::Failed => TitleStep::AskLegacy,
        PropertyReply::Value { format: _, value } => if value.is_empty() {
            TitleStep::AskLegacy
        } else {
            TitleStep::Title(utf8_text(value))
        },
    }
}

/// The title of a window from its legacy name, which is in Latin-1.
pub fn legacy_title(wm_name: PropertyReply) -> (title: Option<String>)
    ensures
        chars_of(title) == (match wm_name {
            PropertyReply::Value { format, value } => if value@.len() == 0 {
                None
            } else {
                Some(latin1(value@))
            },
            _ => None,
        }),
{
    match wm_name {
        PropertyReply::Value { format: _, value } => if value.is_empty() {
            None
        } else {
            Some(latin1_text(value.as_slice()))
        },
        _ => None,
    }
}

/// The numbers in a property, provided its elements have 32 bits.
pub open spec fn numbers(reply: PropertyReply, little_endian: bool) -> Option<Seq<u32>> {
    match reply {
        PropertyReply::Value { format, value } => if format == 32 {
            Some(words(value@, little_endian))
        } else {
            None
        },
        _ => None,
    }
}

fn read_numbers(reply: &PropertyReply, little_endian: bool) -> (list: Option<Vec<u32>>)
    ensures
        match list {
            Some(l) => numbers(*reply, little_endian) == Some(l@),
            None => numbers(*reply, little_endian) is None,
        },
{
    match reply {
        PropertyReply::Value { format, value } => if *format == 32 {
            Some(read_words(value.as_slice(), little_endian))
        } else {
            None
        },
        _ => None,
    }
}

/// The focused window, from the property that names it. Number 0 means none.
pub fn active_window(reply: &PropertyReply, little_endian: bool) -> (window: Option<u32>)
    ensures
        window == (match numbers(*reply, little_endian) {
            Some(list) => if list.len() > 0 && list[0] != 0 {
                Some(list[0])
            } else {
                None
            },
            None => None,
        }),
{
    match read_numbers(reply, little_endian) {
        Some(list) => if list.len() > 0 && list[0] != 0 {
            Some(list[0])
        } else {
            None
        },
        None => None,
    }
}

/// The open windows, from the property that lists them; none where it cannot be
/// had.
pub fn client_windows(reply: &PropertyReply, little_endian: bool) -> (windows: Vec<u32>)
    ensures
        windows@ == (match numbers(*reply, little_endian) {
            Some(list) => list,
            None => seq![],
        }),
{
    match read_numbers(reply, little_endian) {
        Some(list) => list,
        None => Vec::new(),
    }
}

/// The titles to list, from those of the open windows.
pub fn list_window_titles(titles: &Vec<Option<String>>) -> (listed: Vec<String>)
    ensures
        listed@ == present(titles@),
{
    present_titles(titles)
}

/// The state of the watch over the focus.
pub struct Watcher {
    pub root: u32,
    pub atoms: Atoms,
    pub current: Option<u32>,
    pub last_sent: Option<String>,
}

/// What an announced change calls for.
#[derive(Clone, Copy, PartialEq, Eq, Structural)]
pub enum Notice {
    /// Find out which window has the focus.
    ReadFocus,
    /// Read the title of this window again.
    ReadTitle(u32),
    /// Nothing.
    Ignore,
}

/// What a change of a property calls for: the focus may have moved, or the
/// focused window may have a new title, such as on a switch of browser tabs.
pub open spec fn called_for(watcher: Watcher, window: u32, atom: u32) -> Notice {
    if window == watcher.root && atom == watcher.atoms.net_active_window {
        Notice::ReadFocus
    } else if watcher.current == Some(window) && (atom == watcher.atoms.net_wm_name || atom
        == watcher.atoms.wm_name) {
        Notice::ReadTitle(window)
    } else {
        Notice::Ignore
    }
}

/// What comes of telling a title: it is sent if it differs from the last.
pub open spec fn told(
    before: Watcher,
    title: Option<String>,
    sent: Option<Option<String>>,
    after: Watcher,
) -> bool {
    if chars_of(title) != chars_of(before.last_sent) {
        sent == Some(title) && after == (Watcher { last_sent: title, ..before })
    } else {
        sent is None && after == before
    }
}

impl Watcher {
    /// Begins to watch, with no window known to have the focus.
    pub fn watch(root: u32, atoms: Atoms) -> (watcher: Self)
        ensures
            watcher == (Watcher { root, atoms, current: None, last_sent: None }),
    {
        Watcher { root, atoms, current: None, last_sent: None }
    }

    /// What a change of a property calls for.
    pub fn notice(&self, window: u32, atom: u32) -> (notice: Notice)
        ensures
            notice == called_for(*self, window, atom),
    {
        let focused = match self.current {
            Some(current) => current == window,
            None => false,
        };
        if window == self.root && atom == self.atoms.net_active_window {
            Notice::ReadFocus
        } else if focused && (atom == self.atoms.net_wm_name || atom == self.atoms.wm_name) {
            Notice::ReadTitle(window)
        } else {
            Notice::Ignore
        }
    }

    /// The window that has the focus was read: the window whose own changes are
    /// to be announced from now on, if the focus moved to one.
    pub fn focus(&mut self, window: Option<u32>) -> (subscribe: Option<u32>)
        ensures
            *final(self) == (Watcher { current: window, ..*old(self) }),
            subscribe == (if window != old(self).current {
                window
            } else {
                None
            }),
    {
        if window != self.current {
            self.current = window;
            window
        } else {
            None
        }
    }

    /// The title of the focused window was read: what is to be sent, if it
    /// changed.
    pub fn tell(&mut self, title: Option<String>) -> (sent: Option<Option<String>>)
        ensures
            told(*old(self), title, sent, *final(self)),
    {
        if same_text(&title, &self.last_sent) {
            None
        } else {
            self.last_sent = copy_text(&title);
            Some(title)
        }
    }
}

/// Only changes are sent, and what was sent last is always the last title read.
pub proof fn law_only_changes_are_sent(
    before: Watcher,
    title: Option<String>,
    sent: Option<Option<String>>,
    after: Watcher,
)
    requires
        told(before, title, sent, after),
    ensures
        sent matches Some(t) ==> chars_of(t) != chars_of(before.last_sent),
        chars_of(after.last_sent) == chars_of(title),
{
}

/// A new title of a window without the focus is of no interest.
pub proof fn law_other_windows_are_ignored(watcher: Watcher, window: u32, atom: u32)
    requires
        window != watcher.root,
        watcher.current != Some(window),
    ensures
        called_for(watcher, window, atom) == Notice::Ignore,
{
}

/// The title of a window is its UTF-8 name where that can be had and is not empty;
/// where it failed or is empty the legacy name is asked for, and a question that
/// could not be sent, or a name that is not UTF-8, gives none.
pub proof fn law_utf8_name_comes_first(
    format: u8,
    value: Vec<u8>,
    refused: TitleStep,
    failed: TitleStep,
    answered: TitleStep,
)
    requires
        call_ensures(window_title, (PropertyReply::Refused,), refused),
        call_ensures(window_title, (PropertyReply::Failed,), failed),
        call_ensures(window_title, (PropertyReply::Value { format, value },), answered),
    ensures
        refused == TitleStep::Title(None),
        failed is AskLegacy,
        answered is AskLegacy <==> value@.len() == 0,
        value@.len() > 0 && valid_utf8(value@) ==> (answered matches TitleStep::Title(Some(t)) && t@
            == decode_utf8(value@)),
        value@.len() > 0 && !valid_utf8(value@) ==> answered == TitleStep::Title(None),
{
}

/// The legacy name is read as Latin-1, a character for every byte; without one there
/// is no title.
pub proof fn law_legacy_name_is_latin1(
    format: u8,
    value: Vec<u8>,
    refused: Option<String>,
    failed: Option<String>,
    answered: Option<String>,
    i: int,
)
    requires
        call_ensures(legacy_title, (PropertyReply::Refused,), refused),
        call_ensures(legacy_title, (PropertyReply::Failed,), failed),
        call_ensures(legacy_title, (PropertyReply::Value { format, value },), answered),
    ensures
        refused is None && failed is None,
        answered is None <==> value@.len() == 0,
        answered matches Some(t) ==> t@.len() == value@.len() && (0 <= i < value@.len() ==> t@[i] as u32
            == value@[i] as u32),
{
}

/// The focused window is the first number of the property, unless that is 0, its
/// elements do not have 32 bits, or there is none.
pub proof fn law_focused_window_is_the_first_number(
    format: u8,
    value: Vec<u8>,
    little_endian: bool,
    window: Option<u32>,
    windows: Vec<u32>,
    refused: Option<u32>,
    failed: Option<u32>,
)
    requires
        call_ensures(
            active_window,
            (&PropertyReply::Value { format, value }, little_endian),
            window,
        ),
        call_ensures(
            client_windows,
            (&PropertyReply::Value { format, value }, little_endian),
            windows,
        ),
        call_ensures(active_window, (&PropertyReply::Refused, little_endian), refused),
        call_ensures(active_window, (&PropertyReply::Failed, little_endian), failed),
    ensures
        refused is None && failed is None,
        format != 32 ==> window is None && windows@.len() == 0,
        format == 32 ==> windows@ == words(value@, little_endian),
        format == 32 ==> (window is Some <==> windows@.len() > 0 && windows@[0] != 0),
        window matches Some(w) ==> w == windows@[0],
{
}

/// Without the property there are no open windows to list.
pub proof fn law_no_property_lists_no_windows(
    little_endian: bool,
    refused: Vec<u32>,
    failed: Vec<u32>,
)
    requires
        call_ensures(client_windows, (&PropertyReply::Refused, little_endian), refused),
        call_ensures(client_windows, (&PropertyReply::Failed, little_endian), failed),
    ensures
        refused@.len() == 0,
        failed@.len() == 0,
{
}

/// One more title is listed at the end if it is there and not empty, and nothing of
/// it otherwise; no titles list nothing.
pub proof fn law_titles_are_listed_in_order(
    titles: Vec<Option<String>>,
    more: Vec<Option<String>>,
    none: Vec<Option<String>>,
    title: Option<String>,
    listed: Vec<String>,
    extended: Vec<String>,
    empty: Vec<String>,
)
    requires
        more@ == titles@.push(title),
        none@.len() == 0,
        call_ensures(list_window_titles, (&titles,), listed),
        call_ensures(list_window_titles, (&more,), extended),
        call_ensures(list_window_titles, (&none,), empty),
    ensures
        empty@.len() == 0,
        title matches Some(t) ==> t@.len() > 0 ==> extended@ == listed@.push(t),
        !(title matches Some(t) && t@.len() > 0) ==> extended@ == listed@,
{
    assert(titles@.push(title).drop_last() =~= titles@);
}

/// The watch begins with no window in focus and nothing told.
pub proof fn law_watch_begins_blank(root: u32, atoms: Atoms, watcher: Watcher)
    requires
        call_ensures(Watcher::watch, (root, atoms), watcher),
    ensures
        watcher.root == root,
        watcher.atoms == atoms,
        watcher.current is None,
        watcher.last_sent is None,
{
}

/// A change is of interest exactly if it is the focus property of the root window, or
/// one of the two names of the window in focus; the first has the focus read again,
/// the others the title.
pub proof fn law_changes_of_interest(watcher: Watcher, window: u32, atom: u32, notice: Notice)
    requires
        call_ensures(Watcher::notice, (&watcher, window, atom), notice),
    ensures
        notice == Notice::ReadFocus <==> window == watcher.root && atom
            == watcher.atoms.net_active_window,
        notice matches Notice::ReadTitle(w) ==> w == window,
        notice is ReadTitle <==> !(window == watcher.root && atom
            == watcher.atoms.net_active_window) && watcher.current == Some(window) && (atom
            == watcher.atoms.net_wm_name || atom == watcher.atoms.wm_name),
{
}

/// The window in focus is the one last read, and is subscribed to exactly when the
/// focus moved to it; nothing else changes.
pub proof fn law_focus_is_followed(watcher: &mut Watcher, window: Option<u32>, subscribe: Option<u32>)
    requires
        call_ensures(Watcher::focus, (watcher, window), subscribe),
    ensures
        final(watcher).current == window,
        window != old(watcher).current ==> subscribe == window,
        window == old(watcher).current ==> subscribe is None,
        final(watcher).root == old(watcher).root,
        final(watcher).atoms == old(watcher).atoms,
        final(watcher).last_sent == old(watcher).last_sent,
{
}

/// A title is told exactly if it reads otherwise than the last one told, and is then
/// the last one told; nothing else changes.
pub proof fn law_telling(watcher: &mut Watcher, title: Option<String>, sent: Option<Option<String>>)
    requires
        call_ensures(Watcher::tell, (watcher, title), sent),
    ensures
        sent is Some <==> chars_of(title) != chars_of(old(watcher).last_sent),
        sent is Some ==> sent == Some(title) && final(watcher).last_sent == title,
        sent is None ==> final(watcher).last_sent == old(watcher).last_sent,
        final(watcher).root == old(watcher).root,
        final(watcher).atoms == old(watcher).atoms,
        final(watcher).current == old(watcher).current,
{
}

} // verus!
