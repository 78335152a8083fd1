//! Linux: three Wayland protocols, tried in turn, or X11.
use vstd::prelude::*;

pub mod cosmic_toplevel;
pub mod hyprctl;
pub mod plasma_window;
pub mod toplevels;
pub mod wire;
pub mod wlr_toplevel;
pub mod x11;

verus! {

/// A way to learn about windows.
#[derive(Clone, Copy, PartialEq, Eq, Structural)]
pub enum Backend {
    /// `wlr-foreign-toplevel-management`: Hyprland, Sway, River.
    Wlr,
    /// `cosmic-toplevel-info`: COSMIC.
    Cosmic,
    /// `plasma-window-management`: KWin.
    Plasma,
    /// EWMH properties on an X11 server.
    X11,
}

/// The backend after one that was not available; first of all, with `declined`
/// empty, the backend to begin with.
pub open spec fn next_backend(wayland_display: bool, declined: Option<Backend>) -> Option<Backend> {
    match declined {
        None => Some(
            if wayland_display {
                Backend::Wlr
            } else {
                Backend::X11
            },
        ),
        Some(Backend::Wlr) => Some(Backend::Cosmic),
        Some(Backend::Cosmic) => Some(Backend::Plasma),
        Some(Backend::Plasma) | Some(Backend::X11) => None,
    }
}

/// The backend to watch the focus with: call it with nothing declined, then
/// with each backend that turned out not to be available. `None` ends the
/// search: the focus cannot be watched.
pub fn watch(wayland_display: bool, declined: Option<Backend>) -> (backend: Option<Backend>)
    ensures
        backend == next_backend(wayland_display, declined),
{
    match declined {
        None => if wayland_display {
            Some(Backend::Wlr)
        } else {
            Some(Backend::X11)
        },
        Some(Backend::Wlr) => Some(Backend::Cosmic),
        Some(Backend::Cosmic) => Some(Backend::Plasma),
        Some(Backend::Plasma) => None,
        Some(Backend::X11) => None,
    }
}

/// A step of listing the open windows.
pub enum ListStep {
    /// Ask this backend.
    Ask(Backend),
    /// These are the titles.
    Titles(Vec<String>),
}

/// Lists the open windows: `asked` is the backend asked last with its answer,
/// `None` where it is not available. The first backend that answers decides;
/// if none does, there are no windows to show.
pub fn list_window_titles(
    wayland_display: bool,
    asked: Option<(Backend, Option<Vec<String>>)>,
) -> (step: ListStep)
    ensures
        match asked {
            Some((_, Some(titles))) => step == ListStep::Titles(titles),
            Some((backend, None)) => match next_backend(wayland_display, Some(backend)) {
                Some(next) => step == ListStep::Ask(next),
                None => step matches ListStep::Titles(titles) && titles@.len() == 0,
            },
            None => step == ListStep::Ask(next_backend(wayland_display, None)->0),
        },
{
    match asked {
        Some((_, Some(titles))) => ListStep::Titles(titles),
        Some((backend, None)) => match watch(wayland_display, Some(backend)) {
            Some(next) => ListStep::Ask(next),
            None => ListStep::Titles(Vec::new()),
        },
        None => ListStep::Ask(
            if wayland_display {
                Backend::Wlr
            } else {
                Backend::X11
            },
        ),
    }
}

/// The title of the window that owns the focused one: never known here.
pub fn owner_note() -> (note: Option<String>)
    ensures
        note is None,
{
    None
}

/// The backends still ahead of one.
pub open spec fn remaining_backends(declined: Option<Backend>) -> nat {
    match declined {
        None => 3,
        Some(Backend::Wlr) => 2,
        Some(Backend::Cosmic) => 1,
        Some(Backend::Plasma) | Some(Backend::X11) => 0,
    }
}

/// The search for a backend ends: each step leaves fewer ahead.
pub proof fn law_search_ends(wayland_display: bool, declined: Option<Backend>)
    ensures
        next_backend(wayland_display, declined) matches Some(next) ==> remaining_backends(
            Some(next),
        ) < remaining_backends(declined),
        next_backend(wayland_display, declined) is None <==> remaining_backends(declined) == 0,
{
}

/// X11 is used exactly where there is no Wayland display, and alone.
pub proof fn law_x11_only_without_wayland(wayland_display: bool)
    ensures
        next_backend(wayland_display, None) == Some(Backend::X11) <==> !wayland_display,
        forall|declined: Backend|
            next_backend(wayland_display, Some(declined)) != Some(Backend::X11),
        next_backend(wayland_display, Some(Backend::X11)) is None,
{
}

/// With a Wayland display the three protocols are tried in order and then nothing,
/// without one X11 alone.
pub proof fn law_backends_are_tried_in_order(
    wayland_display: bool,
    first: Option<Backend>,
    after_wlr: Option<Backend>,
    after_cosmic: Option<Backend>,
    after_plasma: Option<Backend>,
    after_x11: Option<Backend>,
)
    requires
        call_ensures(watch, (wayland_display, None), first),
        call_ensures(watch, (wayland_display, Some(Backend::Wlr)), after_wlr),
        call_ensures(watch, (wayland_display, Some(Backend::Cosmic)), after_cosmic),
        call_ensures(watch, (wayland_display, Some(Backend::Plasma)), after_plasma),
        call_ensures(watch, (wayland_display, Some(Backend::X11)), after_x11),
    ensures
        wayland_display ==> first == Some(Backend::Wlr),
        !wayland_display ==> first == Some(Backend::X11),
        after_wlr == Some(Backend::Cosmic),
        after_cosmic == Some(Backend::Plasma),
        after_plasma is None,
        after_x11 is None,
{
}

/// Listing asks the backends in the order of watching; the first that answers
/// decides, with its own titles, and without any answer there are none.
pub proof fn law_listing_asks_in_the_same_order(
    wayland_display: bool,
    backend: Backend,
    titles: Vec<String>,
    first: Option<Backend>,
    next: Option<Backend>,
    begun: ListStep,
    answered: ListStep,
    declined: ListStep,
)
    requires
        call_ensures(watch, (wayland_display, None), first),
        call_ensures(watch, (wayland_display, Some(backend)), next),
        call_ensures(list_window_titles, (wayland_display, None), begun),
        call_ensures(list_window_titles, (wayland_display, Some((backend, Some(titles)))), answered),
        call_ensures(list_window_titles, (wayland_display, Some((backend, None))), declined),
    ensures
        begun matches ListStep::Ask(b) && first == Some(b),
        answered matches ListStep::Titles(t) && t@ == titles@,
        next matches Some(b) ==> declined == ListStep::Ask(b),
        next is None ==> (declined matches ListStep::Titles(t) && t@.len() == 0),
{
}

} // verus!
