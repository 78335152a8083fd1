//! Launching: what the matcher starts with and when the window is shown.
use crate::config::AppConfig;
use crate::device::{find_remembered, is_first, is_remembered, referenced, KeyboardDeviceInfo};
use crate::matcher::{target, Shared};
use crate::settings::{chosen, remembered, App};
use crate::text::chars_of;
use vstd::prelude::*;

verus! {

/// The state the matcher starts with.
pub open spec fn started(
    config: AppConfig,
    devices: Seq<KeyboardDeviceInfo>,
    at: Option<usize>,
    shared: Shared,
) -> bool {
    &&& match config.device {
        Some(saved) => is_first(devices, |d: KeyboardDeviceInfo| is_remembered(d, saved), at),
        None => at is None,
    }
    &&& shared.rules == config.rules
    &&& shared.default_layer == config.default_layer
    &&& shared.device == chosen(devices, at)
    &&& shared.last_title is None
    &&& shared.last_layer_sent is None
    &&& shared.hid_error is None
}

/// The state the matcher starts with: the stored rules and default layer, and
/// the remembered keyboard if it is connected. No layer counts as sent yet.
pub fn start(config: AppConfig, devices: &Vec<KeyboardDeviceInfo>) -> (shared: Shared)
    ensures
        exists|at: Option<usize>| #[trigger] started(config, devices@, at, shared),
{
    let at = match &config.device {
        Some(saved) => find_remembered(devices, saved),
        None => None,
    };
    let device = match at {
        Some(i) => Some(devices[i].clone()),
        None => None,
    };
    let shared = Shared {
        rules: config.rules,
        default_layer: config.default_layer,
        device,
        last_title: None,
        last_layer_sent: None,
        hid_error: None,
    };
    assert(started(config, devices@, at, shared));
    shared
}

/// Whether the window is shown on launch. "Start minimized" applies only to a
/// start at login: a launch by hand always shows the window.
pub fn show_on_launch(start_minimized: bool, autostart: bool) -> (show: bool)
    ensures
        show == !(start_minimized && autostart),
{
    !(start_minimized && autostart)
}

/// The request to show the window, which outlives every single window.
pub struct ShowRequest {
    pub requested: bool,
}

impl ShowRequest {
    /// The request at launch.
    pub fn new(show_on_launch: bool) -> (request: Self)
        ensures
            request.requested == show_on_launch,
    {
        ShowRequest { requested: show_on_launch }
    }

    /// Asks for the window.
    pub fn request(&mut self)
        ensures
            final(self).requested,
    {
        self.requested = true;
    }

    /// Answers the request, if there is one: tells whether to show the window,
    /// and clears the request.
    pub fn take(&mut self) -> (show: bool)
        ensures
            show == old(self).requested,
            !final(self).requested,
    {
        let show = self.requested;
        self.requested = false;
        show
    }
}

/// What was stored comes back on the next start: the same rules and default
/// layer and, if the selected keyboard is still connected, a keyboard with the
/// same ids and, where it has one, the same serial number.
pub proof fn law_settings_survive_a_restart(
    app: App,
    config: AppConfig,
    devices: Seq<KeyboardDeviceInfo>,
    i: int,
    at: Option<usize>,
    shared: Shared,
    title: Option<String>,
)
    requires
        config.rules@ == app.rules@,
        config.default_layer == app.default_layer,
        config.device == remembered(chosen(app.devices@, app.selected_device)),
        started(config, devices, at, shared),
        0 <= i < devices.len(),
        chosen(app.devices@, app.selected_device) == Some(devices[i]),
    ensures
        shared.wants(title) == target(
            app.rules@,
            chars_of(title),
            app.default_layer,
        ),
        shared.device matches Some(d) && d.vendor_id == devices[i].vendor_id && d.product_id
            == devices[i].product_id && (devices[i].serial_number is Some ==> chars_of(
            d.serial_number,
        ) == chars_of(devices[i].serial_number)),
{
    assert(config.device == Some(referenced(devices[i])));
    crate::device::law_remembered_keyboard_is_found(devices, i, at);
}

/// The first cycle after a start sends a layer, whichever it is, as soon as a
/// keyboard is there.
pub proof fn law_first_cycle_sends(
    config: AppConfig,
    devices: Seq<KeyboardDeviceInfo>,
    at: Option<usize>,
    shared: Shared,
    title: Option<String>,
)
    requires
        started(config, devices, at, shared),
        shared.device is Some,
    ensures
        crate::matcher::planned(shared, shared.wants(title)).switch == shared.device,
{
}

/// The matcher starts with the stored rules and default layer and nothing seen or
/// sent. Its keyboard is the first connected one with the remembered ids and, where
/// one was remembered, the serial number; without a remembered one it has none.
pub proof fn law_start_takes_over_the_settings(
    config: AppConfig,
    devices: Vec<KeyboardDeviceInfo>,
    shared: Shared,
    j: int,
)
    requires
        call_ensures(start, (config, &devices), shared),
    ensures
        shared.rules@ == config.rules@,
        shared.default_layer == config.default_layer,
        shared.last_title is None && shared.last_layer_sent is None && shared.hid_error is None,
        config.device is None ==> shared.device is None,
        config.device matches Some(saved) ==> 0 <= j < devices@.len() && devices@[j].vendor_id
            == saved.vendor_id
            && devices@[j].product_id == saved.product_id && (saved.serial_number matches Some(s)
            ==> (devices@[j].serial_number matches Some(own) && own@ == s@)) ==> (exists|k: int|
            0 <= k <= j && shared.device == Some(#[trigger] devices@[k])),
        config.device matches Some(saved) ==> (shared.device matches Some(d) ==> d.vendor_id
            == saved.vendor_id && d.product_id == saved.product_id && (
        saved.serial_number matches Some(s) ==> (d.serial_number matches Some(own) && own@ == s@))
            && devices@.contains(d)),
{
    let at = choose|at: Option<usize>| #[trigger] started(config, devices@, at, shared);
    if let Some(saved) = config.device {
        let fits = |d: KeyboardDeviceInfo| is_remembered(d, saved);
        if let Some(k) = at {
            assert(fits(devices@[k as int]));
            assert(shared.device == Some(devices@[k as int]));
            if 0 <= j < k {
                assert(!fits(devices@[j]));
            }
        } else if 0 <= j < devices@.len() {
            assert(!fits(devices@[j]));
        }
    }
}

/// A launch by hand always shows the window, and so does one at login unless it is
/// to start minimized.
pub proof fn law_launch_by_hand_shows_the_window(minimized: bool, by_hand: bool, at_login: bool)
    requires
        call_ensures(show_on_launch, (minimized, false), by_hand),
        call_ensures(show_on_launch, (minimized, true), at_login),
    ensures
        by_hand,
        at_login <==> !minimized,
{
}

/// A request is answered once: the first answer after it is to show the window, the
/// next is not.
pub proof fn law_request_is_answered_once(
    asked: &mut ShowRequest,
    first: &mut ShowRequest,
    second: &mut ShowRequest,
    shown: bool,
    again: bool,
)
    requires
        call_ensures(ShowRequest::request, (asked,), ()),
        *old(first) == *final(asked),
        call_ensures(ShowRequest::take, (first,), shown),
        *old(second) == *final(first),
        call_ensures(ShowRequest::take, (second,), again),
    ensures
        shown,
        !again,
        !final(second).requested,
{
}

/// The first answer after a launch is whether the window is shown on launch.
pub proof fn law_launch_is_a_request(show: bool, request: &mut ShowRequest, shown: bool)
    requires
        call_ensures(ShowRequest::new, (show,), *old(request)),
        call_ensures(ShowRequest::take, (request,), shown),
    ensures
        shown == show,
        !final(request).requested,
{
}

} // verus!
