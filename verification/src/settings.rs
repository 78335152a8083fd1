//! The settings window: its state, what each action of the user does to it, and
//! the texts it shows.
use crate::config::{copy_rules, AppConfig, DeviceRef, Rule};
use crate::device::{
    find_current, is_first, is_same_keyboard, labelled, referenced, KeyboardDeviceInfo,
};
use crate::matcher::{target, Shared};
use crate::pattern::{escaped, literal_pattern};
use crate::rules::{move_rule, moved};
use crate::text::{chars_of, decimal, decimal_text};
use vstd::prelude::*;

verus! {

/// How many layers the keyboard's keymap has.
pub const LAYER_COUNT: u8 = 10;

/// How often the idle window redraws itself, in seconds.
pub const GUI_REPAINT_INTERVAL_S: u64 = 2;

/// The state of the settings window.
pub struct App {
    pub devices: Vec<KeyboardDeviceInfo>,
    pub selected_device: Option<usize>,
    pub rules: Vec<Rule>,
    pub default_layer: u8,
    pub autostart: bool,
    pub start_minimized: bool,
    pub always_on_top: bool,
    pub new_pattern: String,
    pub new_layer: u8,
    pub window_titles: Vec<String>,
    /// Whether the window can be kept above others here.
    pub can_pin: bool,
}

/// How the window is stacked.
#[derive(Clone, Copy, PartialEq, Eq, Structural)]
pub enum WindowLevel {
    AlwaysOnTop,
    Normal,
}

/// What the user did.
pub enum UiEvent {
    /// Switched "Start minimized".
    StartMinimized(bool),
    /// Switched "Start automatically".
    Autostart(bool),
    /// Switched "Always on top".
    AlwaysOnTop(bool),
    /// Chose the keyboard at this position.
    SelectDevice(usize),
    /// Asked for a new scan, which found these keyboards.
    Rescan(Vec<KeyboardDeviceInfo>),
    /// Entered the pattern for the rule to be added.
    NewPattern(String),
    /// Chose the layer for the rule to be added.
    NewLayer(u8),
    /// Added the rule that was entered.
    AddRule,
    /// Picked an open window as the pattern for a new rule.
    PickWindow(String),
    /// Asked for the open windows again, which are these.
    Refresh(Vec<String>),
    /// Chose the default layer.
    DefaultLayer(u8),
    /// Edited the rule at this position, which now reads so.
    EditRule { at: usize, pattern: String, layer: u8 },
    /// Worked on the rule list: which rule was removed, and which was dropped in
    /// front of which.
    Rules { removed: Option<usize>, dropped: Option<(usize, usize)> },
}

/// What is to be done after an action of the user, in this order.
#[derive(Clone, Copy)]
pub struct Effects {
    /// Enable or disable the start at login.
    pub set_autostart: Option<bool>,
    /// Restack the window.
    pub set_level: Option<WindowLevel>,
    /// Hand rules, default layer and keyboard to the matcher.
    pub sync: bool,
    /// Store the settings.
    pub persist: bool,
}

/// Effects on the matcher and the stored settings alone.
pub open spec fn effects(sync: bool, persist: bool) -> Effects {
    Effects { set_autostart: None, set_level: None, sync, persist }
}

/// The keyboard at a selected position, if the list reaches that far.
pub open spec fn chosen(devices: Seq<KeyboardDeviceInfo>, selected: Option<usize>) -> Option<
    KeyboardDeviceInfo,
> {
    match selected {
        Some(i) => if i < devices.len() {
            Some(devices[i as int])
        } else {
            None
        },
        None => None,
    }
}

/// The stored form of an optional keyboard.
pub open spec fn remembered(device: Option<KeyboardDeviceInfo>) -> Option<DeviceRef> {
    match device {
        Some(d) => Some(referenced(d)),
        None => None,
    }
}

/// Whether an action can happen in a state: an option is switched only where it
/// is offered, positions are on the list, and a rule is added only with a pattern.
pub open spec fn possible(app: App, event: UiEvent) -> bool {
    match event {
        UiEvent::StartMinimized(_) => app.autostart,
        UiEvent::AlwaysOnTop(_) => app.can_pin,
        UiEvent::SelectDevice(i) => i < app.devices@.len(),
        UiEvent::AddRule => app.new_pattern@.len() > 0,
        UiEvent::EditRule { at, .. } => at < app.rules@.len(),
        UiEvent::Rules { removed, dropped } => {
            &&& removed matches Some(i) ==> i < app.rules@.len()
            &&& dropped matches Some((from, before)) ==> from < app.rules@.len() && before
                <= app.rules@.len()
        },
        _ => true,
    }
}

/// What an action does: the state after it and the effects it calls for. Fields
/// that are not named stay as they are.
pub open spec fn responds(before: App, event: UiEvent, after: App, done: Effects) -> bool {
    match event {
        UiEvent::StartMinimized(on) => {
            &&& after == (App { start_minimized: on, ..before })
            &&& done == effects(false, true)
        },
        UiEvent::Autostart(on) => {
            &&& after == (App { autostart: on, ..before })
            &&& done == (Effects { set_autostart: Some(on), ..effects(false, true) })
        },
        UiEvent::AlwaysOnTop(on) => {
            &&& after == (App { always_on_top: on, ..before })
            &&& done == (Effects { set_level: Some(level(on)), ..effects(false, true) })
        },
        UiEvent::SelectDevice(i) => {
            &&& after == (App { selected_device: Some(i), ..before })
            &&& done == effects(true, true)
        },
        UiEvent::Rescan(devices) => {
            &&& after == (App { devices, selected_device: None, ..before })
            &&& done == effects(true, false)
        },
        UiEvent::NewPattern(pattern) => {
            &&& after == (App { new_pattern: pattern, ..before })
            &&& done == effects(false, false)
        },
        UiEvent::NewLayer(layer) => {
            &&& after == (App { new_layer: layer, ..before })
            &&& done == effects(false, false)
        },
        UiEvent::AddRule => {
            &&& after == (App { rules: after.rules, new_pattern: after.new_pattern, ..before })
            &&& after.rules@ == before.rules@.push(
                Rule { pattern: before.new_pattern, layer: before.new_layer },
            )
            &&& after.new_pattern@ == Seq::<char>::empty()
            &&& done == effects(true, true)
        },
        UiEvent::PickWindow(title) => {
            &&& after == (App { new_pattern: after.new_pattern, ..before })
            &&& after.new_pattern@ == escaped(title@)
            &&& done == effects(false, false)
        },
        UiEvent::Refresh(titles) => {
            &&& after == (App { window_titles: titles, ..before })
            &&& done == effects(false, false)
        },
        UiEvent::DefaultLayer(layer) => {
            &&& after == (App { default_layer: layer, ..before })
            &&& done == effects(true, true)
        },
        UiEvent::EditRule { at, pattern, layer } => {
            &&& after == (App { rules: after.rules, ..before })
            &&& after.rules@ == before.rules@.update(at as int, Rule { pattern, layer })
            &&& done == effects(true, true)
        },
        UiEvent::Rules { removed, dropped } => {
            let changed = removed is Some || dropped is Some;
            &&& after == (App { rules: after.rules, ..before })
            &&& after.rules@ == rearranged(before.rules@, removed, dropped)
            &&& done == effects(changed, changed)
        },
    }
}

/// The rule list after one was removed, or else one was dropped elsewhere. A
/// removal wins over a drop.
pub open spec fn rearranged(
    rules: Seq<Rule>,
    removed: Option<usize>,
    dropped: Option<(usize, usize)>,
) -> Seq<Rule> {
    match removed {
        Some(i) => rules.remove(i as int),
        None => match dropped {
            Some((from, before)) => moved(rules, from as int, before as int),
            None => rules,
        },
    }
}

/// The stacking that the "Always on top" option asks for.
pub open spec fn level(always_on_top: bool) -> WindowLevel {
    if always_on_top {
        WindowLevel::AlwaysOnTop
    } else {
        WindowLevel::Normal
    }
}

/// The stacking that the "Always on top" option asks for.
pub fn window_level(always_on_top: bool) -> (l: WindowLevel)
    ensures
        l == level(always_on_top),
{
    if always_on_top {
        WindowLevel::AlwaysOnTop
    } else {
        WindowLevel::Normal
    }
}

/// Whether a window can be kept above others: everywhere but on Linux under
/// Wayland, which has no protocol for it.
pub fn always_on_top_supported(linux: bool, wayland_display: bool) -> (supported: bool)
    ensures
        supported == !(linux && wayland_display),
{
    !linux || !wayland_display
}

/// The "Always on top" option as it takes effect: off where it cannot work,
/// whatever was stored.
pub fn always_on_top_effective(supported: bool, stored: bool) -> (on: bool)
    ensures
        on == (supported && stored),
{
    supported && stored
}

/// The state of a freshly opened window.
pub open spec fn opened(
    devices: Vec<KeyboardDeviceInfo>,
    shared: Shared,
    autostart: bool,
    stored: AppConfig,
    window_titles: Vec<String>,
    can_pin: bool,
    app: App,
) -> bool {
    &&& app.devices == devices
    &&& match shared.device {
        Some(d) => is_first(
            devices@,
            |dev: KeyboardDeviceInfo| is_same_keyboard(dev, d),
            app.selected_device,
        ),
        None => app.selected_device is None,
    }
    &&& app.rules@ == shared.rules@
    &&& app.default_layer == shared.default_layer
    &&& app.autostart == autostart
    &&& app.start_minimized == stored.start_minimized
    &&& app.always_on_top == stored.always_on_top
    &&& app.new_pattern@ == Seq::<char>::empty()
    &&& app.new_layer == 0
    &&& app.window_titles == window_titles
    &&& app.can_pin == can_pin
}

impl App {
    /// Opens the window on what the matcher is working with: a window is made
    /// anew each time it is shown, so the rules come from there and the keyboard
    /// is looked up again on a fresh list.
    pub fn new(
        devices: Vec<KeyboardDeviceInfo>,
        shared: &Shared,
        autostart: bool,
        stored: &AppConfig,
        window_titles: Vec<String>,
        can_pin: bool,
    ) -> (app: App)
        ensures
            opened(devices, *shared, autostart, *stored, window_titles, can_pin, app),
    {
        let selected_device = match &shared.device {
            Some(d) => find_current(&devices, d),
            None => None,
        };
        App {
            devices,
            selected_device,
            rules: copy_rules(&shared.rules),
            default_layer: shared.default_layer,
            autostart,
            start_minimized: stored.start_minimized,
            always_on_top: stored.always_on_top,
            new_pattern: String::new(),
            new_layer: 0,
            window_titles,
            can_pin,
        }
    }

    /// The selected keyboard.
    pub fn selected(&self) -> (device: Option<KeyboardDeviceInfo>)
        ensures
            device == chosen(self.devices@, self.selected_device),
    {
        match self.selected_device {
            Some(i) => if i < self.devices.len() {
                Some(self.devices[i].clone())
            } else {
                None
            },
            None => None,
        }
    }

    /// The settings to store.
    pub fn persist(&self) -> (config: AppConfig)
        ensures
            config.rules@ == self.rules@,
            config.device == remembered(chosen(self.devices@, self.selected_device)),
            config.default_layer == self.default_layer,
            config.start_minimized == self.start_minimized,
            config.always_on_top == self.always_on_top,
    {
        let device = match self.selected() {
            Some(d) => Some(d.reference()),
            None => None,
        };
        AppConfig {
            rules: copy_rules(&self.rules),
            device,
            default_layer: self.default_layer,
            start_minimized: self.start_minimized,
            always_on_top: self.always_on_top,
        }
    }

    /// Hands the rules, the default layer and the keyboard to the matcher. What
    /// the matcher has seen and sent stays.
    pub fn sync_shared(&self, shared: &mut Shared)
        ensures
            synced(*self, *old(shared), *final(shared)),
    {
        shared.rules = copy_rules(&self.rules);
        shared.default_layer = self.default_layer;
        shared.device = self.selected();
    }

    /// Whether the entered rule can be added.
    pub fn can_add(&self) -> (can: bool)
        ensures
            can == possible(*self, UiEvent::AddRule),
    {
        !self.new_pattern.as_str().is_empty()
    }

    /// Carries out an action of the user.
    pub fn ui(&mut self, event: UiEvent) -> (done: Effects)
        requires
            possible(*old(self), event),
        ensures
            responds(*old(self), event, *final(self), done),
    {
        let mut done = Effects { set_autostart: None, set_level: None, sync: false, persist: false };
        match event {
            UiEvent::StartMinimized(on) => {
                self.start_minimized = on;
                done.persist = true;
            },
            UiEvent::Autostart(on) => {
                self.autostart = on;
                done.set_autostart = Some(on);
                done.persist = true;
            },
            UiEvent::AlwaysOnTop(on) => {
                self.always_on_top = on;
                done.set_level = Some(window_level(on));
                done.persist = true;
            },
            UiEvent::SelectDevice(i) => {
                self.selected_device = Some(i);
                done.sync = true;
                done.persist = true;
            },
            UiEvent::Rescan(devices) => {
                self.devices = devices;
                self.selected_device = None;
                done.sync = true;
            },
            UiEvent::NewPattern(pattern) => {
                self.new_pattern = pattern;
            },
            UiEvent::NewLayer(layer) => {
                self.new_layer = layer;
            },
            UiEvent::AddRule => {
                let mut pattern = String::new();
                std::mem::swap(&mut pattern, &mut self.new_pattern);
                self.rules.push(Rule { pattern, layer: self.new_layer });
                done.sync = true;
                done.persist = true;
            },
            UiEvent::PickWindow(title) => {
                self.new_pattern = literal_pattern(title.as_str());
            },
            UiEvent::Refresh(titles) => {
                self.window_titles = titles;
            },
            UiEvent::DefaultLayer(layer) => {
                self.default_layer = layer;
                done.sync = true;
                done.persist = true;
            },
            UiEvent::EditRule { at, pattern, layer } => {
                self.rules.set(at, Rule { pattern, layer });
                done.sync = true;
                done.persist = true;
            },
            UiEvent::Rules { removed, dropped } => {
                let mut changed = false;
                match removed {
                    Some(i) => {
                        self.rules.remove(i);
                        changed = true;
                    },
                    None => {},
                }
                match dropped {
                    Some((from, before)) => {
                        if removed.is_none() {
                            move_rule(&mut self.rules, from, before);
                        }
                        changed = true;
                    },
                    None => {},
                }
                done.sync = changed;
                done.persist = changed;
            },
        }
        done
    }

    /// The text on the keyboard list: the selected keyboard.
    pub fn selected_text(&self) -> (text: String)
        ensures
            text@ == (match chosen(self.devices@, self.selected_device) {
                Some(d) => labelled(d),
                None => "No keyboard selected"@,
            }),
    {
        match self.selected() {
            Some(d) => d.label(),
            None => "No keyboard selected".to_owned(),
        }
    }
}

/// What handing the settings to the matcher changes.
pub open spec fn synced(app: App, before: Shared, after: Shared) -> bool {
    &&& after == (Shared {
        rules: after.rules,
        default_layer: app.default_layer,
        device: chosen(app.devices@, app.selected_device),
        ..before
    })
    &&& after.rules@ == app.rules@
}

/// The name of a layer on the lists.
pub fn layer_label(layer: u8) -> (text: String)
    ensures
        text@ == "Layer "@ + decimal(layer as nat),
{
    let mut text = "Layer ".to_owned();
    text.append(decimal_text(layer).as_str());
    text
}

/// The layers to choose from.
pub fn layer_choices() -> (layers: Vec<u8>)
    ensures
        layers@ == Seq::new(LAYER_COUNT as nat, |i: int| i as u8),
{
    let mut layers: Vec<u8> = Vec::new();
    let mut l: u8 = 0;
    while l < LAYER_COUNT
        invariant
            l <= LAYER_COUNT,
            layers@ =~= Seq::new(l as nat, |i: int| i as u8),
        decreases LAYER_COUNT - l,
    {
        layers.push(l);
        l = l + 1;
    }
    layers
}

/// The status line of the window.
pub struct Status {
    pub connected: bool,
    pub active_window: String,
    pub owner: Option<String>,
    pub last_layer: String,
    pub error: Option<String>,
}

/// The status shown for what the matcher last did; `owner` is the title of the
/// window that owns the focused one, where that had to stand in.
pub fn status(shared: &Shared, owner: &Option<String>) -> (shown: Status)
    ensures
        shown.connected == (shared.hid_error is None),
        shown.active_window@ == (match shared.last_title {
            Some(t) => t@,
            None => "-"@,
        }),
        chars_of(shown.owner) == (match *owner {
            Some(o) => Some("(owner: "@ + o@ + ")"@),
            None => None,
        }),
        shown.last_layer@ == (match shared.last_layer_sent {
            Some(l) => decimal(l as nat),
            None => "-"@,
        }),
        chars_of(shown.error) == (match shared.hid_error {
            Some(e) => Some("HID error: "@ + e@),
            None => None,
        }),
{
    let owner_text = match owner {
        Some(o) => {
            let mut text = "(owner: ".to_owned();
            text.append(o.as_str());
            text.append(")");
            Some(text)
        },
        None => None,
    };
    let error = match &shared.hid_error {
        Some(e) => {
            let mut text = "HID error: ".to_owned();
            text.append(e.as_str());
            Some(text)
        },
        None => None,
    };
    Status {
        connected: shared.hid_error.is_none(),
        active_window: match &shared.last_title {
            Some(t) => t.clone(),
            None => "-".to_owned(),
        },
        owner: owner_text,
        last_layer: match shared.last_layer_sent {
            Some(l) => decimal_text(l),
            None => "-".to_owned(),
        },
        error,
    }
}

/// After the settings were handed over, the matcher goes by the rules and the
/// default layer of the window.
pub proof fn law_matcher_follows_the_window(
    app: App,
    before: Shared,
    after: Shared,
    title: Option<String>,
)
    requires
        synced(app, before, after),
    ensures
        after.wants(title) == target(
            app.rules@,
            chars_of(title),
            app.default_layer,
        ),
        after.last_layer_sent == before.last_layer_sent,
        after.last_title == before.last_title,
        after.hid_error == before.hid_error,
{
}

/// A window opened on what another handed over shows the same rules and default
/// layer, and a keyboard with the same identity where the list still has it.
pub proof fn law_reopened_window_shows_the_same(
    app: App,
    before: Shared,
    after: Shared,
    devices: Vec<KeyboardDeviceInfo>,
    autostart: bool,
    stored: AppConfig,
    window_titles: Vec<String>,
    can_pin: bool,
    reopened: App,
)
    requires
        synced(app, before, after),
        opened(devices, after, autostart, stored, window_titles, can_pin, reopened),
    ensures
        reopened.rules@ == app.rules@,
        reopened.default_layer == app.default_layer,
        chosen(app.devices@, app.selected_device) matches Some(d) ==> (exists|i: int|
            0 <= i < devices@.len() && is_same_keyboard(#[trigger] devices@[i], d)) ==> (
        chosen(devices@, reopened.selected_device) matches Some(found) && is_same_keyboard(
            found,
            d,
        )),
        chosen(app.devices@, app.selected_device) is None ==> reopened.selected_device is None,
{
    if let Some(d) = chosen(app.devices@, app.selected_device) {
        if exists|i: int| 0 <= i < devices@.len() && is_same_keyboard(#[trigger] devices@[i], d) {
            let i = choose|i: int|
                0 <= i < devices@.len() && is_same_keyboard(#[trigger] devices@[i], d);
            crate::device::law_current_keyboard_is_found(
                devices@,
                d,
                i,
                reopened.selected_device,
            );
        }
    }
}

/// Whatever changes the rules or the default layer, through any action, is handed
/// to the matcher and stored.
pub proof fn law_rule_changes_take_effect(before: App, event: UiEvent, after: App, done: Effects)
    requires
        responds(before, event, after, done),
        after.rules@ != before.rules@ || after.default_layer != before.default_layer,
    ensures
        done.sync && done.persist,
{
}

/// Where a window cannot be kept above others, no action changes the stored
/// option or restacks the window, and none makes it possible.
pub proof fn law_without_support_the_option_stays(
    before: App,
    event: UiEvent,
    after: App,
    done: Effects,
)
    requires
        possible(before, event),
        responds(before, event, after, done),
        !before.can_pin,
    ensures
        after.always_on_top == before.always_on_top,
        done.set_level is None,
        !after.can_pin,
{
}

/// Every position that a window hands on stays on its list: a selection is
/// cleared whenever the list is replaced.
pub proof fn law_selection_stays_on_the_list(
    before: App,
    event: UiEvent,
    after: App,
    done: Effects,
)
    requires
        possible(before, event),
        responds(before, event, after, done),
        before.selected_device matches Some(i) ==> i < before.devices@.len(),
    ensures
        after.selected_device matches Some(i) ==> i < after.devices@.len(),
{
}

/// Two states show the same keyboards and the same one selected.
pub open spec fn same_keyboards(a: App, b: App) -> bool {
    a.devices@ == b.devices@ && a.selected_device == b.selected_device
}

/// Two states have the same options on, and offer the same.
pub open spec fn same_options(a: App, b: App) -> bool {
    &&& a.autostart == b.autostart
    &&& a.start_minimized == b.start_minimized
    &&& a.always_on_top == b.always_on_top
    &&& a.can_pin == b.can_pin
}

/// Two states have the same rule entered.
pub open spec fn same_entry(a: App, b: App) -> bool {
    a.new_pattern@ == b.new_pattern@ && a.new_layer == b.new_layer
}

/// Two states ask for the same layers.
pub open spec fn same_layers(a: App, b: App) -> bool {
    a.rules@ == b.rules@ && a.default_layer == b.default_layer
}

/// Switching an option sets it as it was switched, stores it, and does nothing to
/// the matcher; the start at login and the stacking of the window follow their
/// options, and only those.
pub proof fn law_options_follow_the_user(app: &mut App, event: UiEvent, done: Effects, on: bool)
    requires
        event == UiEvent::StartMinimized(on) || event == UiEvent::Autostart(on) || event
            == UiEvent::AlwaysOnTop(on),
        call_ensures(App::ui, (app, event), done),
    ensures
        final(app).start_minimized == (if event is StartMinimized {
            on
        } else {
            old(app).start_minimized
        }),
        final(app).autostart == (if event is Autostart {
            on
        } else {
            old(app).autostart
        }),
        final(app).always_on_top == (if event is AlwaysOnTop {
            on
        } else {
            old(app).always_on_top
        }),
        final(app).can_pin == old(app).can_pin,
        same_keyboards(*old(app), *final(app)) && same_layers(*old(app), *final(app)) && same_entry(
            *old(app),
            *final(app),
        ),
        final(app).window_titles@ == old(app).window_titles@,
        done.persist && !done.sync,
        done.set_autostart == (if event is Autostart {
            Some(on)
        } else {
            None
        }),
        event is AlwaysOnTop <==> done.set_level is Some,
        event is AlwaysOnTop ==> (done.set_level == Some(WindowLevel::AlwaysOnTop) <==> on),
{
}

/// Choosing a keyboard selects it, for the matcher and for good. A new scan
/// replaces the list and selects none; the matcher lets go of the keyboard, but the
/// stored choice stays.
pub proof fn law_keyboards_follow_the_user(
    app: &mut App,
    event: UiEvent,
    done: Effects,
    at: usize,
    found: Vec<KeyboardDeviceInfo>,
)
    requires
        event == UiEvent::SelectDevice(at) || event == UiEvent::Rescan(found),
        call_ensures(App::ui, (app, event), done),
    ensures
        event is SelectDevice ==> final(app).devices@ == old(app).devices@
            && final(app).selected_device == Some(at) && done.persist,
        event is Rescan ==> final(app).devices@ == found@ && final(app).selected_device is None
            && !done.persist,
        same_options(*old(app), *final(app)) && same_layers(*old(app), *final(app)) && same_entry(
            *old(app),
            *final(app),
        ),
        final(app).window_titles@ == old(app).window_titles@,
        done.sync && done.set_autostart is None && done.set_level is None,
{
}

/// Entering a pattern or a layer for a new rule, and picking a window, only change
/// what is entered. A new rule goes to the end of the list as it was entered, the
/// pattern is then empty again, and the layer stays.
pub proof fn law_new_rules_are_entered_then_added(
    app: &mut App,
    event: UiEvent,
    done: Effects,
    text: String,
    layer: u8,
    i: int,
)
    requires
        event == UiEvent::NewPattern(text) || event == UiEvent::NewLayer(layer) || event
            == UiEvent::PickWindow(text) || event is AddRule,
        call_ensures(App::ui, (app, event), done),
    ensures
        event is NewPattern ==> final(app).new_pattern@ == text@,
        event is PickWindow ==> final(app).new_pattern@ == escaped(text@),
        event is NewLayer ==> final(app).new_pattern@ == old(app).new_pattern@,
        event is AddRule ==> final(app).new_pattern@.len() == 0,
        final(app).new_layer == (if event is NewLayer {
            layer
        } else {
            old(app).new_layer
        }),
        final(app).rules@.len() == old(app).rules@.len() + if event is AddRule {
            1int
        } else {
            0int
        },
        0 <= i < old(app).rules@.len() ==> final(app).rules@[i] == old(app).rules@[i],
        event is AddRule ==> final(app).rules@.last().pattern@ == old(app).new_pattern@
            && final(app).rules@.last().layer == old(app).new_layer,
        final(app).default_layer == old(app).default_layer,
        same_keyboards(*old(app), *final(app)) && same_options(*old(app), *final(app)),
        final(app).window_titles@ == old(app).window_titles@,
        done.sync == (event is AddRule) && done.persist == (event is AddRule),
        done.set_autostart is None && done.set_level is None,
{
}

/// A fresh list of windows replaces the old one and does nothing else; a chosen
/// default layer is taken over by the matcher and stored.
pub proof fn law_windows_and_default_layer_follow_the_user(
    app: &mut App,
    event: UiEvent,
    done: Effects,
    titles: Vec<String>,
    layer: u8,
)
    requires
        event == UiEvent::Refresh(titles) || event == UiEvent::DefaultLayer(layer),
        call_ensures(App::ui, (app, event), done),
    ensures
        final(app).window_titles@ == (if event is Refresh {
            titles@
        } else {
            old(app).window_titles@
        }),
        final(app).default_layer == (if event is DefaultLayer {
            layer
        } else {
            old(app).default_layer
        }),
        final(app).rules@ == old(app).rules@,
        same_keyboards(*old(app), *final(app)) && same_options(*old(app), *final(app))
            && same_entry(*old(app), *final(app)),
        done.sync == (event is DefaultLayer) && done.persist == (event is DefaultLayer),
        done.set_autostart is None && done.set_level is None,
{
}

/// Editing a rule changes the rule at that place to what was entered, and no other;
/// the change is taken over by the matcher and stored.
pub proof fn law_editing_changes_that_rule_alone(
    app: &mut App,
    done: Effects,
    at: usize,
    pattern: String,
    layer: u8,
    j: int,
)
    requires
        at < old(app).rules@.len(),
        0 <= j < old(app).rules@.len(),
        call_ensures(App::ui, (app, UiEvent::EditRule { at, pattern, layer }), done),
    ensures
        final(app).rules@.len() == old(app).rules@.len(),
        final(app).rules@[at as int].pattern@ == pattern@,
        final(app).rules@[at as int].layer == layer,
        j != at ==> final(app).rules@[j] == old(app).rules@[j],
        final(app).default_layer == old(app).default_layer,
        same_keyboards(*old(app), *final(app)) && same_options(*old(app), *final(app))
            && same_entry(*old(app), *final(app)),
        final(app).window_titles@ == old(app).window_titles@,
        done.sync && done.persist && done.set_autostart is None && done.set_level is None,
{
}

/// Removing a rule takes out the rule at that place, even where one was dropped at
/// the same time: those above stay, those below move up by one.
pub proof fn law_removing_takes_that_rule_alone(
    app: &mut App,
    done: Effects,
    at: usize,
    dropped: Option<(usize, usize)>,
    j: int,
)
    requires
        at < old(app).rules@.len(),
        0 <= j < old(app).rules@.len(),
        call_ensures(App::ui, (app, UiEvent::Rules { removed: Some(at), dropped }), done),
    ensures
        final(app).rules@.len() == old(app).rules@.len() - 1,
        j < at ==> final(app).rules@[j] == old(app).rules@[j],
        j > at ==> final(app).rules@[j - 1] == old(app).rules@[j],
        final(app).default_layer == old(app).default_layer,
        same_keyboards(*old(app), *final(app)) && same_options(*old(app), *final(app))
            && same_entry(*old(app), *final(app)),
        final(app).window_titles@ == old(app).window_titles@,
        done.sync && done.persist && done.set_autostart is None && done.set_level is None,
{
}

/// Dropping a rule puts it directly in front of the one it was dropped on, the
/// others keep their order, and the change is taken over by the matcher and stored.
pub proof fn law_dropping_moves_that_rule_alone(
    app: &mut App,
    done: Effects,
    from: usize,
    before: usize,
    j: int,
)
    requires
        from < old(app).rules@.len(),
        before <= old(app).rules@.len(),
        0 <= j < old(app).rules@.len(),
        call_ensures(
            App::ui,
            (app, UiEvent::Rules { removed: None, dropped: Some((from, before)) }),
            done,
        ),
    ensures
        final(app).rules@.len() == old(app).rules@.len(),
        from < before ==> final(app).rules@[before - 1] == old(app).rules@[from as int],
        from >= before ==> final(app).rules@[before as int] == old(app).rules@[from as int],
        from < before && from < j < before ==> final(app).rules@[j - 1] == old(app).rules@[j],
        before < from && before <= j < from ==> final(app).rules@[j + 1] == old(app).rules@[j],
        j < from && j < before ==> final(app).rules@[j] == old(app).rules@[j],
        j > from && j >= before ==> final(app).rules@[j] == old(app).rules@[j],
        final(app).default_layer == old(app).default_layer,
        same_keyboards(*old(app), *final(app)) && same_options(*old(app), *final(app))
            && same_entry(*old(app), *final(app)),
        final(app).window_titles@ == old(app).window_titles@,
        done.sync && done.persist && done.set_autostart is None && done.set_level is None,
{
}

/// A look at the rule list without a change to it changes nothing.
pub proof fn law_looking_changes_nothing(app: &mut App, done: Effects)
    requires
        call_ensures(App::ui, (app, UiEvent::Rules { removed: None, dropped: None }), done),
    ensures
        same_keyboards(*old(app), *final(app)) && same_options(*old(app), *final(app))
            && same_layers(*old(app), *final(app)) && same_entry(*old(app), *final(app)),
        final(app).window_titles@ == old(app).window_titles@,
        !done.sync && !done.persist && done.set_autostart is None && done.set_level is None,
{
}

/// What can happen: an option is switched where it is offered, a place is on its
/// list, a rule is added with a pattern, and everything else always can.
pub proof fn law_what_can_happen(
    app: App,
    on: bool,
    at: usize,
    before: usize,
    text: String,
    layer: u8,
    found: Vec<KeyboardDeviceInfo>,
    titles: Vec<String>,
)
    ensures
        possible(app, UiEvent::StartMinimized(on)) <==> app.autostart,
        possible(app, UiEvent::Autostart(on)),
        possible(app, UiEvent::AlwaysOnTop(on)) <==> app.can_pin,
        possible(app, UiEvent::SelectDevice(at)) <==> at < app.devices@.len(),
        possible(app, UiEvent::Rescan(found)),
        possible(app, UiEvent::NewPattern(text)),
        possible(app, UiEvent::NewLayer(layer)),
        possible(app, UiEvent::AddRule) <==> app.new_pattern@.len() > 0,
        possible(app, UiEvent::PickWindow(text)),
        possible(app, UiEvent::Refresh(titles)),
        possible(app, UiEvent::DefaultLayer(layer)),
        possible(app, UiEvent::EditRule { at, pattern: text, layer }) <==> at < app.rules@.len(),
        possible(app, UiEvent::Rules { removed: Some(at), dropped: None }) <==> at
            < app.rules@.len(),
        possible(app, UiEvent::Rules { removed: None, dropped: Some((at, before)) }) <==> at
            < app.rules@.len() && before <= app.rules@.len(),
        possible(app, UiEvent::Rules { removed: None, dropped: None }),
        possible(app, UiEvent::Rules { removed: Some(at), dropped: Some((at, before)) }) <==> at
            < app.rules@.len() && before <= app.rules@.len(),
{
}

/// A rule can be added exactly if a pattern is entered.
pub proof fn law_rule_needs_a_pattern(app: App, can: bool)
    requires
        call_ensures(App::can_add, (&app,), can),
    ensures
        can <==> app.new_pattern@.len() > 0,
{
}

/// A fresh window shows what it is given: the keyboards, the rules and the default
/// layer of the matcher, the options as they are stored or set, nothing entered, and
/// the first keyboard on the list with the identity of the one in use.
pub proof fn law_fresh_window_shows_what_is_there(
    devices: Vec<KeyboardDeviceInfo>,
    shared: Shared,
    autostart: bool,
    stored: AppConfig,
    window_titles: Vec<String>,
    can_pin: bool,
    app: App,
    j: int,
)
    requires
        call_ensures(
            App::new,
            (devices, &shared, autostart, &stored, window_titles, can_pin),
            app,
        ),
    ensures
        app.devices@ == devices@,
        app.rules@ == shared.rules@,
        app.default_layer == shared.default_layer,
        app.autostart == autostart,
        app.start_minimized == stored.start_minimized,
        app.always_on_top == stored.always_on_top,
        app.can_pin == can_pin,
        app.new_pattern@.len() == 0,
        app.new_layer == 0,
        app.window_titles@ == window_titles@,
        shared.device is None ==> app.selected_device is None,
        shared.device matches Some(d) ==> (app.selected_device matches Some(k) ==> k
            < devices@.len() && devices@[k as int].vendor_id == d.vendor_id
            && devices@[k as int].product_id == d.product_id && chars_of(
            devices@[k as int].serial_number,
        ) == chars_of(d.serial_number)),
        shared.device matches Some(d) ==> 0 <= j < devices@.len() && devices@[j].vendor_id
            == d.vendor_id
            && devices@[j].product_id == d.product_id && chars_of(devices@[j].serial_number)
            == chars_of(d.serial_number) ==> (app.selected_device matches Some(k) && k <= j),
{
    if let Some(d) = shared.device {
        let fits = |dev: KeyboardDeviceInfo| is_same_keyboard(dev, d);
        if let Some(k) = app.selected_device {
            assert(fits(devices@[k as int]));
            if 0 <= j < k {
                assert(!fits(devices@[j]));
            }
        } else if 0 <= j < devices@.len() {
            assert(!fits(devices@[j]));
        }
    }
}

/// The selected keyboard is the one at the selected place, if the list reaches that
/// far.
pub proof fn law_selected_is_the_one_at_the_place(app: App, device: Option<KeyboardDeviceInfo>)
    requires
        call_ensures(App::selected, (&app,), device),
    ensures
        device is Some <==> (app.selected_device matches Some(i) && i < app.devices@.len()),
        device matches Some(d) ==> d == app.devices@[app.selected_device->0 as int],
{
}

/// What is stored are the rules, the default layer and the options as they are
/// shown, and the identity of the selected keyboard.
pub proof fn law_stored_is_what_is_shown(
    app: App,
    config: AppConfig,
    device: Option<KeyboardDeviceInfo>,
)
    requires
        call_ensures(App::persist, (&app,), config),
        call_ensures(App::selected, (&app,), device),
    ensures
        config.rules@ == app.rules@,
        config.default_layer == app.default_layer,
        config.start_minimized == app.start_minimized,
        config.always_on_top == app.always_on_top,
        config.device is Some <==> device is Some,
        config.device matches Some(r) ==> r.vendor_id == device->0.vendor_id && r.product_id
            == device->0.product_id && r.serial_number == device->0.serial_number,
{
}

/// The matcher gets the rules, the default layer and the selected keyboard as they
/// are shown, and keeps what it has seen, sent and met.
pub proof fn law_matcher_gets_what_is_shown(
    app: App,
    shared: &mut Shared,
    device: Option<KeyboardDeviceInfo>,
)
    requires
        call_ensures(App::sync_shared, (&app, shared), ()),
        call_ensures(App::selected, (&app,), device),
    ensures
        final(shared).rules@ == app.rules@,
        final(shared).default_layer == app.default_layer,
        final(shared).device == device,
        final(shared).last_title == old(shared).last_title,
        final(shared).last_layer_sent == old(shared).last_layer_sent,
        final(shared).hid_error == old(shared).hid_error,
{
}

/// The keyboard list shows the label of the selected keyboard, or that there is none.
pub proof fn law_selected_keyboard_is_shown(
    app: App,
    text: String,
    device: Option<KeyboardDeviceInfo>,
    label: String,
)
    requires
        call_ensures(App::selected_text, (&app,), text),
        call_ensures(App::selected, (&app,), device),
        device matches Some(d) ==> call_ensures(KeyboardDeviceInfo::label, (&d,), label),
    ensures
        device is Some ==> text@ == label@,
        device is None ==> text@ == "No keyboard selected"@,
{
}

/// The window is kept on top exactly if that is asked for; it can be everywhere but
/// on Linux with a Wayland display, and is in effect only where it can be.
pub proof fn law_pinning(
    on: bool,
    linux: bool,
    wayland: bool,
    chosen_level: WindowLevel,
    supported: bool,
    effective: bool,
)
    requires
        call_ensures(window_level, (on,), chosen_level),
        call_ensures(always_on_top_supported, (linux, wayland), supported),
        call_ensures(always_on_top_effective, (supported, on), effective),
    ensures
        chosen_level == WindowLevel::AlwaysOnTop <==> on,
        supported <==> !linux || !wayland,
        effective <==> on && supported,
{
}

/// A layer is listed by the word and its number.
pub proof fn law_layer_label_shows_the_number(layer: u8, text: String)
    requires
        call_ensures(layer_label, (layer,), text),
    ensures
        text@.take(6) == "Layer "@,
        crate::text::value(text@.skip(6), 10) == layer,
        layer > 0 ==> text@[6] != '0',
        layer == 0 ==> text@.len() == 7,
{
    reveal_strlit("Layer ");
    crate::text::law_decimal_reads_back(layer as nat);
    assert(text@.take(6) =~= "Layer "@);
    assert(text@.skip(6) =~= decimal(layer as nat));
    assert(text@[6] == text@.skip(6)[0]);
}

/// The layers to choose from are 0 to 9, in order.
pub proof fn law_layers_count_up(layers: Vec<u8>, i: int)
    requires
        call_ensures(layer_choices, (), layers),
        0 <= i < 10,
    ensures
        layers@.len() == 10,
        layers@[i] == i,
{
}

/// The status shows the title last seen, the layer last sent and the error last met,
/// each as it is, and a dash where there is no title or layer; the keyboard counts
/// as connected exactly without an error.
pub proof fn law_status_shows_the_matcher(shared: Shared, owner: Option<String>, shown: Status)
    requires
        call_ensures(status, (&shared, &owner), shown),
    ensures
        shown.connected <==> shared.hid_error is None,
        shared.last_title matches Some(t) ==> shown.active_window@ == t@,
        shared.last_title is None ==> shown.active_window@ == "-"@,
        shared.last_layer_sent matches Some(l) ==> crate::text::value(shown.last_layer@, 10) == l,
        shared.last_layer_sent is None ==> shown.last_layer@ == "-"@,
        shown.error is Some <==> shared.hid_error is Some,
        shared.hid_error matches Some(e) ==> (shown.error matches Some(text) && text@
            == "HID error: "@ + e@),
        shown.owner is Some <==> owner is Some,
        owner matches Some(o) ==> (shown.owner matches Some(text) && text@ == "(owner: "@ + o@
            + ")"@),
{
    if let Some(l) = shared.last_layer_sent {
        crate::text::law_decimal_reads_back(l as nat);
    }
}

/// The idle window redraws itself every two seconds.
pub proof fn law_idle_window_redraws()
    ensures
        GUI_REPAINT_INTERVAL_S == 2,
{
}

} // verus!
