//! The settings that survive a restart.
use crate::text::copy_text;
use vstd::prelude::*;

verus! {

/// A window whose title matches `pattern` wants `layer`.
pub struct Rule {
    pub pattern: String,
    pub layer: u8,
}

impl Clone for Rule {
    fn clone(&self) -> (copy: Self)
        ensures
            copy == *self,
    {
        Rule { pattern: self.pattern.clone(), layer: self.layer }
    }
}

/// The identity under which a keyboard is remembered.
pub struct DeviceRef {
    pub vendor_id: u16,
    pub product_id: u16,
    pub serial_number: Option<String>,
}

impl Clone for DeviceRef {
    fn clone(&self) -> (copy: Self)
        ensures
            copy == *self,
    {
        DeviceRef {
            vendor_id: self.vendor_id,
            product_id: self.product_id,
            serial_number: copy_text(&self.serial_number),
        }
    }
}

/// Everything that is stored between runs.
pub struct AppConfig {
    pub rules: Vec<Rule>,
    pub device: Option<DeviceRef>,
    /// Layer to fall back to when the focused window matches no rule.
    pub default_layer: u8,
    /// Skip showing the main window on launch. Only applied when autostart is
    /// also enabled: a manual launch always shows the window.
    pub start_minimized: bool,
    /// Keep the main window above others, where the window system can.
    pub always_on_top: bool,
}

impl Clone for AppConfig {
    fn clone(&self) -> (copy: Self)
        ensures
            copy == (AppConfig { rules: copy.rules, ..*self }),
            copy.rules@ == self.rules@,
    {
        AppConfig {
            rules: copy_rules(&self.rules),
            device: match &self.device {
                Some(d) => Some(d.clone()),
                None => None,
            },
            default_layer: self.default_layer,
            start_minimized: self.start_minimized,
            always_on_top: self.always_on_top,
        }
    }
}

/// The settings of a first run: no rules, no keyboard, layer 0, all options off.
pub open spec fn is_first_run(config: AppConfig) -> bool {
    &&& config.rules@ == Seq::<Rule>::empty()
    &&& config.device is None
    &&& config.default_layer == 0
    &&& !config.start_minimized
    &&& !config.always_on_top
}

impl Default for AppConfig {
    fn default() -> (config: Self)
        ensures
            is_first_run(config),
    {
        AppConfig {
            rules: Vec::new(),
            device: None,
            default_layer: 0,
            start_minimized: false,
            always_on_top: false,
        }
    }
}

impl AppConfig {
    /// The settings of a run: those stored, or the defaults where there is no
    /// file, or none that can be read. `stored` is what the file holds.
    pub fn load(stored: Option<AppConfig>) -> (config: Self)
        ensures
            match stored {
                Some(c) => config == c,
                None => is_first_run(config),
            },
    {
        match stored {
            Some(c) => c,
            None => AppConfig::default(),
        }
    }

    /// What saving writes: the settings as `json`, unless there is no place to
    /// put them or they could not be encoded.
    pub fn save(place_known: bool, json: Option<String>) -> (written: Option<String>)
        ensures
            written == (if place_known { json } else { None }),
    {
        if place_known {
            json
        } else {
            None
        }
    }
}

/// Copies a list of rules.
pub fn copy_rules(rules: &Vec<Rule>) -> (copy: Vec<Rule>)
    ensures
        copy@ == rules@,
{
    let copy = rules.clone();
    assert(copy@ =~= rules@);
    copy
}

/// What was stored comes back as it was; without a readable file there are no
/// rules, no keyboard, layer 0, and no option is on.
pub proof fn law_loading_keeps_what_was_stored(
    stored: AppConfig,
    loaded: AppConfig,
    fresh: AppConfig,
)
    requires
        call_ensures(AppConfig::load, (Some(stored),), loaded),
        call_ensures(AppConfig::load, (None,), fresh),
    ensures
        loaded == stored,
        fresh.rules@.len() == 0,
        fresh.device is None,
        fresh.default_layer == 0,
        !fresh.start_minimized,
        !fresh.always_on_top,
{
}

/// The settings are written as they were encoded, and only where there is a place
/// for them.
pub proof fn law_saving_writes_what_was_encoded(
    json: Option<String>,
    placed: Option<String>,
    homeless: Option<String>,
)
    requires
        call_ensures(AppConfig::save, (true, json), placed),
        call_ensures(AppConfig::save, (false, json), homeless),
    ensures
        placed == json,
        homeless is None,
{
}

/// A copy of a rule list has the same rules in the same places.
pub proof fn law_copied_rules_are_the_same(rules: Vec<Rule>, copy: Vec<Rule>)
    requires
        call_ensures(copy_rules, (&rules,), copy),
    ensures
        copy@.len() == rules@.len(),
        forall|i: int| 0 <= i < rules@.len() ==> #[trigger] copy@[i] == rules@[i],
{
}

/// A copy of the settings holds the same settings.
pub proof fn law_copied_settings_are_the_same(config: AppConfig, copy: AppConfig)
    requires
        call_ensures(AppConfig::clone, (&config,), copy),
    ensures
        copy.rules@ == config.rules@,
        copy.device == config.device,
        copy.default_layer == config.default_layer,
        copy.start_minimized == config.start_minimized,
        copy.always_on_top == config.always_on_top,
{
}

} // verus!
