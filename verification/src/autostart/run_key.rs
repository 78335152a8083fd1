//! The per-user `Run` registry key.
use vstd::prelude::*;

verus! {

/// What enabling or disabling does to the registry value.
pub enum ValueChange {
    /// Leave it alone.
    Nothing,
    /// Set it to this text.
    Store(String),
    /// Delete it.
    Delete,
}

/// Whether the program starts at login: `value_read` tells whether the value
/// could be read as text.
pub fn is_enabled(value_read: bool) -> (enabled: bool)
    ensures
        enabled == value_read,
{
    value_read
}

/// The change that enabling or disabling calls for.
pub open spec fn called_for(enabled: bool, key_open: bool, exe: Option<String>) -> ValueChange {
    if !key_open {
        ValueChange::Nothing
    } else if enabled {
        match exe {
            Some(path) => ValueChange::Store(path),
            None => ValueChange::Nothing,
        }
    } else {
        ValueChange::Delete
    }
}

/// Whether the value is there after a change was carried out.
pub open spec fn there_after(change: ValueChange, there: bool) -> bool {
    match change {
        ValueChange::Nothing => there,
        ValueChange::Store(_) => true,
        ValueChange::Delete => false,
    }
}

/// What has to be done to the registry value. Nothing where the key cannot be
/// opened for writing, or where the program does not know its own path (`exe`).
pub fn set_enabled(enabled: bool, key_open: bool, exe: Option<String>) -> (change: ValueChange)
    ensures
        change == called_for(enabled, key_open, exe),
{
    if !key_open {
        ValueChange::Nothing
    } else if enabled {
        match exe {
            Some(path) => ValueChange::Store(path),
            None => ValueChange::Nothing,
        }
    } else {
        ValueChange::Delete
    }
}

/// Once the change is carried out, the program starts at login exactly if that
/// was asked for, provided the key can be written and the program knows its own
/// path.
pub proof fn law_setting_sticks(enabled: bool, exe: Option<String>, there: bool)
    requires
        exe is Some,
    ensures
        there_after(called_for(enabled, true, exe), there) == enabled,
{
}

/// The value stored is the program's own path; without a key or a path nothing is
/// touched, and disabling deletes the value.
pub proof fn law_value_is_the_path(
    path: String,
    exe: Option<String>,
    enabled: bool,
    stored: ValueChange,
    keyless: ValueChange,
    pathless: ValueChange,
    disabled: ValueChange,
)
    requires
        call_ensures(set_enabled, (true, true, Some(path)), stored),
        call_ensures(set_enabled, (enabled, false, exe), keyless),
        call_ensures(set_enabled, (true, true, None), pathless),
        call_ensures(set_enabled, (false, true, exe), disabled),
    ensures
        stored matches ValueChange::Store(text) && text@ == path@,
        keyless is Nothing,
        pathless is Nothing,
        disabled is Delete,
{
}

/// The program starts at login exactly if the value can be read.
pub proof fn law_enabled_if_the_value_is_there(read: bool, enabled: bool)
    requires
        call_ensures(is_enabled, (read,), enabled),
    ensures
        enabled == read,
{
}

} // verus!
