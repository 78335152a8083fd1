//! The XDG autostart entry.
use vstd::prelude::*;

verus! {

/// What enabling or disabling does to the entry file.
pub enum EntryChange {
    /// Leave it alone.
    Nothing,
    /// Write it, with these contents.
    Write(String),
    /// Delete it.
    Remove,
}

/// The entry that starts the program at `exe`.
pub open spec fn entry(exe: Seq<char>) -> Seq<char> {
    "[Desktop Entry]\nType=Application\nName=layerhook\nExec="@ + exe
        + "\nX-GNOME-Autostart-enabled=true\n"@
}

/// Whether the program starts at login: `entry_exists` tells whether the entry
/// file is there, and is `None` where there is no place for one.
pub fn is_enabled(entry_exists: Option<bool>) -> (enabled: bool)
    ensures
        enabled == (entry_exists == Some(true)),
{
    match entry_exists {
        Some(exists_there) => exists_there,
        None => false,
    }
}

/// The change that enabling or disabling calls for.
pub open spec fn calls_for(
    enabled: bool,
    place_known: bool,
    exe: Option<String>,
    change: EntryChange,
) -> bool {
    if !place_known {
        change is Nothing
    } else if enabled {
        match exe {
            Some(path) => change matches EntryChange::Write(contents) && contents@ == entry(path@),
            None => change is Nothing,
        }
    } else {
        change is Remove
    }
}

/// What has to be done to the entry file. Nothing where there is no place for
/// it, or where the program does not know its own path (`exe`).
pub fn set_enabled(enabled: bool, place_known: bool, exe: Option<String>) -> (change: EntryChange)
    ensures
        calls_for(enabled, place_known, exe, change),
{
    if !place_known {
        EntryChange::Nothing
    } else if enabled {
        match exe {
            Some(path) => {
                let mut contents =
                    "[Desktop Entry]\nType=Application\nName=layerhook\nExec=".to_owned();
                contents.append(path.as_str());
                contents.append("\nX-GNOME-Autostart-enabled=true\n");
                EntryChange::Write(contents)
            },
            None => EntryChange::Nothing,
        }
    } else {
        EntryChange::Remove
    }
}

/// Whether the entry file is there after a change was carried out.
pub open spec fn there_after(change: EntryChange, there: bool) -> bool {
    match change {
        EntryChange::Nothing => there,
        EntryChange::Write(_) => true,
        EntryChange::Remove => false,
    }
}

/// Once the change is carried out, the program starts at login exactly if that
/// was asked for, provided it knows the place of the entry and its own path.
pub proof fn law_setting_sticks(
    enabled: bool,
    exe: Option<String>,
    change: EntryChange,
    there: bool,
)
    requires
        exe is Some,
        calls_for(enabled, true, exe, change),
    ensures
        there_after(change, there) == enabled,
{
}

/// The entry runs the program at its own path: what stands between the fixed start
/// and the fixed end is the path.
pub proof fn law_entry_runs_the_program(exe: String, change: EntryChange)
    requires
        call_ensures(set_enabled, (true, true, Some(exe)), change),
    ensures
        ({
            let head = "[Desktop Entry]\nType=Application\nName=layerhook\nExec="@;
            let tail = "\nX-GNOME-Autostart-enabled=true\n"@;
            &&& change matches EntryChange::Write(contents)
            &&& contents@.len() == head.len() + exe@.len() + tail.len()
            &&& contents@.take(head.len() as int) == head
            &&& contents@.subrange(head.len() as int, (head.len() + exe@.len()) as int) == exe@
            &&& contents@.skip((head.len() + exe@.len()) as int) == tail
        }),
{
    let head = "[Desktop Entry]\nType=Application\nName=layerhook\nExec="@;
    let tail = "\nX-GNOME-Autostart-enabled=true\n"@;
    let contents = change->Write_0@;
    assert(contents.take(head.len() as int) =~= head);
    assert(contents.subrange(head.len() as int, (head.len() + exe@.len()) as int) =~= exe@);
    assert(contents.skip((head.len() + exe@.len()) as int) =~= tail);
}

/// Enabling without a known place or path, and disabling without a place, leave the
/// file alone; disabling with a place removes it.
pub proof fn law_entry_is_changed_only_where_it_can_be(
    exe: Option<String>,
    enabled: bool,
    homeless: EntryChange,
    pathless: EntryChange,
    disabled: EntryChange,
)
    requires
        call_ensures(set_enabled, (enabled, false, exe), homeless),
        call_ensures(set_enabled, (true, true, None), pathless),
        call_ensures(set_enabled, (false, true, exe), disabled),
    ensures
        homeless is Nothing,
        pathless is Nothing,
        disabled is Remove,
{
}

/// The program starts at login exactly if the entry is known to be there.
pub proof fn law_enabled_if_the_entry_is_there(there: bool, known: bool, unknown: bool)
    requires
        call_ensures(is_enabled, (Some(there),), known),
        call_ensures(is_enabled, (None,), unknown),
    ensures
        known == there,
        !unknown,
{
}

} // verus!
