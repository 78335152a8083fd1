//! Windows: the foreground window, shown as `[program.exe]:title`.
use crate::text::{chars_of, copy_text, reads, utf16, utf16_text};
use vstd::prelude::*;
use vstd::slice::slice_subrange;

verus! {

/// How many owners up a title is looked for.
pub const OWNER_LIMIT: u8 = 8;

/// The room to read a window's text into: its length and one more for the
/// terminator; `None` for a window without text.
pub fn text_room(length: i32) -> (units: Option<usize>)
    requires
        0 <= length < i32::MAX,
    ensures
        units == (if length == 0 {
            None
        } else {
            Some((length + 1) as usize)
        }),
{
    if length == 0 {
        None
    } else {
        Some((length + 1) as usize)
    }
}

/// The text of a window, of which `copied` units were read into `units`.
pub fn window_text(units: &[u16], copied: usize) -> (text: Option<String>)
    requires
        copied <= units@.len(),
    ensures
        chars_of(text) == (if copied == 0 {
            None
        } else {
            Some(utf16(units@.take(copied as int)))
        }),
{
    if copied == 0 {
        None
    } else {
        let part = slice_subrange(units, 0, copied);
        assert(part@ =~= units@.take(copied as int));
        Some(utf16_text(part))
    }
}

/// What becomes of the note on the owner.
pub enum NoteChange {
    /// It stays.
    Keep,
    /// It goes.
    Clear,
    /// It says this.
    Show(String),
}

/// The title of the owner, while that stands in for a focused window without a
/// title of its own.
pub struct OwnerNote {
    pub note: Option<String>,
}

impl OwnerNote {
    /// Starts out empty.
    pub fn new() -> (note: Self)
        ensures
            note.note is None,
    {
        OwnerNote { note: None }
    }

    /// The note as it is shown.
    pub fn owner_note(&self) -> (note: Option<String>)
        ensures
            note == self.note,
    {
        copy_text(&self.note)
    }

    /// Changes the note.
    pub fn change(&mut self, change: NoteChange)
        ensures
            final(self).note == (match change {
                NoteChange::Keep => old(self).note,
                NoteChange::Clear => None,
                NoteChange::Show(text) => Some(text),
            }),
    {
        match change {
            NoteChange::Keep => {},
            NoteChange::Clear => {
                self.note = None;
            },
            NoteChange::Show(text) => {
                self.note = Some(text);
            },
        }
    }
}

/// What was found out of a window on the way up.
pub enum Found {
    /// There is no such window: the last one has no owner.
    NoOwner,
    /// It has this text, or none.
    Text(Option<String>),
}

/// A step on the way up.
pub enum OwnerStep {
    /// Look at the owner of the last window.
    AskOwner,
    /// The title is this, and the note changes so.
    Done { title: Option<String>, note: NoteChange },
}

/// One step of finding a title for a window: its own text, or that of the
/// nearest owner that has one. `asked` counts the owners looked at so far, so
/// that with 0 `found` speaks of the window itself.
pub fn window_text_via_owner(asked: u8, found: Found) -> (step: OwnerStep)
    ensures
        climbs(asked, found, step),
{
    match found {
        Found::NoOwner => OwnerStep::Done { title: None, note: NoteChange::Clear },
        Found::Text(Some(text)) => if asked == 0 {
            OwnerStep::Done { title: Some(text), note: NoteChange::Clear }
        } else {
            OwnerStep::Done { title: Some(text.clone()), note: NoteChange::Show(text) }
        },
        Found::Text(None) => if asked < OWNER_LIMIT {
            OwnerStep::AskOwner
        } else {
            OwnerStep::Done { title: None, note: NoteChange::Clear }
        },
    }
}

/// The step that follows what was found.
pub open spec fn climbs(asked: u8, found: Found, step: OwnerStep) -> bool {
    step == (match found {
        Found::NoOwner => OwnerStep::Done { title: None, note: NoteChange::Clear },
        Found::Text(Some(text)) => if asked == 0 {
            OwnerStep::Done { title: Some(text), note: NoteChange::Clear }
        } else {
            OwnerStep::Done { title: Some(text), note: NoteChange::Show(text) }
        },
        Found::Text(None) => if asked < OWNER_LIMIT {
            OwnerStep::AskOwner
        } else {
            OwnerStep::Done { title: None, note: NoteChange::Clear }
        },
    })
}

/// What separates the parts of a path.
pub open spec fn is_separator(c: char) -> bool {
    c == '\\' || c == '/'
}

/// What follows the last separator of a path.
pub open spec fn file_name(path: Seq<char>) -> Seq<char>
    decreases path.len(),
{
    if path.len() == 0 {
        seq![]
    } else if is_separator(path.last()) {
        seq![]
    } else {
        file_name(path.drop_last()).push(path.last())
    }
}

/// The last part of a path.
pub fn exe_name(path: &str) -> (name: String)
    ensures
        name@ == file_name(path@),
{
    let mut name = String::new();
    for c in walk: path.chars()
        invariant
            walk.seq() == path@,
            name@ == file_name(path@.take(walk.index())),
    {
        proof {
            assert(path@.take(walk.index() + 1).drop_last() =~= path@.take(walk.index()));
        }
        if c == '\\' || c == '/' {
            name = String::new();
        } else {
            name.push(c);
        }
    }
    assert(path@.take(path@.len() as int) =~= path@);
    name
}

/// The program that a window belongs to: the file name of its image. Unknown
/// without a process number (`pid` 0), or where the process does not tell its
/// image (`image`).
pub fn process_exe_name(pid: u32, image: Option<Vec<u16>>) -> (name: Option<String>)
    ensures
        chars_of(name) == (match image {
            Some(units) => if pid == 0 {
                None
            } else {
                Some(file_name(utf16(units@)))
            },
            None => None,
        }),
{
    match image {
        Some(units) => if pid == 0 {
            None
        } else {
            Some(exe_name(utf16_text(units.as_slice()).as_str()))
        },
        None => None,
    }
}

/// The label of a window.
pub open spec fn label(exe: Option<Seq<char>>, title: Option<Seq<char>>) -> Seq<char> {
    let e = match exe {
        Some(name) => name,
        None => "(unknown)"@,
    };
    let t = match title {
        Some(text) => text,
        None => "(null)"@,
    };
    "["@ + e + "]:"@ + t
}

/// The label of a window, which is what rules are matched against: its program
/// and its title.
pub fn window_label(exe: Option<String>, title: Option<String>) -> (text: String)
    ensures
        text@ == label(chars_of(exe), chars_of(title)),
{
    let mut text = "[".to_owned();
    match exe {
        Some(name) => text.append(name.as_str()),
        None => text.append("(unknown)"),
    }
    text.append("]:");
    match title {
        Some(t) => text.append(t.as_str()),
        None => text.append("(null)"),
    }
    text
}

/// Whether a window is listed: it is visible and has a text of its own.
pub open spec fn listed(visible: bool, text: Option<Seq<char>>) -> bool {
    visible && match text {
        Some(t) => t.len() > 0,
        None => false,
    }
}

/// Whether a window is listed.
pub fn is_listed(visible: bool, text: &Option<String>) -> (yes: bool)
    ensures
        yes == listed(visible, chars_of(*text)),
{
    visible && match text {
        Some(t) => !t.as_str().is_empty(),
        None => false,
    }
}

/// An open window as it was visited.
pub struct OpenWindow {
    pub visible: bool,
    /// Its own text.
    pub text: Option<String>,
    /// The program it belongs to.
    pub exe: Option<String>,
    /// Its title, which can be that of an owner.
    pub title: Option<String>,
}

/// The labels of the windows that are listed, in the order of the visit.
pub open spec fn listed_labels(visited: Seq<OpenWindow>) -> Seq<Seq<char>> {
    visited.filter(|w: OpenWindow| listed(w.visible, chars_of(w.text))).map_values(
        |w: OpenWindow| label(chars_of(w.exe), chars_of(w.title)),
    )
}

proof fn lemma_listed_labels_push(visited: Seq<OpenWindow>, w: OpenWindow)
    ensures
        listed_labels(visited.push(w)) == (if listed(w.visible, chars_of(w.text)) {
            listed_labels(visited).push(label(chars_of(w.exe), chars_of(w.title)))
        } else {
            listed_labels(visited)
        }),
{
    reveal(Seq::filter);
    assert(visited.push(w).drop_last() =~= visited);
    assert(listed_labels(visited.push(w)) =~= (if listed(w.visible, chars_of(w.text)) {
        listed_labels(visited).push(label(chars_of(w.exe), chars_of(w.title)))
    } else {
        listed_labels(visited)
    }));
}

/// The open windows to choose from: the labels of exactly the listed ones.
pub fn list_window_titles(visited: Vec<OpenWindow>) -> (titles: Vec<String>)
    ensures
        titles@.map_values(|t: String| t@) == listed_labels(visited@),
{
    let mut titles: Vec<String> = Vec::new();
    let mut i: usize = 0;
    proof {
        reveal(Seq::filter);
        assert(titles@.map_values(|t: String| t@) =~= listed_labels(visited@.take(0)));
    }
    while i < visited.len()
        invariant
            i <= visited@.len(),
            titles@.map_values(|t: String| t@) == listed_labels(visited@.take(i as int)),
        decreases visited@.len() - i,
    {
        let w = &visited[i];
        proof {
            lemma_listed_labels_push(visited@.take(i as int), *w);
            assert(visited@.take(i as int).push(*w) =~= visited@.take(i + 1));
        }
        if is_listed(w.visible, &w.text) {
            let ghost before = titles@;
            let text = window_label(copy_text(&w.exe), copy_text(&w.title));
            titles.push(text);
            assert(titles@.map_values(|t: String| t@) =~= before.map_values(|t: String| t@).push(
                text@,
            ));
        }
        i = i + 1;
    }
    assert(visited@.take(i as int) =~= visited@);
    titles
}

/// The window classes of the task switchers.
pub open spec fn is_switcher_class(class: Seq<char>) -> bool {
    ||| class == "XamlExplorerHostIslandWindow"@
    ||| class == "MultitaskingViewFrame"@
    ||| class == "TaskSwitcherWnd"@
}

/// Whether a window of this class is a task switcher.
pub fn is_switcher(class: &[u16]) -> (switcher: bool)
    ensures
        switcher == is_switcher_class(utf16(class@)),
{
    let name = utf16_text(class);
    reads(name.as_str(), "XamlExplorerHostIslandWindow") || reads(
        name.as_str(),
        "MultitaskingViewFrame",
    ) || reads(name.as_str(), "TaskSwitcherWnd")
}

/// Whether a window can stand for the foreground: it is visible, has a text and is
/// not a task switcher.
pub fn is_top_window(visible: bool, has_text: bool, switcher: bool) -> (top: bool)
    ensures
        top == (visible && has_text && !switcher),
{
    visible && has_text && !switcher
}

/// A window as it was visited on the way down from the top.
#[derive(Clone, Copy)]
pub struct StackedWindow {
    pub handle: isize,
    pub visible: bool,
    pub has_text: bool,
    pub switcher: bool,
}

/// Whether a window can stand for the foreground.
pub open spec fn is_top(w: StackedWindow) -> bool {
    w.visible && w.has_text && !w.switcher
}

/// The first window from the top that can stand for the foreground.
pub open spec fn first_top(visited: Seq<StackedWindow>) -> Option<isize>
    decreases visited.len(),
{
    if visited.len() == 0 {
        None
    } else if is_top(visited[0]) {
        Some(visited[0].handle)
    } else {
        first_top(visited.skip(1))
    }
}

/// The first window from the top that can stand for the foreground.
pub fn top_window(visited: &Vec<StackedWindow>) -> (top: Option<isize>)
    ensures
        top == first_top(visited@),
{
    let mut i: usize = 0;
    assert(visited@.skip(0) =~= visited@);
    while i < visited.len()
        invariant
            i <= visited@.len(),
            first_top(visited@.skip(i as int)) == first_top(visited@),
        decreases visited@.len() - i,
    {
        let w = &visited[i];
        if is_top_window(w.visible, w.has_text, w.switcher) {
            return Some(w.handle);
        }
        assert(visited@.skip(i as int).skip(1) =~= visited@.skip(i + 1));
        i = i + 1;
    }
    None
}

/// How the foreground window is determined. Windows go by their handles.
pub enum ForegroundStep {
    /// It is this one, or there is none.
    Use(Option<isize>),
    /// Visit the windows from the top.
    VisitWindows,
}

/// The foreground window. After Alt+Tab the switcher can keep the foreground;
/// then the topmost window counts, and the switcher only if there is none.
/// `visited` are the windows from the top, once they were visited.
pub fn effective_foreground(
    foreground: Option<isize>,
    switcher: bool,
    visited: &Option<Vec<StackedWindow>>,
) -> (step: ForegroundStep)
    ensures
        step == (if foreground is None || !switcher {
            ForegroundStep::Use(foreground)
        } else {
            match *visited {
                None => ForegroundStep::VisitWindows,
                Some(windows) => ForegroundStep::Use(
                    match first_top(windows@) {
                        Some(top) => Some(top),
                        None => foreground,
                    },
                ),
            }
        }),
{
    if foreground.is_none() || !switcher {
        ForegroundStep::Use(foreground)
    } else {
        match visited {
            None => ForegroundStep::VisitWindows,
            Some(windows) => match top_window(windows) {
                Some(top) => ForegroundStep::Use(Some(top)),
                None => ForegroundStep::Use(foreground),
            },
        }
    }
}

/// What the system announced.
#[derive(Clone, Copy, PartialEq, Eq, Structural)]
pub enum HookEvent {
    /// A window came to the foreground.
    Foreground,
    /// Alt+Tab ended.
    SwitchEnd,
    /// Something else.
    Other,
}

/// Which window an announcement is about.
#[derive(Clone, Copy, PartialEq, Eq, Structural)]
pub enum Subject {
    /// The one it names.
    Named,
    /// The foreground window, which has to be determined.
    Foreground,
    /// None: it is ignored.
    Nothing,
}

/// Which window an announcement is about. Alt+Tab may end without the window
/// that got the focus being announced.
pub fn subject(event: HookEvent) -> (about: Subject)
    ensures
        about == (match event {
            HookEvent::Foreground => Subject::Named,
            HookEvent::SwitchEnd => Subject::Foreground,
            HookEvent::Other => Subject::Nothing,
        }),
{
    match event {
        HookEvent::Foreground => Subject::Named,
        HookEvent::SwitchEnd => Subject::Foreground,
        HookEvent::Other => Subject::Nothing,
    }
}

/// What the matcher is told and what becomes of the note on the owner.
pub struct Report {
    pub title: Option<String>,
    pub note: NoteChange,
}

/// The report on the focused window; `label` is `None` where there is none, and
/// then there is no note either.
pub fn report(label: Option<String>) -> (report: Report)
    ensures
        report.title == label,
        report.note == (if label is None {
            NoteChange::Clear
        } else {
            NoteChange::Keep
        }),
{
    let note = if label.is_none() {
        NoteChange::Clear
    } else {
        NoteChange::Keep
    };
    Report { title: label, note }
}

/// The window that stands for the foreground is the topmost that can, and there is
/// none only if no window can.
pub proof fn law_top_window_is_the_first(visited: Seq<StackedWindow>)
    ensures
        match first_top(visited) {
            Some(handle) => exists|i: int|
                0 <= i < visited.len() && is_top(#[trigger] visited[i]) && visited[i].handle
                    == handle && forall|j: int| 0 <= j < i ==> !is_top(#[trigger] visited[j]),
            None => forall|i: int| 0 <= i < visited.len() ==> !is_top(#[trigger] visited[i]),
        },
    decreases visited.len(),
{
    if visited.len() > 0 && !is_top(visited[0]) {
        let rest = visited.skip(1);
        law_top_window_is_the_first(rest);
        match first_top(visited) {
            Some(handle) => {
                let i = choose|i: int|
                    0 <= i < rest.len() && is_top(#[trigger] rest[i]) && rest[i].handle == handle
                        && forall|j: int| 0 <= j < i ==> !is_top(#[trigger] rest[j]);
                assert(visited[i + 1] == rest[i]);
                assert forall|j: int| 0 <= j < i + 1 implies !is_top(#[trigger] visited[j]) by {
                    if j > 0 {
                        assert(rest[j - 1] == visited[j]);
                    }
                }
            },
            None => {
                assert forall|i: int| 0 <= i < visited.len() implies !is_top(#[trigger] visited[i]) by {
                    if i > 0 {
                        assert(rest[i - 1] == visited[i]);
                    }
                }
            },
        }
    }
}

/// The way up ends: no more than the limit of owners is ever asked for.
pub proof fn law_way_up_is_bounded(asked: u8, found: Found, step: OwnerStep)
    requires
        climbs(asked, found, step),
    ensures
        step is AskOwner ==> asked < OWNER_LIMIT,
{
}

/// A note is shown exactly for a title that came from an owner, and is then that
/// title; whatever else the way up ends with, the note goes, so that none is left
/// from a window before.
pub proof fn law_note_shows_the_owner(asked: u8, found: Found, step: OwnerStep)
    requires
        climbs(asked, found, step),
    ensures
        step matches OwnerStep::Done { title, note } ==> ((note is Show <==> asked > 0
            && title is Some) && (note matches NoteChange::Show(text) ==> title == Some(text)) && !(
        note is Keep)),
{
}

/// The file name of a path holds no separator, and is the end of the path.
pub proof fn law_file_name(path: Seq<char>)
    ensures
        forall|i: int| 0 <= i < file_name(path).len() ==> !is_separator(file_name(path)[i]),
        file_name(path).len() <= path.len(),
        file_name(path) == path.skip(path.len() - file_name(path).len()),
        file_name(path).len() < path.len() ==> is_separator(
            path[path.len() - file_name(path).len() - 1],
        ),
    decreases path.len(),
{
    if path.len() > 0 && !is_separator(path.last()) {
        law_file_name(path.drop_last());
        assert(file_name(path) =~= path.skip(path.len() - file_name(path).len()));
    } else {
        assert(file_name(path) =~= path.skip(path.len() - file_name(path).len()));
    }
}

/// The label of any window of a program starts with the program in brackets, so
/// that one pattern covers all its windows, even those without a title.
pub proof fn law_label_starts_with_the_program(exe: Seq<char>, title: Option<Seq<char>>)
    ensures
        label(Some(exe), title).take(exe.len() as int + 3) == "["@ + exe + "]:"@,
{
    reveal_strlit("[");
    reveal_strlit("]:");
    assert(label(Some(exe), title).take(exe.len() as int + 3) =~= "["@ + exe + "]:"@);
}

/// The room for a text is one unit more than the text is long, and none is needed
/// for no text.
pub proof fn law_room_for_the_terminator(length: i32, room: Option<usize>)
    requires
        0 <= length < i32::MAX,
        call_ensures(text_room, (length,), room),
    ensures
        room is None <==> length == 0,
        room matches Some(units) ==> units == length + 1,
{
}

/// The text of a window is what was copied, decoded, and nothing that stands behind
/// it in the room; a window of which nothing was copied has none.
pub proof fn law_text_is_what_was_copied(
    units: &[u16],
    copied: usize,
    text: Option<String>,
    written: Seq<char>,
)
    requires
        copied <= units@.len(),
        call_ensures(window_text, (units, copied), text),
    ensures
        text is None <==> copied == 0,
        text matches Some(t) ==> t@ == utf16(units@.take(copied as int)),
        copied > 0 && units@.take(copied as int) == crate::text::all_units(written) ==> (
        text matches Some(t) && t@ == written),
{
    crate::text::law_utf16_reads_back(written);
}

/// The first text found on the way up is the title, however many owners were asked;
/// it is noted as an owner's unless it is the window's own.
pub proof fn law_first_text_is_the_title(asked: u8, text: String, step: OwnerStep)
    requires
        call_ensures(window_text_via_owner, (asked, Found::Text(Some(text))), step),
    ensures
        step matches OwnerStep::Done { title: Some(t), .. } && t@ == text@,
        asked == 0 ==> (step matches OwnerStep::Done { note, .. } && note is Clear),
        asked > 0 ==> (step matches OwnerStep::Done { note: NoteChange::Show(t), .. } && t@ == text@),
{
}

/// A window without a text hands over to its owner, up to the eighth one; with no
/// owner, or none left to ask, there is no title and no note.
pub proof fn law_owners_are_asked_in_turn(asked: u8, untitled: OwnerStep, unowned: OwnerStep)
    requires
        call_ensures(window_text_via_owner, (asked, Found::Text(None)), untitled),
        call_ensures(window_text_via_owner, (asked, Found::NoOwner), unowned),
    ensures
        untitled is AskOwner <==> asked < 8,
        asked >= 8 ==> (untitled matches OwnerStep::Done { title, note } && title is None && note is Clear),
        unowned matches OwnerStep::Done { title, note } && title is None && note is Clear,
{
}

/// The note says what it was last told to say, and keeps it until told otherwise.
pub proof fn law_note_says_what_it_was_told(
    note: &mut OwnerNote,
    change: NoteChange,
    shown: Option<String>,
    fresh: OwnerNote,
)
    requires
        call_ensures(OwnerNote::new, (), fresh),
        call_ensures(OwnerNote::change, (note, change), ()),
        call_ensures(OwnerNote::owner_note, (final(note),), shown),
    ensures
        fresh.note is None,
        change is Keep ==> shown == old(note).note,
        change is Clear ==> shown is None,
        change matches NoteChange::Show(text) ==> shown == Some(text),
{
}

/// The program's name is the end of the path behind its last separator, of either
/// kind.
pub proof fn law_exe_name_is_the_last_part(path: &str, name: String, i: int)
    requires
        call_ensures(exe_name, (path,), name),
    ensures
        name@.len() <= path@.len(),
        name@ == path@.skip(path@.len() - name@.len()),
        0 <= i < name@.len() ==> name@[i] != '\\' && name@[i] != '/',
        name@.len() < path@.len() ==> path@[path@.len() - name@.len() - 1] == '\\'
            || path@[path@.len() - name@.len() - 1] == '/',
{
    law_file_name(path@);
    if 0 <= i < name@.len() {
        assert(!is_separator(file_name(path@)[i]));
    }
}

/// The program is known exactly with a process number and an image, and is then the
/// last part of the image's path.
pub proof fn law_program_of_a_process(
    pid: u32,
    image: Vec<u16>,
    known: Option<String>,
    imageless: Option<String>,
    path: &str,
    name: String,
)
    requires
        call_ensures(process_exe_name, (pid, Some(image)), known),
        call_ensures(process_exe_name, (pid, None), imageless),
        path@ == utf16(image@),
        call_ensures(exe_name, (path,), name),
    ensures
        known is Some <==> pid != 0,
        known matches Some(n) ==> n@ == name@,
        imageless is None,
{
}

/// A label is the program in brackets, a colon and the title, with stand-ins for
/// what is not known.
pub proof fn law_label_has_program_and_title(
    exe: String,
    title: String,
    full: String,
    untitled: String,
    unknown: String,
    neither: String,
)
    requires
        call_ensures(window_label, (Some(exe), Some(title)), full),
        call_ensures(window_label, (Some(exe), None), untitled),
        call_ensures(window_label, (None, Some(title)), unknown),
        call_ensures(window_label, (None, None), neither),
    ensures
        full@ == seq!['['] + exe@ + seq![']', ':'] + title@,
        untitled@ == seq!['['] + exe@ + seq![']', ':'] + "(null)"@,
        unknown@ == seq!['['] + "(unknown)"@ + seq![']', ':'] + title@,
        neither@ == seq!['['] + "(unknown)"@ + seq![']', ':'] + "(null)"@,
{
    reveal_strlit("[");
    reveal_strlit("]:");
    assert("["@ =~= seq!['[']);
    assert("]:"@ =~= seq![']', ':']);
}

/// A window is listed exactly if it is visible and its own text is not empty.
pub proof fn law_listed_windows_have_a_text(visible: bool, text: String, titled: bool, untitled: bool)
    requires
        call_ensures(is_listed, (visible, &Some(text)), titled),
        call_ensures(is_listed, (visible, &None), untitled),
    ensures
        titled <==> visible && text@.len() > 0,
        !untitled,
{
}

/// One more visited window adds its label at the end of the list if it is visible
/// and has a text, and nothing otherwise; no windows give an empty list.
pub proof fn law_list_grows_by_the_listed_windows(
    visited: Vec<OpenWindow>,
    more: Vec<OpenWindow>,
    none: Vec<OpenWindow>,
    w: OpenWindow,
    titles: Vec<String>,
    extended: Vec<String>,
    empty: Vec<String>,
    label: String,
    i: int,
)
    requires
        more@ == visited@.push(w),
        none@.len() == 0,
        call_ensures(list_window_titles, (visited,), titles),
        call_ensures(list_window_titles, (more,), extended),
        call_ensures(list_window_titles, (none,), empty),
        call_ensures(window_label, (w.exe, w.title), label),
    ensures
        empty@.len() == 0,
        0 <= i < titles@.len() ==> i < extended@.len() && extended@[i]@ == titles@[i]@,
        w.visible && (w.text matches Some(t) && t@.len() > 0) ==> extended@.len() == titles@.len()
            + 1 && extended@.last()@ == label@,
        !(w.visible && (w.text matches Some(t) && t@.len() > 0)) ==> extended@.len()
            == titles@.len(),
{
    reveal(Seq::filter);
    lemma_listed_labels_push(visited@, w);
    let before = titles@.map_values(|t: String| t@);
    let after = extended@.map_values(|t: String| t@);
    assert(empty@.map_values(|t: String| t@).len() == 0);
    assert(before.len() == titles@.len() && after.len() == extended@.len());
    if 0 <= i < titles@.len() {
        assert(before[i] == titles@[i]@);
        assert(after[i] == extended@[i]@);
    }
    if w.visible && (w.text matches Some(t) && t@.len() > 0) {
        assert(after.last() == extended@.last()@);
    }
}

/// A task switcher is known by exactly three class names.
pub proof fn law_switchers_by_class(class: &[u16], switcher: bool)
    requires
        call_ensures(is_switcher, (class,), switcher),
    ensures
        switcher <==> (utf16(class@) == "XamlExplorerHostIslandWindow"@ || utf16(class@)
            == "MultitaskingViewFrame"@ || utf16(class@) == "TaskSwitcherWnd"@),
{
}

/// The window that stands for the foreground is the first from the top that is
/// visible, has a text and is no switcher.
pub proof fn law_top_window_is_visible_with_a_text(
    visited: Vec<StackedWindow>,
    top: Option<isize>,
    single: bool,
    w: StackedWindow,
)
    requires
        call_ensures(top_window, (&visited,), top),
        call_ensures(is_top_window, (w.visible, w.has_text, w.switcher), single),
    ensures
        single <==> w.visible && w.has_text && !w.switcher,
        match top {
            Some(handle) => exists|i: int|
                0 <= i < visited@.len() && (#[trigger] visited@[i]).handle == handle
                    && visited@[i].visible && visited@[i].has_text && !visited@[i].switcher
                    && forall|j: int|
                    0 <= j < i ==> !((#[trigger] visited@[j]).visible && visited@[j].has_text
                        && !visited@[j].switcher),
            None => forall|i: int|
                0 <= i < visited@.len() ==> !((#[trigger] visited@[i]).visible
                    && visited@[i].has_text && !visited@[i].switcher),
        },
{
    law_top_window_is_the_first(visited@);
    if let Some(handle) = top {
        let i = choose|i: int|
            0 <= i < visited@.len() && is_top(#[trigger] visited@[i]) && visited@[i].handle
                == handle && forall|j: int| 0 <= j < i ==> !is_top(#[trigger] visited@[j]);
        assert forall|j: int| 0 <= j < i implies !((#[trigger] visited@[j]).visible
            && visited@[j].has_text && !visited@[j].switcher) by {
            assert(!is_top(visited@[j]));
        }
        assert(visited@[i].handle == handle);
    } else {
        assert forall|i: int| 0 <= i < visited@.len() implies !((#[trigger] visited@[i]).visible
            && visited@[i].has_text && !visited@[i].switcher) by {
            assert(!is_top(visited@[i]));
        }
    }
}

/// The foreground window counts unless it is a switcher; then the windows are
/// visited and the topmost counts, or the switcher where there is none.
pub proof fn law_switchers_give_way_to_the_topmost(
    foreground: Option<isize>,
    visited: Vec<StackedWindow>,
    plain: ForegroundStep,
    still: ForegroundStep,
    first: ForegroundStep,
    then: ForegroundStep,
    top: Option<isize>,
)
    requires
        call_ensures(effective_foreground, (foreground, false, &None), plain),
        call_ensures(effective_foreground, (foreground, false, &Some(visited)), still),
        call_ensures(effective_foreground, (foreground, true, &None), first),
        call_ensures(effective_foreground, (foreground, true, &Some(visited)), then),
        call_ensures(top_window, (&visited,), top),
    ensures
        plain == ForegroundStep::Use(foreground),
        still == ForegroundStep::Use(foreground),
        foreground is None ==> first == ForegroundStep::Use(None),
        foreground is None ==> then == ForegroundStep::Use(None),
        foreground is Some ==> first is VisitWindows,
        foreground is Some && top is Some ==> then == ForegroundStep::Use(top),
        foreground is Some && top is None ==> then == ForegroundStep::Use(foreground),
{
}

/// A window that came to the foreground is the one named, the end of Alt+Tab asks
/// for the foreground, and nothing else is of interest.
pub proof fn law_announcements(
    foreground: Subject,
    switch_end: Subject,
    other: Subject,
)
    requires
        call_ensures(subject, (HookEvent::Foreground,), foreground),
        call_ensures(subject, (HookEvent::SwitchEnd,), switch_end),
        call_ensures(subject, (HookEvent::Other,), other),
    ensures
        foreground == Subject::Named,
        switch_end == Subject::Foreground,
        other == Subject::Nothing,
{
}

/// The matcher is told the label as it is; without a window it is told so, and the
/// note goes.
pub proof fn law_report_tells_the_label(label: String, known: Report, none: Report)
    requires
        call_ensures(report, (Some(label),), known),
        call_ensures(report, (None,), none),
    ensures
        known.title == Some(label),
        known.note is Keep,
        none.title is None,
        none.note is Clear,
{
}

} // verus!
