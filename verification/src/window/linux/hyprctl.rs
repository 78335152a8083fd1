//! Hyprland's own command line tool, which answers in JSON.
use super::toplevels::{present, present_titles};
use crate::text::chars_of;
use vstd::prelude::*;

verus! {

/// A JSON value, as far as the answers are read.
pub enum Json {
    /// `null`, a boolean or a number.
    Plain,
    Text(Seq<char>),
    Items(Seq<Json>),
    Members(Map<Seq<char>, Json>),
}

#[verifier::external_type_specification]
#[verifier::external_body]
pub struct ExValue(serde_json::Value);

/// What a `serde_json::Value` holds.
pub uninterp spec fn contents(value: serde_json::Value) -> Json;

/// What `serde_json::from_slice` reads from bytes: `None` where they are not
/// one JSON document.
pub uninterp spec fn document(bytes: Seq<u8>) -> Option<Json>;

/// `serde_json::from_slice` parses bytes into a `Value`, which depends on the
/// bytes alone, or fails.
#[verifier::external_body]
fn parse(bytes: &[u8]) -> (value: Option<serde_json::Value>)
    ensures
        match value {
            Some(v) => document(bytes@) == Some(contents(v)),
            None => document(bytes@) is None,
        },
{
    serde_json::from_slice(bytes).ok()
}

/// `serde_json::Value::get` with a text looks up a member of an object; on any
/// other value, and for a member that is not there, it gives `None`.
#[verifier::external_body]
fn member<'a>(value: &'a serde_json::Value, key: &str) -> (found: Option<&'a serde_json::Value>)
    ensures
        match found {
            Some(v) => contents(*value) matches Json::Members(m) && m.contains_key(key@)
                && contents(*v) == m[key@],
            None => !(contents(*value) matches Json::Members(m) && m.contains_key(key@)),
        },
{
    value.get(key)
}

/// `serde_json::Value::as_str` gives the text of a string and `None` for any
/// other value.
pub assume_specification[ serde_json::Value::as_str ](value: &serde_json::Value) -> (text: Option<
    &str,
>)
    ensures
        match text {
            Some(t) => contents(*value) == Json::Text(t@),
            None => !(contents(*value) is Text),
        },
;

/// `serde_json::Value::as_array` gives the elements of an array, in order, and
/// `None` for any other value.
pub assume_specification[ serde_json::Value::as_array ](value: &serde_json::Value) -> (items:
    Option<&Vec<serde_json::Value>>)
    ensures
        match items {
            Some(list) => contents(*value) == Json::Items(
                list@.map_values(|v: serde_json::Value| contents(v)),
            ),
            None => !(contents(*value) is Items),
        },
;

/// The text of the member `title`, where a value has one.
pub open spec fn title_in(value: Json) -> Option<Seq<char>> {
    match value {
        Json::Members(m) => if m.contains_key("title"@) {
            match m["title"@] {
                Json::Text(t) => Some(t),
                _ => None,
            }
        } else {
            None
        },
        _ => None,
    }
}

/// The texts of the member `title` of each element of an array.
pub open spec fn titles_in(value: Json) -> Seq<Option<Seq<char>>> {
    match value {
        Json::Items(items) => items.map_values(|item: Json| title_in(item)),
        _ => seq![],
    }
}

/// What a run of the tool printed, if it could be run at all.
pub struct Run {
    pub success: bool,
    pub stdout: Vec<u8>,
}

/// The document that a run printed: none where the tool could not be run,
/// failed, or did not print JSON.
pub open spec fn printed(run: Option<Run>) -> Option<Json> {
    match run {
        Some(r) => if r.success {
            document(r.stdout@)
        } else {
            None
        },
        None => None,
    }
}

/// Reads the answer of a run.
pub fn hyprctl_json(run: &Option<Run>) -> (value: Option<serde_json::Value>)
    ensures
        match value {
            Some(v) => printed(*run) == Some(contents(v)),
            None => printed(*run) is None,
        },
{
    match run {
        Some(r) => if r.success {
            parse(r.stdout.as_slice())
        } else {
            None
        },
        None => None,
    }
}

/// The text of the member `title` of a value.
pub fn title_of(value: &serde_json::Value) -> (title: Option<String>)
    ensures
        chars_of(title) == title_in(contents(*value)),
{
    match member(value, "title") {
        Some(v) => match v.as_str() {
            Some(t) => Some(t.to_owned()),
            None => None,
        },
        None => None,
    }
}

/// The title of the focused window, from a run of the tool with the argument
/// `activewindow`.
pub fn active_window_title(run: Option<Run>) -> (title: Option<String>)
    ensures
        chars_of(title) == (match printed(run) {
            Some(value) => title_in(value),
            None => None,
        }),
{
    match hyprctl_json(&run) {
        Some(value) => title_of(&value),
        None => None,
    }
}

/// The texts that are there and not empty, in order.
pub open spec fn present_texts(texts: Seq<Option<Seq<char>>>) -> Seq<Seq<char>>
    decreases texts.len(),
{
    if texts.len() == 0 {
        seq![]
    } else {
        let before = present_texts(texts.drop_last());
        match texts.last() {
            Some(t) => if t.len() > 0 {
                before.push(t)
            } else {
                before
            },
            None => before,
        }
    }
}

proof fn lemma_present_texts(titles: Seq<Option<String>>)
    ensures
        present(titles).map_values(|t: String| t@) == present_texts(
            titles.map_values(|t: Option<String>| chars_of(t)),
        ),
    decreases titles.len(),
{
    let texts = titles.map_values(|t: Option<String>| chars_of(t));
    if titles.len() > 0 {
        lemma_present_texts(titles.drop_last());
        assert(titles.drop_last().map_values(|t: Option<String>| chars_of(t))
            =~= texts.drop_last());
        assert(present(titles).map_values(|t: String| t@) =~= present_texts(texts));
    } else {
        assert(present(titles).map_values(|t: String| t@) =~= present_texts(texts));
    }
}

/// The texts of the member `title` of each element of a value that is an array.
pub fn titles_of(value: &serde_json::Value) -> (titles: Vec<Option<String>>)
    ensures
        titles@.map_values(|t: Option<String>| chars_of(t)) == titles_in(contents(*value)),
{
    let mut titles: Vec<Option<String>> = Vec::new();
    let ghost all = titles_in(contents(*value));
    if let Some(items) = value.as_array() {
        let mut i: usize = 0;
        while i < items.len()
            invariant
                i <= items@.len(),
                titles@.len() == i,
                all.len() == items@.len(),
                forall|j: int|
                    0 <= j < items@.len() ==> #[trigger] all[j] == title_in(contents(items@[j])),
                forall|j: int| 0 <= j < i ==> chars_of(#[trigger] titles@[j]) == all[j],
            decreases items@.len() - i,
        {
            titles.push(title_of(&items[i]));
            i = i + 1;
        }
    }
    assert(titles@.map_values(|t: Option<String>| chars_of(t)) =~= all);
    titles
}

/// The titles of the open windows, from a run of the tool with the argument
/// `clients`.
pub fn list_window_titles(run: Option<Run>) -> (titles: Vec<String>)
    ensures
        titles@.map_values(|t: String| t@) == (match printed(run) {
            Some(value) => present_texts(titles_in(value)),
            None => seq![],
        }),
{
    match hyprctl_json(&run) {
        Some(value) => {
            let found = titles_of(&value);
            proof {
                lemma_present_texts(found@);
            }
            present_titles(&found)
        },
        None => {
            let none: Vec<String> = Vec::new();
            assert(none@.map_values(|t: String| t@) =~= seq![]);
            none
        },
    }
}

/// The answer of the tool is the document that it printed, and there is none where
/// it could not be run, failed or printed no document.
pub proof fn law_answer_is_what_was_printed(
    run: Run,
    value: Option<serde_json::Value>,
    unrun: Option<serde_json::Value>,
)
    requires
        call_ensures(hyprctl_json, (&Some(run),), value),
        call_ensures(hyprctl_json, (&None,), unrun),
    ensures
        unrun is None,
        !run.success ==> value is None,
        run.success ==> (value is None <==> document(run.stdout@) is None),
        run.success ==> (value matches Some(v) ==> document(run.stdout@) == Some(contents(v))),
{
}

/// A value has a title exactly if it is an object whose member `title` is a text.
pub proof fn law_title_is_the_text_of_the_member(
    value: serde_json::Value,
    title: Option<String>,
    members: Map<Seq<char>, Json>,
)
    requires
        call_ensures(title_of, (&value,), title),
    ensures
        !(contents(value) is Members) ==> title is None,
        contents(value) == Json::Members(members) && !members.contains_key("title"@) ==> title is None,
        contents(value) == Json::Members(members) && members.contains_key("title"@) ==> (title is Some
            <==> members["title"@] is Text) && (title matches Some(t) ==> members["title"@]
            == Json::Text(t@)),
{
}

/// The focused title is the text under `title` of the object that was printed, and
/// there is none otherwise.
pub proof fn law_focused_title_is_printed(
    run: Run,
    title: Option<String>,
    unrun: Option<String>,
    members: Map<Seq<char>, Json>,
)
    requires
        call_ensures(active_window_title, (Some(run),), title),
        call_ensures(active_window_title, (None,), unrun),
    ensures
        unrun is None,
        !run.success || document(run.stdout@) is None ==> title is None,
        run.success && document(run.stdout@) == Some(Json::Members(members)) ==> (title is Some
            <==> members.contains_key("title"@) && members["title"@] is Text) && (
        title matches Some(t) ==> members["title"@] == Json::Text(t@)),
        (document(run.stdout@) matches Some(d) && !(d is Members)) ==> title is None,
{
}

/// One more window in what was printed adds its title at the end of the list if it
/// has one that is not empty, and nothing otherwise; nothing printed lists nothing.
pub proof fn law_listed_titles_are_printed(
    run: Run,
    more: Run,
    items: Seq<Json>,
    window: Json,
    titles: Vec<String>,
    extended: Vec<String>,
    unrun: Vec<String>,
    i: int,
)
    requires
        run.success && document(run.stdout@) == Some(Json::Items(items)),
        more.success && document(more.stdout@) == Some(Json::Items(items.push(window))),
        call_ensures(list_window_titles, (Some(run),), titles),
        call_ensures(list_window_titles, (Some(more),), extended),
        call_ensures(list_window_titles, (None,), unrun),
    ensures
        unrun@.len() == 0,
        items.len() == 0 ==> titles@.len() == 0,
        0 <= i < titles@.len() ==> i < extended@.len() && extended@[i]@ == titles@[i]@,
        window matches Json::Members(m) ==> m.contains_key("title"@) ==> (
        m["title"@] matches Json::Text(t) ==> t.len() > 0 ==> extended@.len() == titles@.len() + 1
            && extended@.last()@ == t),
        !(window matches Json::Members(m) && m.contains_key("title"@) && (
        m["title"@] matches Json::Text(t) && t.len() > 0)) ==> extended@.len() == titles@.len(),
{
    let all = titles_in(Json::Items(items));
    let longer = titles_in(Json::Items(items.push(window)));
    assert(longer.drop_last() =~= all);
    let before = titles@.map_values(|t: String| t@);
    let after = extended@.map_values(|t: String| t@);
    assert(unrun@.map_values(|t: String| t@).len() == unrun@.len());
    assert(before.len() == titles@.len() && after.len() == extended@.len());
    if 0 <= i < titles@.len() {
        assert(before[i] == titles@[i]@);
        assert(after[i] == extended@[i]@);
    }
    if extended@.len() > 0 {
        assert(after.last() == extended@.last()@);
    }
}

/// A run that failed, or printed anything but an array, lists nothing.
pub proof fn law_nothing_is_listed_without_an_array(run: Run, titles: Vec<String>)
    requires
        call_ensures(list_window_titles, (Some(run),), titles),
        !run.success || !(document(run.stdout@) matches Some(d) && d is Items),
    ensures
        titles@.len() == 0,
{
    assert(titles@.map_values(|t: String| t@).len() == titles@.len());
}

/// The titles of an array's elements stand in their places, missing where an element
/// has none.
pub proof fn law_titles_keep_their_places(
    value: serde_json::Value,
    titles: Vec<Option<String>>,
    items: Seq<Json>,
    i: int,
)
    requires
        call_ensures(titles_of, (&value,), titles),
    ensures
        !(contents(value) is Items) ==> titles@.len() == 0,
        contents(value) == Json::Items(items) ==> titles@.len() == items.len(),
        contents(value) == Json::Items(items) && 0 <= i < items.len() ==> (titles@[i] is Some <==> (
        items[i] matches Json::Members(m) && m.contains_key("title"@) && m["title"@] is Text)),
        contents(value) == Json::Items(items) && 0 <= i < items.len() ==> (
        titles@[i] matches Some(t) ==> (items[i] matches Json::Members(m) && m["title"@]
            == Json::Text(t@))),
{
    let seen = titles@.map_values(|t: Option<String>| chars_of(t));
    assert(seen.len() == titles@.len());
    if 0 <= i < titles@.len() {
        assert(seen[i] == chars_of(titles@[i]));
    }
}

} // verus!
