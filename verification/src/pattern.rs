//! Rule patterns: compiling them, searching titles with them, and turning a
//! title into a pattern that matches it literally.
use crate::text::chars_of;
use numbers::{has_short_numbers, is_tidy};
use outline::{judge, parse, parsed, verdict, Verdict};
use vstd::prelude::*;

pub mod numbers;
pub mod outline;

verus! {

#[verifier::external_type_specification]
#[verifier::external_body]
pub struct ExRegex(fancy_regex::Regex);

#[verifier::external_type_specification]
#[verifier::external_body]
pub struct ExRegexError(fancy_regex::Error);

/// What `fancy_regex::Regex::new` makes of a pattern.
pub uninterp spec fn compiled(pattern: Seq<char>) -> Result<
    fancy_regex::Regex,
    fancy_regex::Error,
>;

/// What `fancy_regex::Regex::is_match` answers for a text.
pub uninterp spec fn searched(regex: fancy_regex::Regex, text: Seq<char>) -> Result<
    bool,
    fancy_regex::Error,
>;

/// How a `fancy_regex::Error` displays.
pub uninterp spec fn error_message(error: fancy_regex::Error) -> Seq<char>;

/// The longest title with characters beyond ASCII on which a pattern with
/// references is tried.
pub const TITLE_LIMIT: usize = 4096;

/// Whether every character of a text is ASCII.
pub open spec fn is_ascii_text(text: Seq<char>) -> bool {
    forall|i: int| 0 <= i < text.len() ==> #[trigger] text[i] <= '\u{7F}'
}

/// Why a pattern is not compiled: a number in it is too long to be read on every
/// machine, it is too large, or one of its groups refers to itself.
pub open spec fn objection(pattern: Seq<char>) -> Option<Seq<char>> {
    if !is_tidy(pattern) {
        Some("a number in the pattern is too long"@)
    } else {
        match verdict(parsed(pattern)) {
            Verdict::TooLarge => Some("the pattern is too large"@),
            Verdict::SelfReference => Some("a group refers to itself"@),
            Verdict::Fine { .. } => None,
        }
    }
}

/// Whether a pattern can be tried on a text.
pub open spec fn suits(pattern: Seq<char>, text: Seq<char>) -> bool {
    verdict(parsed(pattern)) == (Verdict::Fine { refers: true }) ==> text.len() <= TITLE_LIMIT
        || is_ascii_text(text)
}

/// Whether a regex comes from a pattern without objection that can be tried on a
/// text.
pub open spec fn is_searchable(regex: fancy_regex::Regex, text: Seq<char>) -> bool {
    exists|pattern: Seq<char>|
        objection(pattern) is None && suits(pattern, text) && #[trigger] compiled(pattern) == Ok::<
            fancy_regex::Regex,
            fancy_regex::Error,
        >(regex)
}

/// `fancy_regex::Regex::new` compiles a pattern under the default options, so
/// what comes back depends on the pattern alone. It adds up and multiplies the
/// sizes of the parts of the pattern without a test for overflow, and sets no
/// limit to the memory for what is looked for before a place; both stay small
/// where the pattern is not too large.
#[verifier::external_body]
fn compile(pattern: &str) -> (result: Result<fancy_regex::Regex, fancy_regex::Error>)
    requires
        objection(pattern@) is None,
    ensures
        result == compiled(pattern@),
{
    fancy_regex::Regex::new(pattern)
}

/// `fancy_regex::Regex::is_match` searches the whole text; the answer, or the
/// error where the search gives up at its backtracking limit, depends on the
/// regex and the text alone. Inside a group the end of its last match can lie
/// before the start of the present one, so the search would panic at a reference
/// there. A reference is compared by way of a regex for the text referred to,
/// which the search expects to fit the memory allowed; ASCII texts are compared
/// directly.
#[verifier::external_body]
fn search(regex: &fancy_regex::Regex, text: &str) -> (result: Result<bool, fancy_regex::Error>)
    requires
        is_searchable(*regex, text@),
    ensures
        result == searched(*regex, text@),
{
    regex.is_match(text)
}

/// `ToString::to_string` of a `fancy_regex::Error` gives its display text.
#[verifier::external_body]
fn describe(error: &fancy_regex::Error) -> (message: String)
    ensures
        message@ == error_message(*error),
{
    error.to_string()
}

/// The pattern that is compiled for a rule: the rule's own, ignoring case.
pub open spec fn caseless(pattern: Seq<char>) -> Seq<char> {
    "(?i)"@ + pattern
}

/// Prefixes a rule's pattern with the flag that makes it ignore case.
pub fn caseless_pattern(pattern: &str) -> (full: String)
    ensures
        full@ == caseless(pattern@),
{
    let mut full = "(?i)".to_owned();
    full.append(pattern);
    full
}

/// The regex of a rule's pattern, or what is wrong with the pattern.
pub open spec fn prepared(pattern: Seq<char>) -> Result<fancy_regex::Regex, Seq<char>> {
    match objection(caseless(pattern)) {
        Some(message) => Err(message),
        None => match compiled(caseless(pattern)) {
            Ok(regex) => Ok(regex),
            Err(error) => Err(error_message(error)),
        },
    }
}

/// A compiled pattern, and whether it refers to what its groups matched.
struct Prepared {
    regex: fancy_regex::Regex,
    refers: bool,
}

/// Compiles a rule's pattern, ignoring case.
fn prepare(pattern: &str) -> (result: Result<Prepared, String>)
    ensures
        match result {
            Ok(found) => {
                &&& prepared(pattern@) == Ok::<fancy_regex::Regex, Seq<char>>(found.regex)
                &&& verdict(parsed(caseless(pattern@))) == (Verdict::Fine { refers: found.refers })
            },
            Err(message) => prepared(pattern@) == Err::<fancy_regex::Regex, Seq<char>>(message@),
        },
{
    let full = caseless_pattern(pattern);
    if !has_short_numbers(full.as_str()) {
        return Err("a number in the pattern is too long".to_owned());
    }
    match judge(&parse(full.as_str())) {
        Verdict::TooLarge => Err("the pattern is too large".to_owned()),
        Verdict::SelfReference => Err("a group refers to itself".to_owned()),
        Verdict::Fine { refers } => match compile(full.as_str()) {
            Ok(regex) => Ok(Prepared { regex, refers }),
            Err(error) => Err(describe(&error)),
        },
    }
}

/// Whether a rule's pattern matches a title. A pattern that does not compile
/// matches nothing, nor does one that cannot be tried on the title or whose search
/// gives up.
pub open spec fn matches_title(pattern: Seq<char>, title: Seq<char>) -> bool {
    match prepared(pattern) {
        Ok(regex) => suits(caseless(pattern), title) && searched(regex, title) == Ok::<
            bool,
            fancy_regex::Error,
        >(true),
        Err(_) => false,
    }
}

/// Whether a text is too long for references.
fn is_long_text(text: &str) -> (long: bool)
    ensures
        long == (text@.len() > TITLE_LIMIT && !is_ascii_text(text@)),
{
    let mut count: usize = 0;
    let mut ascii = true;
    for c in walk: text.chars()
        invariant
            walk.seq() == text@,
            count == (if walk.index() <= TITLE_LIMIT {
                walk.index()
            } else {
                TITLE_LIMIT + 1
            }),
            ascii == forall|i: int| 0 <= i < walk.index() ==> #[trigger] text@[i] <= '\u{7F}',
    {
        if count <= TITLE_LIMIT {
            count = count + 1;
        }
        if c > '\u{7F}' {
            assert(!(text@[walk.index()] <= '\u{7F}'));
            ascii = false;
        }
    }
    count > TITLE_LIMIT && !ascii
}

/// The verdict on a title: `found` is the outcome of the search, `None` where
/// the pattern did not compile or the search gave up.
pub fn match_verdict(found: Option<bool>) -> (matched: bool)
    ensures
        matched == (found == Some(true)),
{
    match found {
        Some(b) => b,
        None => false,
    }
}

/// Whether a rule's pattern matches a title, ignoring case.
pub fn pattern_matches(pattern: &str, title: &str) -> (matched: bool)
    ensures
        matched == matches_title(pattern@, title@),
{
    let found = match prepare(pattern) {
        Ok(p) => if p.refers && is_long_text(title) {
            None
        } else {
            assert(compiled(caseless(pattern@)) == Ok::<fancy_regex::Regex, fancy_regex::Error>(
                p.regex,
            ));
            match search(&p.regex, title) {
                Ok(b) => Some(b),
                Err(_) => None,
            }
        },
        Err(_) => None,
    };
    match_verdict(found)
}

/// A rule whose pattern does not compile matches no title at all.
pub proof fn law_invalid_pattern_matches_nothing(pattern: Seq<char>, title: Seq<char>)
    requires
        prepared(pattern) is Err,
    ensures
        !matches_title(pattern, title),
{
}

/// The message under which an invalid pattern is shown.
pub open spec fn invalid_notice(message: Seq<char>) -> Seq<char> {
    "Invalid regex: "@ + message
}

/// The note shown for a pattern that is refused with `message`.
pub fn invalid_note(message: &str) -> (note: String)
    ensures
        note@ == invalid_notice(message@),
{
    let mut note = "Invalid regex: ".to_owned();
    note.append(message);
    note
}

/// What is wrong with a rule's pattern: `None` exactly if it compiles.
pub fn pattern_error(pattern: &str) -> (note: Option<String>)
    ensures
        chars_of(note) == (match prepared(pattern@) {
            Ok(_) => None,
            Err(message) => Some(invalid_notice(message)),
        }),
{
    match prepare(pattern) {
        Ok(_) => None,
        Err(message) => Some(invalid_note(message.as_str())),
    }
}

/// The characters with a meaning of their own in a regular expression.
pub open spec fn is_meta(c: char) -> bool {
    c == '\\' || c == '.' || c == '+' || c == '*' || c == '?' || c == '(' || c == ')' || c == '|'
        || c == '[' || c == ']' || c == '{' || c == '}' || c == '^' || c == '$' || c == '#' || c
        == '&' || c == '-' || c == '~'
}

/// A text with a backslash before every character that has a meaning in a
/// regular expression.
pub open spec fn escaped(text: Seq<char>) -> Seq<char>
    decreases text.len(),
{
    if text.len() == 0 {
        seq![]
    } else if is_meta(text[0]) {
        seq!['\\', text[0]] + escaped(text.skip(1))
    } else {
        seq![text[0]] + escaped(text.skip(1))
    }
}

/// `regex::escape` puts a backslash before each meta character of the text and
/// keeps every other character.
pub assume_specification[ regex::escape ](pattern: &str) -> (result: String)
    ensures
        result@ == escaped(pattern@),
;

/// The pattern offered for a window picked from the list: its title, literally.
pub fn literal_pattern(title: &str) -> (pattern: String)
    ensures
        pattern@ == escaped(title@),
{
    regex::escape(title)
}

/// Reading an escaped text: a backslash stands for the character after it.
pub open spec fn unescaped(pattern: Seq<char>) -> Seq<char>
    decreases pattern.len(),
{
    if pattern.len() == 0 {
        seq![]
    } else if pattern[0] == '\\' && pattern.len() > 1 {
        seq![pattern[1]] + unescaped(pattern.skip(2))
    } else {
        seq![pattern[0]] + unescaped(pattern.skip(1))
    }
}

/// Escaping loses nothing: read as a literal, the pattern offered for a title
/// is that title, so two titles never get the same pattern.
pub proof fn law_literal_pattern_reads_back(title: Seq<char>)
    ensures
        unescaped(escaped(title)) == title,
    decreases title.len(),
{
    if title.len() > 0 {
        let rest = title.skip(1);
        law_literal_pattern_reads_back(rest);
        if is_meta(title[0]) {
            assert(escaped(title).skip(2) =~= escaped(rest));
        } else {
            assert(escaped(title).skip(1) =~= escaped(rest));
        }
        assert(seq![title[0]] + rest =~= title);
    }
}

/// The text handed to the regex engine starts with the flag that ignores case,
/// whatever the rule's pattern begins with, and what follows is exactly that pattern.
pub proof fn law_every_pattern_ignores_case(pattern: &str, full: String)
    requires
        call_ensures(caseless_pattern, (pattern,), full),
    ensures
        full@ == caseless(pattern@),
        full@.len() == pattern@.len() + 4,
        full@.take(4) == seq!['(', '?', 'i', ')'],
        full@.skip(4) == pattern@,
{
    lemma_caseless(pattern@);
}

proof fn lemma_caseless(pattern: Seq<char>)
    ensures
        caseless(pattern) == seq!['(', '?', 'i', ')'] + pattern,
        caseless(pattern).len() == pattern.len() + 4,
        caseless(pattern).take(4) == seq!['(', '?', 'i', ')'],
        caseless(pattern).skip(4) == pattern,
{
    reveal_strlit("(?i)");
    assert(caseless(pattern) =~= seq!['(', '?', 'i', ')'] + pattern);
    assert(caseless(pattern).take(4) =~= seq!['(', '?', 'i', ')']);
    assert(caseless(pattern).skip(4) =~= pattern);
}

/// A pattern matches a title exactly if the regex of the pattern behind the flag that
/// ignores case is found in the title: there is no objection to it, it compiles, it
/// can be tried on the title, and the search says so.
pub proof fn law_match_is_a_caseless_search(
    pattern: &str,
    title: &str,
    matched: bool,
    regex: fancy_regex::Regex,
)
    requires
        call_ensures(pattern_matches, (pattern, title), matched),
    ensures
        matched == matches_title(pattern@, title@),
        ({
            let full = seq!['(', '?', 'i', ')'] + pattern@;
            &&& objection(full) is Some || compiled(full) is Err || !suits(full, title@) ==> !matched
            &&& objection(full) is None && suits(full, title@) && compiled(full) == Ok::<
                fancy_regex::Regex,
                fancy_regex::Error,
            >(regex) ==> (matched <==> searched(regex, title@) == Ok::<bool, fancy_regex::Error>(true))
        }),
{
    lemma_caseless(pattern@);
}

/// There is an objection to a pattern exactly if a number in it is too long, or it
/// reads as an expression that is larger than 2 to the power of 20 or in which a
/// group refers to itself.
pub proof fn law_objections(pattern: Seq<char>, node: outline::Node)
    ensures
        !is_tidy(pattern) ==> objection(pattern) == Some("a number in the pattern is too long"@),
        is_tidy(pattern) && parsed(pattern) is None ==> objection(pattern) is None,
        is_tidy(pattern) && parsed(pattern) == Some(node) ==> (objection(pattern) is None
            <==> outline::pattern_size(node) <= 1_048_576 && !outline::has_self_reference(node)),
        is_tidy(pattern) && parsed(pattern) == Some(node) && outline::pattern_size(node)
            > 1_048_576 ==> objection(pattern) == Some("the pattern is too large"@),
        is_tidy(pattern) && parsed(pattern) == Some(node) && outline::pattern_size(node)
            <= 1_048_576 && outline::has_self_reference(node) ==> objection(pattern) == Some(
            "a group refers to itself"@,
        ),
{
}

/// Every pattern can be tried on a title of up to 4096 characters and on one of ASCII
/// characters alone; on any other, exactly those without a reference can.
pub proof fn law_titles_a_pattern_can_be_tried_on(
    pattern: Seq<char>,
    title: Seq<char>,
    node: outline::Node,
)
    ensures
        title.len() <= 4096 ==> suits(pattern, title),
        (forall|i: int| 0 <= i < title.len() ==> #[trigger] title[i] <= '\u{7F}') ==> suits(
            pattern,
            title,
        ),
        parsed(pattern) is None ==> suits(pattern, title),
        parsed(pattern) == Some(node) && !outline::refers(node) ==> suits(pattern, title),
        objection(pattern) is None && parsed(pattern) == Some(node) && outline::refers(node)
            && title.len() > 4096 && (exists|i: int|
            0 <= i < title.len() && #[trigger] title[i] > '\u{7F}') ==> !suits(pattern, title),
{
}

/// A note is shown exactly for a pattern that is not compiled, and says what is wrong
/// with it: the objection to it, or else the error of the regex engine.
pub proof fn law_notes_on_patterns(
    pattern: &str,
    note: Option<String>,
    error: fancy_regex::Error,
    message: Seq<char>,
)
    requires
        call_ensures(pattern_error, (pattern,), note),
    ensures
        ({
            let full = seq!['(', '?', 'i', ')'] + pattern@;
            &&& note is None <==> objection(full) is None && compiled(full) is Ok
            &&& objection(full) == Some(message) ==> (note matches Some(n) && n@ == "Invalid regex: "@
                + message)
            &&& objection(full) is None && compiled(full) == Err::<
                fancy_regex::Regex,
                fancy_regex::Error,
            >(error) ==> (note matches Some(n) && n@ == "Invalid regex: "@ + error_message(error))
        }),
{
    lemma_caseless(pattern@);
}

/// A note is the message behind a fixed beginning.
pub proof fn law_note_ends_with_the_message(message: &str, note: String)
    requires
        call_ensures(invalid_note, (message,), note),
    ensures
        note@.take(15) == "Invalid regex: "@,
        note@.skip(15) == message@,
{
    reveal_strlit("Invalid regex: ");
    assert(note@.take(15) =~= "Invalid regex: "@);
    assert(note@.skip(15) =~= message@);
}

/// Only a search that found something is a match.
pub proof fn law_only_a_hit_matches(found: bool, searched_text: bool, unsearched: bool)
    requires
        call_ensures(match_verdict, (Some(found),), searched_text),
        call_ensures(match_verdict, (None,), unsearched),
    ensures
        searched_text == found,
        !unsearched,
{
}

/// A title is made into a pattern character by character: the pattern of two titles
/// in a row is that of the first and then that of the second, and a single character
/// stands for itself, behind a backslash exactly if it means something in a regular
/// expression.
pub proof fn law_literal_patterns_are_made_by_character(
    first: Seq<char>,
    second: Seq<char>,
    title: &str,
    c: char,
    pattern: String,
)
    requires
        call_ensures(literal_pattern, (title,), pattern),
    ensures
        pattern@ == escaped(title@),
        escaped(first + second) == escaped(first) + escaped(second),
        escaped(seq![]) == Seq::<char>::empty(),
        escaped(seq![c]) == (if "\\.+*?()|[]{}^$#&-~"@.contains(c) {
            seq!['\\', c]
        } else {
            seq![c]
        }),
    decreases first.len(),
{
    lemma_escaped_adds_up(first, second);
    reveal_strlit("\\.+*?()|[]{}^$#&-~");
    let metas = "\\.+*?()|[]{}^$#&-~"@;
    assert(metas[0] == '\\' && metas[1] == '.' && metas[2] == '+' && metas[3] == '*' && metas[4]
        == '?' && metas[5] == '(' && metas[6] == ')' && metas[7] == '|' && metas[8] == '['
        && metas[9] == ']' && metas[10] == '{' && metas[11] == '}' && metas[12] == '^' && metas[13]
        == '$' && metas[14] == '#' && metas[15] == '&' && metas[16] == '-' && metas[17] == '~');
    assert(metas.len() == 18);
    assert(metas.contains(c) <==> is_meta(c));
    assert(seq![c].skip(1) =~= seq![]);
    assert(escaped(seq![c].skip(1)) =~= seq![]);
    assert(escaped(seq![c]) =~= (if is_meta(c) {
        seq!['\\', c]
    } else {
        seq![c]
    }));
}

proof fn lemma_escaped_adds_up(first: Seq<char>, second: Seq<char>)
    ensures
        escaped(first + second) == escaped(first) + escaped(second),
    decreases first.len(),
{
    if first.len() == 0 {
        assert(first + second =~= second);
        assert(escaped(first) + escaped(second) =~= escaped(second));
    } else {
        lemma_escaped_adds_up(first.skip(1), second);
        assert((first + second).skip(1) =~= first.skip(1) + second);
        assert(escaped(first + second) =~= escaped(first) + escaped(second));
    }
}

} // verus!
