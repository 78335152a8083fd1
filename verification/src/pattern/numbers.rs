//! Long numbers in a pattern: the regex engine reads the counts of repetitions
//! and the numbers of groups into machine words, and sets aside memory by the
//! number of a group, before it looks at anything else.
use super::{caseless, escaped, is_meta};
use vstd::prelude::*;

verus! {

/// So many digits in a row are too many for a count or a number.
pub const LONG: usize = 9;

/// How the next character of a pattern is read.
#[derive(Clone, Copy, PartialEq, Eq, Structural)]
pub enum Mode {
    Plain,
    /// It stands behind a backslash.
    Escape,
    /// It stands behind `\p`, whatever it is.
    Class,
}

/// How the character behind some others is read.
pub open spec fn mode(before: Seq<char>) -> Mode
    decreases before.len(),
{
    if before.len() == 0 {
        Mode::Plain
    } else {
        next_mode(mode(before.drop_last()), before.last())
    }
}

/// How a character is read behind one that was read so.
pub open spec fn next_mode(m: Mode, c: char) -> Mode {
    match m {
        Mode::Plain => if c == '\\' {
            Mode::Escape
        } else {
            Mode::Plain
        },
        Mode::Escape => if c == 'p' || c == 'P' {
            Mode::Class
        } else {
            Mode::Plain
        },
        Mode::Class => Mode::Plain,
    }
}

/// The character at `i` stands behind a backslash.
pub open spec fn is_escaped(p: Seq<char>, i: int) -> bool {
    mode(p.take(i)) is Escape
}

pub open spec fn is_digit(c: char) -> bool {
    '0' <= c <= '9'
}

/// A character that can stand in the name or number of a group, or before one.
pub open spec fn is_name_char(c: char) -> bool {
    ||| is_digit(c)
    ||| 'a' <= c <= 'z'
    ||| 'A' <= c <= 'Z'
    ||| c == '_'
    ||| c == '+'
    ||| c == '-'
    ||| c > '\u{7F}'
}

/// At `i` stands a question mark that means something.
pub open spec fn is_question(p: Seq<char>, i: int) -> bool {
    p[i] == '?' && !is_escaped(p, i)
}

/// At `i` stands what can open the name of a group.
pub open spec fn is_quote(c: char) -> bool {
    c == '<' || c == '\''
}

/// At `i` starts the name or number of a group that is referred to, called or
/// tested, as in `\k<n>`, `(?(n)` or `(?P=n)`.
pub open spec fn starts_name(p: Seq<char>, i: int) -> bool {
    ||| i >= 3 && is_quote(p[i - 1]) && (p[i - 2] == 'k' || p[i - 2] == 'g') && is_escaped(p, i - 2)
    ||| i >= 2 && p[i - 1] == '(' && is_question(p, i - 2)
    ||| i >= 3 && is_quote(p[i - 1]) && p[i - 2] == '(' && is_question(p, i - 3)
    ||| i >= 3 && (p[i - 1] == '=' || p[i - 1] == '>') && p[i - 2] == 'P' && is_question(p, i - 3)
}

/// The place `j` is in the name or number of a group that is referred to.
pub open spec fn is_in_name(p: Seq<char>, j: int) -> bool {
    exists|i: int|
        0 <= i <= j && #[trigger] starts_name(p, i) && forall|k: int|
            i <= k < j ==> is_name_char(#[trigger] p[k])
}

/// The pattern may hold comments.
pub open spec fn is_commented(p: Seq<char>) -> bool {
    exists|k: int|
        0 <= k < p.len() && (#[trigger] p[k] == '\n' || k > 0 && p[k] == '#' && p[k - 1] == '?')
}

/// At `i` stands a bracket that can open the counts of a repetition.
pub open spec fn opens_counts(p: Seq<char>, i: int) -> bool {
    p[i] == '{' && !is_escaped(p, i)
}

/// The place `j` may be among the counts of a repetition. A comment in between
/// can hold a closing bracket.
pub open spec fn is_in_counts(p: Seq<char>, j: int) -> bool {
    exists|i: int|
        0 <= i < j && #[trigger] opens_counts(p, i) && (is_commented(p) || forall|k: int|
            i < k < j ==> #[trigger] p[k] != '}')
}

/// A long row of digits starts at `j`.
pub open spec fn is_long(p: Seq<char>, j: int) -> bool {
    0 <= j && j + LONG <= p.len() && forall|k: int| j <= k < j + LONG ==> is_digit(#[trigger] p[k])
}

/// No count and no number of a group in a pattern is long.
pub open spec fn is_tidy(p: Seq<char>) -> bool {
    forall|j: int| #[trigger] is_long(p, j) ==> !is_in_name(p, j) && !is_in_counts(p, j)
}

fn letters(text: &str) -> (chars: Vec<char>)
    ensures
        chars@ == text@,
{
    let mut chars: Vec<char> = Vec::new();
    for c in walk: text.chars()
        invariant
            walk.seq() == text@,
            chars@ == text@.take(walk.index()),
    {
        proof {
            assert(text@.take(walk.index() + 1) =~= text@.take(walk.index()).push(
                text@[walk.index()],
            ));
        }
        chars.push(c);
    }
    assert(text@.take(text@.len() as int) =~= text@);
    chars
}

fn modes(p: &Vec<char>) -> (all: Vec<Mode>)
    ensures
        all@.len() == p@.len() + 1,
        forall|i: int| 0 <= i <= p@.len() ==> #[trigger] all@[i] == mode(p@.take(i)),
{
    let mut all: Vec<Mode> = Vec::new();
    let mut m = Mode::Plain;
    let mut i: usize = 0;
    all.push(m);
    while i < p.len()
        invariant
            i <= p@.len(),
            m == mode(p@.take(i as int)),
            all@.len() == i + 1,
            forall|k: int| 0 <= k <= i ==> #[trigger] all@[k] == mode(p@.take(k)),
        decreases p@.len() - i,
    {
        proof {
            assert(p@.take(i + 1).drop_last() =~= p@.take(i as int));
        }
        let c = p[i];
        m = match m {
            Mode::Plain => if c == '\\' {
                Mode::Escape
            } else {
                Mode::Plain
            },
            Mode::Escape => if c == 'p' || c == 'P' {
                Mode::Class
            } else {
                Mode::Plain
            },
            Mode::Class => Mode::Plain,
        };
        i = i + 1;
        all.push(m);
    }
    all
}

/// A pattern with the mode of every place in it.
struct Text {
    p: Vec<char>,
    modes: Vec<Mode>,
    commented: bool,
}

impl Text {
    spec fn is_valid(self) -> bool {
        &&& self.modes@.len() == self.p@.len() + 1
        &&& forall|i: int|
            0 <= i <= self.p@.len() ==> #[trigger] self.modes@[i] == mode(self.p@.take(i))
        &&& self.commented == is_commented(self.p@)
    }

    fn new(pattern: &str) -> (text: Self)
        ensures
            text.is_valid(),
            text.p@ == pattern@,
    {
        let p = letters(pattern);
        let modes = modes(&p);
        let mut commented = false;
        let mut i: usize = 0;
        while i < p.len()
            invariant
                i <= p@.len(),
                commented == exists|k: int|
                    0 <= k < i && (#[trigger] p@[k] == '\n' || k > 0 && p@[k] == '#' && p@[k - 1]
                        == '?'),
            decreases p@.len() - i,
        {
            if p[i] == '\n' || i > 0 && p[i] == '#' && p[i - 1] == '?' {
                assert(p@[i as int] == '\n' || p@[i as int] == '#');
                commented = true;
            }
            i = i + 1;
        }
        Text { p, modes, commented }
    }

    fn question(&self, i: usize) -> (yes: bool)
        requires
            self.is_valid(),
            i < self.p@.len(),
        ensures
            yes == is_question(self.p@, i as int),
    {
        assert(self.modes@[i as int] == mode(self.p@.take(i as int)));
        self.p[i] == '?' && self.modes[i] != Mode::Escape
    }

    fn name_starts(&self, i: usize) -> (yes: bool)
        requires
            self.is_valid(),
            i <= self.p@.len(),
        ensures
            yes == starts_name(self.p@, i as int),
    {
        if i < 2 {
            return false;
        }
        let last = self.p[i - 1];
        let second = self.p[i - 2];
        if last == '(' && self.question(i - 2) {
            return true;
        }
        if i < 3 {
            return false;
        }
        let quote = last == '<' || last == '\'';
        assert(self.modes@[i - 2] == mode(self.p@.take(i - 2)));
        if quote && (second == 'k' || second == 'g') && self.modes[i - 2] == Mode::Escape {
            return true;
        }
        ((quote && second == '(') || ((last == '=' || last == '>') && second == 'P'))
            && self.question(i - 3)
    }

    fn in_name(&self, j: usize) -> (yes: bool)
        requires
            self.is_valid(),
            j <= self.p@.len(),
        ensures
            yes == is_in_name(self.p@, j as int),
    {
        let mut i: usize = j;
        loop
            invariant
                self.is_valid(),
                i <= j <= self.p@.len(),
                forall|k: int| i <= k < j ==> is_name_char(#[trigger] self.p@[k]),
                forall|k: int| i < k <= j ==> !#[trigger] starts_name(self.p@, k),
            decreases i,
        {
            if self.name_starts(i) {
                return true;
            }
            if i == 0 {
                return false;
            }
            let c = self.p[i - 1];
            let part = '0' <= c && c <= '9' || 'a' <= c && c <= 'z' || 'A' <= c && c <= 'Z' || c
                == '_' || c == '+' || c == '-' || c > '\u{7F}';
            if !part {
                assert(!is_name_char(self.p@[i - 1]));
                return false;
            }
            i = i - 1;
        }
    }

    fn in_counts(&self, j: usize) -> (yes: bool)
        requires
            self.is_valid(),
            j <= self.p@.len(),
        ensures
            yes == is_in_counts(self.p@, j as int),
    {
        let mut i: usize = j;
        while i > 0
            invariant
                self.is_valid(),
                i <= j <= self.p@.len(),
                self.commented || forall|k: int| i <= k < j ==> #[trigger] self.p@[k] != '}',
                forall|k: int| i <= k < j ==> !#[trigger] opens_counts(self.p@, k),
            decreases i,
        {
            i = i - 1;
            assert(self.modes@[i as int] == mode(self.p@.take(i as int)));
            if self.p[i] == '{' && self.modes[i] != Mode::Escape {
                assert(opens_counts(self.p@, i as int));
                return true;
            }
            if self.p[i] == '}' && !self.commented {
                assert(self.p@[i as int] == '}');
                return false;
            }
        }
        false
    }

    fn long(&self, j: usize) -> (yes: bool)
        requires
            j <= self.p@.len(),
        ensures
            yes == is_long(self.p@, j as int),
    {
        if self.p.len() - j < LONG {
            return false;
        }
        let end: usize = j + LONG;
        let mut k: usize = j;
        while k < end
            invariant
                j <= k <= end <= self.p@.len(),
                end == j + LONG,
                forall|i: int| j <= i < k ==> is_digit(#[trigger] self.p@[i]),
            decreases end - k,
        {
            if !('0' <= self.p[k] && self.p[k] <= '9') {
                assert(!is_digit(self.p@[k as int]));
                return false;
            }
            k = k + 1;
        }
        true
    }
}

/// Whether no count and no number of a group in a pattern is long.
pub fn has_short_numbers(pattern: &str) -> (tidy: bool)
    ensures
        tidy == is_tidy(pattern@),
{
    let text = Text::new(pattern);
    let mut j: usize = 0;
    while j < text.p.len()
        invariant
            text.is_valid(),
            text.p@ == pattern@,
            j <= text.p@.len(),
            forall|k: int|
                k < j && #[trigger] is_long(pattern@, k) ==> !is_in_name(pattern@, k)
                    && !is_in_counts(pattern@, k),
        decreases text.p@.len() - j,
    {
        if text.long(j) && (text.in_name(j) || text.in_counts(j)) {
            return false;
        }
        j = j + 1;
    }
    true
}

proof fn lemma_mode_push(before: Seq<char>, c: char)
    ensures
        mode(before.push(c)) == next_mode(mode(before), c),
{
    assert(before.push(c).drop_last() =~= before);
}

proof fn lemma_literal_modes(before: Seq<char>, text: Seq<char>)
    requires
        mode(before) is Plain,
    ensures
        mode(before + escaped(text)) is Plain,
        forall|i: int|
            before.len() <= i < (before + escaped(text)).len() ==> {
                let c = #[trigger] (before + escaped(text))[i];
                if is_escaped(before + escaped(text), i) {
                    is_meta(c)
                } else {
                    c == '\\' || !is_meta(c)
                }
            },
    decreases text.len(),
{
    let p = before + escaped(text);
    if text.len() == 0 {
        assert(p =~= before);
    } else {
        let rest = text.skip(1);
        let c = text[0];
        let slashed = before.push('\\');
        let after = if is_meta(c) {
            slashed.push(c)
        } else {
            before.push(c)
        };
        lemma_mode_push(before, '\\');
        lemma_mode_push(slashed, c);
        lemma_mode_push(before, c);
        assert(p =~= after + escaped(rest));
        lemma_literal_modes(after, rest);
        assert(p.take(before.len() as int) =~= before);
        if is_meta(c) {
            assert(p.take(before.len() as int + 1) =~= slashed);
        }
    }
}

proof fn lemma_no_name(p: Seq<char>, i: int)
    requires
        0 <= i <= p.len(),
        p.len() >= 4,
        p[0] == '(' && p[1] == '?' && p[2] == 'i' && p[3] == ')',
        forall|k: int|
            4 <= k < p.len() ==> {
                let c = #[trigger] p[k];
                if is_escaped(p, k) {
                    is_meta(c)
                } else {
                    c == '\\' || !is_meta(c)
                }
            },
    ensures
        !starts_name(p, i),
{
    if i >= 3 && i - 2 >= 4 {
        assert(is_escaped(p, i - 2) ==> is_meta(p[i - 2]));
    }
    if i >= 2 && i - 2 >= 4 {
        assert(p[i - 2] == '?' ==> is_escaped(p, i - 2));
    }
    if i >= 3 && i - 3 >= 4 {
        assert(p[i - 3] == '?' ==> is_escaped(p, i - 3));
    }
}

/// The pattern offered for an open window holds no long number, whatever the title
/// of the window is: all of it is read literally.
pub proof fn law_literal_pattern_is_tidy(title: Seq<char>)
    ensures
        is_tidy(caseless(escaped(title))),
{
    reveal_strlit("(?i)");
    let before = "(?i)"@;
    let p = caseless(escaped(title));
    lemma_mode_push(seq![], '(');
    lemma_mode_push(seq!['('], '?');
    lemma_mode_push(seq!['(', '?'], 'i');
    lemma_mode_push(seq!['(', '?', 'i'], ')');
    assert(seq![].push('(') =~= seq!['(']);
    assert(seq!['('].push('?') =~= seq!['(', '?']);
    assert(seq!['(', '?'].push('i') =~= seq!['(', '?', 'i']);
    assert(seq!['(', '?', 'i'].push(')') =~= before);
    lemma_literal_modes(before, title);
    assert forall|i: int| 0 <= i <= p.len() implies !#[trigger] starts_name(p, i) by {
        lemma_no_name(p, i);
    }
    assert forall|i: int| 0 <= i < p.len() implies !#[trigger] opens_counts(p, i) by {
        if i >= 4 {
            assert(p[i] == '\\' || !is_meta(p[i]) || is_escaped(p, i));
        }
    }
}

/// A pattern without nine digits in a row holds no long number.
pub proof fn law_short_numbers_are_tidy(pattern: &str, tidy: bool)
    requires
        call_ensures(has_short_numbers, (pattern,), tidy),
        forall|j: int|
            0 <= j && j + 9 <= pattern@.len() ==> exists|k: int|
                0 <= k < 9 && !('0' <= #[trigger] (#[trigger] pattern@.skip(j))[k] <= '9'),
    ensures
        tidy,
{
    assert forall|j: int| #[trigger] is_long(pattern@, j) implies !is_in_name(pattern@, j)
        && !is_in_counts(pattern@, j) by {
        let rest = pattern@.skip(j);
        let k = choose|k: int| 0 <= k < 9 && !('0' <= #[trigger] rest[k] <= '9');
        assert(is_digit(pattern@[j + k]));
    }
}

/// Without an opening brace, a question mark and a backslash, a row of digits of any
/// length is a text like any other.
pub proof fn law_long_texts_are_tidy(pattern: &str, tidy: bool)
    requires
        call_ensures(has_short_numbers, (pattern,), tidy),
        forall|i: int|
            0 <= i < pattern@.len() ==> #[trigger] pattern@[i] != '{' && pattern@[i] != '?'
                && pattern@[i] != '\\',
    ensures
        tidy,
{
    assert forall|i: int| 0 <= i <= pattern@.len() implies mode(#[trigger] pattern@.take(i)) is Plain by {
        lemma_plain(pattern@.take(i));
    }
    assert forall|i: int| 0 <= i <= pattern@.len() implies !#[trigger] starts_name(pattern@, i) by {
        if i >= 3 {
            assert(mode(pattern@.take(i - 2)) is Plain);
            assert(pattern@[i - 3] != '?');
        }
        if i >= 2 {
            assert(pattern@[i - 2] != '?');
        }
    }
    assert forall|i: int| 0 <= i < pattern@.len() implies !#[trigger] opens_counts(pattern@, i) by {
        assert(pattern@[i] != '{');
    }
}

proof fn lemma_plain(text: Seq<char>)
    requires
        forall|i: int| 0 <= i < text.len() ==> #[trigger] text[i] != '\\',
    ensures
        mode(text) is Plain,
    decreases text.len(),
{
    if text.len() > 0 {
        lemma_plain(text.drop_last());
        assert(text[text.len() - 1] != '\\');
    }
}

/// Nine digits are too many behind a brace, in a condition and in a named reference,
/// whatever stands before them and after.
pub proof fn law_long_numbers_are_refused(
    before: Seq<char>,
    digits: Seq<char>,
    after: Seq<char>,
    counted: &str,
    tested: &str,
    referred: &str,
    tidy: (bool, bool, bool),
)
    requires
        forall|i: int| 0 <= i < before.len() ==> #[trigger] before[i] != '\\',
        digits.len() >= 9,
        forall|i: int| 0 <= i < digits.len() ==> '0' <= #[trigger] digits[i] <= '9',
        counted@ == before + seq!['{'] + digits + after,
        tested@ == before + seq!['?', '('] + digits + after,
        referred@ == before + seq!['\\', 'k', '<'] + digits + after,
        call_ensures(has_short_numbers, (counted,), tidy.0),
        call_ensures(has_short_numbers, (tested,), tidy.1),
        call_ensures(has_short_numbers, (referred,), tidy.2),
    ensures
        !tidy.0 && !tidy.1 && !tidy.2,
{
    let n = before.len() as int;
    lemma_plain(before);
    lemma_mode_push(before, '\\');
    assert(counted@.take(n) =~= before);
    assert(opens_counts(counted@, n));
    assert(is_long(counted@, n + 1)) by {
        assert forall|k: int| n + 1 <= k < n + 10 implies is_digit(#[trigger] counted@[k]) by {
            assert(counted@[k] == digits[k - n - 1]);
        }
    }
    assert(is_in_counts(counted@, n + 1));
    assert(tested@.take(n) =~= before);
    assert(starts_name(tested@, n + 2));
    assert(is_long(tested@, n + 2)) by {
        assert forall|k: int| n + 2 <= k < n + 11 implies is_digit(#[trigger] tested@[k]) by {
            assert(tested@[k] == digits[k - n - 2]);
        }
    }
    assert(is_in_name(tested@, n + 2));
    assert(referred@.take(n + 1) =~= before.push('\\'));
    assert(starts_name(referred@, n + 3));
    assert(is_long(referred@, n + 3)) by {
        assert forall|k: int| n + 3 <= k < n + 12 implies is_digit(#[trigger] referred@[k]) by {
            assert(referred@[k] == digits[k - n - 3]);
        }
    }
    assert(is_in_name(referred@, n + 3));
}

/// A character that can stand directly before the name or number of a group, or open
/// the counts of a repetition.
pub open spec fn can_lead_to_a_number(c: char) -> bool {
    c == '(' || c == '<' || c == '\'' || c == '=' || c == '>' || c == '{'
}

/// A row of digits of any length is a text like any other where nothing in the
/// pattern can lead to a number, whatever else means something in it.
pub proof fn law_numbers_in_texts_are_tidy(pattern: &str, tidy: bool)
    requires
        call_ensures(has_short_numbers, (pattern,), tidy),
        forall|i: int| 0 <= i < pattern@.len() ==> !can_lead_to_a_number(#[trigger] pattern@[i]),
    ensures
        tidy,
{
    assert forall|i: int| 0 <= i <= pattern@.len() implies !#[trigger] starts_name(pattern@, i) by {
        if i >= 1 {
            assert(!can_lead_to_a_number(pattern@[i - 1]));
        }
    }
    assert forall|i: int| 0 <= i < pattern@.len() implies !#[trigger] opens_counts(pattern@, i) by {
        assert(!can_lead_to_a_number(pattern@[i]));
    }
}

/// So is one behind a closing brace, whatever counts stood before it, in a pattern
/// without comments.
pub proof fn law_numbers_behind_counts_are_tidy(
    head: Seq<char>,
    tail: Seq<char>,
    pattern: &str,
    tidy: bool,
)
    requires
        pattern@ == head.push('}') + tail,
        call_ensures(has_short_numbers, (pattern,), tidy),
        forall|i: int| 0 <= i < pattern@.len() ==> #[trigger] pattern@[i] != '\n' && pattern@[i] != '#',
        forall|i: int| 0 <= i < head.len() ==> !('0' <= #[trigger] head[i] <= '9') || i + 9
            > head.len() || exists|k: int| i <= k < i + 9 && !('0' <= #[trigger] head[k] <= '9'),
        forall|i: int| 0 <= i < tail.len() ==> !can_lead_to_a_number(#[trigger] tail[i]),
    ensures
        tidy,
{
    let p = pattern@;
    let n = head.len() as int;
    assert(p[n] == '}');
    assert(!is_commented(p));
    assert forall|j: int| #[trigger] is_long(p, j) implies !is_in_name(p, j) && !is_in_counts(p, j) by {
        assert(is_digit(p[j]));
        if j <= n {
            if j + 9 > n {
                assert(is_digit(p[n]));
            } else {
                assert(p[j] == head[j]);
                let k = choose|k: int| j <= k < j + 9 && !('0' <= #[trigger] head[k] <= '9');
                assert(is_digit(p[k]));
            }
        } else {
            assert forall|i: int| 0 <= i <= j && #[trigger] starts_name(p, i) implies exists|k: int|
                i <= k < j && !is_name_char(#[trigger] p[k]) by {
                if i > n + 1 {
                    assert(p[i - 1] == tail[i - 1 - n - 1]);
                    assert(!can_lead_to_a_number(tail[i - 1 - n - 1]));
                } else if i == n + 1 {
                    assert(p[i - 1] == '}');
                } else {
                    assert(!is_name_char(p[n]));
                }
            }
            assert forall|i: int| 0 <= i < j && #[trigger] opens_counts(p, i) implies exists|k: int|
                i < k < j && #[trigger] p[k] == '}' by {
                if i > n {
                    assert(p[i] == tail[i - n - 1]);
                    assert(!can_lead_to_a_number(tail[i - n - 1]));
                } else {
                    assert(p[n] == '}');
                }
            }
        }
    }
}

/// Nine digits are too many in every kind of reference: by either quote, in a quoted
/// condition, and in the forms that start with `?P`.
pub proof fn law_long_references_are_refused(
    before: Seq<char>,
    digits: Seq<char>,
    after: Seq<char>,
    called: &str,
    quoted: &str,
    tested: &str,
    python: &str,
    python_call: &str,
    sign: &str,
    tidy: Seq<bool>,
)
    requires
        forall|i: int| 0 <= i < before.len() ==> #[trigger] before[i] != '\\',
        digits.len() >= 9,
        forall|i: int| 0 <= i < digits.len() ==> '0' <= #[trigger] digits[i] <= '9',
        called@ == before + seq!['\\', 'g', '<'] + digits + after,
        quoted@ == before + seq!['\\', 'k', '\''] + digits + after,
        tested@ == before + seq!['?', '(', '<'] + digits + after,
        python@ == before + seq!['?', 'P', '='] + digits + after,
        python_call@ == before + seq!['?', 'P', '>'] + digits + after,
        sign@ == before + seq!['\\', 'k', '<', '-'] + digits + after,
        tidy.len() == 6,
        call_ensures(has_short_numbers, (called,), tidy[0]),
        call_ensures(has_short_numbers, (quoted,), tidy[1]),
        call_ensures(has_short_numbers, (tested,), tidy[2]),
        call_ensures(has_short_numbers, (python,), tidy[3]),
        call_ensures(has_short_numbers, (python_call,), tidy[4]),
        call_ensures(has_short_numbers, (sign,), tidy[5]),
    ensures
        forall|i: int| 0 <= i < 6 ==> !tidy[i],
{
    let n = before.len() as int;
    lemma_plain(before);
    lemma_mode_push(before, '\\');
    assert(called@.take(n + 1) =~= before.push('\\'));
    assert(quoted@.take(n + 1) =~= before.push('\\'));
    assert(sign@.take(n + 1) =~= before.push('\\'));
    assert(tested@.take(n) =~= before);
    assert(python@.take(n) =~= before);
    assert(python_call@.take(n) =~= before);
    assert(starts_name(called@, n + 3));
    assert(starts_name(quoted@, n + 3));
    assert(starts_name(tested@, n + 3));
    assert(starts_name(python@, n + 3));
    assert(starts_name(python_call@, n + 3));
    assert(starts_name(sign@, n + 3));
    lemma_long(called@, n + 3, digits);
    lemma_long(quoted@, n + 3, digits);
    lemma_long(tested@, n + 3, digits);
    lemma_long(python@, n + 3, digits);
    lemma_long(python_call@, n + 3, digits);
    lemma_long(sign@, n + 4, digits);
    assert(is_in_name(called@, n + 3));
    assert(is_in_name(quoted@, n + 3));
    assert(is_in_name(tested@, n + 3));
    assert(is_in_name(python@, n + 3));
    assert(is_in_name(python_call@, n + 3));
    assert(is_in_name(sign@, n + 4)) by {
        assert(is_name_char(sign@[n + 3]));
    }
}

proof fn lemma_long(p: Seq<char>, j: int, digits: Seq<char>)
    requires
        0 <= j && j + 9 <= p.len(),
        digits.len() >= 9,
        forall|i: int| 0 <= i < digits.len() ==> '0' <= #[trigger] digits[i] <= '9',
        forall|k: int| 0 <= k < 9 ==> p[j + k] == #[trigger] digits[k],
    ensures
        is_long(p, j),
{
    assert forall|k: int| j <= k < j + 9 implies is_digit(#[trigger] p[k]) by {
        assert(p[j + (k - j)] == digits[k - j]);
    }
}

} // verus!
