//! The outline of a pattern as the regex engine reads it: its groups, its
//! repetitions and references, and how large all of it is.
use super::numbers::is_tidy;
use fancy_regex::Expr;
use fancy_regex::LookAround::{LookAhead, LookAheadNeg};
use vstd::prelude::*;

verus! {

#[verifier::external_type_specification]
#[verifier::external_body]
pub struct ExExpr(fancy_regex::Expr);

/// An expression, as far as its size and its groups go.
pub enum Node {
    /// Matches one character, or none.
    Leaf,
    /// One after the other, or one of these.
    Several(Seq<Node>),
    /// A group whose match is remembered.
    Group(Box<Node>),
    /// Looks at what stands before.
    Behind(Box<Node>),
    /// Looks at what follows, or keeps to its first match.
    Inside(Box<Node>),
    /// So many times at least, and at most.
    Repeat(Box<Node>, usize, usize),
    /// The text that the group of this number matched.
    Reference(usize),
}

/// What a `fancy_regex::Expr` is made of.
pub uninterp spec fn outline(expr: fancy_regex::Expr) -> Node;

/// What an expression directly consists of.
pub enum Part<'a> {
    Leaf,
    Several(Vec<&'a Expr>),
    Group(&'a Expr),
    Behind(&'a Expr),
    Inside(&'a Expr),
    Repeat(&'a Expr, usize, usize),
    Reference(usize),
}

/// The outline of an expression that consists of this.
pub open spec fn assembled(part: Part) -> Node {
    match part {
        Part::Leaf => Node::Leaf,
        Part::Several(parts) => Node::Several(parts@.map_values(|e: &Expr| outline(*e))),
        Part::Group(inner) => Node::Group(Box::new(outline(*inner))),
        Part::Behind(inner) => Node::Behind(Box::new(outline(*inner))),
        Part::Inside(inner) => Node::Inside(Box::new(outline(*inner))),
        Part::Repeat(inner, lo, hi) => Node::Repeat(Box::new(outline(*inner)), lo, hi),
        Part::Reference(group) => Node::Reference(group),
    }
}

/// The variants of `fancy_regex::Expr`: concatenations, alternatives and
/// conditionals hold several expressions, groups, look-arounds, atomic groups and
/// repetitions hold one, a back reference holds the number of its group, and every
/// other variant holds no expression and matches a character at most.
#[verifier::external_body]
fn part(expr: &Expr) -> (part: Part<'_>)
    ensures
        outline(*expr) == assembled(part),
{
    match expr {
        Expr::Concat(parts) => Part::Several(parts.iter().collect()),
        Expr::Alt(parts) => Part::Several(parts.iter().collect()),
        Expr::Conditional { condition: a, true_branch: b, false_branch: c } => Part::Several(
            vec![a, b, c],
        ),
        Expr::Group(inner) => Part::Group(inner),
        Expr::LookAround(inner, LookAhead | LookAheadNeg) => Part::Inside(inner),
        Expr::LookAround(inner, _) => Part::Behind(inner),
        Expr::AtomicGroup(inner) => Part::Inside(inner),
        Expr::Repeat { child, lo, hi, .. } => Part::Repeat(child, *lo, *hi),
        Expr::Backref { group, .. } => Part::Reference(*group),
        _ => Part::Leaf,
    }
}

/// How large a pattern may be. Hardly any pattern of that size fits the memory
/// that the engine allows one.
pub const SIZE_LIMIT: u64 = 0x10_0000;

/// How much more what is looked for before a place weighs: the engine allows that
/// any amount of memory.
pub const BEHIND_WEIGHT: u64 = 256;

/// How many groups there are.
pub open spec fn groups(node: Node) -> nat
    decreases node,
{
    match node {
        Node::Leaf | Node::Reference(_) => 0,
        Node::Several(parts) => groups_of(parts),
        Node::Group(inner) => 1 + groups(*inner),
        Node::Behind(inner) | Node::Inside(inner) | Node::Repeat(inner, _, _) => groups(*inner),
    }
}

/// How many groups several parts hold together.
pub open spec fn groups_of(parts: Seq<Node>) -> nat
    decreases parts,
{
    if parts.len() == 0 {
        0
    } else {
        groups_of(parts.drop_last()) + groups(parts.last())
    }
}

/// Whether any text is referred to.
pub open spec fn refers(node: Node) -> bool
    decreases node,
{
    match node {
        Node::Leaf => false,
        Node::Reference(_) => true,
        Node::Several(parts) => any_refers(parts),
        Node::Group(inner)
        | Node::Behind(inner)
        | Node::Inside(inner)
        | Node::Repeat(inner, _, _) => refers(*inner),
    }
}

/// Whether any of several parts refers to a text.
pub open spec fn any_refers(parts: Seq<Node>) -> bool
    decreases parts,
{
    parts.len() > 0 && (any_refers(parts.drop_last()) || refers(parts.last()))
}

/// Whether a reference stands inside the group that it refers to. Groups are
/// numbered as they open, from `first` on; `open` are those around.
pub open spec fn refers_to_itself(node: Node, first: nat, open: Seq<nat>) -> bool
    decreases node,
{
    match node {
        Node::Leaf => false,
        Node::Reference(group) => open.contains(group as nat),
        Node::Several(parts) => any_refers_to_itself(parts, first, open),
        Node::Group(inner) => refers_to_itself(*inner, first + 1, open.push(first)),
        Node::Behind(inner) | Node::Inside(inner) | Node::Repeat(inner, _, _) => refers_to_itself(
            *inner,
            first,
            open,
        ),
    }
}

/// Whether that is so in any of several parts.
pub open spec fn any_refers_to_itself(parts: Seq<Node>, first: nat, open: Seq<nat>) -> bool
    decreases parts,
{
    parts.len() > 0 && {
        ||| any_refers_to_itself(parts.drop_last(), first, open)
        ||| refers_to_itself(parts.last(), first + groups_of(parts.drop_last()), open)
    }
}

/// A size, and that of the largest group up to there.
pub struct Extent {
    pub size: nat,
    pub largest: nat,
}

pub open spec fn larger(a: nat, b: nat) -> nat {
    if a < b {
        b
    } else {
        a
    }
}

/// How many copies a repetition makes, one at least.
pub open spec fn copies(lo: usize, hi: usize) -> nat {
    larger(
        1,
        if hi == usize::MAX {
            (lo + 1) as nat
        } else {
            larger(lo as nat, hi as nat)
        },
    )
}

/// How large an expression is with every repetition written out and every
/// reference as large as the largest group before it, which is `largest` at its
/// start.
pub open spec fn extent(node: Node, largest: nat) -> Extent
    decreases node,
{
    match node {
        Node::Leaf => Extent { size: 1, largest },
        Node::Reference(_) => Extent { size: larger(1, largest), largest },
        Node::Several(parts) => extent_of(parts, largest),
        Node::Group(inner) => {
            let e = extent(*inner, largest);
            Extent { size: e.size + 1, largest: larger(e.largest, e.size + 1) }
        },
        Node::Inside(inner) => extent(*inner, largest),
        Node::Behind(inner) => {
            let e = extent(*inner, largest);
            Extent { size: e.size * BEHIND_WEIGHT as nat, ..e }
        },
        Node::Repeat(inner, lo, hi) => {
            let e = extent(*inner, largest);
            Extent { size: e.size * copies(lo, hi), ..e }
        },
    }
}

/// How large several parts are together.
pub open spec fn extent_of(parts: Seq<Node>, largest: nat) -> Extent
    decreases parts,
{
    if parts.len() == 0 {
        Extent { size: 1, largest }
    } else {
        let before = extent_of(parts.drop_last(), largest);
        let e = extent(parts.last(), before.largest);
        Extent { size: before.size + e.size, ..e }
    }
}

/// How large a whole pattern is.
pub open spec fn pattern_size(node: Node) -> nat {
    extent(node, 0).size
}

/// Whether some group of a whole pattern holds a reference to itself.
pub open spec fn has_self_reference(node: Node) -> bool {
    refers_to_itself(node, 1, seq![])
}

proof fn lemma_extent(node: Node, largest: nat)
    ensures
        extent(node, largest).size >= 1,
        groups(node) <= extent(node, largest).size,
    decreases node,
{
    match node {
        Node::Leaf | Node::Reference(_) => {},
        Node::Several(parts) => {
            lemma_extent_of(parts, largest);
        },
        Node::Group(inner) | Node::Inside(inner) => {
            lemma_extent(*inner, largest);
        },
        Node::Behind(inner) => {
            lemma_extent(*inner, largest);
            lemma_grows(extent(*inner, largest).size, BEHIND_WEIGHT as nat);
        },
        Node::Repeat(inner, lo, hi) => {
            lemma_extent(*inner, largest);
            lemma_grows(extent(*inner, largest).size, copies(lo, hi));
        },
    }
}

proof fn lemma_extent_of(parts: Seq<Node>, largest: nat)
    ensures
        extent_of(parts, largest).size >= 1,
        groups_of(parts) <= extent_of(parts, largest).size,
    decreases parts,
{
    if parts.len() > 0 {
        lemma_extent_of(parts.drop_last(), largest);
        lemma_extent(parts.last(), extent_of(parts.drop_last(), largest).largest);
    }
}

proof fn lemma_grows(size: nat, times: nat)
    requires
        size >= 1,
        times >= 1,
    ensures
        size * times >= size,
        size * times >= times,
{
    assert(size * times >= size && size * times >= times) by (nonlinear_arith)
        requires
            size >= 1,
            times >= 1,
    ;
}

/// How many characters an expression is reckoned to take, where a reference takes
/// as many as its group.
pub open spec fn reckoned(node: Node, of_group: spec_fn(usize) -> nat) -> nat
    decreases node,
{
    match node {
        Node::Leaf => 1,
        Node::Reference(group) => of_group(group),
        Node::Several(parts) => reckoned_of(parts, of_group),
        Node::Group(inner) | Node::Behind(inner) | Node::Inside(inner) => reckoned(*inner, of_group),
        Node::Repeat(inner, lo, _) => reckoned(*inner, of_group) * lo as nat,
    }
}

/// How many characters several parts are reckoned to take together.
pub open spec fn reckoned_of(parts: Seq<Node>, of_group: spec_fn(usize) -> nat) -> nat
    decreases parts,
{
    if parts.len() == 0 {
        0
    } else {
        reckoned_of(parts.drop_last(), of_group) + reckoned(parts.last(), of_group)
    }
}

/// No part of a pattern is reckoned to take more characters than its size says, as
/// long as no group does.
pub proof fn law_size_bounds_the_reckoning(
    node: Node,
    of_group: spec_fn(usize) -> nat,
    largest: nat,
)
    requires
        forall|g: usize| #[trigger] of_group(g) <= largest,
    ensures
        reckoned(node, of_group) <= extent(node, largest).size,
        extent(node, largest).largest >= largest,
    decreases node,
{
    match node {
        Node::Leaf | Node::Reference(_) => {},
        Node::Several(parts) => {
            lemma_reckoned_of(parts, of_group, largest);
        },
        Node::Group(inner) | Node::Inside(inner) => {
            law_size_bounds_the_reckoning(*inner, of_group, largest);
        },
        Node::Behind(inner) => {
            law_size_bounds_the_reckoning(*inner, of_group, largest);
            lemma_extent(*inner, largest);
            lemma_grows(extent(*inner, largest).size, BEHIND_WEIGHT as nat);
        },
        Node::Repeat(inner, lo, hi) => {
            law_size_bounds_the_reckoning(*inner, of_group, largest);
            let r = reckoned(*inner, of_group);
            let size = extent(*inner, largest).size;
            assert(r * (lo as nat) <= size * copies(lo, hi)) by (nonlinear_arith)
                requires
                    r <= size,
                    lo as nat <= copies(lo, hi),
            ;
        },
    }
}

proof fn lemma_reckoned_of(parts: Seq<Node>, of_group: spec_fn(usize) -> nat, largest: nat)
    requires
        forall|g: usize| #[trigger] of_group(g) <= largest,
    ensures
        reckoned_of(parts, of_group) <= extent_of(parts, largest).size,
        extent_of(parts, largest).largest >= largest,
    decreases parts,
{
    if parts.len() > 0 {
        lemma_reckoned_of(parts.drop_last(), of_group, largest);
        law_size_bounds_the_reckoning(
            parts.last(),
            of_group,
            extent_of(parts.drop_last(), largest).largest,
        );
    }
}

/// Several parts are no smaller than the first of them are.
pub proof fn law_parts_add_up(parts: Seq<Node>, count: int, largest: nat)
    requires
        0 <= count <= parts.len(),
    ensures
        extent_of(parts.take(count), largest).size <= extent_of(parts, largest).size,
    decreases parts.len(),
{
    if count == parts.len() {
        assert(parts.take(count) =~= parts);
    } else {
        law_parts_add_up(parts.drop_last(), count, largest);
        assert(parts.drop_last().take(count) =~= parts.take(count));
    }
}

/// What was found out of an expression whose size is within a budget.
pub struct Survey {
    pub size: u64,
    /// The size of the largest group up to its end.
    pub largest: u64,
    pub groups: u64,
    pub refers: bool,
    pub refers_to_itself: bool,
}

/// What a survey says of an expression: `None` exactly if its size is beyond the
/// budget.
pub open spec fn surveyed(
    node: Node,
    first: u64,
    largest: u64,
    open: Seq<u64>,
    budget: u64,
    found: Option<Survey>,
) -> bool {
    let e = extent(node, largest as nat);
    match found {
        None => e.size > budget,
        Some(s) => {
            &&& s.size == e.size && s.size <= budget
            &&& s.largest == e.largest
            &&& s.groups == groups(node)
            &&& s.refers == refers(node)
            &&& s.refers_to_itself == refers_to_itself(node, first as nat, numbers(open))
        },
    }
}

/// The numbers of groups.
pub open spec fn numbers(open: Seq<u64>) -> Seq<nat> {
    open.map_values(|g: u64| g as nat)
}

fn is_open(open: &Vec<u64>, group: usize) -> (yes: bool)
    ensures
        yes == numbers(open@).contains(group as nat),
{
    let mut i: usize = 0;
    while i < open.len()
        invariant
            i <= open@.len(),
            forall|j: int| 0 <= j < i ==> open@[j] != group,
        decreases open@.len() - i,
    {
        if open[i] == group as u64 {
            assert(numbers(open@)[i as int] == group as nat);
            return true;
        }
        i = i + 1;
    }
    assert forall|j: int| 0 <= j < open@.len() implies numbers(open@)[j] != group as nat by {}
    false
}

/// A size times a count of copies, as far as the budget goes.
fn multiplied(size: u64, times: u64, budget: u64) -> (product: Option<u64>)
    requires
        1 <= size <= budget,
        1 <= times,
        budget <= SIZE_LIMIT,
    ensures
        match product {
            Some(n) => n == size * times && n <= budget,
            None => size * times > budget,
        },
{
    proof {
        lemma_grows(size as nat, times as nat);
    }
    if times > budget {
        return None;
    }
    assert(size * times <= 0x10_0000 * 0x10_0000) by (nonlinear_arith)
        requires
            size <= 0x10_0000,
            times <= 0x10_0000,
    ;
    if size * times > budget {
        None
    } else {
        Some(size * times)
    }
}

/// Surveys an expression whose groups are numbered from `first` on, inside the
/// groups `open`.
fn survey(expr: &Expr, first: u64, largest: u64, open: &Vec<u64>, budget: u64) -> (found: Option<
    Survey,
>)
    requires
        1 <= first,
        first + budget <= SIZE_LIMIT + 1,
    ensures
        surveyed(outline(*expr), first, largest, open@, budget, found),
    decreases outline(*expr),
{
    let ghost node = outline(*expr);
    proof {
        lemma_extent(node, largest as nat);
    }
    match part(expr) {
        Part::Leaf => if budget < 1 {
            None
        } else {
            Some(Survey { size: 1, largest, groups: 0, refers: false, refers_to_itself: false })
        },
        Part::Reference(group) => {
            let size: u64 = if largest < 1 {
                1
            } else {
                largest
            };
            if budget < size {
                None
            } else {
                Some(
                    Survey {
                        size,
                        largest,
                        groups: 0,
                        refers: true,
                        refers_to_itself: is_open(open, group),
                    },
                )
            }
        },
        Part::Several(parts) => {
            if budget < 1 {
                return None;
            }
            let ghost nodes = parts@.map_values(|e: &Expr| outline(*e));
            let mut s = Survey {
                size: 1,
                largest,
                groups: 0,
                refers: false,
                refers_to_itself: false,
            };
            let mut i: usize = 0;
            assert(nodes.take(0).len() == 0);
            while i < parts.len()
                invariant
                    i <= parts@.len(),
                    nodes == parts@.map_values(|e: &Expr| outline(*e)),
                    node == Node::Several(nodes),
                    node == outline(*expr),
                    1 <= first,
                    first + budget <= SIZE_LIMIT + 1,
                    s.size <= budget,
                    s.groups <= s.size,
                    s.size == extent_of(nodes.take(i as int), largest as nat).size,
                    s.largest == extent_of(nodes.take(i as int), largest as nat).largest,
                    s.groups == groups_of(nodes.take(i as int)),
                    s.refers == any_refers(nodes.take(i as int)),
                    s.refers_to_itself == any_refers_to_itself(
                        nodes.take(i as int),
                        first as nat,
                        numbers(open@),
                    ),
                decreases parts@.len() - i,
            {
                let ghost next = nodes.take(i + 1);
                proof {
                    assert(next.drop_last() =~= nodes.take(i as int));
                    assert(nodes[i as int] == outline(*parts@[i as int]));
                    lemma_extent_of(next, largest as nat);
                    assert(decreases_to!(node => node->Several_0));
                    assert(decreases_to!(nodes => nodes[i as int]));
                }
                match survey(parts[i], first + s.groups, s.largest, open, budget - s.size) {
                    None => {
                        proof {
                            law_parts_add_up(nodes, i + 1, largest as nat);
                        }
                        return None;
                    },
                    Some(e) => {
                        s = Survey {
                            size: s.size + e.size,
                            largest: e.largest,
                            groups: s.groups + e.groups,
                            refers: s.refers || e.refers,
                            refers_to_itself: s.refers_to_itself || e.refers_to_itself,
                        };
                    },
                }
                i = i + 1;
            }
            assert(nodes.take(i as int) =~= nodes);
            Some(s)
        },
        Part::Group(inner) => {
            if budget < 1 {
                return None;
            }
            let mut around: Vec<u64> = open.clone();
            around.push(first);
            assert(numbers(around@) =~= numbers(open@).push(first as nat));
            match survey(inner, first + 1, largest, &around, budget - 1) {
                None => None,
                Some(e) => Some(
                    Survey {
                        size: e.size + 1,
                        largest: if e.largest < e.size + 1 {
                            e.size + 1
                        } else {
                            e.largest
                        },
                        groups: e.groups + 1,
                        ..e
                    },
                ),
            }
        },
        Part::Inside(inner) => survey(inner, first, largest, open, budget),
        Part::Behind(inner) => {
            proof {
                lemma_extent(outline(*inner), largest as nat);
                lemma_grows(extent(outline(*inner), largest as nat).size, BEHIND_WEIGHT as nat);
            }
            match survey(inner, first, largest, open, budget) {
                None => None,
                Some(e) => match multiplied(e.size, BEHIND_WEIGHT, budget) {
                    None => None,
                    Some(size) => Some(Survey { size, ..e }),
                },
            }
        },
        Part::Repeat(inner, lo, hi) => {
            proof {
                lemma_extent(outline(*inner), largest as nat);
                lemma_grows(extent(outline(*inner), largest as nat).size, copies(lo, hi));
            }
            let times: u64 = if hi == usize::MAX {
                if lo as u64 > SIZE_LIMIT {
                    return None;
                }
                lo as u64 + 1
            } else if lo < hi {
                hi as u64
            } else if lo < 1 {
                1
            } else {
                lo as u64
            };
            match survey(inner, first, largest, open, budget) {
                None => None,
                Some(e) => match multiplied(e.size, times, budget) {
                    None => None,
                    Some(size) => Some(Survey { size, ..e }),
                },
            }
        },
    }
}

/// What `fancy_regex::Expr::parse_tree` reads from a pattern: `None` where it is
/// no regular expression.
pub uninterp spec fn parsed(pattern: Seq<char>) -> Option<Node>;

/// `fancy_regex::Expr::parse_tree` reads a pattern under the default options, as
/// compiling it does; what comes back depends on the pattern alone. A long number
/// would be read according to the width of a machine word, or have the engine set
/// aside memory for as many groups.
#[verifier::external_body]
pub(crate) fn parse(pattern: &str) -> (read: Option<Expr>)
    requires
        is_tidy(pattern@),
    ensures
        parsed(pattern@) == (match read {
            Some(expr) => Some(outline(expr)),
            None => None,
        }),
{
    Expr::parse_tree(pattern).ok().map(|tree| tree.expr)
}

/// The verdict on the outline of a pattern.
#[derive(Clone, Copy, PartialEq, Eq, Structural)]
pub enum Verdict {
    /// It can be compiled; whether it refers to what its groups matched.
    Fine { refers: bool },
    TooLarge,
    SelfReference,
}

/// The verdict on a pattern that reads so. Where it is no regular expression,
/// compiling it will tell.
pub open spec fn verdict(read: Option<Node>) -> Verdict {
    match read {
        None => Verdict::Fine { refers: false },
        Some(node) => if pattern_size(node) > SIZE_LIMIT {
            Verdict::TooLarge
        } else if has_self_reference(node) {
            Verdict::SelfReference
        } else {
            Verdict::Fine { refers: refers(node) }
        },
    }
}

/// The verdict on an expression, or on a pattern that is none.
pub fn judge(read: &Option<Expr>) -> (v: Verdict)
    ensures
        v == verdict(
            match *read {
                Some(expr) => Some(outline(expr)),
                None => None,
            },
        ),
{
    match read {
        None => Verdict::Fine { refers: false },
        Some(expr) => {
            let open: Vec<u64> = Vec::new();
            assert(numbers(open@) =~= seq![]);
            match survey(expr, 1, 0, &open, SIZE_LIMIT) {
                None => Verdict::TooLarge,
                Some(s) => if s.refers_to_itself {
                    Verdict::SelfReference
                } else {
                    Verdict::Fine { refers: s.refers }
                },
            }
        },
    }
}

/// The verdict on an expression: it is too large from 2 to the power of 20 on, else
/// one in which a group refers to itself is refused, and any other is fine. A pattern
/// that is no expression is left to the compiler.
pub proof fn law_verdicts(expr: Expr, judged: Verdict, unread: Verdict)
    requires
        call_ensures(judge, (&Some(expr),), judged),
        call_ensures(judge, (&None,), unread),
    ensures
        judged is TooLarge <==> pattern_size(outline(expr)) > 1_048_576,
        judged is SelfReference <==> pattern_size(outline(expr)) <= 1_048_576
            && has_self_reference(outline(expr)),
        judged matches Verdict::Fine { refers: r } ==> r == refers(outline(expr)),
        unread == (Verdict::Fine { refers: false }),
{
}

/// A character is of size 1, a group one larger than what it holds, a repetition as
/// many times as large as it has copies, what is looked for before a place 256 times
/// as large; looking ahead adds nothing, and parts add up.
pub proof fn law_sizes(inner: Node, parts: Seq<Node>, lo: usize, hi: usize, largest: nat)
    requires
        hi < usize::MAX,
    ensures
        extent(Node::Leaf, largest).size == 1,
        extent(Node::Group(Box::new(inner)), largest).size == extent(inner, largest).size + 1,
        extent(Node::Inside(Box::new(inner)), largest).size == extent(inner, largest).size,
        extent(Node::Behind(Box::new(inner)), largest).size == extent(inner, largest).size * 256,
        lo <= hi && 1 <= hi ==> extent(Node::Repeat(Box::new(inner), lo, hi), largest).size == extent(
            inner,
            largest,
        ).size * hi,
        extent(Node::Repeat(Box::new(inner), lo, usize::MAX), largest).size == extent(
            inner,
            largest,
        ).size * (lo + 1),
        extent(Node::Repeat(Box::new(inner), 0, 0), largest).size == extent(inner, largest).size,
        extent(Node::Several(parts.push(inner)), largest).size == extent(
            Node::Several(parts),
            largest,
        ).size + extent(inner, extent(Node::Several(parts), largest).largest).size,
        extent(Node::Several(seq![]), largest).size == 1,
{
    reveal_with_fuel(extent, 3);
    reveal_with_fuel(extent_of, 3);
    assert(parts.push(inner).drop_last() =~= parts);
    lemma_extent(inner, largest);
    let size = extent(inner, largest).size;
    assert(size * 1 == size);
}

/// A reference is as large as the largest group before it, which no part of a pattern
/// but a group makes larger.
pub proof fn law_sizes_of_references(group: usize, inner: Node, lo: usize, hi: usize, largest: nat)
    ensures
        largest >= 1 ==> extent(Node::Reference(group), largest).size == largest,
        extent(Node::Reference(group), 0).size == 1,
        extent(Node::Reference(group), largest).largest == largest,
        extent(Node::Leaf, largest).largest == largest,
        extent(Node::Group(Box::new(inner)), largest).largest >= extent(inner, largest).size + 1,
        extent(Node::Repeat(Box::new(inner), lo, hi), largest).largest == extent(
            inner,
            largest,
        ).largest,
{
}

/// A reference refers to its own group exactly if that group is open around it. A
/// group opens the next number for what it holds; what is repeated or looked at
/// changes nothing; and in a row of parts the numbers go on.
pub proof fn law_self_references(
    group: usize,
    inner: Node,
    parts: Seq<Node>,
    lo: usize,
    hi: usize,
    first: nat,
    open: Seq<nat>,
)
    ensures
        refers_to_itself(Node::Reference(group), first, open) <==> exists|i: int|
            0 <= i < open.len() && open[i] == group,
        !refers_to_itself(Node::Leaf, first, open),
        refers_to_itself(Node::Group(Box::new(inner)), first, open) == refers_to_itself(
            inner,
            first + 1,
            open.push(first),
        ),
        refers_to_itself(Node::Inside(Box::new(inner)), first, open) == refers_to_itself(
            inner,
            first,
            open,
        ),
        refers_to_itself(Node::Behind(Box::new(inner)), first, open) == refers_to_itself(
            inner,
            first,
            open,
        ),
        refers_to_itself(Node::Repeat(Box::new(inner), lo, hi), first, open) == refers_to_itself(
            inner,
            first,
            open,
        ),
        refers_to_itself(Node::Several(parts.push(inner)), first, open) == (refers_to_itself(
            Node::Several(parts),
            first,
            open,
        ) || refers_to_itself(inner, first + groups(Node::Several(parts)), open)),
        !refers_to_itself(Node::Several(seq![]), first, open),
        has_self_reference(inner) == refers_to_itself(inner, 1, seq![]),
{
    reveal_with_fuel(refers_to_itself, 3);
    reveal_with_fuel(any_refers_to_itself, 3);
    reveal_with_fuel(groups, 3);
    assert(parts.push(inner).drop_last() =~= parts);
}

/// Groups are counted where they stand, and references are found where they stand.
pub proof fn law_groups_and_references(
    group: usize,
    inner: Node,
    parts: Seq<Node>,
    lo: usize,
    hi: usize,
)
    ensures
        groups(Node::Leaf) == 0 && groups(Node::Reference(group)) == 0,
        groups(Node::Group(Box::new(inner))) == groups(inner) + 1,
        groups(Node::Inside(Box::new(inner))) == groups(inner),
        groups(Node::Behind(Box::new(inner))) == groups(inner),
        groups(Node::Repeat(Box::new(inner), lo, hi)) == groups(inner),
        groups(Node::Several(parts.push(inner))) == groups(Node::Several(parts)) + groups(inner),
        groups(Node::Several(seq![])) == 0,
        !refers(Node::Leaf) && refers(Node::Reference(group)),
        refers(Node::Group(Box::new(inner))) == refers(inner),
        refers(Node::Inside(Box::new(inner))) == refers(inner),
        refers(Node::Behind(Box::new(inner))) == refers(inner),
        refers(Node::Repeat(Box::new(inner), lo, hi)) == refers(inner),
        refers(Node::Several(parts.push(inner))) == (refers(Node::Several(parts)) || refers(inner)),
        !refers(Node::Several(seq![])),
{
    reveal_with_fuel(groups, 3);
    reveal_with_fuel(groups_of, 3);
    reveal_with_fuel(refers, 3);
    reveal_with_fuel(any_refers, 3);
    assert(parts.push(inner).drop_last() =~= parts);
}

} // verus!
