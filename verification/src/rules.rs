//! The rule list: which layer a title asks for, and editing the list.
use crate::config::Rule;
use crate::pattern::{matches_title, pattern_matches};
use vstd::prelude::*;

verus! {

/// The first position that is set.
pub open spec fn first_hit(hits: Seq<bool>) -> Option<int>
    decreases hits.len(),
{
    if hits.len() == 0 {
        None
    } else if first_hit(hits.drop_last()) is Some {
        first_hit(hits.drop_last())
    } else if hits.last() {
        Some(hits.len() - 1)
    } else {
        None
    }
}

/// `first_hit` is the least position that is set, if there is one.
pub proof fn lemma_first_hit(hits: Seq<bool>)
    ensures
        match first_hit(hits) {
            Some(i) => 0 <= i < hits.len() && hits[i] && forall|j: int| 0 <= j < i ==> !hits[j],
            None => forall|j: int| 0 <= j < hits.len() ==> !hits[j],
        },
    decreases hits.len(),
{
    if hits.len() > 0 {
        let shorter = hits.drop_last();
        lemma_first_hit(shorter);
        assert(forall|j: int| 0 <= j < shorter.len() ==> shorter[j] == hits[j]);
    }
}

/// For each rule, whether it matches the title.
pub open spec fn hits(rules: Seq<Rule>, title: Seq<char>) -> Seq<bool> {
    rules.map_values(|r: Rule| matches_title(r.pattern@, title))
}

/// The layer of the first rule that is hit.
pub open spec fn layer_at_first(rules: Seq<Rule>, hits: Seq<bool>) -> Option<u8> {
    match first_hit(hits) {
        Some(i) => Some(rules[i].layer),
        None => None,
    }
}

/// The layer that the rules ask for when a window of this title has the focus.
pub open spec fn resolved(rules: Seq<Rule>, title: Seq<char>) -> Option<u8> {
    layer_at_first(rules, hits(rules, title))
}

/// The layer of the first rule that is hit, among those tried so far.
pub fn layer_of_first_hit(rules: &[Rule], hits: &[bool]) -> (layer: Option<u8>)
    requires
        hits@.len() <= rules@.len(),
    ensures
        layer == layer_at_first(rules@, hits@),
{
    proof {
        lemma_first_hit(hits@);
    }
    let mut i: usize = 0;
    while i < hits.len()
        invariant
            i <= hits@.len() <= rules@.len(),
            forall|j: int| 0 <= j < i ==> !hits@[j],
        decreases hits@.len() - i,
    {
        if hits[i] {
            proof {
                lemma_first_hit(hits@);
            }
            return Some(rules[i].layer);
        }
        i = i + 1;
    }
    None
}

/// The layer that the rules ask for: rules are tried from the top and the first
/// match wins.
pub fn resolve_layer(rules: &[Rule], title: &str) -> (layer: Option<u8>)
    ensures
        layer == resolved(rules@, title@),
{
    let mut tried: Vec<bool> = Vec::new();
    let ghost all = hits(rules@, title@);
    let mut i: usize = 0;
    let mut found = false;
    while i < rules.len() && !found
        invariant
            i <= rules@.len(),
            all == hits(rules@, title@),
            tried@.len() == i,
            forall|j: int| 0 <= j < i ==> tried@[j] == all[j],
            forall|j: int| 0 <= j < i - 1 ==> !tried@[j],
            i > 0 ==> tried@[i - 1] == found,
            i == 0 ==> !found,
        decreases rules@.len() - i,
    {
        found = pattern_matches(rules[i].pattern.as_str(), title);
        tried.push(found);
        i = i + 1;
    }
    proof {
        lemma_first_hit(all);
        lemma_first_hit(tried@);
        if found {
            let last = i - 1;
            assert(tried@[last] && all[last]);
            assert(forall|j: int| 0 <= j < last ==> all[j] == tried@[j]);
            assert(first_hit(all) == Some(last));
            assert(first_hit(tried@) == Some(last));
        } else {
            assert(all =~= tried@);
        }
    }
    layer_of_first_hit(rules, tried.as_slice())
}

/// Where the rule taken from `from` lands, counted after it has been taken out:
/// `before` counts the list as it stood with the rule still in it.
pub open spec fn landing(from: int, before: int) -> int {
    if from < before {
        before - 1
    } else {
        before
    }
}

/// The list after the rule at `from` was dropped in front of position `before`.
pub open spec fn moved<T>(list: Seq<T>, from: int, before: int) -> Seq<T> {
    list.remove(from).insert(landing(from, before), list[from])
}

/// Moves the rule at `from` in front of the one at `before`; `before` may be
/// the length, for the end of the list.
pub fn move_rule(rules: &mut Vec<Rule>, from: usize, before: usize)
    requires
        from < old(rules)@.len(),
        before <= old(rules)@.len(),
    ensures
        final(rules)@ == moved(old(rules)@, from as int, before as int),
{
    let rule = rules.remove(from);
    let to = if from < before {
        before - 1
    } else {
        before
    };
    rules.insert(to, rule);
}

/// Where a rule dragged over a row would land: before the row when the pointer
/// is in its upper half or the row is the dragged rule's own, else after it.
pub fn drop_position(dragged: usize, row: usize, upper_half: bool) -> (before: usize)
    requires
        row < usize::MAX,
    ensures
        before == (if dragged == row || upper_half { row as int } else { row + 1 }),
{
    if dragged == row || upper_half {
        row
    } else {
        row + 1
    }
}

/// Rules are checked from the top and the first match wins: a rule that matches
/// below rules that do not decides the layer.
pub proof fn law_first_match_wins(rules: Seq<Rule>, title: Seq<char>, i: int)
    requires
        0 <= i < rules.len(),
        matches_title(rules[i].pattern@, title),
        forall|j: int| 0 <= j < i ==> !matches_title(#[trigger] rules[j].pattern@, title),
    ensures
        resolved(rules, title) == Some(rules[i].layer),
{
    let h = hits(rules, title);
    lemma_first_hit(h);
    assert(h[i]);
    assert(forall|j: int| 0 <= j < i ==> h[j] == matches_title(rules[j].pattern@, title));
}

/// Without a match no rule asks for a layer, and only then.
pub proof fn law_no_match_asks_for_nothing(rules: Seq<Rule>, title: Seq<char>)
    ensures
        resolved(rules, title) is None <==> forall|j: int|
            0 <= j < rules.len() ==> !matches_title(#[trigger] rules[j].pattern@, title),
{
    let h = hits(rules, title);
    lemma_first_hit(h);
    assert(forall|j: int|
        0 <= j < rules.len() ==> h[j] == matches_title(#[trigger] rules[j].pattern@, title));
    assert(forall|j: int| 0 <= j < rules.len() ==> h[j] == matches_title(rules[j].pattern@, title));
}

/// What stands below the first match has no say.
pub proof fn law_rules_below_the_match_are_ignored(
    rules: Seq<Rule>,
    below: Seq<Rule>,
    title: Seq<char>,
)
    requires
        resolved(rules, title) is Some,
    ensures
        resolved(rules + below, title) == resolved(rules, title),
{
    let h = hits(rules, title);
    lemma_first_hit(h);
    let i = first_hit(h)->0;
    assert forall|j: int| 0 <= j < i implies !matches_title(
        #[trigger] (rules + below)[j].pattern@,
        title,
    ) by {
        assert(!h[j]);
    }
    law_first_match_wins(rules + below, title, i);
}

/// A rule at the bottom takes over exactly the titles that nothing above it
/// matches.
pub proof fn law_added_rule_comes_last(rules: Seq<Rule>, added: Rule, title: Seq<char>)
    ensures
        resolved(rules.push(added), title) == (if resolved(rules, title) is Some {
            resolved(rules, title)
        } else if matches_title(added.pattern@, title) {
            Some(added.layer)
        } else {
            None
        }),
{
    let h = hits(rules, title);
    assert(hits(rules.push(added), title).drop_last() =~= h);
    lemma_first_hit(h);
}

/// Moving a rule keeps all rules, each as often as it was there.
pub proof fn law_move_keeps_every_rule(rules: Seq<Rule>, from: int, before: int)
    requires
        0 <= from < rules.len(),
        0 <= before <= rules.len(),
    ensures
        moved(rules, from, before).len() == rules.len(),
        moved(rules, from, before).to_multiset() == rules.to_multiset(),
        moved(rules, from, before)[landing(from, before)] == rules[from],
{
    broadcast use vstd::seq_lib::group_to_multiset_ensures;

    let rest = rules.remove(from);
    assert(rest.insert(landing(from, before), rules[from]).to_multiset() =~= rest.to_multiset().insert(
        rules[from],
    ));
    assert(rest.to_multiset() =~= rules.to_multiset().remove(rules[from]));
    assert(rules.to_multiset().contains(rules[from]));
    assert(moved(rules, from, before).to_multiset() =~= rules.to_multiset());
}

/// Moving a rule leaves the others in their order.
pub proof fn law_move_keeps_the_order_of_the_others(rules: Seq<Rule>, from: int, before: int)
    requires
        0 <= from < rules.len(),
        0 <= before <= rules.len(),
    ensures
        moved(rules, from, before).remove(landing(from, before)) == rules.remove(from),
{
    assert(moved(rules, from, before).remove(landing(from, before)) =~= rules.remove(from));
}

/// A move can be undone by moving the rule back to where it stood.
pub proof fn law_move_can_be_undone(rules: Seq<Rule>, from: int, before: int)
    requires
        0 <= from < rules.len(),
        0 <= before <= rules.len(),
    ensures
        ({
            let to = landing(from, before);
            let back = if to < from {
                from + 1
            } else {
                from
            };
            moved(moved(rules, from, before), to, back) == rules
        }),
{
    let to = landing(from, before);
    let back = if to < from {
        from + 1
    } else {
        from
    };
    law_move_keeps_the_order_of_the_others(rules, from, before);
    assert(moved(moved(rules, from, before), to, back) =~= rules);
}

/// Dropping a rule where it already stands changes nothing.
pub proof fn law_drop_in_place_changes_nothing(rules: Seq<Rule>, from: int)
    requires
        0 <= from < rules.len(),
    ensures
        moved(rules, from, from) == rules,
        moved(rules, from, from + 1) == rules,
{
    assert(moved(rules, from, from) =~= rules);
    assert(moved(rules, from, from + 1) =~= rules);
}

/// A matching rule dragged to the top decides the layer.
pub proof fn law_rule_on_top_decides(rules: Seq<Rule>, from: int, title: Seq<char>)
    requires
        0 <= from < rules.len(),
        matches_title(rules[from].pattern@, title),
    ensures
        resolved(moved(rules, from, 0), title) == Some(rules[from].layer),
{
    law_first_match_wins(moved(rules, from, 0), title, 0);
}

/// The layer that the rules ask for is that of a rule that matches while none above
/// it does, and there is none exactly if no rule matches.
pub proof fn law_resolve_layer_takes_the_first_match(
    rules: &[Rule],
    title: &str,
    layer: Option<u8>,
)
    requires
        call_ensures(resolve_layer, (rules, title), layer),
    ensures
        match layer {
            Some(l) => exists|i: int|
                0 <= i < rules@.len() && matches_title(#[trigger] rules@[i].pattern@, title@)
                    && rules@[i].layer == l && forall|j: int|
                    0 <= j < i ==> !matches_title(#[trigger] rules@[j].pattern@, title@),
            None => forall|i: int|
                0 <= i < rules@.len() ==> !matches_title(#[trigger] rules@[i].pattern@, title@),
        },
{
    let h = hits(rules@, title@);
    lemma_first_hit(h);
    law_no_match_asks_for_nothing(rules@, title@);
    if let Some(i) = first_hit(h) {
        assert forall|j: int| 0 <= j < i implies !matches_title(
            #[trigger] rules@[j].pattern@,
            title@,
        ) by {
            assert(!h[j]);
        }
        assert(matches_title(rules@[i].pattern@, title@));
    }
}

/// The first rule that was hit decides the layer.
pub proof fn law_first_hit_decides(rules: &[Rule], hits: &[bool], layer: Option<u8>)
    requires
        hits@.len() <= rules@.len(),
        call_ensures(layer_of_first_hit, (rules, hits), layer),
    ensures
        match layer {
            Some(l) => exists|i: int|
                0 <= i < hits@.len() && #[trigger] hits@[i] && rules@[i].layer == l && forall|j: int|
                    0 <= j < i ==> !#[trigger] hits@[j],
            None => forall|i: int| 0 <= i < hits@.len() ==> !#[trigger] hits@[i],
        },
{
    lemma_first_hit(hits@);
    if let Some(i) = first_hit(hits@) {
        assert(hits@[i]);
    }
}

/// A rule dragged down leaves its place to those it passes, which each move up by
/// one, and stands directly before the rule it was dropped in front of; one dragged
/// up has those it passes move down by one. All others stay where they are.
pub proof fn law_move_shifts_what_is_passed(rules: &mut Vec<Rule>, from: usize, before: usize, j: int)
    requires
        from < old(rules)@.len(),
        before <= old(rules)@.len(),
        0 <= j < old(rules)@.len(),
        call_ensures(move_rule, (rules, from, before), ()),
    ensures
        final(rules)@.len() == old(rules)@.len(),
        from < before ==> final(rules)@[before - 1] == old(rules)@[from as int],
        from >= before ==> final(rules)@[before as int] == old(rules)@[from as int],
        from < before && from < j < before ==> final(rules)@[j - 1] == old(rules)@[j],
        before < from && before <= j < from ==> final(rules)@[j + 1] == old(rules)@[j],
        j < from && j < before ==> final(rules)@[j] == old(rules)@[j],
        j > from && j >= before ==> final(rules)@[j] == old(rules)@[j],
{
}

/// Where a rule is dropped: in front of the row that it is dragged over, or behind
/// it where the pointer is in the lower half, but never behind itself.
pub proof fn law_drop_position_is_next_to_the_row(
    dragged: usize,
    row: usize,
    upper: usize,
    lower: usize,
)
    requires
        row < usize::MAX,
        call_ensures(drop_position, (dragged, row, true), upper),
        call_ensures(drop_position, (dragged, row, false), lower),
    ensures
        upper == row,
        dragged != row ==> lower == row + 1,
        dragged == row ==> lower == row,
{
}

} // verus!
