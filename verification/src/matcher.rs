//! The matcher: follows the focused window and keeps the keyboard on the layer
//! that the rules ask for.
//!
//! One cycle takes the news of the window watcher, plans from a snapshot of the
//! shared state, has the plan carried out and records the outcome. A cycle also
//! runs when nothing came for a while, so that a failed switch is retried.
use crate::config::{copy_rules, Rule};
use crate::device::KeyboardDeviceInfo;
use crate::hid::HidResult;
use crate::pattern::matches_title;
use crate::rules::{resolve_layer, resolved};
use crate::text::{chars_of, copy_text};
use vstd::prelude::*;

verus! {

/// How long a cycle waits for news of the window watcher, in milliseconds.
pub const POLL_INTERVAL_MS: u64 = 500;

/// What the matcher and the settings window both see.
pub struct Shared {
    pub rules: Vec<Rule>,
    pub default_layer: u8,
    pub device: Option<KeyboardDeviceInfo>,
    pub last_title: Option<String>,
    pub last_layer_sent: Option<u8>,
    pub hid_error: Option<String>,
}

impl Clone for Shared {
    fn clone(&self) -> (copy: Self)
        ensures
            copy.rules@ == self.rules@,
            copy.default_layer == self.default_layer,
            copy.device == self.device,
            copy.last_title == self.last_title,
            copy.last_layer_sent == self.last_layer_sent,
            copy.hid_error == self.hid_error,
    {
        Shared {
            rules: copy_rules(&self.rules),
            default_layer: self.default_layer,
            device: match &self.device {
                Some(d) => Some(d.clone()),
                None => None,
            },
            last_title: copy_text(&self.last_title),
            last_layer_sent: self.last_layer_sent,
            hid_error: copy_text(&self.hid_error),
        }
    }
}

/// News of the window watcher.
pub enum News {
    /// The focus moved to a window of this title, or to none that is known.
    Focused(Option<String>),
    /// Nothing came in time.
    Timeout,
    /// The watcher is gone.
    Disconnected,
}

/// The title to act on, or `None` where the matcher ends. Without news it is
/// the title of the last cycle.
pub fn next_title(last: Option<String>, news: News) -> (next: Option<Option<String>>)
    ensures
        next == (match news {
            News::Focused(title) => Some(title),
            News::Timeout => Some(last),
            News::Disconnected => None,
        }),
{
    match news {
        News::Focused(title) => Some(title),
        News::Timeout => Some(last),
        News::Disconnected => None,
    }
}

/// The layer for a title: what the rules ask for, else the default layer. No
/// title at all asks for the default layer too.
pub open spec fn target(rules: Seq<Rule>, title: Option<Seq<char>>, default_layer: u8) -> u8 {
    match title {
        Some(t) => match resolved(rules, t) {
            Some(layer) => layer,
            None => default_layer,
        },
        None => default_layer,
    }
}

/// Falls back to the default layer where no rule asked for one.
pub fn layer_or_default(asked: Option<u8>, default_layer: u8) -> (layer: u8)
    ensures
        layer == (match asked {
            Some(l) => l,
            None => default_layer,
        }),
{
    match asked {
        Some(layer) => layer,
        None => default_layer,
    }
}

/// The layer that the keyboard should be on while a window of this title has
/// the focus.
pub fn target_layer(rules: &[Rule], title: &Option<String>, default_layer: u8) -> (layer: u8)
    ensures
        layer == target(rules@, chars_of(*title), default_layer),
{
    let asked = match title {
        Some(t) => resolve_layer(rules, t.as_str()),
        None => None,
    };
    layer_or_default(asked, default_layer)
}

/// What a cycle sets out to do.
pub struct Plan {
    /// The layer the keyboard should be on.
    pub target_layer: u8,
    /// The keyboard to switch, if it has to be switched.
    pub switch: Option<KeyboardDeviceInfo>,
}

/// A keyboard is switched if one is selected and the layer is not the one that
/// was sent last.
pub open spec fn switched(
    device: Option<KeyboardDeviceInfo>,
    last_layer_sent: Option<u8>,
    target_layer: u8,
) -> Option<KeyboardDeviceInfo> {
    if last_layer_sent == Some(target_layer) {
        None
    } else {
        device
    }
}

/// The plan for reaching a layer from a state.
pub open spec fn planned(shared: Shared, target_layer: u8) -> Plan {
    Plan {
        target_layer,
        switch: switched(shared.device, shared.last_layer_sent, target_layer),
    }
}

impl Shared {
    /// The layer this state asks for while `title` has the focus.
    pub open spec fn wants(self, title: Option<String>) -> u8 {
        target(self.rules@, chars_of(title), self.default_layer)
    }

    /// Plans how to get to a layer.
    pub fn plan_for(&self, target_layer: u8) -> (plan: Plan)
        ensures
            plan == planned(*self, target_layer),
    {
        let settled = match self.last_layer_sent {
            Some(sent) => sent == target_layer,
            None => false,
        };
        let switch = if settled {
            None
        } else {
            match &self.device {
                Some(d) => Some(d.clone()),
                None => None,
            }
        };
        Plan { target_layer, switch }
    }

    /// Plans a cycle: the layer for the focused title, and the keyboard to
    /// switch if it is not known to be there already.
    pub fn plan(&self, title: &Option<String>) -> (plan: Plan)
        ensures
            plan == planned(*self, self.wants(*title)),
    {
        self.plan_for(target_layer(self.rules.as_slice(), title, self.default_layer))
    }

    /// Records a cycle: the title it saw and, where a switch was tried, its
    /// error or the layer that is now in place. The rules, the default layer
    /// and the keyboard are left as they are, whatever happened to them since
    /// the plan was made.
    pub fn record(&mut self, title: Option<String>, target_layer: u8, outcome: Outcome)
        ensures
            recorded(*old(self), title, target_layer, outcome, *final(self)),
    {
        self.last_title = title;
        match outcome {
            Outcome::NotTried => {},
            Outcome::Unreachable => {
                self.hid_error = Some("Device unreachable".to_owned());
            },
            Outcome::Sent(Ok(_)) => {
                self.hid_error = None;
                self.last_layer_sent = Some(target_layer);
            },
            Outcome::Sent(Err(e)) => {
                self.hid_error = Some(e);
            },
        }
    }
}

/// What came of a plan.
pub enum Outcome {
    /// There was nothing to switch.
    NotTried,
    /// The keyboard could not be opened.
    Unreachable,
    /// The layer was sent, with this result.
    Sent(HidResult<()>),
}

/// The state after a cycle was recorded.
pub open spec fn recorded(
    before: Shared,
    title: Option<String>,
    target_layer: u8,
    outcome: Outcome,
    after: Shared,
) -> bool {
    &&& after.rules == before.rules
    &&& after.default_layer == before.default_layer
    &&& after.device == before.device
    &&& after.last_title == title
    &&& match outcome {
        Outcome::NotTried => after.hid_error == before.hid_error && after.last_layer_sent
            == before.last_layer_sent,
        Outcome::Unreachable => chars_of(after.hid_error) == Some(
            "Device unreachable"@,
        ) && after.last_layer_sent == before.last_layer_sent,
        Outcome::Sent(Ok(_)) => after.hid_error is None && after.last_layer_sent == Some(
            target_layer,
        ),
        Outcome::Sent(Err(e)) => after.hid_error == Some(e) && after.last_layer_sent
            == before.last_layer_sent,
    }
}

/// The outcome of a plan: nothing where it switches no keyboard; else whether
/// the keyboard could be opened and what sending the layer gave (`sent`).
pub fn outcome_of(plan: &Plan, sent: Option<HidResult<()>>) -> (outcome: Outcome)
    ensures
        outcome == (if plan.switch is None {
            Outcome::NotTried
        } else {
            match sent {
                Some(result) => Outcome::Sent(result),
                None => Outcome::Unreachable,
            }
        }),
{
    if plan.switch.is_none() {
        Outcome::NotTried
    } else {
        match sent {
            Some(result) => Outcome::Sent(result),
            None => Outcome::Unreachable,
        }
    }
}

/// A window that no rule matches, and no window at all, go back to the default
/// layer.
pub proof fn law_unmatched_windows_get_the_default_layer(
    rules: Seq<Rule>,
    title: Option<Seq<char>>,
    default_layer: u8,
)
    requires
        title matches Some(t) ==> forall|j: int|
            0 <= j < rules.len() ==> !matches_title(
                #[trigger] rules[j].pattern@,
                t,
            ),
    ensures
        target(rules, title, default_layer) == default_layer,
{
    if let Some(t) = title {
        crate::rules::law_no_match_asks_for_nothing(rules, t);
    }
}

/// After a switch that went through, the same title asks for no further switch:
/// repeated news of a window is free.
pub proof fn law_repeats_are_free(
    before: Shared,
    title: Option<String>,
    after: Shared,
)
    requires
        recorded(before, title, before.wants(title), Outcome::Sent(Ok(())), after),
    ensures
        after.wants(title) == before.wants(title),
        planned(after, after.wants(title)).switch is None,
{
}

/// A switch that failed is planned again in the next cycle, to the same layer
/// on the same keyboard.
pub proof fn law_failed_switch_is_retried(
    before: Shared,
    title: Option<String>,
    outcome: Outcome,
    after: Shared,
)
    requires
        planned(before, before.wants(title)).switch is Some,
        outcome is Unreachable || outcome matches Outcome::Sent(Err(_)),
        recorded(before, title, before.wants(title), outcome, after),
    ensures
        after.hid_error is Some,
        planned(after, after.wants(title)) == planned(before, before.wants(title)),
{
}

/// A cycle with nothing to switch keeps the error shown and the layer known to
/// be in place.
pub proof fn law_idle_cycle_changes_only_the_title(
    before: Shared,
    title: Option<String>,
    after: Shared,
)
    requires
        planned(before, before.wants(title)).switch is None,
        recorded(before, title, before.wants(title), Outcome::NotTried, after),
    ensures
        after == (Shared { last_title: title, ..before }),
{
}

/// Nothing is ever sent without a selected keyboard, and to no other than it.
pub proof fn law_only_the_selected_keyboard_is_switched(shared: Shared, title: Option<String>)
    ensures
        planned(shared, shared.wants(title)).switch matches Some(d) ==> shared.device == Some(d),
{
}

/// Whether the layer known to be in place is the one that the focused window
/// wants.
pub open spec fn settled(shared: Shared) -> bool {
    shared.last_layer_sent == Some(shared.wants(shared.last_title))
}

/// Every cycle without an error settles the keyboard, if there is one: either
/// the layer was in place already, or it was sent.
pub proof fn law_cycle_settles(
    before: Shared,
    title: Option<String>,
    outcome: Outcome,
    after: Shared,
)
    requires
        before.device is Some,
        recorded(before, title, before.wants(title), outcome, after),
        match planned(before, before.wants(title)).switch {
            Some(_) => outcome matches Outcome::Sent(Ok(_)),
            None => outcome is NotTried,
        },
    ensures
        settled(after),
        after.last_title == title,
        planned(before, before.wants(title)).switch is Some ==> after.hid_error is None,
{
}

/// A settled keyboard stays settled without anything being sent while the focus
/// stays where it is.
pub proof fn law_settled_keyboard_is_left_alone(shared: Shared)
    requires
        settled(shared),
    ensures
        planned(shared, shared.wants(shared.last_title)).switch is None,
{
}

/// A plan is for the layer of the first rule that matches the title, and for the
/// default layer without a title or a match, whatever was sent before. Its
/// keyboard is the selected one, unless that layer is the one sent last.
pub proof fn law_plan_is_for_the_layer_asked_for(
    shared: Shared,
    title: Option<String>,
    plan: Plan,
    i: int,
)
    requires
        call_ensures(Shared::plan, (&shared, &title), plan),
    ensures
        title is None ==> plan.target_layer == shared.default_layer,
        title matches Some(t) ==> 0 <= i < shared.rules@.len() && matches_title(
            shared.rules@[i].pattern@,
            t@,
        ) && (forall|j: int|
            0 <= j < i ==> !matches_title(#[trigger] shared.rules@[j].pattern@, t@))
            ==> plan.target_layer == shared.rules@[i].layer,
        title matches Some(t) ==> (forall|j: int|
            0 <= j < shared.rules@.len() ==> !matches_title(
                #[trigger] shared.rules@[j].pattern@,
                t@,
            )) ==> plan.target_layer == shared.default_layer,
        shared.last_layer_sent == Some(plan.target_layer) ==> plan.switch is None,
        shared.last_layer_sent != Some(plan.target_layer) ==> plan.switch == shared.device,
{
    lemma_target(shared.rules@, title, shared.default_layer, i);
}

proof fn lemma_target(rules: Seq<Rule>, title: Option<String>, default_layer: u8, i: int)
    ensures
        title is None ==> target(rules, chars_of(title), default_layer) == default_layer,
        title matches Some(t) ==> 0 <= i < rules.len() && matches_title(rules[i].pattern@, t@) && (
        forall|j: int| 0 <= j < i ==> !matches_title(#[trigger] rules[j].pattern@, t@)) ==> target(
            rules,
            chars_of(title),
            default_layer,
        ) == rules[i].layer,
        title matches Some(t) ==> (forall|j: int|
            0 <= j < rules.len() ==> !matches_title(#[trigger] rules[j].pattern@, t@)) ==> target(
            rules,
            chars_of(title),
            default_layer,
        ) == default_layer,
{
    if let Some(t) = title {
        crate::rules::law_no_match_asks_for_nothing(rules, t@);
        if 0 <= i < rules.len() && matches_title(rules[i].pattern@, t@) && (forall|j: int|
            0 <= j < i ==> !matches_title(#[trigger] rules[j].pattern@, t@)) {
            crate::rules::law_first_match_wins(rules, t@, i);
        }
    }
}

/// The layer for a title is that of the first rule that matches it, and the
/// default layer without a title or a match.
pub proof fn law_target_layer_is_that_of_the_first_match(
    rules: &[Rule],
    title: Option<String>,
    default_layer: u8,
    layer: u8,
    i: int,
)
    requires
        call_ensures(target_layer, (rules, &title, default_layer), layer),
    ensures
        title is None ==> layer == default_layer,
        title matches Some(t) ==> 0 <= i < rules@.len() && matches_title(rules@[i].pattern@, t@)
            && (forall|j: int| 0 <= j < i ==> !matches_title(#[trigger] rules@[j].pattern@, t@))
            ==> layer == rules@[i].layer,
        title matches Some(t) ==> (forall|j: int|
            0 <= j < rules@.len() ==> !matches_title(#[trigger] rules@[j].pattern@, t@)) ==> layer
            == default_layer,
{
    lemma_target(rules@, title, default_layer, i);
}

/// What a plan sends and records is the layer it was made for, whatever was sent
/// before; the selected keyboard is switched unless it got that layer last.
pub proof fn law_plan_keeps_its_layer(shared: Shared, layer: u8, plan: Plan)
    requires
        call_ensures(Shared::plan_for, (&shared, layer), plan),
    ensures
        plan.target_layer == layer,
        shared.last_layer_sent == Some(layer) ==> plan.switch is None,
        shared.last_layer_sent != Some(layer) ==> plan.switch == shared.device,
{
}

/// Two plans from states that differ only in what was sent last are for the same
/// layer.
pub proof fn law_history_does_not_change_the_layer(
    one: Shared,
    other: Shared,
    title: Option<String>,
    first: Plan,
    second: Plan,
)
    requires
        one.rules@ == other.rules@,
        one.default_layer == other.default_layer,
        call_ensures(Shared::plan, (&one, &title), first),
        call_ensures(Shared::plan, (&other, &title), second),
    ensures
        first.target_layer == second.target_layer,
{
}

/// A rule's own layer wins over the default layer, and the default layer steps in
/// only where no rule asked for one.
pub proof fn law_asked_layer_comes_first(default_layer: u8, asked: u8, with: u8, without: u8)
    requires
        call_ensures(layer_or_default, (Some(asked), default_layer), with),
        call_ensures(layer_or_default, (None, default_layer), without),
    ensures
        with == asked,
        without == default_layer,
{
}

/// News of the focus replaces the title, a timeout keeps it, and only the end of
/// the watcher ends the matcher.
pub proof fn law_news_decides_the_title(
    last: Option<String>,
    title: Option<String>,
    focused: Option<Option<String>>,
    timeout: Option<Option<String>>,
    disconnected: Option<Option<String>>,
)
    requires
        call_ensures(next_title, (last, News::Focused(title)), focused),
        call_ensures(next_title, (last, News::Timeout), timeout),
        call_ensures(next_title, (last, News::Disconnected), disconnected),
    ensures
        focused == Some(title),
        timeout == Some(last),
        disconnected is None,
{
}

/// Recording a cycle never touches the rules, the default layer or the keyboard,
/// and always takes the title.
pub proof fn law_recording_keeps_the_settings(
    shared: &mut Shared,
    title: Option<String>,
    layer: u8,
    outcome: Outcome,
)
    requires
        call_ensures(Shared::record, (shared, title, layer, outcome), ()),
    ensures
        final(shared).rules@ == old(shared).rules@,
        final(shared).default_layer == old(shared).default_layer,
        final(shared).device == old(shared).device,
        final(shared).last_title == title,
{
}

/// The layer known to be in place changes exactly with a switch that went through,
/// to the layer sent; the error goes then, stays where nothing was tried, and is
/// the one met otherwise.
pub proof fn law_recording_takes_the_outcome(
    shared: &mut Shared,
    title: Option<String>,
    layer: u8,
    outcome: Outcome,
)
    requires
        call_ensures(Shared::record, (shared, title, layer, outcome), ()),
    ensures
        match outcome {
            Outcome::Sent(Ok(_)) => final(shared).last_layer_sent == Some(layer),
            _ => final(shared).last_layer_sent == old(shared).last_layer_sent,
        },
        match outcome {
            Outcome::NotTried => final(shared).hid_error == old(shared).hid_error,
            Outcome::Unreachable => final(shared).hid_error matches Some(e) && e@
                == "Device unreachable"@,
            Outcome::Sent(Ok(_)) => final(shared).hid_error is None,
            Outcome::Sent(Err(e)) => final(shared).hid_error == Some(e),
        },
{
}

/// Nothing is recorded as tried where no keyboard was to be switched; else a
/// keyboard that could not be opened is unreachable, and one that could has the
/// result of sending.
pub proof fn law_outcome_follows_the_keyboard(
    plan: Plan,
    sent: Option<HidResult<()>>,
    outcome: Outcome,
)
    requires
        call_ensures(outcome_of, (&plan, sent), outcome),
    ensures
        plan.switch is None ==> outcome is NotTried,
        plan.switch is Some && sent is None ==> outcome is Unreachable,
        plan.switch is Some ==> (sent matches Some(result) ==> outcome == Outcome::Sent(result)),
{
}

/// A snapshot of the state plans what the state itself does.
pub proof fn law_snapshot_plans_the_same(
    shared: Shared,
    copy: Shared,
    title: Option<String>,
    plan: Plan,
    copied: Plan,
)
    requires
        call_ensures(Shared::clone, (&shared,), copy),
        call_ensures(Shared::plan, (&shared, &title), plan),
        call_ensures(Shared::plan, (&copy, &title), copied),
    ensures
        copied == plan,
        copy.last_title == shared.last_title,
        copy.hid_error == shared.hid_error,
        copy.device == shared.device,
        copy.last_layer_sent == shared.last_layer_sent,
{
}

/// The matcher looks again twice a second.
pub proof fn law_failed_switch_is_retried_soon()
    ensures
        2 * POLL_INTERVAL_MS == 1000,
{
}

} // verus!
