//! The "pull item" key: pulls (or equips) a chosen item through DIM, shows
//! the item's icon, and plays a short loading animation after a press.

use vstd::prelude::*;

verus! {

/// Per-key settings of a pull-item key, as the property inspector stores them.
#[derive(Clone, Debug)]
pub struct PullItemSettings {
    pub item: Option<String>,
    pub label: Option<String>,
    pub subtitle: Option<String>,
    pub icon: Option<String>,
    pub overlay: Option<String>,
    pub element: Option<String>,
    pub alt_action: Option<String>,
    /// `"hold"` or `"double"`: which gesture pulls and equips.
    pub alt_action_trigger: Option<String>,
    pub inventory: Option<bool>,
    pub is_exotic: Option<bool>,
}

/// The request sent to DIM to pull an item.
#[derive(Clone, Debug, PartialEq, Eq)]
pub struct SendPullItem {
    pub item: String,
    pub context: String,
    pub equip: bool,
}

/// The part of the plugin's global settings that the pull-item key reads.
#[derive(Clone, Copy, Debug)]
pub struct PartialPluginSettings {
    pub grayscale: Option<bool>,
}

/// The Stream Deck action that pulls an item.
pub struct PullItemAction;

/// What a press of the key does.
#[derive(Clone, Debug, PartialEq, Eq)]
pub enum PullOutcome {
    /// Send the request to DIM, then show the "ok" mark on the key.
    Pull(SendPullItem),
    /// Show the alert mark on the key (no item is configured).
    Alert(String),
}

/// `trigger` is set and equal to `word`.
pub open spec fn trigger_is(trigger: Option<String>, word: Seq<char>) -> bool {
    match trigger {
        Some(t) => t@ == word,
        None => false,
    }
}

/// Whether the item should be drawn in grayscale when not equipped: the
/// global `grayscale` flag, on by default, and on when the global settings
/// could not be read.
pub open spec fn grayscale_of(global: Option<PartialPluginSettings>) -> bool {
    match global {
        Some(g) => match g.grayscale {
            Some(flag) => flag,
            None => true,
        },
        None => true,
    }
}

fn trigger_equals(trigger: &Option<String>, word: &str) -> (res: bool)
    ensures
        res == trigger_is(*trigger, word@),
{
    match trigger {
        Some(t) => {
            let w = word.to_owned();
            *t == w
        },
        None => false,
    }
}

/// Whether the key draws the item in grayscale when it is not equipped.
pub fn grayscale_enabled(global: Option<PartialPluginSettings>) -> (enabled: bool)
    ensures
        enabled == grayscale_of(global),
{
    match global {
        Some(g) => match g.grayscale {
            Some(flag) => flag,
            None => true,
        },
        None => true,
    }
}

/// What pulling the item of a key with settings `item` does.
pub open spec fn pull_outcome_of(context: String, item: Option<String>, equip: bool) -> PullOutcome {
    match item {
        Some(item) => PullOutcome::Pull(SendPullItem { item, context, equip }),
        None => PullOutcome::Alert(context),
    }
}

/// Pulling sends DIM the configured item, for the pressed key, with the
/// equip flag asked for, and shows an alert on that key exactly when no
/// item is configured.
pub proof fn lemma_pull_sends_what_was_asked(context: String, item: Option<String>, equip: bool)
    ensures
        pull_outcome_of(context, item, equip) is Pull <==> item is Some,
        pull_outcome_of(context, item, equip) matches PullOutcome::Pull(data) ==> data.item
            == item->0 && data.context == context && data.equip == equip,
        pull_outcome_of(context, item, equip) matches PullOutcome::Alert(key) ==> key == context,
{
}

/// A trigger matches a word exactly when it is set to that word.
pub proof fn lemma_trigger_matches_only_its_word(trigger: Option<String>, word: Seq<char>)
    ensures
        trigger_is(trigger, word) <==> (trigger is Some && trigger->0@ == word),
{
}

impl PullItemAction {
    /// What pulling the configured item does: a request for DIM when an item
    /// is set, an alert on the key otherwise.
    pub fn pull_item(&self, context: String, settings: PullItemSettings, equip: bool) -> (outcome:
        PullOutcome)
        ensures
            outcome == pull_outcome_of(context, settings.item, equip),
    {
        match settings.item {
            Some(item) => PullOutcome::Pull(SendPullItem { item, context, equip }),
            None => PullOutcome::Alert(context),
        }
    }

    /// Whether releasing the key also equips the item: only on a double tap
    /// of a key whose alternative trigger is `"double"`.
    pub fn key_up_equips(&self, is_double_tap: bool, settings: &PullItemSettings) -> (equip: bool)
        ensures
            equip == (is_double_tap && trigger_is(settings.alt_action_trigger, "double"@)),
    {
        is_double_tap && trigger_equals(&settings.alt_action_trigger, "double")
    }

    /// What releasing the key does (before the key is redrawn with the
    /// loading animation): pull the item, equipping it on a double tap when
    /// the alternative trigger is `"double"`.
    pub fn key_up(&self, context: String, settings: PullItemSettings, is_double_tap: bool) -> (outcome:
        PullOutcome)
        ensures
            outcome == pull_outcome_of(
                context,
                settings.item,
                is_double_tap && trigger_is(settings.alt_action_trigger, "double"@),
            ),
    {
        let equip = self.key_up_equips(is_double_tap, &settings);
        self.pull_item(context, settings, equip)
    }

    /// Whether a long press pulls and equips the item: only on a key whose
    /// alternative trigger is `"hold"`.
    pub fn long_press_pulls(&self, settings: &PullItemSettings) -> (pull: bool)
        ensures
            pull == trigger_is(settings.alt_action_trigger, "hold"@),
    {
        trigger_equals(&settings.alt_action_trigger, "hold")
    }

    /// What a long press does: when the alternative trigger is `"hold"`,
    /// pull and equip the item; otherwise nothing.
    pub fn long_press(&self, context: String, settings: PullItemSettings) -> (outcome: Option<
        PullOutcome,
    >)
        ensures
            outcome == if trigger_is(settings.alt_action_trigger, "hold"@) {
                Some(pull_outcome_of(context, settings.item, true))
            } else {
                None
            },
    {
        if self.long_press_pulls(&settings) {
            Some(self.pull_item(context, settings, true))
        } else {
            None
        }
    }
}

} // verus!
