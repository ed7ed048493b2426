use dim_stream_deck::pull_item::{
    grayscale_enabled, PartialPluginSettings, PullItemAction, PullItemSettings, PullOutcome,
    SendPullItem,
};

fn settings(item: Option<&str>, trigger: Option<&str>) -> PullItemSettings {
    PullItemSettings {
        item: item.map(|s| s.to_string()),
        label: Some("Gjallarhorn".to_string()),
        subtitle: None,
        icon: Some("/icons/gjally.jpg".to_string()),
        overlay: None,
        element: None,
        alt_action: Some("equip".to_string()),
        alt_action_trigger: trigger.map(|s| s.to_string()),
        inventory: None,
        is_exotic: Some(true),
    }
}

fn pull(item: &str, context: &str, equip: bool) -> PullOutcome {
    PullOutcome::Pull(SendPullItem { item: item.to_string(), context: context.to_string(), equip })
}

#[test]
fn pulling_sends_the_item_with_the_key_context() {
    let action = PullItemAction;
    let outcome = action.pull_item("ctx-1".to_string(), settings(Some("6917529"), None), false);
    assert_eq!(outcome, pull("6917529", "ctx-1", false));
    let outcome = action.pull_item("ctx-1".to_string(), settings(Some("6917529"), None), true);
    assert_eq!(outcome, pull("6917529", "ctx-1", true));
}

#[test]
fn pulling_without_an_item_alerts() {
    let action = PullItemAction;
    let outcome = action.pull_item("ctx-2".to_string(), settings(None, Some("hold")), true);
    assert_eq!(outcome, PullOutcome::Alert("ctx-2".to_string()));
}

#[test]
fn key_up_equips_only_on_double_tap_with_double_trigger() {
    let action = PullItemAction;
    assert!(action.key_up_equips(true, &settings(Some("1"), Some("double"))));
    assert!(!action.key_up_equips(false, &settings(Some("1"), Some("double"))));
    assert!(!action.key_up_equips(true, &settings(Some("1"), Some("hold"))));
    assert!(!action.key_up_equips(true, &settings(Some("1"), None)));
    assert!(!action.key_up_equips(true, &settings(Some("1"), Some("Double"))));
    assert_eq!(
        action.key_up("c".to_string(), settings(Some("1"), Some("double")), true),
        pull("1", "c", true)
    );
    assert_eq!(
        action.key_up("c".to_string(), settings(Some("1"), Some("double")), false),
        pull("1", "c", false)
    );
    assert_eq!(
        action.key_up("c".to_string(), settings(None, Some("double")), true),
        PullOutcome::Alert("c".to_string())
    );
}

#[test]
fn long_press_pulls_and_equips_only_with_hold_trigger() {
    let action = PullItemAction;
    assert!(action.long_press_pulls(&settings(Some("1"), Some("hold"))));
    assert!(!action.long_press_pulls(&settings(Some("1"), Some("double"))));
    assert!(!action.long_press_pulls(&settings(Some("1"), None)));
    assert_eq!(
        action.long_press("c".to_string(), settings(Some("9"), Some("hold"))),
        Some(pull("9", "c", true))
    );
    assert_eq!(action.long_press("c".to_string(), settings(Some("9"), Some("double"))), None);
    assert_eq!(
        action.long_press("c".to_string(), settings(None, Some("hold"))),
        Some(PullOutcome::Alert("c".to_string()))
    );
}

#[test]
fn grayscale_defaults_to_on() {
    assert!(grayscale_enabled(None));
    assert!(grayscale_enabled(Some(PartialPluginSettings { grayscale: None })));
    assert!(grayscale_enabled(Some(PartialPluginSettings { grayscale: Some(true) })));
    assert!(!grayscale_enabled(Some(PartialPluginSettings { grayscale: Some(false) })));
}
