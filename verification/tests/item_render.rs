use dim_stream_deck::item_render::{begin_render, Glass, RenderPlan};
use dim_stream_deck::pull_item::PullItemSettings;

fn settings() -> PullItemSettings {
    PullItemSettings {
        item: Some("6917529".to_string()),
        label: None,
        subtitle: None,
        icon: Some("/icons/item.jpg".to_string()),
        overlay: Some("/icons/overlay.png".to_string()),
        element: Some("/icons/solar.png".to_string()),
        alt_action: None,
        alt_action_trigger: None,
        inventory: None,
        is_exotic: None,
    }
}

#[test]
fn nothing_is_drawn_without_item_or_icon() {
    let mut s = settings();
    s.item = None;
    assert!(begin_render(s).is_none());
    let mut s = settings();
    s.icon = None;
    assert!(begin_render(s).is_none());
}

#[test]
fn job_carries_the_sources_and_flags() {
    let job = begin_render(settings()).unwrap();
    assert_eq!(job.item, "6917529");
    assert_eq!(job.icon, "/icons/item.jpg");
    assert_eq!(job.overlay.as_deref(), Some("/icons/overlay.png"));
    assert_eq!(job.element.as_deref(), Some("/icons/solar.png"));
    assert!(!job.inventory);
    assert_eq!(job.glass, Glass::Legendary);
    assert!(job.needs_equipped_lookup(true));
    assert!(!job.needs_equipped_lookup(false));

    let mut s = settings();
    s.is_exotic = Some(true);
    s.inventory = Some(true);
    let job = begin_render(s).unwrap();
    assert_eq!(job.glass, Glass::Exotic);
    assert!(job.inventory);
    assert!(!job.needs_equipped_lookup(true));
    assert!(!job.needs_equipped_lookup(false));

    let mut s = settings();
    s.is_exotic = Some(false);
    s.inventory = Some(false);
    let job = begin_render(s).unwrap();
    assert_eq!(job.glass, Glass::Legendary);
    assert!(job.needs_equipped_lookup(true));
}

#[test]
fn nothing_is_drawn_without_the_icon_image() {
    let job = begin_render(settings()).unwrap();
    assert_eq!(job.plan(true, false, true, true, true), None);
}

#[test]
fn unequipped_item_is_grayed_when_grayscale_is_on() {
    let job = begin_render(settings()).unwrap();
    assert_eq!(
        job.plan(true, true, true, false, false),
        Some(RenderPlan {
            grayscale: true,
            overlay: true,
            equipped_mark: false,
            glass: Glass::Legendary,
            element: false,
        })
    );
}

#[test]
fn equipped_item_is_marked_when_grayscale_is_off() {
    let job = begin_render(settings()).unwrap();
    assert_eq!(
        job.plan(false, true, false, true, true),
        Some(RenderPlan {
            grayscale: false,
            overlay: false,
            equipped_mark: true,
            glass: Glass::Legendary,
            element: true,
        })
    );
}

#[test]
fn inventory_flag_counts_as_equipped() {
    let mut s = settings();
    s.inventory = Some(true);
    let job = begin_render(s).unwrap();
    let plan = job.plan(true, true, true, true, false).unwrap();
    assert!(!plan.grayscale);
    assert!(!plan.equipped_mark);
    let plan = job.plan(false, true, true, true, false).unwrap();
    assert!(plan.equipped_mark);
}

#[test]
fn grayscale_and_equipped_mark_never_together() {
    let job = begin_render(settings()).unwrap();
    for g in [false, true] {
        for o in [false, true] {
            for e in [false, true] {
                for q in [false, true] {
                    let plan = job.plan(g, true, o, e, q).unwrap();
                    assert!(!(plan.grayscale && plan.equipped_mark));
                    assert_eq!(plan.overlay, o);
                    assert_eq!(plan.element, e);
                }
            }
        }
    }
}
