//! What the pull-item key draws: which images are fetched, which glass frame
//! goes over the icon, and when the icon is grayed out or marked equipped.

use crate::pull_item::PullItemSettings;
use vstd::prelude::*;

verus! {

/// The rarity frame drawn over the item icon.
#[derive(Clone, Copy, Debug, PartialEq, Eq, Structural)]
pub enum Glass {
    Exotic,
    Legendary,
}

/// The images to fetch for a key, and what its settings say about the item.
#[derive(Clone, Debug)]
pub struct RenderJob {
    pub item: String,
    pub icon: String,
    pub overlay: Option<String>,
    pub element: Option<String>,
    /// The item is known to be in the inventory (and so counts as equipped)
    /// without asking DIM.
    pub inventory: bool,
    pub glass: Glass,
}

/// The layers of the key's image, bottom to top: the icon (grayed out when
/// `grayscale`), the overlay when `overlay`, the equipped mark when
/// `equipped_mark`, the glass frame, and the element badge when `element`.
#[derive(Clone, Copy, Debug, PartialEq, Eq, Structural)]
pub struct RenderPlan {
    pub grayscale: bool,
    pub overlay: bool,
    pub equipped_mark: bool,
    pub glass: Glass,
    pub element: bool,
}

/// The glass frame for the settings' `is_exotic` flag.
pub open spec fn glass_of(is_exotic: Option<bool>) -> Glass {
    match is_exotic {
        Some(true) => Glass::Exotic,
        _ => Glass::Legendary,
    }
}

/// The layers drawn for a fetched icon.
pub open spec fn plan_of(
    glass: Glass,
    grayscale_enabled: bool,
    has_overlay: bool,
    has_element: bool,
    equipped: bool,
) -> RenderPlan {
    RenderPlan {
        grayscale: !equipped && grayscale_enabled,
        overlay: has_overlay,
        equipped_mark: equipped && !grayscale_enabled,
        glass,
        element: has_element,
    }
}

/// How the icon is layered: it is grayed out exactly when grayscale is on
/// and the item is not equipped (so never with grayscale off, and never
/// when equipped); the equipped mark shows exactly when the item is
/// equipped and grayscale is off; the glass frame is the one asked for, and
/// the overlay and element badge are drawn exactly when fetched.
pub proof fn lemma_layers(
    glass: Glass,
    grayscale_enabled: bool,
    has_overlay: bool,
    has_element: bool,
    equipped: bool,
)
    ensures
        ({
            let p = plan_of(glass, grayscale_enabled, has_overlay, has_element, equipped);
            &&& !grayscale_enabled ==> !p.grayscale
            &&& equipped ==> !p.grayscale
            &&& grayscale_enabled && !equipped ==> p.grayscale
            &&& p.equipped_mark ==> equipped && !grayscale_enabled
            &&& equipped && !grayscale_enabled ==> p.equipped_mark
            &&& !(p.grayscale && p.equipped_mark)
            &&& p.glass == glass
            &&& p.overlay == has_overlay
            &&& p.element == has_element
        }),
{
}

/// Exotic items are framed with the exotic glass, all others (including
/// those whose rarity is unknown) with the legendary glass.
pub proof fn lemma_glass_follows_rarity(is_exotic: Option<bool>)
    ensures
        is_exotic == Some(true) ==> glass_of(is_exotic) == Glass::Exotic,
        is_exotic != Some(true) ==> glass_of(is_exotic) == Glass::Legendary,
{
}

/// Starts drawing a key: nothing is drawn unless both an item and an icon
/// are configured; otherwise the icon, overlay and element are fetched.
pub fn begin_render(settings: PullItemSettings) -> (job: Option<RenderJob>)
    ensures
        job is Some <==> (settings.item is Some && settings.icon is Some),
        job matches Some(j) ==> {
            &&& j.item == settings.item->0
            &&& j.icon == settings.icon->0
            &&& j.overlay == settings.overlay
            &&& j.element == settings.element
            &&& j.inventory == (settings.inventory == Some(true))
            &&& j.glass == glass_of(settings.is_exotic)
            &&& j.glass == (if settings.is_exotic == Some(true) {
                Glass::Exotic
            } else {
                Glass::Legendary
            })
        },
{
    let inventory = match settings.inventory {
        Some(flag) => flag,
        None => false,
    };
    let glass = match settings.is_exotic {
        Some(true) => Glass::Exotic,
        _ => Glass::Legendary,
    };
    match (settings.item, settings.icon) {
        (Some(item), Some(icon)) => Some(
            RenderJob {
                item,
                icon,
                overlay: settings.overlay,
                element: settings.element,
                inventory,
                glass,
            },
        ),
        _ => None,
    }
}

impl RenderJob {
    /// Whether DIM must be asked if the item is equipped: only once the icon
    /// was fetched (nothing is drawn otherwise), and only when the settings
    /// do not already say the item is in the inventory.
    pub fn needs_equipped_lookup(&self, has_icon: bool) -> (ask: bool)
        ensures
            ask == (!self.inventory && has_icon),
    {
        !self.inventory && has_icon
    }

    /// The layers to draw once the downloads are done. Nothing is drawn when
    /// the icon could not be fetched. `in_equipped_items` is DIM's answer;
    /// it is only read when `needs_equipped_lookup` says so (pass `false`
    /// otherwise).
    pub fn plan(
        &self,
        grayscale_enabled: bool,
        has_icon: bool,
        has_overlay: bool,
        has_element: bool,
        in_equipped_items: bool,
    ) -> (plan: Option<RenderPlan>)
        ensures
            plan is Some <==> has_icon,
            plan matches Some(p) ==> p == plan_of(
                self.glass,
                grayscale_enabled,
                has_overlay,
                has_element,
                self.inventory || in_equipped_items,
            ),
            plan matches Some(p) ==> !(p.grayscale && p.equipped_mark),
            plan matches Some(p) ==> p.glass == self.glass,
            plan matches Some(p) ==> p.grayscale == (grayscale_enabled && !(self.inventory
                || in_equipped_items)),
            plan matches Some(p) ==> p.equipped_mark == (!grayscale_enabled && (self.inventory
                || in_equipped_items)),
    {
        if !has_icon {
            return None;
        }
        let equipped = self.inventory || in_equipped_items;
        Some(
            RenderPlan {
                grayscale: !equipped && grayscale_enabled,
                overlay: has_overlay,
                equipped_mark: equipped && !grayscale_enabled,
                glass: self.glass,
                element: has_element,
            },
        )
    }
}

} // verus!
