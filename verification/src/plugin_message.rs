//! Messages that the pull-item key's property inspector sends to the plugin.

use crate::pull_item::PullItemAction;
use vstd::prelude::*;

verus! {

/// A message from the property inspector, as plain values.
#[derive(Clone, Debug)]
pub struct PluginMessage {
    /// The key the inspector belongs to.
    pub context: String,
    /// The `action` entry: absent, or present with its text when it is a
    /// JSON string (`Some(None)` when it is some other JSON value).
    pub action: Option<Option<String>>,
    /// The `id` entry written out as JSON text, when present.
    pub id: Option<String>,
}

/// Where a message goes.
#[derive(Clone, Debug, PartialEq, Eq)]
pub enum PluginRoute {
    /// No `action`: nothing to do.
    Ignore,
    /// `"select"`: remember this key as the one waiting for an item picked
    /// in DIM, and ask DIM to start an item selection.
    Select { context: String },
    /// `"show"`: ask DIM to search for this text.
    Show { search: String },
}

/// The messages the plugin handles; any other message makes the plugin
/// stop with a panic.
pub open spec fn handled(message: PluginMessage) -> bool {
    match message.action {
        None => true,
        Some(None) => false,
        Some(Some(action)) => action@ == "select"@ || (action@ == "show"@ && message.id is Some),
    }
}

impl PullItemAction {
    /// Routes a message from the property inspector.
    pub fn route_plugin_message(&self, message: PluginMessage) -> (route: PluginRoute)
        requires
            handled(message),
        ensures
            match message.action {
                None => route == PluginRoute::Ignore,
                Some(action) => if action->0@ == "select"@ {
                    route == (PluginRoute::Select { context: message.context })
                } else {
                    route matches PluginRoute::Show { search } && search@ == "id:"@
                        + message.id->0@
                },
            },
    {
        match message.action {
            None => PluginRoute::Ignore,
            Some(action) => {
                let action = action.unwrap();
                let select = "select".to_owned();
                if action == select {
                    PluginRoute::Select { context: message.context }
                } else {
                    let id = message.id.unwrap();
                    let mut search = String::from_str("id:");
                    search.append(id.as_str());
                    PluginRoute::Show { search }
                }
            },
        }
    }
}

} // verus!
