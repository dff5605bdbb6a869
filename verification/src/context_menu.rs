//! Dispatching of context-menu events.
//!
//! A dispatch target is a capability: it handles an event and says whether
//! it claimed it. The context-menu executor claims exactly the
//! context-menu events, augments the requested entries with a fixed
//! additional one, and hands them to a platform handler supplied by the
//! caller.

use vstd::prelude::*;

verus! {

/// One selectable entry of a context menu.
#[derive(Clone)]
pub struct SimpleMenuItem {
    pub id: u32,
    pub label: String,
}

/// A context-menu entry: a selectable item or a separator line.
#[derive(Clone)]
pub enum MenuItem {
    Simple(SimpleMenuItem),
    Separator,
}

/// A request to show a context menu with the given entries.
pub struct ShowContextMenuEvent {
    pub items: Vec<MenuItem>,
}

/// An event routed through the dispatch layer.
pub enum EventType {
    NoOp,
    ShowContextMenu(ShowContextMenuEvent),
}

pub struct Event {
    pub etype: EventType,
}

/// The platform layer could not show the menu.
pub struct HandlerError;

/// The capability to put a context menu on screen, implemented by the
/// platform layer outside this crate.
pub trait ContextMenuHandler {
    fn show_context_menu(&self, items: &Vec<MenuItem>) -> Result<(), HandlerError>;
}

/// A dispatch target: handles an event and returns whether it claimed it.
pub trait Executor {
    fn execute(&self, event: &Event) -> bool;
}

/// The dispatch target for context-menu events.
pub struct ContextMenuExecutor<'a, H: ContextMenuHandler> {
    handler: &'a H,
}

impl<'a, H: ContextMenuHandler> ContextMenuExecutor<'a, H> {
    pub fn new(handler: &'a H) -> Self {
        ContextMenuExecutor { handler }
    }
}

impl<'a, H: ContextMenuHandler> Executor for ContextMenuExecutor<'a, H> {
    /// Claims exactly the context-menu events. The handler's outcome does
    /// not change the claim: a failure to show the menu is the platform
    /// layer's affair.
    fn execute(&self, event: &Event) -> (claimed: bool)
        ensures
            claimed == (event.etype is ShowContextMenu),
    {
        if let EventType::ShowContextMenu(context_menu_event) = &event.etype {
            let mut updated_items = context_menu_event.items.clone();
            updated_items.push(
                MenuItem::Simple(
                    SimpleMenuItem { id: 1, label: "Open match folder".to_owned() },
                ),
            );
            match self.handler.show_context_menu(&updated_items) {
                Ok(_) => {},
                Err(_) => {},
            }
            return true;
        }
        false
    }
}

} // verus!
