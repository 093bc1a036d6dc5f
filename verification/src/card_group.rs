//! Card groups and card decks: plain containers that arrange several
//! cards together, with the shared container shape.

use vstd::prelude::*;
use crate::node::RootNode;
use crate::node::container_node;
use crate::node::spec_container_node;

verus! {

/// Properties of [CardGroup].
pub struct CardGroupProps {
    /// Caller-supplied extra CSS class.
    pub class: String,
    /// ARIA label for assistive technologies.
    pub label: String,
    /// ARIA role describing the purpose of the group.
    pub role: String,
}

impl Default for CardGroupProps {
    /// Defaults: every string empty.
    fn default() -> (r: CardGroupProps)
        ensures
            r.class@ == Seq::<char>::empty(),
            r.label@ == Seq::<char>::empty(),
            r.role@ == Seq::<char>::empty(),
    {
        CardGroupProps { class: String::new(), label: String::new(), role: String::new() }
    }
}

/// Groups several cards together.
pub struct CardGroup {}

impl CardGroup {
    /// Renders the group's root node: a `card-group` container.
    pub fn view(props: &CardGroupProps) -> (r: RootNode)
        ensures
            r@ == spec_container_node("card-group"@, props.class@, props.label@, props.role@),
    {
        container_node(
            "card-group",
            props.class.as_str(),
            props.label.as_str(),
            props.role.as_str(),
        )
    }
}

/// Properties of [CardDeck].
pub struct CardDeckProps {
    /// Caller-supplied extra CSS class.
    pub class: String,
    /// ARIA label for assistive technologies.
    pub label: String,
    /// ARIA role describing the purpose of the deck.
    pub role: String,
}

impl Default for CardDeckProps {
    /// Defaults: every string empty.
    fn default() -> (r: CardDeckProps)
        ensures
            r.class@ == Seq::<char>::empty(),
            r.label@ == Seq::<char>::empty(),
            r.role@ == Seq::<char>::empty(),
    {
        CardDeckProps { class: String::new(), label: String::new(), role: String::new() }
    }
}

/// Arranges several cards as a deck.
pub struct CardDeck {}

impl CardDeck {
    /// Renders the deck's root node: a `card-deck` container.
    pub fn view(props: &CardDeckProps) -> (r: RootNode)
        ensures
            r@ == spec_container_node("card-deck"@, props.class@, props.label@, props.role@),
    {
        container_node("card-deck", props.class.as_str(), props.label.as_str(), props.role.as_str())
    }
}

} // verus!
