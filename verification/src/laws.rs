//! Library-wide laws: statements that relate several components, proved
//! once here rather than implied silently by the individual contracts.

use vstd::prelude::*;
use crate::card::CardProps;
use crate::card::HeaderSize;
use crate::card::spec_card_node;
use crate::card::spec_heading_tag;
use crate::node::NodeRepr;
use crate::node::Tag;
use crate::node::spec_attr;
use crate::node::spec_container_node;
use crate::pagination::PaginationRepr;
use crate::pagination::Props;
use crate::pagination::spec_pagination;

verus! {

/// Uniform accessibility policy: every attribute-bearing container —
/// the card itself and every plain container (body, header, footer,
/// group, deck) — renders its ARIA label and role through the one
/// policy `spec_attr`, so the empty and non-empty cases behave the same
/// way in every component.
pub proof fn lemma_aria_uniform(
    base: Seq<char>,
    class: Seq<char>,
    label: Seq<char>,
    role: Seq<char>,
    card: CardProps,
)
    requires
        card.label@ == label,
        card.role@ == role,
    ensures
        spec_container_node(base, class, label, role).aria_label == spec_attr(label),
        spec_container_node(base, class, label, role).role == spec_attr(role),
        spec_card_node(card).aria_label == spec_attr(label),
        spec_card_node(card).role == spec_attr(role),
        spec_card_node(card).aria_label == spec_container_node(base, class, label, role).aria_label,
        spec_card_node(card).role == spec_container_node(base, class, label, role).role,
{
}

/// The five heading levels map onto the five heading tags exactly once
/// each: the mapping is total and no two levels share a tag.
pub proof fn lemma_heading_tag_total()
    ensures
        spec_heading_tag(HeaderSize::One) == Tag::H1,
        spec_heading_tag(HeaderSize::Two) == Tag::H2,
        spec_heading_tag(HeaderSize::Three) == Tag::H3,
        spec_heading_tag(HeaderSize::Four) == Tag::H4,
        spec_heading_tag(HeaderSize::Five) == Tag::H5,
        forall|a: HeaderSize, b: HeaderSize| spec_heading_tag(a) == spec_heading_tag(b) ==> a == b,
{
}

/// No hidden state in the card: its rendered description is a function
/// of its properties alone, so rendering the same properties twice
/// yields identical descriptions.
pub proof fn lemma_card_render_deterministic(p: CardProps, r1: NodeRepr, r2: NodeRepr)
    requires
        r1 == spec_card_node(p),
        r2 == spec_card_node(p),
    ensures
        r1 == r2,
{
}

/// No hidden state in the pagination control: its rendered description
/// is a function of its properties alone, so rendering the same
/// properties twice yields identical descriptions.
pub proof fn lemma_pagination_render_deterministic(
    p: Props,
    r1: PaginationRepr,
    r2: PaginationRepr,
)
    requires
        r1 == spec_pagination(p),
        r2 == spec_pagination(p),
    ensures
        r1 == r2,
{
}

} // verus!
