//! The card container family: the card itself, its body, header, footer,
//! title, text and link sub-containers. Every member resolves its class
//! list through the composer, its accessibility attributes through the
//! uniform policy, and picks a fixed root tag — except the title, whose
//! tag follows its heading size.

use vstd::prelude::*;
use crate::class::ClassList;
use crate::class::Modifier;
use crate::class::spec_compose;
use crate::class::spec_modifier_token;
use crate::color::Color;
use crate::node::NodeRepr;
use crate::node::RootNode;
use crate::node::Tag;
use crate::node::attr;
use crate::node::container_node;
use crate::node::spec_attr;
use crate::node::spec_container_node;

verus! {

/// Properties of [Card]. Every field has a stated default; the child
/// sequence stays with the rendering host.
pub struct CardProps {
    /// Caller-supplied extra CSS class.
    pub class: String,
    /// Background-and-text color role, rendered as `text-bg-{color}`.
    pub text_bg_color: Option<Color>,
    /// Border color role, rendered as `border-{color}`.
    pub border_color: Option<Color>,
    /// ARIA label for assistive technologies.
    pub label: String,
    /// ARIA role describing the purpose of the container.
    pub role: String,
}

impl Default for CardProps {
    /// Defaults: empty class, no color roles, empty label and role.
    fn default() -> (r: CardProps)
        ensures
            r.class@ == Seq::<char>::empty(),
            r.text_bg_color is None,
            r.border_color is None,
            r.label@ == Seq::<char>::empty(),
            r.role@ == Seq::<char>::empty(),
    {
        CardProps {
            class: String::new(),
            text_bg_color: None,
            border_color: None,
            label: String::new(),
            role: String::new(),
        }
    }
}

/// The modifier tokens a card's color roles contribute, in the fixed
/// order: `text-bg-{color}` first, `border-{color}` second, each only
/// when its role is present.
pub open spec fn spec_card_modifiers(p: CardProps) -> Seq<Seq<char>> {
    (match p.text_bg_color {
        Some(c) => seq![spec_modifier_token("text-bg"@, c.spec_name())],
        None => Seq::<Seq<char>>::empty(),
    }) + (match p.border_color {
        Some(c) => seq![spec_modifier_token("border"@, c.spec_name())],
        None => Seq::<Seq<char>>::empty(),
    })
}

/// The node a [Card] renders.
pub open spec fn spec_card_node(p: CardProps) -> NodeRepr {
    NodeRepr {
        tag: Tag::Div,
        classes: spec_compose("card"@, p.class@, spec_card_modifiers(p)),
        role: spec_attr(p.role@),
        aria_label: spec_attr(p.label@),
        href: None,
    }
}

/// A styled card container.
pub struct Card {}

impl Card {
    /// Renders the card's root node from its properties.
    pub fn view(props: &CardProps) -> (r: RootNode)
        ensures
            r@ == spec_card_node(*props),
    {
        let mut modifiers: Vec<Modifier> = Vec::new();
        if let Some(c) = &props.text_bg_color {
            modifiers.push(Modifier::new("text-bg", c.name()));
        }
        if let Some(c) = &props.border_color {
            modifiers.push(Modifier::new("border", c.name()));
        }
        let classes = ClassList::compose("card", props.class.as_str(), &modifiers);
        proof {
            assert(modifiers@.map_values(|m: Modifier| m.spec_token()) =~= spec_card_modifiers(
                *props,
            ));
        }
        RootNode {
            tag: Tag::Div,
            classes,
            role: attr(props.role.as_str()),
            aria_label: attr(props.label.as_str()),
            href: None,
        }
    }
}

/// Properties shared by the plain card sub-containers (body, header,
/// footer): an extra class and the two accessibility strings.
pub struct CardBodyProps {
    /// Caller-supplied extra CSS class.
    pub class: String,
    /// ARIA label for assistive technologies.
    pub label: String,
    /// ARIA role describing the purpose of the container.
    pub role: String,
}

impl Default for CardBodyProps {
    /// Defaults: every string empty.
    fn default() -> (r: CardBodyProps)
        ensures
            r.class@ == Seq::<char>::empty(),
            r.label@ == Seq::<char>::empty(),
            r.role@ == Seq::<char>::empty(),
    {
        CardBodyProps { class: String::new(), label: String::new(), role: String::new() }
    }
}

/// The body of a card.
pub struct CardBody {}

impl CardBody {
    /// Renders the body's root node: a `card-body` container.
    pub fn view(props: &CardBodyProps) -> (r: RootNode)
        ensures
            r@ == spec_container_node("card-body"@, props.class@, props.label@, props.role@),
    {
        container_node("card-body", props.class.as_str(), props.label.as_str(), props.role.as_str())
    }
}

/// Properties of [CardHeader].
pub struct CardHeaderProps {
    /// Caller-supplied extra CSS class.
    pub class: String,
    /// ARIA label for assistive technologies.
    pub label: String,
    /// ARIA role describing the purpose of the container.
    pub role: String,
}

impl Default for CardHeaderProps {
    /// Defaults: every string empty.
    fn default() -> (r: CardHeaderProps)
        ensures
            r.class@ == Seq::<char>::empty(),
            r.label@ == Seq::<char>::empty(),
            r.role@ == Seq::<char>::empty(),
    {
        CardHeaderProps { class: String::new(), label: String::new(), role: String::new() }
    }
}

/// The header of a card.
pub struct CardHeader {}

impl CardHeader {
    /// Renders the header's root node: a `card-header` container.
    pub fn view(props: &CardHeaderProps) -> (r: RootNode)
        ensures
            r@ == spec_container_node("card-header"@, props.class@, props.label@, props.role@),
    {
        container_node(
            "card-header",
            props.class.as_str(),
            props.label.as_str(),
            props.role.as_str(),
        )
    }
}

/// Properties of [CardFooter].
pub struct CardFooterProps {
    /// Caller-supplied extra CSS class.
    pub class: String,
    /// ARIA label for assistive technologies.
    pub label: String,
    /// ARIA role describing the purpose of the container.
    pub role: String,
}

impl Default for CardFooterProps {
    /// Defaults: every string empty.
    fn default() -> (r: CardFooterProps)
        ensures
            r.class@ == Seq::<char>::empty(),
            r.label@ == Seq::<char>::empty(),
            r.role@ == Seq::<char>::empty(),
    {
        CardFooterProps { class: String::new(), label: String::new(), role: String::new() }
    }
}

/// The footer of a card.
pub struct CardFooter {}

impl CardFooter {
    /// Renders the footer's root node: a `card-footer` container.
    pub fn view(props: &CardFooterProps) -> (r: RootNode)
        ensures
            r@ == spec_container_node("card-footer"@, props.class@, props.label@, props.role@),
    {
        container_node(
            "card-footer",
            props.class.as_str(),
            props.label.as_str(),
            props.role.as_str(),
        )
    }
}

/// The heading level of a [CardTitle]; `One` is the default.
#[derive(Clone, Copy, PartialEq, Eq, Structural, Debug)]
pub enum HeaderSize {
    One,
    Two,
    Three,
    Four,
    Five,
}

impl Default for HeaderSize {
    /// The default heading level.
    fn default() -> (r: HeaderSize)
        ensures
            r == HeaderSize::One,
    {
        HeaderSize::One
    }
}

/// The fixed mapping from heading size to the title's root tag.
pub open spec fn spec_heading_tag(s: HeaderSize) -> Tag {
    match s {
        HeaderSize::One => Tag::H1,
        HeaderSize::Two => Tag::H2,
        HeaderSize::Three => Tag::H3,
        HeaderSize::Four => Tag::H4,
        HeaderSize::Five => Tag::H5,
    }
}

/// Selects the heading tag for a size.
pub fn heading_tag(s: HeaderSize) -> (r: Tag)
    ensures
        r == spec_heading_tag(s),
{
    match s {
        HeaderSize::One => Tag::H1,
        HeaderSize::Two => Tag::H2,
        HeaderSize::Three => Tag::H3,
        HeaderSize::Four => Tag::H4,
        HeaderSize::Five => Tag::H5,
    }
}

/// Properties of [CardTitle].
pub struct CardTitleProps {
    /// Caller-supplied extra CSS class.
    pub class: String,
    /// Heading level of the title's root tag.
    pub size: HeaderSize,
}

impl Default for CardTitleProps {
    /// Defaults: empty class, heading level one.
    fn default() -> (r: CardTitleProps)
        ensures
            r.class@ == Seq::<char>::empty(),
            r.size == HeaderSize::One,
    {
        CardTitleProps { class: String::new(), size: HeaderSize::One }
    }
}

/// The node a [CardTitle] renders: a heading tag chosen by the size,
/// with the `card-title` class list and no attributes.
pub open spec fn spec_card_title_node(p: CardTitleProps) -> NodeRepr {
    NodeRepr {
        tag: spec_heading_tag(p.size),
        classes: spec_compose("card-title"@, p.class@, Seq::<Seq<char>>::empty()),
        role: None,
        aria_label: None,
        href: None,
    }
}

/// The title of a card; the only family member whose root tag branches.
pub struct CardTitle {}

impl CardTitle {
    /// Renders the title's root node.
    pub fn view(props: &CardTitleProps) -> (r: RootNode)
        ensures
            r@ == spec_card_title_node(*props),
    {
        let modifiers: Vec<Modifier> = Vec::new();
        let classes = ClassList::compose("card-title", props.class.as_str(), &modifiers);
        proof {
            assert(modifiers@.map_values(|m: Modifier| m.spec_token()) =~= Seq::<
                Seq<char>,
            >::empty());
        }
        RootNode {
            tag: heading_tag(props.size),
            classes,
            role: None,
            aria_label: None,
            href: None,
        }
    }
}

/// Properties of [CardText].
pub struct CardTextProps {
    /// Caller-supplied extra CSS class.
    pub class: String,
}

impl Default for CardTextProps {
    /// Default: empty class.
    fn default() -> (r: CardTextProps)
        ensures
            r.class@ == Seq::<char>::empty(),
    {
        CardTextProps { class: String::new() }
    }
}

/// The node a [CardText] renders: a paragraph with the `card-text`
/// class list and no attributes.
pub open spec fn spec_card_text_node(p: CardTextProps) -> NodeRepr {
    NodeRepr {
        tag: Tag::P,
        classes: spec_compose("card-text"@, p.class@, Seq::<Seq<char>>::empty()),
        role: None,
        aria_label: None,
        href: None,
    }
}

/// A paragraph of card text.
pub struct CardText {}

impl CardText {
    /// Renders the text's root node.
    pub fn view(props: &CardTextProps) -> (r: RootNode)
        ensures
            r@ == spec_card_text_node(*props),
    {
        let modifiers: Vec<Modifier> = Vec::new();
        let classes = ClassList::compose("card-text", props.class.as_str(), &modifiers);
        proof {
            assert(modifiers@.map_values(|m: Modifier| m.spec_token()) =~= Seq::<
                Seq<char>,
            >::empty());
        }
        RootNode { tag: Tag::P, classes, role: None, aria_label: None, href: None }
    }
}

/// Properties of [CardLink].
pub struct CardLinkProps {
    /// Caller-supplied extra CSS class.
    pub class: String,
    /// Link target; defaults to the empty string when unset.
    pub href: String,
}

impl Default for CardLinkProps {
    /// Defaults: empty class and empty link target.
    fn default() -> (r: CardLinkProps)
        ensures
            r.class@ == Seq::<char>::empty(),
            r.href@ == Seq::<char>::empty(),
    {
        CardLinkProps { class: String::new(), href: String::new() }
    }
}

/// The node a [CardLink] renders: a hyperlink with the `card-link`
/// class list whose target is attached verbatim, empty included.
pub open spec fn spec_card_link_node(p: CardLinkProps) -> NodeRepr {
    NodeRepr {
        tag: Tag::A,
        classes: spec_compose("card-link"@, p.class@, Seq::<Seq<char>>::empty()),
        role: None,
        aria_label: None,
        href: Some(p.href@),
    }
}

/// A hyperlink inside a card.
pub struct CardLink {}

impl CardLink {
    /// Renders the link's root node.
    pub fn view(props: &CardLinkProps) -> (r: RootNode)
        ensures
            r@ == spec_card_link_node(*props),
    {
        let modifiers: Vec<Modifier> = Vec::new();
        let classes = ClassList::compose("card-link", props.class.as_str(), &modifiers);
        proof {
            assert(modifiers@.map_values(|m: Modifier| m.spec_token()) =~= Seq::<
                Seq<char>,
            >::empty());
        }
        RootNode {
            tag: Tag::A,
            classes,
            role: None,
            aria_label: None,
            href: Some(props.href.clone()),
        }
    }
}

} // verus!
