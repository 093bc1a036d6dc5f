//! The rendered root-node description every component produces: a tag,
//! an ordered class list, and the accessibility attributes under one
//! uniform policy (an attribute is present exactly when its supplied
//! value is non-empty).
//!
//! A rendering host turns this description, together with the child
//! sequence it owns, into actual markup; the description itself is a
//! pure function of the component's properties.

use vstd::prelude::*;
use crate::class::ClassList;
use crate::class::Modifier;
use crate::class::spec_compose;
use crate::class::spec_join;

verus! {

/// The root tag a component renders.
#[derive(Clone, Copy, PartialEq, Eq, Structural, Debug)]
pub enum Tag {
    Div,
    H1,
    H2,
    H3,
    H4,
    H5,
    P,
    A,
}

impl Tag {
    /// The markup name of the tag.
    pub open spec fn spec_name(self) -> Seq<char> {
        match self {
            Tag::Div => "div"@,
            Tag::H1 => "h1"@,
            Tag::H2 => "h2"@,
            Tag::H3 => "h3"@,
            Tag::H4 => "h4"@,
            Tag::H5 => "h5"@,
            Tag::P => "p"@,
            Tag::A => "a"@,
        }
    }

    /// The markup name of the tag.
    pub fn name(&self) -> (r: &'static str)
        ensures
            r@ == self.spec_name(),
    {
        match self {
            Tag::Div => "div",
            Tag::H1 => "h1",
            Tag::H2 => "h2",
            Tag::H3 => "h3",
            Tag::H4 => "h4",
            Tag::H5 => "h5",
            Tag::P => "p",
            Tag::A => "a",
        }
    }
}

/// The one attribute policy every component follows: an empty supplied
/// value renders as an absent attribute, a non-empty value is attached
/// verbatim.
pub open spec fn spec_attr(value: Seq<char>) -> Option<Seq<char>> {
    if value.len() == 0 {
        None
    } else {
        Some(value)
    }
}

/// The view of an optional attribute value.
pub open spec fn spec_opt_str(o: Option<String>) -> Option<Seq<char>> {
    match o {
        None => None,
        Some(s) => Some(s@),
    }
}

/// Builds an attribute binding under the uniform policy.
pub fn attr(value: &str) -> (r: Option<String>)
    ensures
        spec_opt_str(r) == spec_attr(value@),
{
    if value.unicode_len() == 0 {
        None
    } else {
        Some(String::from_str(value))
    }
}

/// The mathematical content of a rendered root node.
#[verifier::ext_equal]
pub ghost struct NodeRepr {
    pub tag: Tag,
    pub classes: Seq<Seq<char>>,
    pub role: Option<Seq<char>>,
    pub aria_label: Option<Seq<char>>,
    pub href: Option<Seq<char>>,
}

/// One rendered root node: its tag, its ordered class list and its
/// attributes. The component's child sequence is rendered inside this
/// node verbatim by the host; it is not part of the description.
pub struct RootNode {
    pub tag: Tag,
    pub classes: ClassList,
    pub role: Option<String>,
    pub aria_label: Option<String>,
    pub href: Option<String>,
}

impl View for RootNode {
    type V = NodeRepr;

    open spec fn view(&self) -> NodeRepr {
        NodeRepr {
            tag: self.tag,
            classes: self.classes@,
            role: spec_opt_str(self.role),
            aria_label: spec_opt_str(self.aria_label),
            href: spec_opt_str(self.href),
        }
    }
}

impl RootNode {
    /// The space-joined value of the node's class attribute.
    pub fn class_attribute(&self) -> (r: String)
        ensures
            r@ == spec_join(self@.classes),
    {
        self.classes.render()
    }
}

/// The shape shared by every plain container: a block root whose class
/// list is the base class followed by the caller's extra class, with the
/// accessibility attributes under the uniform policy.
pub open spec fn spec_container_node(
    base: Seq<char>,
    class: Seq<char>,
    label: Seq<char>,
    role: Seq<char>,
) -> NodeRepr {
    NodeRepr {
        tag: Tag::Div,
        classes: spec_compose(base, class, Seq::<Seq<char>>::empty()),
        role: spec_attr(role),
        aria_label: spec_attr(label),
        href: None,
    }
}

/// Builds the shared plain-container root node.
pub fn container_node(base: &str, class: &str, label: &str, role: &str) -> (r: RootNode)
    ensures
        r@ == spec_container_node(base@, class@, label@, role@),
{
    let modifiers: Vec<Modifier> = Vec::new();
    let classes = ClassList::compose(base, class, &modifiers);
    proof {
        assert(modifiers@.map_values(|m: Modifier| m.spec_token()) =~= Seq::<Seq<char>>::empty());
    }
    RootNode { tag: Tag::Div, classes, role: attr(role), aria_label: attr(label), href: None }
}

/// The attribute policy in words: a binding exists exactly when the
/// supplied value is non-empty, and then carries the value verbatim.
pub proof fn lemma_attr_policy(value: Seq<char>)
    ensures
        spec_attr(value) is Some <==> value.len() > 0,
        value.len() > 0 ==> spec_attr(value) == Some(value),
        value.len() == 0 ==> spec_attr(value) is None,
{
}

} // verus!
