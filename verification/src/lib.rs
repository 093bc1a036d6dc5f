//! Declarative building blocks for a CSS-class-based presentation layer:
//! card containers, card groups and a pagination control.
//!
//! Each component turns its semantic properties (color role, size,
//! orientation, accessibility strings) into an ordered class list and a
//! small, fully described root-node structure that a rendering host can
//! turn into markup. The class composition and the pagination page-range
//! logic are verified; a host adapter around this crate does the actual
//! DOM work.

pub mod card;
pub mod card_group;
pub mod class;
pub mod color;
pub mod digits;
pub mod laws;
pub mod node;
pub mod pagination;
