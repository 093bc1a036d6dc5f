//! The pagination control: a bounded list of clickable page items
//! between constant Previous and Next controls.
//!
//! The page range is zero-based: page indices run over
//! `0 .. total_pages`, the value handed to the page-selected callback is
//! the item's index, the human-facing label is the numeral of
//! `index + 1`, and the active marker sits on the item whose index
//! equals `current_page` — one indexing source per item, so label,
//! callback value and active check cannot disagree.

use vstd::prelude::*;
use crate::class::ClassList;
use crate::digits::spec_decimal;
use crate::digits::u32_to_decimal;

verus! {

/// The size variant of the control; `Normal` is the default.
#[derive(Clone, Copy, PartialEq, Eq, Structural, Debug)]
pub enum PaginationSize {
    Large,
    Normal,
    Small,
}

impl Default for PaginationSize {
    /// The default size variant.
    fn default() -> (r: PaginationSize)
        ensures
            r == PaginationSize::Normal,
    {
        PaginationSize::Normal
    }
}

/// Properties of the pagination control. The page-selected callback
/// stays with the rendering host; it receives the `index` field of the
/// clicked item.
pub struct Props {
    /// The caller-owned current page, compared against each item's index.
    pub current_page: u32,
    /// The size variant of the list.
    pub size: PaginationSize,
    /// Number of page items; indices run over `0 .. total_pages`.
    pub total_pages: u32,
}

impl Default for Props {
    /// Defaults: page zero of zero pages, normal size.
    fn default() -> (r: Props)
        ensures
            r.current_page == 0,
            r.size == PaginationSize::Normal,
            r.total_pages == 0,
    {
        Props { current_page: 0, size: PaginationSize::Normal, total_pages: 0 }
    }
}

/// The mathematical content of one page item.
#[verifier::ext_equal]
pub ghost struct PageItemRepr {
    pub index: u32,
    pub label: Seq<char>,
    pub active: bool,
    pub classes: Seq<Seq<char>>,
    pub link_classes: Seq<Seq<char>>,
}

/// The mathematical content of a boundary (Previous/Next) control.
#[verifier::ext_equal]
pub ghost struct NavControlRepr {
    pub classes: Seq<Seq<char>>,
    pub link_classes: Seq<Seq<char>>,
    pub aria_label: Seq<char>,
    pub symbol: Seq<char>,
    pub text: Seq<char>,
}

/// The mathematical content of the whole rendered control.
#[verifier::ext_equal]
pub ghost struct PaginationRepr {
    pub classes: Seq<Seq<char>>,
    pub prev: NavControlRepr,
    pub items: Seq<PageItemRepr>,
    pub next: NavControlRepr,
}

/// One rendered page item. `index` is the single indexing source: it is
/// the callback value, `label` renders `index + 1`, and `active` holds
/// exactly when `index` equals the current page.
pub struct PageItem {
    /// Zero-based page index; the value the callback receives.
    pub index: u32,
    /// Human-facing label: the numeral of `index + 1`.
    pub label: String,
    /// Whether this item is the current page.
    pub active: bool,
    /// Item classes: `page-item`, plus `active` when active.
    pub classes: ClassList,
    /// Link classes: `page-link`.
    pub link_classes: ClassList,
}

impl View for PageItem {
    type V = PageItemRepr;

    open spec fn view(&self) -> PageItemRepr {
        PageItemRepr {
            index: self.index,
            label: self.label@,
            active: self.active,
            classes: self.classes@,
            link_classes: self.link_classes@,
        }
    }
}

/// One boundary control (Previous or Next). It is constant: present for
/// every input, never active, not wired to the page callback.
pub struct NavControl {
    /// Item classes: `page-item`.
    pub classes: ClassList,
    /// Link classes: `page-link`.
    pub link_classes: ClassList,
    /// ARIA label of the link.
    pub aria_label: String,
    /// Symbol shown to sighted users, as a markup entity.
    pub symbol: String,
    /// Screen-reader-only text.
    pub text: String,
}

impl View for NavControl {
    type V = NavControlRepr;

    open spec fn view(&self) -> NavControlRepr {
        NavControlRepr {
            classes: self.classes@,
            link_classes: self.link_classes@,
            aria_label: self.aria_label@,
            symbol: self.symbol@,
            text: self.text@,
        }
    }
}

/// The whole rendered control: the list's class list, the Previous
/// control, the page items in index order, and the Next control.
pub struct PaginationNav {
    /// Classes of the item list: `pagination`, plus a size modifier.
    pub classes: ClassList,
    /// The constant Previous control.
    pub prev: NavControl,
    /// One item per page index, in order.
    pub items: Vec<PageItem>,
    /// The constant Next control.
    pub next: NavControl,
}

impl View for PaginationNav {
    type V = PaginationRepr;

    open spec fn view(&self) -> PaginationRepr {
        PaginationRepr {
            classes: self.classes@,
            prev: self.prev@,
            items: Seq::new(self.items@.len(), |i: int| self.items@[i]@),
            next: self.next@,
        }
    }
}

/// The list's class list for a size variant: base `pagination`, with
/// `pagination-lg`/`pagination-sm` for the non-default variants.
pub open spec fn spec_pagination_classes(s: PaginationSize) -> Seq<Seq<char>> {
    match s {
        PaginationSize::Large => seq!["pagination"@, "pagination-lg"@],
        PaginationSize::Normal => seq!["pagination"@],
        PaginationSize::Small => seq!["pagination"@, "pagination-sm"@],
    }
}

/// A page item's classes: `page-item`, plus `active` exactly when the
/// item is the current page.
pub open spec fn spec_page_item_classes(active: bool) -> Seq<Seq<char>> {
    if active {
        seq!["page-item"@, "active"@]
    } else {
        seq!["page-item"@]
    }
}

/// The page item at one index: every facet derived from that index.
pub open spec fn spec_page_item(i: int, current: u32) -> PageItemRepr {
    PageItemRepr {
        index: i as u32,
        label: spec_decimal((i + 1) as nat),
        active: i == current as int,
        classes: spec_page_item_classes(i == current as int),
        link_classes: seq!["page-link"@],
    }
}

/// A boundary control with the given ARIA label and symbol.
pub open spec fn spec_nav_control(label: Seq<char>, symbol: Seq<char>) -> NavControlRepr {
    NavControlRepr {
        classes: seq!["page-item"@],
        link_classes: seq!["page-link"@],
        aria_label: label,
        symbol: symbol,
        text: label,
    }
}

/// The whole control as a function of its properties.
pub open spec fn spec_pagination(p: Props) -> PaginationRepr {
    PaginationRepr {
        classes: spec_pagination_classes(p.size),
        prev: spec_nav_control("Previous"@, "&laquo;"@),
        items: Seq::new(p.total_pages as nat, |i: int| spec_page_item(i, p.current_page)),
        next: spec_nav_control("Next"@, "&raquo;"@),
    }
}

/// Builds one boundary control.
fn nav_control(label: &str, symbol: &str) -> (r: NavControl)
    ensures
        r@ == spec_nav_control(label@, symbol@),
{
    let mut classes = ClassList::new();
    classes.push("page-item");
    let mut link_classes = ClassList::new();
    link_classes.push("page-link");
    proof {
        reveal_strlit("page-item");
        reveal_strlit("page-link");
        assert(classes@ =~= seq!["page-item"@]);
        assert(link_classes@ =~= seq!["page-link"@]);
    }
    NavControl {
        classes,
        link_classes,
        aria_label: String::from_str(label),
        symbol: String::from_str(symbol),
        text: String::from_str(label),
    }
}

/// Builds the page item of one index: label, callback value and active
/// marker all derived from `index` alone.
pub fn page_item(index: u32, current_page: u32) -> (r: PageItem)
    requires
        index < u32::MAX,
    ensures
        r@ == spec_page_item(index as int, current_page),
{
    let active = index == current_page;
    let mut classes = ClassList::new();
    classes.push("page-item");
    if active {
        classes.push("active");
    }
    let mut link_classes = ClassList::new();
    link_classes.push("page-link");
    let label = u32_to_decimal(index + 1);
    proof {
        reveal_strlit("page-item");
        reveal_strlit("active");
        reveal_strlit("page-link");
        assert(classes@ =~= spec_page_item_classes(index == current_page));
        assert(link_classes@ =~= seq!["page-link"@]);
    }
    PageItem { index, label, active, classes, link_classes }
}

/// Renders the whole control from its properties: Previous, one item
/// per page index in `0 .. total_pages`, Next. With zero total pages
/// only the two boundary controls remain, and no item is active.
pub fn pagination(props: &Props) -> (r: PaginationNav)
    ensures
        r@ == spec_pagination(*props),
{
    let mut classes = ClassList::new();
    classes.push("pagination");
    match props.size {
        PaginationSize::Large => classes.push("pagination-lg"),
        PaginationSize::Normal => (),
        PaginationSize::Small => classes.push("pagination-sm"),
    }
    proof {
        reveal_strlit("pagination");
        reveal_strlit("pagination-lg");
        reveal_strlit("pagination-sm");
        assert(classes@ =~= spec_pagination_classes(props.size));
    }
    let mut items: Vec<PageItem> = Vec::new();
    let mut page: u32 = 0;
    while page < props.total_pages
        invariant
            page <= props.total_pages,
            items@.len() == page as int,
            forall|j: int|
                0 <= j < page as int ==> items@[j]@ == spec_page_item(j, props.current_page),
        decreases props.total_pages - page,
    {
        items.push(page_item(page, props.current_page));
        page = page + 1;
    }
    let prev = nav_control("Previous", "&laquo;");
    let next = nav_control("Next", "&raquo;");
    let r = PaginationNav { classes, prev, items, next };
    proof {
        assert(r@.items =~= spec_pagination(*props).items);
        assert(r@ =~~= spec_pagination(*props));
    }
    r
}

/// Page-range law: for every input the control is exactly the Previous
/// control, one page item per index in `0 .. total_pages`, and the Next
/// control; with zero total pages there are no page items at all.
pub proof fn lemma_pagination_range(p: Props)
    ensures
        spec_pagination(p).items.len() == p.total_pages,
        forall|i: int|
            0 <= i < p.total_pages ==> spec_pagination(p).items[i] == spec_page_item(
                i,
                p.current_page,
            ),
        spec_pagination(p).prev == spec_nav_control("Previous"@, "&laquo;"@),
        spec_pagination(p).next == spec_nav_control("Next"@, "&raquo;"@),
        p.total_pages == 0 ==> spec_pagination(p).items =~= Seq::<PageItemRepr>::empty(),
{
}

/// Indexing coherence: each item's callback value is its index, its
/// label is the numeral of that same index plus one, and its active
/// marker compares that same index against the current page.
pub proof fn lemma_item_coherence(p: Props, i: int)
    requires
        0 <= i < spec_pagination(p).items.len(),
    ensures
        spec_pagination(p).items[i].index == i,
        spec_pagination(p).items[i].label == spec_decimal((i + 1) as nat),
        spec_pagination(p).items[i].active <==> i == p.current_page as int,
        spec_pagination(p).items[i].classes == spec_page_item_classes(i == p.current_page as int),
{
}

/// At most one rendered page item carries the active marker, and when
/// one does it is the item whose index is the current page.
pub proof fn lemma_active_unique(p: Props, i: int, j: int)
    requires
        0 <= i < spec_pagination(p).items.len(),
        0 <= j < spec_pagination(p).items.len(),
        spec_pagination(p).items[i].active,
        spec_pagination(p).items[j].active,
    ensures
        i == j,
        i == p.current_page as int,
{
}

} // verus!
