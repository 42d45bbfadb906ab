//! The page, built from the state: a sidebar, a navigation bar with the
//! search field, and one card per course that the search text selects.

use vstd::prelude::*;
use vstd::string::*;
use crate::catalog::{Course, visible, visible_courses};
use crate::model::{Model, Msg};
use crate::tree::{Attr, AttrName, Handler, attr_views, Node, Tag, element, handlers, href_nowhere, is_el, is_text, kids, links_nowhere, one, plain, plain_el, text, text_el, text_plain, two};

verus! {

pub const BUTTON_CLASS: &'static str = "mx-1 py-2 px-4 text-white font-bold border-b-2 bg-green-500 border-green-700 rounded-lg hover:bg-green-400 hover:border-green-400";
pub const CARD_CLASS: &'static str = "w-full flex flex-col justify-center m-2 px-4 border rounded rounded-l-lg border-l-4 border-gray-400 shadow-lg border-blue-300";
pub const PRICE_CLASS: &'static str = "text-sm text-gray-500 font-semibold";
pub const SIDE_BAR_CLASS: &'static str = "flex-none w-full h-full border-r shadow-lg bg-gray-800 h-screen";
pub const BRAND_CLASS: &'static str = "h-24 text-white tracking-4 uppercase font-bold p-4 text-left text-middle leading-lg text-lg";
pub const SECTION_ITEM_CLASS: &'static str = "block py-2 text-sm pl-5 text-gray-500 select-none hover:bg-gray-900 hover:shadow-lg hover:text-gray-300";
pub const SECTION_HEADER_CLASS: &'static str = "flex items-center font-bold text-gray-500 uppercase pb-2 px-2 tracking-wide cursor-pointer hover:text-white";
pub const NAV_BUTTON_CLASS: &'static str = "flex-none ml-2 p-3 no-underline rounded-lg bg-gray-200 hover:shadow";
pub const NAV_BAR_CLASS: &'static str = "flex justify-between items-center bg-white m-0 p-2 shadow-lg";
pub const SEARCH_INPUT_CLASS: &'static str = "justify-center w-full border p-2 rounded";

pub open spec fn digit_char(d: nat) -> char {
    if d == 0 { '0' }
    else if d == 1 { '1' }
    else if d == 2 { '2' }
    else if d == 3 { '3' }
    else if d == 4 { '4' }
    else if d == 5 { '5' }
    else if d == 6 { '6' }
    else if d == 7 { '7' }
    else if d == 8 { '8' }
    else { '9' }
}

/// The decimal digits of `n`, most significant first, without leading zeros.
pub open spec fn decimal(n: nat) -> Seq<char>
    decreases n,
{
    if n < 10 {
        seq![digit_char(n)]
    } else {
        decimal(n / 10).push(digit_char(n % 10))
    }
}

/// Relies on the `Display` impl of `u32`, through `ToString::to_string`: the
/// number in decimal, with no sign, padding or leading zeros.
#[verifier::external_body]
fn decimal_text(n: u32) -> (r: String)
    ensures
        r@ == decimal(n as nat),
{
    n.to_string()
}

/// A green button labelled `name`; a click produces `Msg::Increment`.
pub open spec fn is_button(n: Node, name: Seq<char>) -> bool {
    &&& is_el(n, Tag::Button, BUTTON_CLASS@)
    &&& links_nowhere(n)
    &&& handlers(n) == seq![Handler::Click(Msg::Increment)]
    &&& kids(n).len() == 1
    &&& is_text(kids(n)[0], name)
}

pub fn button(name: &str) -> (r: Node)
    ensures
        is_button(r, name@),
{
    let mut on_click: Vec<Handler> = Vec::new();
    on_click.push(Handler::Click(Msg::Increment));
    let r = element(Tag::Button, String::from_str(BUTTON_CLASS), href_nowhere(), on_click, one(text(name)));
    assert(handlers(r) =~= seq![Handler::Click(Msg::Increment)]);
    r
}

/// The part of a card that holds its description.
pub open spec fn card_body(n: Node) -> Seq<Node> {
    kids(kids(n)[1])
}

/// A card for a course: the title, then `body`, then the price, then the
/// two demo buttons.
pub open spec fn is_card(n: Node, title: Seq<char>, price: u32) -> bool {
    &&& plain_el(n, Tag::Div, CARD_CLASS@)
    &&& kids(n).len() == 4
    &&& plain_el(kids(n)[0], Tag::Div, "py-2"@)
    &&& kids(kids(n)[0]).len() == 1
    &&& text_el(kids(kids(n)[0])[0], Tag::Span, "font-bold text-lg"@, title)
    &&& plain_el(kids(n)[1], Tag::Div, "flex-grow py-2"@)
    &&& plain_el(kids(n)[2], Tag::Div, "py-1"@)
    &&& kids(kids(n)[2]).len() == 1
    &&& text_el(kids(kids(n)[2])[0], Tag::Span, PRICE_CLASS@, "Price: "@ + decimal(price as nat))
    &&& plain_el(kids(n)[3], Tag::Div, "py-2"@)
    &&& kids(kids(n)[3]).len() == 2
    &&& is_button(kids(kids(n)[3])[0], "Purchase"@)
    &&& is_button(kids(kids(n)[3])[1], "Download"@)
}

/// The body that a card without a description shows.
pub open spec fn is_no_description(body: Seq<Node>) -> bool {
    body.len() == 1 && text_el(body[0], Tag::P, ""@, "No description"@)
}

pub fn card(title: &str, price: u32, description: Option<Vec<Node>>) -> (r: Node)
    ensures
        is_card(r, title@, price),
        match description {
            Some(d) => card_body(r) == d@,
            None => is_no_description(card_body(r)),
        },
{
    let heading = plain(Tag::Div, "py-2", one(text_plain(Tag::Span, "font-bold text-lg", title)));
    let body_nodes = match description {
        Some(d) => d,
        None => one(text_plain(Tag::P, "", "No description")),
    };
    let body = plain(Tag::Div, "flex-grow py-2", body_nodes);
    let label = String::from_str("Price: ").concat(decimal_text(price).as_str());
    let price_span = element(Tag::Span, String::from_str(PRICE_CLASS), Vec::new(), Vec::new(), one(Node::Text(label)));
    let price_row = plain(Tag::Div, "py-1", one(price_span));
    let actions = plain(Tag::Div, "py-2", two(button("Purchase"), button("Download")));
    let mut parts = two(heading, body);
    parts.push(price_row);
    parts.push(actions);
    plain(Tag::Div, CARD_CLASS, parts)
}

/// One placeholder entry of a sidebar section.
pub open spec fn is_section_item(n: Node, name: Seq<char>) -> bool {
    let link = kids(n)[0];
    &&& plain_el(n, Tag::Li, ""@)
    &&& kids(n).len() == 1
    &&& is_el(link, Tag::A, SECTION_ITEM_CLASS@)
    &&& links_nowhere(link)
    &&& handlers(link).len() == 0
    &&& kids(link).len() == 2
    &&& plain_el(kids(link)[0], Tag::I, "w-4"@)
    &&& kids(kids(link)[0]).len() == 0
    &&& is_text(kids(link)[1], name)
}

fn side_bar_section_item(name: &str) -> (r: Node)
    ensures
        is_section_item(r, name@),
{
    let link = element(
        Tag::A,
        String::from_str(SECTION_ITEM_CLASS),
        href_nowhere(),
        Vec::new(),
        two(plain(Tag::I, "w-4", Vec::new()), text(name)),
    );
    plain(Tag::Li, "", one(link))
}

/// The chevron that shows whether a section is collapsed.
pub open spec fn chevron(is_collapsed: bool) -> Seq<char> {
    if is_collapsed {
        "right"@
    } else {
        "down"@
    }
}

/// A sidebar section: a header with the icon `icon`, the title and a
/// chevron, then a list of two placeholder items.
pub open spec fn is_section(n: Node, title: Seq<char>, icon: Seq<char>, is_collapsed: bool) -> bool {
    let header = kids(n)[0];
    let list = kids(n)[1];
    &&& plain_el(n, Tag::Div, "m-2 my-3"@)
    &&& kids(n).len() == 2
    &&& plain_el(header, Tag::Div, SECTION_HEADER_CLASS@)
    &&& kids(header).len() == 3
    &&& plain_el(kids(header)[0], Tag::I, "flex-none fa fa-"@ + icon)
    &&& kids(kids(header)[0]).len() == 0
    &&& text_el(kids(header)[1], Tag::Span, "flex-grow mx-1 select-none"@, title)
    &&& plain_el(kids(header)[2], Tag::I, "flex-none fa fa-chevron-"@ + chevron(is_collapsed))
    &&& kids(kids(header)[2]).len() == 0
    &&& plain_el(list, Tag::Ul, "list-none"@)
    &&& kids(list).len() == 2
    &&& is_section_item(kids(list)[0], "Item 1"@)
    &&& is_section_item(kids(list)[1], "Item 2"@)
}

pub fn side_bar_section(title: &str, icon: &str, is_collapsed: bool) -> (r: Node)
    ensures
        is_section(r, title@, icon@, is_collapsed),
{
    let icon_class = String::from_str("flex-none fa fa-").concat(icon);
    let post_icon = String::from_str("flex-none fa fa-chevron-").concat(if is_collapsed { "right" } else { "down" });
    let mut header_parts = two(
        element(Tag::I, icon_class, Vec::new(), Vec::new(), Vec::new()),
        text_plain(Tag::Span, "flex-grow mx-1 select-none", title),
    );
    header_parts.push(element(Tag::I, post_icon, Vec::new(), Vec::new(), Vec::new()));
    let header = plain(Tag::Div, SECTION_HEADER_CLASS, header_parts);
    let list = plain(Tag::Ul, "list-none", two(side_bar_section_item("Item 1"), side_bar_section_item("Item 2")));
    plain(Tag::Div, "m-2 my-3", two(header, list))
}

/// The sidebar: the brand, then the three sections, all expanded.
pub open spec fn is_side_bar(n: Node) -> bool {
    &&& plain_el(n, Tag::Aside, SIDE_BAR_CLASS@)
    &&& kids(n).len() == 4
    &&& text_el(kids(n)[0], Tag::H1, BRAND_CLASS@, "Rust Academy"@)
    &&& is_section(kids(n)[1], "Courses"@, "book"@, false)
    &&& is_section(kids(n)[2], "Lists"@, "address-book"@, false)
    &&& is_section(kids(n)[3], "Repositories"@, "address-book"@, false)
}

pub fn side_bar() -> (r: Node)
    ensures
        is_side_bar(r),
{
    let mut parts = two(
        text_plain(Tag::H1, BRAND_CLASS, "Rust Academy"),
        side_bar_section("Courses", "book", false),
    );
    parts.push(side_bar_section("Lists", "address-book", false));
    parts.push(side_bar_section("Repositories", "address-book", false));
    plain(Tag::Aside, SIDE_BAR_CLASS, parts)
}

/// A link to `#` in the navigation bar, labelled `name`.
pub open spec fn is_nav_bar_button(n: Node, name: Seq<char>) -> bool {
    &&& is_el(n, Tag::A, NAV_BUTTON_CLASS@)
    &&& links_nowhere(n)
    &&& handlers(n).len() == 0
    &&& kids(n).len() == 1
    &&& is_text(kids(n)[0], name)
}

pub fn nav_bar_button(name: &str) -> (r: Node)
    ensures
        is_nav_bar_button(r, name@),
{
    element(Tag::A, String::from_str(NAV_BUTTON_CLASS), href_nowhere(), Vec::new(), one(text(name)))
}

/// The search field: each change of its value produces `Msg::SearchTyped`.
pub open spec fn is_search_input(n: Node) -> bool {
    &&& is_el(n, Tag::Input, SEARCH_INPUT_CLASS@)
    &&& attr_views(n) == seq![(AttrName::Placeholder, "Search courses"@)]
    &&& handlers(n) == seq![Handler::InputSearch]
    &&& kids(n).len() == 0
}

/// The navigation bar: the search field, then the two account links.
pub open spec fn is_nav_bar(n: Node) -> bool {
    let search = kids(n)[0];
    let links = kids(n)[1];
    &&& plain_el(n, Tag::Nav, NAV_BAR_CLASS@)
    &&& kids(n).len() == 2
    &&& plain_el(search, Tag::Div, "flex-initial w-1/2 mx-auto"@)
    &&& kids(search).len() == 1
    &&& is_search_input(kids(search)[0])
    &&& plain_el(links, Tag::Div, "flex items-center"@)
    &&& kids(links).len() == 2
    &&& is_nav_bar_button(kids(links)[0], "Sign In"@)
    &&& is_nav_bar_button(kids(links)[1], "Sign Out"@)
}

pub fn nav_bar() -> (r: Node)
    ensures
        is_nav_bar(r),
{
    let mut attrs: Vec<Attr> = Vec::new();
    attrs.push(Attr { name: AttrName::Placeholder, value: String::from_str("Search courses") });
    let mut on_input: Vec<Handler> = Vec::new();
    on_input.push(Handler::InputSearch);
    let input = element(Tag::Input, String::from_str(SEARCH_INPUT_CLASS), attrs, on_input, Vec::new());
    assert(attr_views(input) =~= seq![(AttrName::Placeholder, "Search courses"@)]);
    assert(handlers(input) =~= seq![Handler::InputSearch]);
    let search = plain(Tag::Div, "flex-initial w-1/2 mx-auto", one(input));
    let links = plain(Tag::Div, "flex items-center", two(nav_bar_button("Sign In"), nav_bar_button("Sign Out")));
    plain(Tag::Nav, NAV_BAR_CLASS, two(search, links))
}

/// The card of the course `c`, with its description as one paragraph.
pub open spec fn shows_course(n: Node, c: Course) -> bool {
    &&& is_card(n, c.title@, c.price)
    &&& card_body(n).len() == 1
    &&& text_el(card_body(n)[0], Tag::P, ""@, c.description@)
}

/// One card for each course of `courses`, in the same order.
pub open spec fn shows_courses(cards: Seq<Node>, courses: Seq<Course>) -> bool {
    &&& cards.len() == courses.len()
    &&& forall|i: int| 0 <= i < cards.len() ==> shows_course(#[trigger] cards[i], courses[i])
}

/// The list of cards in a page.
pub open spec fn card_list(page: Node) -> Seq<Node> {
    let main = kids(kids(page)[0])[1];
    kids(kids(kids(main)[1])[0])
}

/// The page: the sidebar beside a column that holds the navigation bar above
/// the cards.
pub open spec fn is_page(n: Node) -> bool {
    let row = kids(n)[0];
    let main = kids(row)[1];
    let content = kids(main)[1];
    &&& plain_el(n, Tag::Div, "w-full"@)
    &&& kids(n).len() == 1
    &&& plain_el(row, Tag::Div, "flex"@)
    &&& kids(row).len() == 2
    &&& plain_el(kids(row)[0], Tag::Div, "flex-none w-64"@)
    &&& kids(kids(row)[0]).len() == 1
    &&& is_side_bar(kids(kids(row)[0])[0])
    &&& plain_el(main, Tag::Div, "flex-grow"@)
    &&& kids(main).len() == 2
    &&& is_nav_bar(kids(main)[0])
    &&& plain_el(content, Tag::Div, "pt-8 px-8"@)
    &&& kids(content).len() == 1
    &&& plain_el(kids(content)[0], Tag::Div, "flex justify-between"@)
}

/// What `view` shows for a state whose search text is `search`.
pub open spec fn renders(r: Seq<Node>, search: Seq<char>) -> bool {
    &&& r.len() == 1
    &&& is_page(r[0])
    &&& shows_courses(card_list(r[0]), visible(search))
}

fn course_cards(search_text: &str) -> (r: Vec<Node>)
    ensures
        shows_courses(r@, visible(search_text@)),
{
    let shown = visible_courses(search_text);
    let mut r: Vec<Node> = Vec::new();
    let mut i: usize = 0;
    while i < shown.len()
        invariant
            shown@ == visible(search_text@),
            i <= shown@.len(),
            r@.len() == i,
            forall|k: int| 0 <= k < i ==> shows_course(#[trigger] r@[k], shown@[k]),
        decreases shown@.len() - i,
    {
        let c = shown[i];
        let n = card(c.title, c.price, Some(one(text_plain(Tag::P, "", c.description))));
        r.push(n);
        i += 1;
    }
    r
}

/// The page for `model`. It reads the search text alone.
pub fn view(model: &Model) -> (r: Vec<Node>)
    ensures
        renders(r@, model.search_text@),
{
    let content = plain(Tag::Div, "pt-8 px-8", one(plain(Tag::Div, "flex justify-between", course_cards(model.search_text.as_str()))));
    let main = plain(Tag::Div, "flex-grow", two(nav_bar(), content));
    let row = plain(Tag::Div, "flex", two(plain(Tag::Div, "flex-none w-64", one(side_bar())), main));
    one(plain(Tag::Div, "w-full", one(row)))
}

} // verus!
