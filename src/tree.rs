//! A declarative UI tree: elements with a tag, a class list, attributes,
//! event bindings that produce messages, and children; and text leaves.

use vstd::prelude::*;
use vstd::string::*;
use crate::model::Msg;

verus! {

#[derive(Clone, Copy, PartialEq, Eq, Debug)]
pub enum Tag {
    A,
    Aside,
    Button,
    Div,
    H1,
    I,
    Input,
    Li,
    Nav,
    P,
    Span,
    Ul,
}

#[derive(Clone, Copy, PartialEq, Eq, Debug)]
pub enum AttrName {
    Href,
    Placeholder,
}

pub struct Attr {
    pub name: AttrName,
    pub value: String,
}

/// What an element does when the user acts on it.
pub enum Handler {
    /// A click produces this message.
    Click(Msg),
    /// Each change of the field's value produces `Msg::SearchTyped` with the
    /// new value.
    InputSearch,
}

pub struct Element {
    pub tag: Tag,
    /// Space-separated class tokens; empty for none.
    pub class: String,
    pub attrs: Vec<Attr>,
    pub handlers: Vec<Handler>,
    pub children: Vec<Node>,
}

pub enum Node {
    Element(Element),
    Text(String),
}

pub open spec fn is_text(n: Node, t: Seq<char>) -> bool {
    n is Text && n->Text_0@ == t
}

pub open spec fn kids(n: Node) -> Seq<Node> {
    n->Element_0.children@
}

pub open spec fn attr_views(n: Node) -> Seq<(AttrName, Seq<char>)> {
    n->Element_0.attrs@.map_values(|a: Attr| (a.name, a.value@))
}

pub open spec fn handlers(n: Node) -> Seq<Handler> {
    n->Element_0.handlers@
}

/// An element with this tag and class.
pub open spec fn is_el(n: Node, tag: Tag, class: Seq<char>) -> bool {
    &&& n is Element
    &&& n->Element_0.tag == tag
    &&& n->Element_0.class@ == class
}

/// An element with this tag and class, and no attributes or bindings.
pub open spec fn plain_el(n: Node, tag: Tag, class: Seq<char>) -> bool {
    &&& is_el(n, tag, class)
    &&& n->Element_0.attrs@.len() == 0
    &&& handlers(n).len() == 0
}

/// A plain element whose only child is the text `t`.
pub open spec fn text_el(n: Node, tag: Tag, class: Seq<char>, t: Seq<char>) -> bool {
    &&& plain_el(n, tag, class)
    &&& kids(n).len() == 1
    &&& is_text(kids(n)[0], t)
}

/// A link to `#`, with no other attribute.
pub open spec fn links_nowhere(n: Node) -> bool {
    attr_views(n) == seq![(AttrName::Href, "#"@)]
}

pub fn text(t: &str) -> (r: Node)
    ensures
        is_text(r, t@),
{
    Node::Text(String::from_str(t))
}

pub fn element(tag: Tag, class: String, attrs: Vec<Attr>, handlers: Vec<Handler>, children: Vec<Node>) -> (r: Node)
    ensures
        r is Element,
        r->Element_0.tag == tag,
        r->Element_0.class@ == class@,
        r->Element_0.attrs@ == attrs@,
        r->Element_0.handlers@ == handlers@,
        kids(r) == children@,
{
    Node::Element(Element { tag, class, attrs, handlers, children })
}

/// A plain element with the given children.
pub fn plain(tag: Tag, class: &str, children: Vec<Node>) -> (r: Node)
    ensures
        plain_el(r, tag, class@),
        kids(r) == children@,
{
    element(tag, String::from_str(class), Vec::new(), Vec::new(), children)
}

/// A plain element holding the text `t` alone.
pub fn text_plain(tag: Tag, class: &str, t: &str) -> (r: Node)
    ensures
        text_el(r, tag, class@, t@),
{
    plain(tag, class, one(text(t)))
}

/// The one attribute of a link to `#`.
pub fn href_nowhere() -> (r: Vec<Attr>)
    ensures
        r@.map_values(|a: Attr| (a.name, a.value@)) == seq![(AttrName::Href, "#"@)],
{
    let mut r: Vec<Attr> = Vec::new();
    r.push(Attr { name: AttrName::Href, value: String::from_str("#") });
    assert(r@.map_values(|a: Attr| (a.name, a.value@)) =~= seq![(AttrName::Href, "#"@)]);
    r
}

pub fn one(a: Node) -> (r: Vec<Node>)
    ensures
        r@.len() == 1,
        r@[0] == a,
{
    let mut r: Vec<Node> = Vec::new();
    r.push(a);
    r
}

pub fn two(a: Node, b: Node) -> (r: Vec<Node>)
    ensures
        r@.len() == 2,
        r@[0] == a,
        r@[1] == b,
{
    let mut r = one(a);
    r.push(b);
    r
}

} // verus!
