use rust_academy::catalog::{courses, visible_courses};
use rust_academy::model::{update, Model, Msg};
use rust_academy::text::contains;
use rust_academy::tree::{AttrName, Handler, Node, Tag};
use rust_academy::view::{button, card, nav_bar, nav_bar_button, side_bar, side_bar_section, view};

fn kids(n: &Node) -> &Vec<Node> {
    match n {
        Node::Element(e) => &e.children,
        Node::Text(_) => panic!("a text node has no children"),
    }
}

fn tag(n: &Node) -> Tag {
    match n {
        Node::Element(e) => e.tag,
        Node::Text(_) => panic!("a text node has no tag"),
    }
}

fn class(n: &Node) -> &str {
    match n {
        Node::Element(e) => e.class.as_str(),
        Node::Text(_) => panic!("a text node has no class"),
    }
}

fn text_of(n: &Node) -> &str {
    match n {
        Node::Text(t) => t.as_str(),
        Node::Element(_) => panic!("not a text node"),
    }
}

fn card_titles(page: &[Node]) -> Vec<String> {
    let row = &kids(&page[0])[0];
    let main = &kids(row)[1];
    let content = &kids(main)[1];
    let list = &kids(content)[0];
    kids(list).iter().map(|c| text_of(&kids(&kids(&kids(c)[0])[0])[0]).to_string()).collect()
}

fn titles(search: &str) -> Vec<&'static str> {
    visible_courses(search).iter().map(|c| c.title).collect()
}

#[test]
fn contains_finds_runs_of_text() {
    assert!(contains("Introduction to Gitdb", "Gitdb"));
    assert!(contains("Introduction to Gitdb", ""));
    assert!(contains("", ""));
    assert!(!contains("", "a"));
    assert!(!contains("Gitdb", "gitdb"));
    assert!(!contains("Git", "Gitdb"));
    assert!(contains("aaab", "aab"));
    assert!(contains("héllo wörld", "ö"));
    assert!(!contains("héllo", "e"));
}

#[test]
fn empty_search_shows_every_course() {
    assert_eq!(courses().len(), 5);
    assert_eq!(
        titles(""),
        vec![
            "O101 - Meet Onat",
            "O102 - Introduction to Gitdb",
            "O201 - Fundamentals of Heimdall",
            "O301 - NAND to Kubernetes",
            "O401 - Career planning",
        ]
    );
}

#[test]
fn search_matches_description() {
    assert_eq!(titles("Kubernetes"), vec!["O301 - NAND to Kubernetes"]);
    assert_eq!(titles("Heimdall"), vec!["O201 - Fundamentals of Heimdall", "O401 - Career planning"]);
}

#[test]
fn search_without_match_shows_nothing() {
    assert!(titles("zzz-no-match").is_empty());
    let mut m = Model::new(7);
    update(Msg::SearchTyped("zzz-no-match".to_string()), &mut m, 0);
    assert!(card_titles(&view(&m)).is_empty());
}

#[test]
fn search_is_case_sensitive() {
    assert!(titles("kubernetes").is_empty());
    assert_eq!(titles("Lunch").len(), 2);
}

#[test]
fn new_model_starts_empty() {
    let m = Model::new(42);
    assert_eq!(m.clicks, 0);
    assert_eq!(m.search_text, "");
    assert_eq!(m.random_number, 42);
    assert!(m.clock_time.is_none());
    assert!(!m.skip_next_render);
}

#[test]
fn increment_adds_one() {
    let mut m = Model::new(3);
    m.search_text = "x".to_string();
    update(Msg::Increment, &mut m, 99);
    assert_eq!(m.clicks, 1);
    assert_eq!(m.search_text, "x");
    assert_eq!(m.random_number, 3);
    assert!(m.clock_time.is_none());
    assert!(!m.skip_next_render);
}

#[test]
fn search_typed_replaces_text() {
    let mut m = Model::new(3);
    update(Msg::SearchTyped("abc".to_string()), &mut m, 99);
    update(Msg::SearchTyped("Onat".to_string()), &mut m, 99);
    assert_eq!(m.search_text, "Onat");
    assert_eq!(m.clicks, 0);
    assert_eq!(m.random_number, 3);
}

#[test]
fn key_pressed_only_asks_to_skip_render() {
    let mut m = Model::new(5);
    update(Msg::Increment, &mut m, 0);
    update(Msg::KeyPressed("Enter".to_string()), &mut m, 77);
    assert!(m.skip_next_render);
    assert_eq!(m.clicks, 1);
    assert_eq!(m.search_text, "");
    assert_eq!(m.random_number, 5);
    assert!(m.clock_time.is_none());
    update(Msg::Increment, &mut m, 0);
    assert!(!m.skip_next_render);
}

#[test]
fn new_random_number_takes_drawn_value() {
    let mut m = Model::new(5);
    update(Msg::NewRandomNumber, &mut m, 64);
    assert_eq!(m.random_number, 64);
    assert_eq!(m.clicks, 0);
}

#[test]
fn clock_tick_twice_keeps_last_value() {
    let mut m = Model::new(1);
    update(Msg::OnClockTick("12:00".to_string()), &mut m, 0);
    assert_eq!(m.clock_time.as_deref(), Some("12:00"));
    update(Msg::OnClockTick("12:00".to_string()), &mut m, 0);
    assert_eq!(m.clock_time.as_deref(), Some("12:00"));
    update(Msg::OnClockTick("12:01".to_string()), &mut m, 0);
    assert_eq!(m.clock_time.as_deref(), Some("12:01"));
}

#[test]
fn end_to_end_gitdb() {
    let mut m = Model::new(10);
    assert_eq!(m.clicks, 0);
    update(Msg::Increment, &mut m, 0);
    update(Msg::Increment, &mut m, 0);
    update(Msg::SearchTyped("Gitdb".to_string()), &mut m, 0);
    assert_eq!(m.clicks, 2);
    assert_eq!(m.search_text, "Gitdb");
    assert_eq!(card_titles(&view(&m)), vec!["O102 - Introduction to Gitdb".to_string()]);
}

#[test]
fn view_is_repeatable() {
    let mut m = Model::new(10);
    update(Msg::SearchTyped("Onat".to_string()), &mut m, 0);
    let a = card_titles(&view(&m));
    let b = card_titles(&view(&m));
    assert_eq!(a, b);
    assert_eq!(a.len(), 5);
    assert_eq!(view(&m).len(), 1);
}

#[test]
fn button_emits_increment() {
    let b = button("Purchase");
    assert_eq!(tag(&b), Tag::Button);
    assert_eq!(text_of(&kids(&b)[0]), "Purchase");
    match &b {
        Node::Element(e) => {
            assert_eq!(e.handlers.len(), 1);
            assert!(matches!(e.handlers[0], Handler::Click(Msg::Increment)));
            assert_eq!(e.attrs.len(), 1);
            assert_eq!(e.attrs[0].name, AttrName::Href);
            assert_eq!(e.attrs[0].value, "#");
        }
        Node::Text(_) => panic!("a button is an element"),
    }
}

#[test]
fn card_shows_price_in_decimal() {
    let c = card("T", 255, None);
    let price = &kids(&kids(&c)[2])[0];
    assert_eq!(text_of(&kids(price)[0]), "Price: 255");
    let c = card("T", 0, None);
    assert_eq!(text_of(&kids(&kids(&kids(&c)[2])[0])[0]), "Price: 0");
    let c = card("T", 4294967295, None);
    assert_eq!(text_of(&kids(&kids(&kids(&c)[2])[0])[0]), "Price: 4294967295");
}

#[test]
fn card_without_description_has_placeholder() {
    let c = card("Title", 100, None);
    assert_eq!(text_of(&kids(&kids(&kids(&c)[0])[0])[0]), "Title");
    let body = kids(&kids(&c)[1]);
    assert_eq!(body.len(), 1);
    assert_eq!(tag(&body[0]), Tag::P);
    assert_eq!(text_of(&kids(&body[0])[0]), "No description");
    let actions = kids(&kids(&c)[3]);
    assert_eq!(text_of(&kids(&actions[0])[0]), "Purchase");
    assert_eq!(text_of(&kids(&actions[1])[0]), "Download");
}

#[test]
fn card_keeps_given_description() {
    let c = card("Title", 100, Some(vec![button("x"), button("y")]));
    let body = kids(&kids(&c)[1]);
    assert_eq!(body.len(), 2);
    assert_eq!(text_of(&kids(&body[1])[0]), "y");
}

#[test]
fn section_chevron_follows_collapse_flag() {
    let open = side_bar_section("Courses", "book", false);
    let header = &kids(&open)[0];
    assert_eq!(class(&kids(header)[0]), "flex-none fa fa-book");
    assert_eq!(text_of(&kids(&kids(header)[1])[0]), "Courses");
    assert_eq!(class(&kids(header)[2]), "flex-none fa fa-chevron-down");
    let shut = side_bar_section("Lists", "address-book", true);
    assert_eq!(class(&kids(&kids(&shut)[0])[2]), "flex-none fa fa-chevron-right");
    assert_eq!(kids(&kids(&shut)[1]).len(), 2);
}

#[test]
fn side_bar_has_brand_and_three_sections() {
    let s = side_bar();
    assert_eq!(tag(&s), Tag::Aside);
    assert_eq!(kids(&s).len(), 4);
    assert_eq!(text_of(&kids(&kids(&s)[0])[0]), "Rust Academy");
    let third = &kids(&s)[3];
    assert_eq!(text_of(&kids(&kids(&kids(third)[0])[1])[0]), "Repositories");
}

#[test]
fn nav_bar_has_search_field_and_links() {
    let n = nav_bar();
    assert_eq!(tag(&n), Tag::Nav);
    let input = &kids(&kids(&n)[0])[0];
    assert_eq!(tag(input), Tag::Input);
    match input {
        Node::Element(e) => {
            assert!(matches!(e.handlers[0], Handler::InputSearch));
            assert_eq!(e.attrs[0].name, AttrName::Placeholder);
            assert_eq!(e.attrs[0].value, "Search courses");
        }
        Node::Text(_) => panic!("the search field is an element"),
    }
    let links = kids(&kids(&n)[1]);
    assert_eq!(text_of(&kids(&links[0])[0]), "Sign In");
    assert_eq!(text_of(&kids(&links[1])[0]), "Sign Out");
    assert_eq!(tag(&nav_bar_button("x")), Tag::A);
}
