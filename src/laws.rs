//! Facts that hold of the transition function and of the page.

use vstd::prelude::*;
use crate::catalog::visible;
use crate::model::{Model, Msg, reduce};
use crate::tree::Node;
use crate::view::{card_list, is_page, renders, shows_courses};

verus! {

/// Two renderings of the same state are the same page and show the same
/// cards, for the same courses, in the same order.
pub proof fn lemma_view_deterministic(s: Model, r1: Seq<Node>, r2: Seq<Node>)
    requires
        renders(r1, s.search_text@),
        renders(r2, s.search_text@),
    ensures
        r1.len() == 1,
        r2.len() == 1,
        is_page(r1[0]),
        is_page(r2[0]),
        shows_courses(card_list(r1[0]), visible(s.search_text@)),
        shows_courses(card_list(r2[0]), visible(s.search_text@)),
{
}

/// `Increment` adds one to the click counter and keeps the other fields; it
/// clears the render-suppression flag, so a state without that flag set
/// differs in the counter alone.
pub proof fn lemma_increment(s: Model, drawn: i32)
    requires
        s.clicks < i32::MAX,
    ensures
        reduce(Msg::Increment, s, drawn).clicks == s.clicks + 1,
        reduce(Msg::Increment, s, drawn).search_text == s.search_text,
        reduce(Msg::Increment, s, drawn).random_number == s.random_number,
        reduce(Msg::Increment, s, drawn).clock_time == s.clock_time,
        !reduce(Msg::Increment, s, drawn).skip_next_render,
        !s.skip_next_render ==> reduce(Msg::Increment, s, drawn) == (Model { clicks: (s.clicks + 1) as i32, ..s }),
{
}

/// `SearchTyped(t)` sets the search text to `t` and keeps the other fields;
/// it clears the render-suppression flag.
pub proof fn lemma_search_typed(s: Model, t: String, drawn: i32)
    ensures
        reduce(Msg::SearchTyped(t), s, drawn).search_text == t,
        reduce(Msg::SearchTyped(t), s, drawn).clicks == s.clicks,
        reduce(Msg::SearchTyped(t), s, drawn).random_number == s.random_number,
        reduce(Msg::SearchTyped(t), s, drawn).clock_time == s.clock_time,
        !reduce(Msg::SearchTyped(t), s, drawn).skip_next_render,
        !s.skip_next_render ==> reduce(Msg::SearchTyped(t), s, drawn) == (Model { search_text: t, ..s }),
{
}

/// `KeyPressed(k)` changes nothing but the render-suppression flag, which it
/// sets.
pub proof fn lemma_key_pressed(s: Model, k: String, drawn: i32)
    ensures
        reduce(Msg::KeyPressed(k), s, drawn) == (Model { skip_next_render: true, ..s }),
{
}

/// Applying the same clock tick twice leaves the tick's value as the clock
/// time both times: the second application changes nothing.
pub proof fn lemma_clock_tick_twice(s: Model, x: String, d1: i32, d2: i32)
    ensures
        reduce(Msg::OnClockTick(x), s, d1).clock_time == Some(x),
        reduce(Msg::OnClockTick(x), reduce(Msg::OnClockTick(x), s, d1), d2).clock_time == Some(x),
        reduce(Msg::OnClockTick(x), reduce(Msg::OnClockTick(x), s, d1), d2) == reduce(Msg::OnClockTick(x), s, d1),
{
}

/// Every transition keeps the click counter non-negative.
pub proof fn lemma_reduce_keeps_wf(msg: Msg, s: Model, drawn: i32)
    requires
        s.wf(),
        msg is Increment ==> s.clicks < i32::MAX,
    ensures
        reduce(msg, s, drawn).wf(),
{
}

} // verus!
