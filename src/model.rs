//! The application state, the messages that change it, and the transition
//! function.

use vstd::prelude::*;

verus! {

/// The whole state of the page. It is replaced, field by field, only through
/// [`update`].
pub struct Model {
    /// How many times a demo control was activated.
    pub clicks: i32,
    /// The current filter text; empty means no filter.
    pub search_text: String,
    /// The last value drawn from the host's random source.
    pub random_number: i32,
    /// The last value delivered by the host's clock; `None` before the first tick.
    pub clock_time: Option<String>,
    /// Set by a transition that asks the runtime not to re-render after it.
    pub skip_next_render: bool,
}

/// Every cause of a state transition.
pub enum Msg {
    Increment,
    SearchTyped(String),
    NewRandomNumber,
    KeyPressed(String),
    OnClockTick(String),
}

impl Model {
    /// The click counter never goes below zero.
    pub open spec fn wf(&self) -> bool {
        self.clicks >= 0
    }

    /// The state at start-up: nothing clicked, no filter, no tick yet, and
    /// `random_number` as the host's random source gave it.
    pub fn new(random_number: i32) -> (r: Model)
        ensures
            r.wf(),
            r.clicks == 0,
            r.search_text@ == Seq::<char>::empty(),
            r.random_number == random_number,
            r.clock_time is None,
            !r.skip_next_render,
    {
        Model {
            clicks: 0,
            search_text: String::new(),
            random_number,
            clock_time: None,
            skip_next_render: false,
        }
    }
}

/// A message can be applied to `m`: the click counter has room for one more.
pub open spec fn can_reduce(msg: Msg, m: Model) -> bool {
    msg is Increment ==> m.clicks < i32::MAX
}

/// The state after `msg` is applied to `m`. `drawn` is the value that the
/// host's random source gave for this transition; only `NewRandomNumber`
/// reads it. Only `KeyPressed` asks that no re-render follow.
pub open spec fn reduce(msg: Msg, m: Model, drawn: i32) -> Model {
    let m = Model { skip_next_render: msg is KeyPressed, ..m };
    match msg {
        Msg::Increment => Model { clicks: (m.clicks + 1) as i32, ..m },
        Msg::SearchTyped(text) => Model { search_text: text, ..m },
        Msg::NewRandomNumber => Model { random_number: drawn, ..m },
        Msg::KeyPressed(_) => m,
        Msg::OnClockTick(time) => Model { clock_time: Some(time), ..m },
    }
}

/// Applies `msg` to `model`. `drawn` is the host's random value for this
/// transition, read only by `NewRandomNumber`. After the call
/// `model.skip_next_render` tells the runtime whether to skip the re-render.
pub fn update(msg: Msg, model: &mut Model, drawn: i32)
    requires
        can_reduce(msg, *old(model)),
    ensures
        *final(model) == reduce(msg, *old(model), drawn),
        old(model).wf() ==> final(model).wf(),
{
    model.skip_next_render = false;
    match msg {
        Msg::Increment => model.clicks = model.clicks + 1,
        Msg::SearchTyped(input) => model.search_text = input,
        Msg::NewRandomNumber => model.random_number = drawn,
        Msg::KeyPressed(_) => model.skip_next_render = true,
        Msg::OnClockTick(time) => model.clock_time = Some(time),
    }
}

} // verus!
