//! A course catalog page in the Elm style: a state, a closed set of messages,
//! a pure transition function and a pure function that renders the state as
//! a tree of UI nodes.

pub mod catalog;
pub mod laws;
pub mod model;
pub mod text;
pub mod tree;
pub mod view;
