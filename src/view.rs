//! Screens of the game and what a screen asks for after a frame.
use crate::config::TableId;
use vstd::prelude::*;

verus! {

/// A screen to show.
#[derive(Clone, Copy, PartialEq, Eq, Debug)]
pub enum Route {
    /// The intro screen, with the table last played, if any.
    Intro(Option<TableId>),
    Table(TableId),
}

/// What a screen asks for after running a frame.
#[derive(Clone, Copy, PartialEq, Eq, Debug)]
pub enum Action {
    /// Stay on the current screen.
    Stay,
    Navigate(Route),
    Exit,
}

} // verus!
