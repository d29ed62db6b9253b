//! Data handed to the rendering collaborator, read-only, once per frame.

use vstd::prelude::*;
use crate::ratom::Ratom;

verus! {

/// One grid cell's renderable content: the element there and whether the
/// focus cursor sits on it.
pub struct AtomCell {
    pub ratom: Ratom,
    pub focused: bool,
}

impl AtomCell {
    pub fn new(ratom: Ratom, focused: bool) -> (c: Self)
        ensures
            c.ratom == ratom,
            c.focused == focused,
    {
        AtomCell { ratom, focused }
    }
}

/// What the information block currently shows.
#[derive(Clone, Copy, Debug, PartialEq, Eq, Structural)]
pub enum InfoBlockState {
    ElementDescription,
    Groups,
}

/// The information block beside the table: its mode, the element under the
/// focus cursor if any, and whether the block itself has focus.
pub struct InformationBlock {
    pub state: InfoBlockState,
    pub focused_atom: Option<Ratom>,
    pub focused: bool,
}

impl InformationBlock {
    pub fn new(state: InfoBlockState, focused_atom: Option<Ratom>, focused: bool) -> (b: Self)
        ensures
            b.state == state,
            b.focused_atom == focused_atom,
            b.focused == focused,
    {
        InformationBlock { state, focused_atom, focused }
    }
}

} // verus!
