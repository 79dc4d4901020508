//! Cursor and scroll position of the editor pane.
use vstd::prelude::*;

verus! {

pub struct ViewState {
    pub cursor_x: usize,
    pub cursor_y: usize,
    pub row_offset: usize,
    pub editor_height: u16,
}

impl ViewState {
    /// Cursor at the top-left, no scroll, no height yet.
    pub fn new() -> (v: Self)
        ensures
            v.cursor_x == 0,
            v.cursor_y == 0,
            v.row_offset == 0,
            v.editor_height == 0,
    {
        Self { cursor_x: 0, cursor_y: 0, row_offset: 0, editor_height: 0 }
    }
}

} // verus!
