//! The text the viewer shows: an ordered sequence of lines.
use vstd::prelude::*;
use crate::terminal::texts_view;

verus! {

/// The lines loaded for display, in order.
pub struct Buffer {
    pub lines: Vec<String>,
}

impl View for Buffer {
    type V = Seq<Seq<char>>;

    open spec fn view(&self) -> Seq<Seq<char>> {
        texts_view(self.lines@)
    }
}

impl Default for Buffer {
    fn default() -> (b: Buffer)
        ensures
            b@.len() == 0,
    {
        Buffer { lines: Vec::new() }
    }
}

impl Buffer {
    /// Whether the buffer holds no line at all.
    pub fn is_empty(&self) -> (r: bool)
        ensures
            r == (self@.len() == 0),
    {
        self.lines.len() == 0
    }
}

} // verus!
