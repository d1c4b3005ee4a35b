//! CLI output: the lines to write, the stream each goes to, and the renderer.

use vstd::prelude::*;

pub mod ui;

pub use ui::Ui;

verus! {

/// The stream a line is written to.
#[derive(Debug, Clone, Copy, PartialEq, Eq, Structural)]
pub enum Stream {
    /// Standard output.
    Stdout,
    /// Standard error.
    Stderr,
}

/// One line of output.
#[derive(Debug, PartialEq, Eq)]
pub struct Line {
    pub stream: Stream,
    pub text: String,
}

impl Clone for Line {
    fn clone(&self) -> (r: Self)
        ensures
            r == *self,
    {
        Line { stream: self.stream, text: self.text.clone() }
    }
}

pub struct LineModel {
    pub stream: Stream,
    pub text: Seq<char>,
}

impl View for Line {
    type V = LineModel;

    open spec fn view(&self) -> LineModel {
        LineModel { stream: self.stream, text: self.text@ }
    }
}

pub open spec fn lines_model(lines: Seq<Line>) -> Seq<LineModel> {
    lines.map_values(|l: Line| l@)
}

pub open spec fn out(text: Seq<char>) -> LineModel {
    LineModel { stream: Stream::Stdout, text }
}

pub open spec fn err(text: Seq<char>) -> LineModel {
    LineModel { stream: Stream::Stderr, text }
}

} // verus!
