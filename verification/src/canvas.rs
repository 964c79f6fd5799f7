//! A canvas that records what is painted on it.
//!
//! The canvas keeps the paint commands in the order in which they were
//! given. Colours and the stroke width are registers: a command that sets
//! one holds for every path and text after it, until the next such command.
//! Whoever owns the page replays the list on it.

use vstd::prelude::*;
use vstd::string::StringExecFns;
use crate::catalog::Rgb;
use crate::path::{Path, PathView, Point, PointView};

verus! {

/// The name under which the owner of the page knows a font.
#[derive(Copy, Clone, Debug, PartialEq, Eq, Structural)]
pub struct FontHandle(pub usize);

/// One paint command.
#[derive(Clone, Debug, PartialEq, Eq)]
pub enum DrawCommand {
    /// Sets the colour with which paths are filled and text is written.
    SetFillColor(Rgb),
    /// Sets the colour with which outlines are drawn.
    SetStrokeColor(Rgb),
    /// Sets the width of outlines, in millionths of a point.
    SetStrokeWidth(i64),
    /// Paints a path as its own mode says.
    AddPath(Path),
    /// Writes text with its baseline starting at `position`, at a font size
    /// in millionths of a point.
    AddText { text: String, font: FontHandle, size_pt: i64, position: Point },
}

/// A [`DrawCommand`] over mathematical integers and sequences.
pub enum DrawCommandView {
    SetFillColor(Rgb),
    SetStrokeColor(Rgb),
    SetStrokeWidth(int),
    AddPath(PathView),
    AddText { text: Seq<char>, font: FontHandle, size_pt: int, position: PointView },
}

impl View for DrawCommand {
    type V = DrawCommandView;

    open spec fn view(&self) -> DrawCommandView {
        match *self {
            DrawCommand::SetFillColor(c) => DrawCommandView::SetFillColor(c),
            DrawCommand::SetStrokeColor(c) => DrawCommandView::SetStrokeColor(c),
            DrawCommand::SetStrokeWidth(w) => DrawCommandView::SetStrokeWidth(w as int),
            DrawCommand::AddPath(path) => DrawCommandView::AddPath(path@),
            DrawCommand::AddText { text, font, size_pt, position } => DrawCommandView::AddText {
                text: text@,
                font,
                size_pt: size_pt as int,
                position: position@,
            },
        }
    }
}

/// The stroke width of a canvas that was never told one: the thinnest line
/// that the page can show.
pub const NEUTRAL_STROKE_WIDTH: i64 = 0;

/// The stroke width in force after the commands given.
pub open spec fn stroke_width_after(commands: Seq<DrawCommandView>) -> int
    decreases commands.len(),
{
    if commands.len() == 0 {
        0
    } else {
        match commands.last() {
            DrawCommandView::SetStrokeWidth(w) => w,
            _ => stroke_width_after(commands.drop_last()),
        }
    }
}

/// The commands of a canvas, each by its view.
pub open spec fn commands_view(commands: Seq<DrawCommand>) -> Seq<DrawCommandView> {
    commands.map_values(|c: DrawCommand| c@)
}

/// The list of paint commands given so far.
#[derive(Clone, Debug, PartialEq, Eq)]
pub struct Canvas {
    pub commands: Vec<DrawCommand>,
}

impl View for Canvas {
    type V = Seq<DrawCommandView>;

    open spec fn view(&self) -> Seq<DrawCommandView> {
        commands_view(self.commands@)
    }
}

impl Canvas {
    /// A canvas on which nothing was painted.
    pub fn new() -> (canvas: Canvas)
        ensures
            canvas@ == Seq::<DrawCommandView>::empty(),
    {
        let canvas = Canvas { commands: Vec::new() };
        assert(canvas@ =~= Seq::<DrawCommandView>::empty());
        canvas
    }

    /// Records a command after those given before.
    pub fn record(&mut self, command: DrawCommand)
        ensures
            final(self)@ == old(self)@.push(command@),
    {
        self.commands.push(command);
        assert(self@ =~= old(self)@.push(command@));
    }

    /// Sets the colour with which paths are filled and text is written.
    pub fn set_fill_color(&mut self, color: Rgb)
        ensures
            final(self)@ == old(self)@.push(DrawCommandView::SetFillColor(color)),
    {
        self.record(DrawCommand::SetFillColor(color));
    }

    /// Sets the colour with which outlines are drawn.
    pub fn set_stroke_color(&mut self, color: Rgb)
        ensures
            final(self)@ == old(self)@.push(DrawCommandView::SetStrokeColor(color)),
    {
        self.record(DrawCommand::SetStrokeColor(color));
    }

    /// Sets the width of outlines, in millionths of a point.
    pub fn set_stroke_width(&mut self, width_pt: i64)
        ensures
            final(self)@ == old(self)@.push(DrawCommandView::SetStrokeWidth(width_pt as int)),
    {
        self.record(DrawCommand::SetStrokeWidth(width_pt));
    }

    /// Paints a path as its own mode says, in the colours and the stroke
    /// width in force.
    pub fn add_path(&mut self, path: Path)
        ensures
            final(self)@ == old(self)@.push(DrawCommandView::AddPath(path@)),
    {
        self.record(DrawCommand::AddPath(path));
    }

    /// Writes text in the fill colour in force.
    pub fn add_text(&mut self, text: &str, font: FontHandle, size_pt: i64, position: Point)
        ensures
            final(self)@ == old(self)@.push(
                DrawCommandView::AddText {
                    text: text@,
                    font,
                    size_pt: size_pt as int,
                    position: position@,
                },
            ),
    {
        let text = String::from_str(text);
        self.record(DrawCommand::AddText { text, font, size_pt, position });
    }
}

} // verus!
