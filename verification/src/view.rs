//! What is drawn for a state of the application.

use crate::app::App;
use vstd::prelude::*;

verus! {

/// A foreground colour of the border.
#[derive(Clone, Copy, Debug, PartialEq, Eq, Structural)]
pub enum Color {
    /// The terminal's default foreground.
    Reset,
    Red,
}

/// Where the title stands on the top border.
#[derive(Clone, Copy, Debug, PartialEq, Eq, Structural)]
pub enum Alignment {
    Left,
    Center,
    Right,
}

/// The line style of the border.
#[derive(Clone, Copy, Debug, PartialEq, Eq, Structural)]
pub enum BorderType {
    Plain,
    Rounded,
    Double,
    Thick,
}

/// Which of the four borders are drawn.
#[derive(Clone, Copy, Debug, PartialEq, Eq, Structural)]
pub struct Borders {
    pub left: bool,
    pub top: bool,
    pub right: bool,
    pub bottom: bool,
}

/// A framed rectangle that fills the drawing surface.
#[derive(Clone, Copy, Debug, PartialEq, Eq)]
pub struct BlockView {
    pub title: &'static str,
    pub title_alignment: Alignment,
    pub borders: Borders,
    pub border_type: BorderType,
    pub border_color: Color,
}

/// The title of the block.
pub const TITLE: &'static str = " I am a block ";

impl Borders {
    /// All four borders.
    pub open spec fn all() -> Borders {
        Borders { left: true, top: true, right: true, bottom: true }
    }
}

/// The border colour for a state: red in edit mode, the default otherwise.
pub open spec fn border_color_of(app: App) -> Color {
    if app.edit_mode {
        Color::Red
    } else {
        Color::Reset
    }
}

/// The block drawn for a state.
pub open spec fn ui_spec(app: App) -> BlockView {
    BlockView {
        title: TITLE,
        title_alignment: Alignment::Center,
        borders: Borders::all(),
        border_type: BorderType::Rounded,
        border_color: border_color_of(app),
    }
}

/// Describes the one block on screen: a centred title, rounded corners, all
/// four borders, and a border that is red exactly in edit mode.
pub fn ui(app: &App) -> (view: BlockView)
    ensures
        view == ui_spec(*app),
        view.border_color == Color::Red <==> app.edit_mode,
        view.border_color == Color::Reset <==> !app.edit_mode,
{
    let border_color = if app.edit_mode {
        Color::Red
    } else {
        Color::Reset
    };
    BlockView {
        title: TITLE,
        title_alignment: Alignment::Center,
        borders: Borders { left: true, top: true, right: true, bottom: true },
        border_type: BorderType::Rounded,
        border_color,
    }
}

} // verus!
