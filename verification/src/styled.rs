//! Styled output: a short sequence of styling directives and the characters
//! that a terminal receives for it.
//!
//! The escape sequence of a directive is the one crossterm writes for the
//! matching command. A sequence of directives can be issued as one batch,
//! written in a single piece, or one directive at a time; the terminal
//! receives the same characters either way.

use crossterm::Command;
use vstd::prelude::*;
use vstd::string::*;

verus! {

/// A colour of the terminal.
#[derive(Clone, Copy, Debug, PartialEq, Eq, Structural)]
pub enum Tint {
    /// The terminal's default colour.
    Reset,
    /// A colour of the 256-colour palette.
    Ansi(u8),
    /// A colour by its red, green and blue parts.
    Rgb(u8, u8, u8),
}

/// One styling directive.
#[derive(Clone, Debug, PartialEq, Eq)]
pub enum Directive {
    SetForeground(Tint),
    SetBackground(Tint),
    Print(String),
    ResetColor,
}

/// The escape sequence that crossterm writes to set the foreground colour.
pub uninterp spec fn foreground_code(color: Tint) -> Seq<char>;

/// The escape sequence that crossterm writes to set the background colour.
pub uninterp spec fn background_code(color: Tint) -> Seq<char>;

/// The escape sequence that resets all styling: `ESC [ 0 m`.
pub open spec fn reset_code() -> Seq<char> {
    seq!['\u{1b}', '[', '0', 'm']
}

impl Directive {
    /// The characters that the directive sends to the terminal.
    pub open spec fn code(self) -> Seq<char> {
        match self {
            Directive::SetForeground(color) => foreground_code(color),
            Directive::SetBackground(color) => background_code(color),
            Directive::Print(text) => text@,
            Directive::ResetColor => reset_code(),
        }
    }
}

/// The characters of a whole sequence of directives, in order.
pub open spec fn stream(directives: Seq<Directive>) -> Seq<char>
    decreases directives.len(),
{
    if directives.len() == 0 {
        Seq::empty()
    } else {
        stream(directives.drop_last()) + directives.last().code()
    }
}

/// The pieces written when each directive is issued on its own.
pub open spec fn pieces(directives: Seq<Directive>) -> Seq<Seq<char>> {
    Seq::new(directives.len(), |i: int| directives[i].code())
}

/// What the terminal receives when the pieces are written one after the
/// other.
pub open spec fn joined(pieces: Seq<Seq<char>>) -> Seq<char>
    decreases pieces.len(),
{
    if pieces.len() == 0 {
        Seq::empty()
    } else {
        joined(pieces.drop_last()) + pieces.last()
    }
}

/// The views of a vector of strings.
pub open spec fn views(strings: Seq<String>) -> Seq<Seq<char>> {
    Seq::new(strings.len(), |i: int| strings[i]@)
}

/// Calls `write_ansi` of crossterm's `SetForegroundColor` on an empty
/// string. The result is a function of the colour alone, and is named
/// rather than spelled out.
#[verifier::external_body]
fn foreground_ansi(color: Tint) -> (code: String)
    ensures
        code@ == foreground_code(color),
{
    let color = match color {
        Tint::Reset => crossterm::style::Color::Reset,
        Tint::Ansi(value) => crossterm::style::Color::AnsiValue(value),
        Tint::Rgb(r, g, b) => crossterm::style::Color::Rgb { r, g, b },
    };
    let mut code = String::new();
    let _ = crossterm::style::SetForegroundColor(color).write_ansi(&mut code);
    code
}

/// Calls `write_ansi` of crossterm's `SetBackgroundColor` on an empty
/// string. The result is a function of the colour alone, and is named
/// rather than spelled out.
#[verifier::external_body]
fn background_ansi(color: Tint) -> (code: String)
    ensures
        code@ == background_code(color),
{
    let color = match color {
        Tint::Reset => crossterm::style::Color::Reset,
        Tint::Ansi(value) => crossterm::style::Color::AnsiValue(value),
        Tint::Rgb(r, g, b) => crossterm::style::Color::Rgb { r, g, b },
    };
    let mut code = String::new();
    let _ = crossterm::style::SetBackgroundColor(color).write_ansi(&mut code);
    code
}

/// Calls `write_ansi` of crossterm's `Print` on an empty string, which
/// writes the text as it is.
#[verifier::external_body]
fn print_ansi(text: &str) -> (code: String)
    ensures
        code@ == text@,
{
    let mut code = String::new();
    let _ = crossterm::style::Print(text).write_ansi(&mut code);
    code
}

/// Calls `write_ansi` of crossterm's `ResetColor` on an empty string, which
/// writes the four characters `ESC [ 0 m`.
#[verifier::external_body]
fn reset_ansi() -> (code: String)
    ensures
        code@ == reset_code(),
{
    let mut code = String::new();
    let _ = crossterm::style::ResetColor.write_ansi(&mut code);
    code
}

/// The characters that one directive sends to the terminal.
pub fn encode(directive: &Directive) -> (code: String)
    ensures
        code@ == directive.code(),
{
    match directive {
        Directive::SetForeground(color) => foreground_ansi(*color),
        Directive::SetBackground(color) => background_ansi(*color),
        Directive::Print(text) => print_ansi(text.as_str()),
        Directive::ResetColor => reset_ansi(),
    }
}

/// Issues the directives as one batch: all of them are written into one
/// buffer, which goes to the terminal in a single piece.
pub fn emit_batched(directives: &Vec<Directive>) -> (out: String)
    ensures
        out@ == stream(directives@),
{
    let mut out = String::new();
    let mut i: usize = 0;
    proof {
        assert(directives@.take(0) =~= Seq::<Directive>::empty());
    }
    while i < directives.len()
        invariant
            i <= directives@.len(),
            out@ == stream(directives@.take(i as int)),
        decreases directives@.len() - i,
    {
        let code = encode(&directives[i]);
        out.append(code.as_str());
        proof {
            let longer = directives@.take(i + 1);
            assert(longer.drop_last() =~= directives@.take(i as int));
            assert(longer.last() == directives@[i as int]);
        }
        i = i + 1;
    }
    proof {
        assert(directives@.take(i as int) =~= directives@);
    }
    out
}

/// Issues the directives one at a time: each is written to the terminal as
/// a piece of its own.
pub fn emit_sequential(directives: &Vec<Directive>) -> (out: Vec<String>)
    ensures
        views(out@) == pieces(directives@),
{
    let mut out: Vec<String> = Vec::new();
    let mut i: usize = 0;
    while i < directives.len()
        invariant
            i <= directives@.len(),
            out@.len() == i,
            forall|j: int| 0 <= j < i ==> (#[trigger] out@[j])@ == directives@[j].code(),
        decreases directives@.len() - i,
    {
        let code = encode(&directives[i]);
        out.push(code);
        i = i + 1;
    }
    proof {
        assert(views(out@) =~= pieces(directives@));
    }
    out
}

/// What the terminal has received after the pieces were written one after
/// the other.
pub fn received(pieces: &Vec<String>) -> (out: String)
    ensures
        out@ == joined(views(pieces@)),
{
    let mut out = String::new();
    let mut i: usize = 0;
    proof {
        assert(views(pieces@.take(0)) =~= Seq::<Seq<char>>::empty());
    }
    while i < pieces.len()
        invariant
            i <= pieces@.len(),
            out@ == joined(views(pieces@.take(i as int))),
        decreases pieces@.len() - i,
    {
        out.append(pieces[i].as_str());
        proof {
            let longer = views(pieces@.take(i + 1));
            assert(longer.drop_last() =~= views(pieces@.take(i as int)));
            assert(longer.last() == pieces@[i as int]@);
        }
        i = i + 1;
    }
    proof {
        assert(pieces@.take(i as int) =~= pieces@);
    }
    out
}

/// The fixed sequence of a styled line: set the foreground, set the
/// background, print the text, reset the styling.
pub fn styled_line(foreground: Tint, background: Tint, text: &str) -> (directives: Vec<Directive>)
    ensures
        directives@.len() == 4,
        directives@[0] == Directive::SetForeground(foreground),
        directives@[1] == Directive::SetBackground(background),
        directives@[2] matches Directive::Print(printed) && printed@ == text@,
        directives@[3] == Directive::ResetColor,
        stream(directives@) == foreground_code(foreground) + background_code(background) + text@
            + reset_code(),
{
    let mut directives: Vec<Directive> = Vec::new();
    directives.push(Directive::SetForeground(foreground));
    directives.push(Directive::SetBackground(background));
    directives.push(Directive::Print(String::from_str(text)));
    directives.push(Directive::ResetColor);
    proof {
        let all = directives@;
        let three = all.drop_last();
        let two = three.drop_last();
        let one = two.drop_last();
        assert(one.drop_last().len() == 0);
        assert(stream(one.drop_last()) =~= Seq::<char>::empty());
        assert(one.last() == all[0] && two.last() == all[1] && three.last() == all[2]);
        assert(stream(one) =~= all[0].code());
        assert(stream(two) =~= stream(one) + all[1].code());
        assert(stream(three) =~= stream(two) + all[2].code());
        assert(stream(all) =~= stream(three) + all[3].code());
    }
    directives
}

/// Batched and sequential issuance send the same characters: the pieces
/// written one directive at a time, joined, are the stream of the batch.
pub proof fn law_batched_equals_sequential(directives: Seq<Directive>)
    ensures
        joined(pieces(directives)) == stream(directives),
    decreases directives.len(),
{
    if directives.len() > 0 {
        law_batched_equals_sequential(directives.drop_last());
        assert(pieces(directives).drop_last() =~= pieces(directives.drop_last()));
        assert(pieces(directives).last() == directives.last().code());
    }
}

} // verus!
