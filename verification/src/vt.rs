//! The terminal parser's side of the engine. The parser is the `ransid`
//! crate's and runs in the program around the engine: it computes places on
//! `usize` without checks, so the program feeds it, and the engine takes what
//! it reports. This file turns the parser's values into the engine's, field
//! for field.

use crate::color::TermColor;
use crate::event::{TermEvent, VtState};
use vstd::prelude::*;

verus! {

/// A color as the parser reports it: `Ansi` with an index, or `TrueColor`
/// with red, green and blue.
#[verifier::external_type_specification]
pub struct ExVtColor(ransid::Color);

/// An event as the parser reports it, with its variants and their fields.
#[verifier::external_type_specification]
pub struct ExVtEvent<'a>(ransid::Event<'a>);

/// The parser's state, with its fields.
#[verifier::external_type_specification]
pub struct ExVtState(ransid::State);

/// `ransid::Color::as_rgb`: a color as one number, `0xFF` in the top byte
/// and then red, green and blue. An indexed color is looked up in the
/// crate's table of sixteen named colors, a cube of six steps a side and
/// twenty-four grays, which `ansi_channels` spells out entry by entry. The
/// contract is believed, not proved.
#[verifier::external_body]
pub(crate) fn color_rgb(color: TermColor) -> (rgb: u32)
    ensures
        rgb == color.rgb(),
{
    match color {
        TermColor::Ansi(value) => ransid::Color::Ansi(value).as_rgb(),
        TermColor::TrueColor(r, g, b) => ransid::Color::TrueColor(r, g, b).as_rgb(),
    }
}

/// The parser's color as the engine's, field for field.
pub open spec fn color_of(color: ransid::Color) -> TermColor {
    match color {
        ransid::Color::Ansi(value) => TermColor::Ansi(value),
        ransid::Color::TrueColor(r, g, b) => TermColor::TrueColor(r, g, b),
    }
}

/// One color of the parser as a color of the engine, field for field.
pub fn color_from(color: ransid::Color) -> (out: TermColor)
    ensures
        out == color_of(color),
{
    match color {
        ransid::Color::Ansi(value) => TermColor::Ansi(value),
        ransid::Color::TrueColor(r, g, b) => TermColor::TrueColor(r, g, b),
    }
}

/// One color of the engine as a color of the parser, field for field.
pub fn color_into(color: TermColor) -> (out: ransid::Color)
    ensures
        color_of(out) == color,
{
    match color {
        TermColor::Ansi(value) => ransid::Color::Ansi(value),
        TermColor::TrueColor(r, g, b) => ransid::Color::TrueColor(r, g, b),
    }
}

/// What the engine reads of the parser's state: where the cursor is,
/// whether it is visible, and the two mouse modes.
pub fn state_from(state: &ransid::State) -> (out: VtState)
    ensures
        out == (VtState {
            x: state.x,
            y: state.y,
            cursor: state.cursor,
            mouse_rxvt: state.mouse_rxvt,
            mouse_btn: state.mouse_btn,
        }),
{
    VtState {
        x: state.x,
        y: state.y,
        cursor: state.cursor,
        mouse_rxvt: state.mouse_rxvt,
        mouse_btn: state.mouse_btn,
    }
}

/// One event of the parser as an event of the engine, field for field. How
/// a character is slanted, underlined or struck through is left out: the
/// engine draws none of it.
pub fn event_from(event: ransid::Event) -> (out: TermEvent)
    ensures
        match event {
            ransid::Event::Char { x, y, c, bold, color, .. } => out == (TermEvent::Char {
                x,
                y,
                c,
                bold,
                color: color_of(color),
            }),
            ransid::Event::Input { data } => out matches TermEvent::Input { data: copy }
                && copy@ == data@,
            ransid::Event::Rect { x, y, w, h, color } => out == (TermEvent::Rect {
                x,
                y,
                w,
                h,
                color: color_of(color),
            }),
            ransid::Event::ScreenBuffer { alternate, clear } => out == (TermEvent::ScreenBuffer {
                alternate,
                clear,
            }),
            ransid::Event::Move { from_x, from_y, to_x, to_y, w, h } => out == (TermEvent::Move {
                from_x,
                from_y,
                to_x,
                to_y,
                w,
                h,
            }),
            ransid::Event::Resize { w, h } => out == (TermEvent::Resize { w, h }),
            ransid::Event::Title { title } => out == (TermEvent::Title { title }),
        },
{
    match event {
        ransid::Event::Char { x, y, c, bold, color, .. } => TermEvent::Char {
            x,
            y,
            c,
            bold,
            color: color_from(color),
        },
        ransid::Event::Input { data } => TermEvent::Input { data: vstd::slice::slice_to_vec(data) },
        ransid::Event::Rect { x, y, w, h, color } => TermEvent::Rect {
            x,
            y,
            w,
            h,
            color: color_from(color),
        },
        ransid::Event::ScreenBuffer { alternate, clear } => TermEvent::ScreenBuffer {
            alternate,
            clear,
        },
        ransid::Event::Move { from_x, from_y, to_x, to_y, w, h } => TermEvent::Move {
            from_x,
            from_y,
            to_x,
            to_y,
            w,
            h,
        },
        ransid::Event::Resize { w, h } => TermEvent::Resize { w, h },
        ransid::Event::Title { title } => TermEvent::Title { title },
    }
}

} // verus!
