//! Colorized output utilities for the terminal using ANSI escape codes.
//!
//! Each colorizer function wraps its whole input in one ANSI select-graphic-
//! rendition sequence and terminates it with the reset sequence, so that
//! concatenating differently colored fragments is safe.

use vstd::prelude::*;
use vstd::string::StrSliceExecFns;
use vstd::string::StringExecFns;

verus! {

/// The characters of `s` wrapped in the ANSI sequence for red text.
pub open spec fn red_spec(s: Seq<char>) -> Seq<char> {
    "\x1b[31m"@ + s + "\x1b[0m"@
}

/// The characters of `s` wrapped in the ANSI sequence for green text.
pub open spec fn green_spec(s: Seq<char>) -> Seq<char> {
    "\x1b[32m"@ + s + "\x1b[0m"@
}

/// The characters of `s` wrapped in the ANSI sequence for blue text.
pub open spec fn blue_spec(s: Seq<char>) -> Seq<char> {
    "\x1b[34m"@ + s + "\x1b[0m"@
}

/// The characters of `s` wrapped in the ANSI sequence for bold text.
pub open spec fn bold_spec(s: Seq<char>) -> Seq<char> {
    "\x1b[1m"@ + s + "\x1b[0m"@
}

/// The characters of `s` wrapped in the ANSI sequence for cyan text.
pub open spec fn cyan_spec(s: Seq<char>) -> Seq<char> {
    "\x1b[36m"@ + s + "\x1b[0m"@
}

/// The characters of `s` wrapped on both sides in the ANSI reset sequence.
pub open spec fn reset_spec(s: Seq<char>) -> Seq<char> {
    "\x1b[0m"@ + s + "\x1b[0m"@
}

/// Returns `s` wrapped in the ANSI escape sequence for red text.
pub fn red(s: &str) -> (r: String)
    ensures
        r@ == red_spec(s@),
{
    let p = String::from_str("\x1b[31m");
    let p = p.concat(s);
    p.concat("\x1b[0m")
}

/// Returns `s` wrapped in the ANSI escape sequence for green text.
pub fn green(s: &str) -> (r: String)
    ensures
        r@ == green_spec(s@),
{
    let p = String::from_str("\x1b[32m");
    let p = p.concat(s);
    p.concat("\x1b[0m")
}

/// Returns `s` wrapped in the ANSI escape sequence for blue text.
pub fn blue(s: &str) -> (r: String)
    ensures
        r@ == blue_spec(s@),
{
    let p = String::from_str("\x1b[34m");
    let p = p.concat(s);
    p.concat("\x1b[0m")
}

/// Returns `s` wrapped in the ANSI escape sequence for bold text.
pub fn bold(s: &str) -> (r: String)
    ensures
        r@ == bold_spec(s@),
{
    let p = String::from_str("\x1b[1m");
    let p = p.concat(s);
    p.concat("\x1b[0m")
}

/// Returns `s` wrapped in the ANSI escape sequence for cyan text.
pub fn cyan(s: &str) -> (r: String)
    ensures
        r@ == cyan_spec(s@),
{
    let p = String::from_str("\x1b[36m");
    let p = p.concat(s);
    p.concat("\x1b[0m")
}

/// Returns `s` wrapped on both sides in the ANSI reset sequence.
pub fn reset(s: &str) -> (r: String)
    ensures
        r@ == reset_spec(s@),
{
    let p = String::from_str("\x1b[0m");
    let p = p.concat(s);
    p.concat("\x1b[0m")
}

/// Available colors and styles for text formatting in the terminal.
///
/// Used by [`ColorString`] to select which colorizer [`ColorString::paint`]
/// applies. Resetting is not a color choice: it is the separate operation
/// [`ColorString::reset`].
#[derive(Clone, Copy)]
pub enum Color {
    /// Red text.
    Red,
    /// Green text.
    Green,
    /// Blue text.
    Blue,
    /// Bold text.
    Bold,
    /// Cyan text.
    Cyan,
}

/// The characters of `s` wrapped in the ANSI sequence that `c` selects.
pub open spec fn colorize_spec(c: Color, s: Seq<char>) -> Seq<char> {
    match c {
        Color::Red => red_spec(s),
        Color::Green => green_spec(s),
        Color::Blue => blue_spec(s),
        Color::Bold => bold_spec(s),
        Color::Cyan => cyan_spec(s),
    }
}

/// A text paired with a color or style, and a derived colorized rendering.
///
/// `colorized` is not kept in step with the other two fields automatically: it
/// holds the empty value, or whatever the caller placed there, until
/// [`ColorString::paint`] or [`ColorString::reset`] is called.
pub struct ColorString {
    /// The color or style to be applied to the text.
    pub color: Color,
    /// The original unformatted text.
    pub string: String,
    /// The text formatted with the applied color or style.
    pub colorized: String,
}

/// Relates a `ColorString` before and after a call of [`ColorString::paint`]:
/// `color` and `string` are unchanged, and `colorized` holds `string` wrapped
/// in the ANSI sequence that `color` selects.
pub open spec fn painted(pre: ColorString, post: ColorString) -> bool {
    &&& post.color == pre.color
    &&& post.string@ == pre.string@
    &&& post.colorized@ == colorize_spec(pre.color, pre.string@)
}

/// Relates a `ColorString` before and after a call of [`ColorString::reset`]:
/// `color` and `string` are unchanged, and `colorized` holds `string` wrapped
/// in the ANSI reset sequence, whatever it held before.
pub open spec fn reset_applied(pre: ColorString, post: ColorString) -> bool {
    &&& post.color == pre.color
    &&& post.string@ == pre.string@
    &&& post.colorized@ == reset_spec(pre.string@)
}

impl ColorString {
    /// Applies the color or style selected by the `color` field to the text,
    /// storing the result in `colorized`.
    pub fn paint(&mut self)
        ensures
            painted(*old(self), *final(self)),
    {
        match self.color {
            Color::Red => {
                self.colorized = red(self.string.as_str());
            },
            Color::Green => {
                self.colorized = green(self.string.as_str());
            },
            Color::Blue => {
                self.colorized = blue(self.string.as_str());
            },
            Color::Bold => {
                self.colorized = bold(self.string.as_str());
            },
            Color::Cyan => {
                self.colorized = cyan(self.string.as_str());
            },
        }
    }

    /// Overwrites `colorized` with the text wrapped in the ANSI reset
    /// sequence, irrespective of the `color` field.
    pub fn reset(&mut self)
        ensures
            reset_applied(*old(self), *final(self)),
    {
        self.colorized = reset(self.string.as_str());
    }
}

/// Law: painting a `ColorString` whose color is `Green` leaves in `colorized`
/// exactly what [`green`] returns for its `string`.
pub proof fn lemma_paint_green(pre: ColorString, post: ColorString)
    requires
        pre.color is Green,
        painted(pre, post),
    ensures
        post.colorized@ == green_spec(pre.string@),
{
}

/// Law: a reset applied after a paint overwrites the painted value; the final
/// `colorized` is the reset wrapping of the original text alone, whatever the
/// color was (last call wins).
pub proof fn lemma_reset_overwrites_paint(c0: ColorString, c1: ColorString, c2: ColorString)
    requires
        painted(c0, c1),
        reset_applied(c1, c2),
    ensures
        c2.string@ == c0.string@,
        c2.colorized@ == reset_spec(c0.string@),
{
}

} // verus!
