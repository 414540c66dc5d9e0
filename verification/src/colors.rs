//! The palette of the messages, and styled text.
//!
//! A message is a list of pieces, each a text with a tone. Without colour
//! a message is the texts one after the other; with colour `ansi_term`
//! writes the pieces with the escape codes of their styles.

use ansi_term::Style;
use vstd::prelude::*;

verus! {

/// A style of `ansi_term`: colours and the like.
#[verifier::external_type_specification]
#[verifier::external_body]
pub struct ExStyle(Style);

/// How a piece of a message is shown.
#[derive(Debug, Clone, Copy, PartialEq, Eq, Structural)]
pub enum Tone {
    /// No colour.
    Plain,
    /// Steel blue: what was done.
    Blue,
    BlueBold,
    /// Yellow: the names that a message is about.
    Yellow,
    YellowBold,
    /// Red: what went wrong.
    Red,
    RedBold,
}

/// A text and its tone.
#[derive(Debug, Clone)]
pub struct Painted {
    pub tone: Tone,
    pub text: String,
}

/// A message as tones and texts.
pub type Message = Seq<(Tone, Seq<char>)>;

/// The style that has the given colour as foreground and nothing else.
pub uninterp spec fn style_of_rgb(r: u8, g: u8, b: u8) -> Style;

/// The style with bold added.
pub uninterp spec fn style_bolded(style: Style) -> Style;

/// What `ansi_term` writes for a list of styled texts. A text without a
/// style is written in the default style.
pub uninterp spec fn ansi_rendered(pieces: Seq<(Option<Style>, Seq<char>)>) -> Seq<char>;

/// Calls `Colour::normal` on `Colour::RGB` of the three parts.
#[verifier::external_body]
fn rgb_style(r: u8, g: u8, b: u8) -> (style: Style)
    ensures
        style == style_of_rgb(r, g, b),
{
    ansi_term::Colour::RGB(r, g, b).normal()
}

/// Calls `Style::bold`.
#[verifier::external_body]
fn bold_style(style: Style) -> (r: Style)
    ensures
        r == style_bolded(style),
{
    style.bold()
}

/// Paints each text with its style, or with the default style where it
/// has none, and writes them with `ANSIStrings`.
#[verifier::external_body]
fn ansi_render(pieces: &Vec<(Option<Style>, String)>) -> (r: String)
    ensures
        r@ == ansi_rendered(styled_views(pieces@)),
{
    let strings: Vec<ansi_term::ANSIString> =
        pieces.iter().map(|p| p.0.unwrap_or_default().paint(p.1.as_str())).collect();
    ansi_term::ANSIStrings(&strings).to_string()
}

/// Styled texts as plain values.
pub open spec fn styled_views(pieces: Seq<(Option<Style>, String)>) -> Seq<
    (Option<Style>, Seq<char>),
> {
    Seq::new(pieces.len(), |i: int| (pieces[i].0, pieces[i].1@))
}

/// The style of a tone. Plain text has none.
pub open spec fn tone_style(tone: Tone) -> Option<Style> {
    match tone {
        Tone::Plain => None,
        Tone::Blue => Some(style_of_rgb(70, 130, 180)),
        Tone::BlueBold => Some(style_bolded(style_of_rgb(70, 130, 180))),
        Tone::Yellow => Some(style_of_rgb(250, 189, 47)),
        Tone::YellowBold => Some(style_bolded(style_of_rgb(250, 189, 47))),
        Tone::Red => Some(style_of_rgb(251, 73, 52)),
        Tone::RedBold => Some(style_bolded(style_of_rgb(251, 73, 52))),
    }
}

/// The pieces of a message as tones and texts.
pub open spec fn message_view(pieces: Seq<Painted>) -> Message {
    Seq::new(pieces.len(), |i: int| (pieces[i].tone, pieces[i].text@))
}

/// The pieces of a message with the styles of their tones.
pub open spec fn styled(message: Message) -> Seq<(Option<Style>, Seq<char>)> {
    Seq::new(message.len(), |i: int| (tone_style(message[i].0), message[i].1))
}

/// The texts of the first `upto` pieces, one after the other.
pub open spec fn plain_text(message: Message, upto: int) -> Seq<char>
    decreases upto,
{
    if upto <= 0 || upto > message.len() {
        Seq::empty()
    } else {
        plain_text(message, upto - 1) + message[upto - 1].1
    }
}

/// What a message reads as: with colour what `ansi_term` writes, without
/// colour the texts alone.
pub open spec fn rendered(message: Message, color: bool) -> Seq<char> {
    if color {
        ansi_rendered(styled(message))
    } else {
        plain_text(message, message.len() as int)
    }
}

/// The style of a tone.
pub fn style_of(tone: Tone) -> (style: Option<Style>)
    ensures
        style == tone_style(tone),
{
    match tone {
        Tone::Plain => None,
        Tone::Blue => Some(rgb_style(70, 130, 180)),
        Tone::BlueBold => Some(bold_style(rgb_style(70, 130, 180))),
        Tone::Yellow => Some(rgb_style(250, 189, 47)),
        Tone::YellowBold => Some(bold_style(rgb_style(250, 189, 47))),
        Tone::Red => Some(rgb_style(251, 73, 52)),
        Tone::RedBold => Some(bold_style(rgb_style(251, 73, 52))),
    }
}

/// A text in a tone.
pub fn paint(tone: Tone, text: &str) -> (piece: Painted)
    ensures
        piece.tone == tone,
        piece.text@ == text@,
{
    Painted { tone, text: text.to_owned() }
}

/// A message of one piece.
pub fn message1(tone: Tone, text: &str) -> (pieces: Vec<Painted>)
    ensures
        message_view(pieces@) == seq![(tone, text@)],
{
    let mut pieces: Vec<Painted> = Vec::new();
    pieces.push(paint(tone, text));
    pieces
}

/// A message of two pieces.
pub fn message2(first: Tone, a: &str, second: Tone, b: &str) -> (pieces: Vec<Painted>)
    ensures
        message_view(pieces@) == seq![(first, a@), (second, b@)],
{
    let mut pieces: Vec<Painted> = Vec::new();
    pieces.push(paint(first, a));
    pieces.push(paint(second, b));
    pieces
}

/// A message with one more piece at its end.
pub fn message_and(pieces: Vec<Painted>, tone: Tone, text: &str) -> (out: Vec<Painted>)
    ensures
        message_view(out@) == message_view(pieces@).push((tone, text@)),
{
    let mut out = pieces;
    out.push(paint(tone, text));
    out
}

/// The message as one text.
pub fn render(pieces: &Vec<Painted>, color: bool) -> (out: String)
    ensures
        out@ == rendered(message_view(pieces@), color),
{
    let ghost message = message_view(pieces@);
    if color {
        let mut with_styles: Vec<(Option<Style>, String)> = Vec::new();
        let mut i: usize = 0;
        while i < pieces.len()
            invariant
                i <= pieces@.len(),
                message == message_view(pieces@),
                with_styles@.len() == i,
                forall|j: int|
                    0 <= j < i ==> (#[trigger] with_styles@[j]).0 == tone_style(message[j].0)
                        && with_styles@[j].1@ == message[j].1,
            decreases pieces@.len() - i,
        {
            with_styles.push((style_of(pieces[i].tone), pieces[i].text.clone()));
            i += 1;
        }
        proof {
            assert(styled_views(with_styles@) =~= styled(message));
        }
        ansi_render(&with_styles)
    } else {
        let mut out = String::new();
        let mut i: usize = 0;
        while i < pieces.len()
            invariant
                i <= pieces@.len(),
                message == message_view(pieces@),
                out@ == plain_text(message, i as int),
            decreases pieces@.len() - i,
        {
            out.append(pieces[i].text.as_str());
            i += 1;
        }
        out
    }
}

} // verus!
