//! The render protocol: after every visible edit the whole current line is
//! redrawn — move to the start of the previously drawn line, clear it, print
//! the colorized line, terminate it. The coloring itself comes from the
//! highlight engine behind a trusted boundary; the frame around it, and the
//! guarantee that the drawn text is exactly the line's text, are verified.

use vstd::prelude::*;
use crate::line::Line;

verus! {

/// syntect's grammar database, carried through opaquely: nothing inside it
/// is read here.
#[verifier::external_type_specification]
#[verifier::external_body]
pub struct ExSyntaxSet(syntect::parsing::SyntaxSet);

/// syntect's per-session highlighter state, carried through opaquely.
#[verifier::external_type_specification]
#[verifier::external_body]
pub struct ExHighlightLines<'a>(syntect::easy::HighlightLines<'a>);

/// One colorized piece of a line: a 24-bit foreground color and the text it
/// covers.
pub struct ColoredSpan {
    pub fg_r: u8,
    pub fg_g: u8,
    pub fg_b: u8,
    pub text: String,
}

/// The mathematical form of a span.
pub struct SpanV {
    pub fg_r: u8,
    pub fg_g: u8,
    pub fg_b: u8,
    pub text: Seq<char>,
}

impl View for ColoredSpan {
    type V = SpanV;

    open spec fn view(&self) -> SpanV {
        SpanV { fg_r: self.fg_r, fg_g: self.fg_g, fg_b: self.fg_b, text: self.text@ }
    }
}

/// The views of a sequence of spans.
pub open spec fn span_views(spans: Seq<ColoredSpan>) -> Seq<SpanV> {
    spans.map(|i: int, sp: ColoredSpan| sp@)
}

/// The text a sequence of spans covers, in order.
pub open spec fn spans_text(spans: Seq<SpanV>) -> Seq<char>
    decreases spans.len(),
{
    if spans.len() == 0 {
        Seq::empty()
    } else {
        spans_text(spans.drop_last()) + spans.last().text
    }
}

/// The decimal digit characters of a non-negative number.
pub open spec fn dec_chars(n: int) -> Seq<char>
    recommends
        0 <= n,
    decreases n,
{
    if n < 10 {
        seq![((48 + n) as u8) as char]
    } else {
        dec_chars(n / 10).push(((48 + (n % 10)) as u8) as char)
    }
}

/// The select-graphic-rendition prefix that sets a 24-bit foreground color:
/// `ESC [ 38 ; 2 ; r ; g ; b m`.
pub open spec fn sgr_prefix(r: u8, g: u8, b: u8) -> Seq<char> {
    seq!['\u{1b}', '[', '3', '8', ';', '2', ';'] + dec_chars(r as int) + seq![';'] + dec_chars(
        g as int,
    ) + seq![';'] + dec_chars(b as int) + seq!['m']
}

/// What one span contributes to the drawn line.
pub open spec fn span_chars(sp: SpanV) -> Seq<char> {
    sgr_prefix(sp.fg_r, sp.fg_g, sp.fg_b) + sp.text
}

/// What a whole sequence of spans draws.
pub open spec fn emit_chars(spans: Seq<SpanV>) -> Seq<char>
    decreases spans.len(),
{
    if spans.len() == 0 {
        Seq::empty()
    } else {
        emit_chars(spans.drop_last()) + span_chars(spans.last())
    }
}

/// The ANSI form of "move to the start of the previous line".
pub open spec fn move_prev_chars() -> Seq<char> {
    seq!['\u{1b}', '[', '1', 'F']
}

/// The ANSI form of "clear the current line".
pub open spec fn clear_line_chars() -> Seq<char> {
    seq!['\u{1b}', '[', '2', 'K']
}

/// The one frame a redraw of `text` with `spans` produces: move to the
/// previously drawn line, clear it, draw the text — as the spans' emission
/// where they cover the text exactly, uncolored otherwise — and terminate
/// the line. The output is a function of the spans and the text alone.
pub open spec fn frame_of(spans: Seq<SpanV>, text: Seq<char>) -> Seq<char> {
    move_prev_chars() + clear_line_chars() + (if spans_text(spans) == text {
        emit_chars(spans)
    } else {
        text
    }) + seq!['\n']
}

/// A full-line redraw frame of a line's text, colorized by some spans that
/// cover exactly that text, or uncolored: what a caller who did not see the
/// highlight engine's answer still knows of every redraw.
pub open spec fn frame_ok(frame: Seq<char>, text: Seq<char>) -> bool {
    exists|spans: Seq<SpanV>| frame == frame_of(spans, text)
}

/// Relies on `String::push` of std: it appends exactly the one character.
#[verifier::external_body]
pub(crate) fn push_char(s: &mut String, c: char)
    ensures
        final(s)@ == old(s)@.push(c),
{
    s.push(c);
}

/// Relies on crossterm's `MoveToPreviousLine` command, whose ANSI form for
/// one line is `ESC [ 1 F`.
#[verifier::external_body]
fn move_to_previous_line_code() -> (s: String)
    ensures
        s@ == move_prev_chars(),
{
    let mut s = String::new();
    let _ = crossterm::Command::write_ansi(&crossterm::cursor::MoveToPreviousLine(1), &mut s);
    s
}

/// Relies on crossterm's `Clear(CurrentLine)` command, whose ANSI form is
/// `ESC [ 2 K`.
#[verifier::external_body]
fn clear_line_code() -> (s: String)
    ensures
        s@ == clear_line_chars(),
{
    let mut s = String::new();
    let _ = crossterm::Command::write_ansi(
        &crossterm::terminal::Clear(crossterm::terminal::ClearType::CurrentLine),
        &mut s,
    );
    s
}

/// Relies on syntect's `HighlightLines::highlight_line`: it colors one line
/// against the loaded grammars, advancing the highlighter's internal state,
/// so nothing is promised of the spans that come back; where it fails, no
/// spans come back. Only each span's foreground color and text are kept;
/// the color is taken as the theme gives it, with no alpha blending against
/// the background.
#[verifier::external_body]
pub(crate) fn highlight_spans<'a>(
    hl: &mut syntect::easy::HighlightLines<'a>,
    ss: &syntect::parsing::SyntaxSet,
    line: &str,
) -> (spans: Vec<ColoredSpan>)
{
    match hl.highlight_line(line, ss) {
        Ok(ranges) => ranges
            .iter()
            .map(
                |(style, text)| ColoredSpan {
                    fg_r: style.foreground.r,
                    fg_g: style.foreground.g,
                    fg_b: style.foreground.b,
                    text: (*text).to_string(),
                },
            )
            .collect(),
        Err(_) => Vec::new(),
    }
}

/// The line's text as a string.
pub fn line_text(l: &Line) -> (s: String)
    ensures
        s@ == l@.text,
{
    let mut s = String::new();
    let n = l.len();
    let mut i: usize = 0;
    while i < n
        invariant
            n == l@.text.len(),
            0 <= i <= n,
            s@ == l@.text.take(i as int),
        decreases n - i,
    {
        push_char(&mut s, l.char_at(i));
        proof {
            assert(l@.text.take(i as int).push(l@.text[i as int]) =~= l@.text.take(i + 1 as int));
        }
        i = i + 1;
    }
    proof {
        assert(l@.text.take(n as int) =~= l@.text);
    }
    s
}

/// Append the decimal digits of a number.
fn push_dec(s: &mut String, n: u8)
    ensures
        final(s)@ == old(s)@ + dec_chars(n as int),
{
    if n < 10 {
        push_char(s, (48 + n) as char);
        proof {
            assert(old(s)@.push(((48 + n as int) as u8) as char) =~= old(s)@ + dec_chars(n as int));
        }
    } else {
        let q = n / 10;
        let r = n % 10;
        if q < 10 {
            push_char(s, (48 + q) as char);
        } else {
            push_char(s, (48 + q / 10) as char);
            push_char(s, (48 + q % 10) as char);
        }
        push_char(s, (48 + r) as char);
        proof {
            assert(n as int / 10 == q as int && n as int % 10 == r as int);
            assert(dec_chars(n as int) == dec_chars(q as int).push(((48 + r as int) as u8) as char));
            if q < 10 {
                assert(dec_chars(q as int) =~= seq![((48 + q as int) as u8) as char]);
                assert(old(s)@.push(((48 + q as int) as u8) as char).push(
                    ((48 + r as int) as u8) as char,
                ) =~= old(s)@ + dec_chars(n as int));
            } else {
                let q1 = q as int / 10;
                let q2 = q as int % 10;
                assert(dec_chars(q1) =~= seq![((48 + q1) as u8) as char]);
                assert(dec_chars(q as int) == dec_chars(q1).push(((48 + q2) as u8) as char));
                assert(old(s)@.push(((48 + q1) as u8) as char).push(((48 + q2) as u8) as char).push(
                    ((48 + r as int) as u8) as char,
                ) =~= old(s)@ + dec_chars(n as int));
            }
        }
    }
}

/// Append the color prefix of one span.
fn push_sgr_prefix(s: &mut String, r: u8, g: u8, b: u8)
    ensures
        final(s)@ == old(s)@ + sgr_prefix(r, g, b),
{
    push_char(s, '\u{1b}');
    push_char(s, '[');
    push_char(s, '3');
    push_char(s, '8');
    push_char(s, ';');
    push_char(s, '2');
    push_char(s, ';');
    push_dec(s, r);
    push_char(s, ';');
    push_dec(s, g);
    push_char(s, ';');
    push_dec(s, b);
    push_char(s, 'm');
    proof {
        assert(final(s)@ =~= old(s)@ + sgr_prefix(r, g, b));
    }
}

/// The concatenation of the spans' texts.
fn spans_joined(spans: &Vec<ColoredSpan>) -> (s: String)
    ensures
        s@ == spans_text(span_views(spans@)),
{
    let mut s = String::new();
    let n = spans.len();
    let mut i: usize = 0;
    while i < n
        invariant
            n == spans@.len(),
            0 <= i <= n,
            s@ == spans_text(span_views(spans@.take(i as int))),
        decreases n - i,
    {
        s.append(spans[i].text.as_str());
        proof {
            let pre = span_views(spans@.take(i as int));
            let post = span_views(spans@.take(i + 1 as int));
            assert(post.drop_last() =~= pre);
            assert(post.last() == spans@[i as int]@);
        }
        i = i + 1;
    }
    proof {
        assert(span_views(spans@.take(n as int)) =~= span_views(spans@));
    }
    s
}

/// Draw the spans: each one's color prefix followed by its text.
fn emit_spans(spans: &Vec<ColoredSpan>) -> (s: String)
    ensures
        s@ == emit_chars(span_views(spans@)),
{
    let mut s = String::new();
    let n = spans.len();
    let mut i: usize = 0;
    while i < n
        invariant
            n == spans@.len(),
            0 <= i <= n,
            s@ == emit_chars(span_views(spans@.take(i as int))),
        decreases n - i,
    {
        push_sgr_prefix(&mut s, spans[i].fg_r, spans[i].fg_g, spans[i].fg_b);
        s.append(spans[i].text.as_str());
        proof {
            let pre = span_views(spans@.take(i as int));
            let post = span_views(spans@.take(i + 1 as int));
            assert(post.drop_last() =~= pre);
            assert(post.last() == spans@[i as int]@);
            assert(emit_chars(post) =~= emit_chars(pre) + span_chars(spans@[i as int]@));
        }
        i = i + 1;
        proof {
            assert(s@ =~= emit_chars(span_views(spans@.take(i as int))));
        }
    }
    proof {
        assert(span_views(spans@.take(n as int)) =~= span_views(spans@));
    }
    s
}

/// One full-line redraw of a line whose text is `text`: exactly the frame
/// that emits the given spans where they cover that text, and exactly the
/// uncolored frame otherwise. Equal spans and text give equal output.
pub fn render_frame(spans: &Vec<ColoredSpan>, text: &String) -> (out: String)
    ensures
        out@ == frame_of(span_views(spans@), text@),
        frame_ok(out@, text@),
{
    let joined = spans_joined(spans);
    let body: String = if joined == *text {
        emit_spans(spans)
    } else {
        text.clone()
    };
    let mut out = move_to_previous_line_code();
    out.append(clear_line_code().as_str());
    out.append(body.as_str());
    push_char(&mut out, '\n');
    proof {
        assert(out@ =~= frame_of(span_views(spans@), text@));
        assert(frame_ok(out@, text@));
    }
    out
}

} // verus!
