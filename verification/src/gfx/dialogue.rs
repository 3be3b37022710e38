//! The layout of a line of dialogue: its decoration, and its text broken
//! into lines that fit the screen.
use crate::gfx::{Point, Rect, CHAR_HEIGHT, CHAR_WIDTH, HEIGHT, WIDTH};
use crate::machine::dialogue::Dialogue;
use crate::story::Decoration;
use vstd::prelude::*;
use vstd::string::StringSliceAdditionalSpecFns;

verus! {

/// The number of characters on a line of the screen.
pub const LINE_WIDTH: usize = 45;

/// The width of the avatar image.
pub const AVATAR_WIDTH: u32 = 150;

/// The height of the avatar image.
pub const AVATAR_HEIGHT: u32 = 200;

/// The code of the newline character.
pub const NEWLINE: u8 = 10;

/// A line of text to draw: the bytes `start..end` of the text, with its top
/// at height `y`.
#[derive(Debug, Clone, Copy, PartialEq, Eq, Structural)]
pub struct Line {
    pub y: i32,
    pub start: usize,
    pub end: usize,
}

/// How many bytes from `pos` on come before a newline or the end of `b`,
/// counting at most `n`.
pub open spec fn span(b: Seq<u8>, pos: int, n: nat) -> nat
    decreases n,
{
    if n == 0 || pos < 0 || pos >= b.len() || b[pos] == NEWLINE {
        0
    } else {
        1 + span(b, pos + 1, (n - 1) as nat)
    }
}

/// `pos`, moved past a newline if one stands there.
pub open spec fn skip_newline(b: Seq<u8>, pos: int) -> int {
    if 0 <= pos < b.len() && b[pos] == NEWLINE {
        pos + 1
    } else {
        pos
    }
}

/// A span never reaches past the end of the text, nor past its cap.
pub proof fn lemma_span_bound(b: Seq<u8>, pos: int, n: nat)
    requires
        0 <= pos <= b.len(),
    ensures
        pos + span(b, pos, n) <= b.len(),
        span(b, pos, n) <= n,
        n > 0 && pos < b.len() && span(b, pos, n) == 0 ==> b[pos] == NEWLINE,
        forall|k: int| pos <= k < pos + span(b, pos, n) ==> b[k] != NEWLINE,
    decreases n,
{
    if n > 0 && pos < b.len() && b[pos] != NEWLINE {
        lemma_span_bound(b, pos + 1, (n - 1) as nat);
    }
}

/// The lines drawn of the text `b` from byte `pos` on, the first with its
/// top at `y`, while text is left and the screen is not full.
///
/// Each step takes the bytes up to the next newline, at most `LINE_WIDTH`
/// of them, as a line; then drops a newline that follows. A newline right
/// at the start of a step gives an empty line, which is not drawn but takes
/// its height, and a second newline after it is dropped with it.
pub open spec fn wrapped(b: Seq<u8>, pos: int, y: int) -> Seq<Line>
    decreases b.len() - pos,
{
    if pos < 0 || pos >= b.len() || y >= HEIGHT {
        seq![]
    } else {
        let max = span(b, pos, LINE_WIDTH as nat);
        proof {
            lemma_span_bound(b, pos, LINE_WIDTH as nat);
        }
        if max == 0 {
            wrapped(b, skip_newline(b, pos + 1), y + CHAR_HEIGHT)
        } else {
            seq![Line { y: y as i32, start: pos as usize, end: (pos + max) as usize }]
                + wrapped(b, skip_newline(b, pos + max), y + CHAR_HEIGHT)
        }
    }
}

/// Whether `l` is a line of `b` that fits the screen: a nonempty run of at
/// most `LINE_WIDTH` bytes within the text, holding no newline, whose top is
/// on the screen at or below `y`.
pub open spec fn fits_screen(b: Seq<u8>, l: Line, y: int) -> bool {
    &&& l.start < l.end <= b.len()
    &&& l.end - l.start <= LINE_WIDTH
    &&& y <= l.y < HEIGHT
    &&& forall|k: int| l.start <= k < l.end ==> b[k] != NEWLINE
}

/// Every line drawn of a text fits a line of the screen, and the lines come
/// in order down the screen, each after the one before it in the text.
pub proof fn lemma_wrapped_fits(b: Seq<u8>, pos: int, y: int)
    requires
        0 <= pos,
        0 <= y,
        b.len() <= usize::MAX,
    ensures
        forall|i: int| 0 <= i < wrapped(b, pos, y).len() ==> fits_screen(b, #[trigger] wrapped(b, pos, y)[i], y)
            && pos <= wrapped(b, pos, y)[i].start,
        forall|i: int, j: int|
            0 <= i < j < wrapped(b, pos, y).len() ==> #[trigger] wrapped(b, pos, y)[i].y < #[trigger] wrapped(
                b,
                pos,
                y,
            )[j].y && wrapped(b, pos, y)[i].end <= wrapped(b, pos, y)[j].start,
    decreases b.len() - pos,
{
    if pos < b.len() && y < HEIGHT {
        let max = span(b, pos, LINE_WIDTH as nat);
        lemma_span_bound(b, pos, LINE_WIDTH as nat);
        if max == 0 {
            let next = skip_newline(b, pos + 1);
            lemma_wrapped_fits(b, next, y + CHAR_HEIGHT);
            assert(wrapped(b, pos, y) == wrapped(b, next, y + CHAR_HEIGHT));
        } else {
            let next = skip_newline(b, pos + max);
            lemma_wrapped_fits(b, next, y + CHAR_HEIGHT);
            let head = Line { y: y as i32, start: pos as usize, end: (pos + max) as usize };
            let rest = wrapped(b, next, y + CHAR_HEIGHT);
            assert(wrapped(b, pos, y) == seq![head] + rest);
            assert forall|i: int| 0 <= i < wrapped(b, pos, y).len() implies fits_screen(
                b,
                #[trigger] wrapped(b, pos, y)[i],
                y,
            ) && pos <= wrapped(b, pos, y)[i].start by {
                if i > 0 {
                    assert(wrapped(b, pos, y)[i] == rest[i - 1]);
                }
            }
            assert forall|i: int, j: int|
                0 <= i < j < wrapped(b, pos, y).len() implies #[trigger] wrapped(b, pos, y)[i].y
                < #[trigger] wrapped(b, pos, y)[j].y && wrapped(b, pos, y)[i].end <= wrapped(b, pos, y)[j].start by {
                assert(wrapped(b, pos, y)[j] == rest[j - 1]);
                if i > 0 {
                    assert(wrapped(b, pos, y)[i] == rest[i - 1]);
                }
            }
        }
    } else {
        assert(wrapped(b, pos, y).len() == 0);
    }
}

/// Break `text` into the lines drawn of it, from the top of the screen.
pub fn wrap(text: &[u8]) -> (lines: Vec<Line>)
    ensures
        lines@ == wrapped(text@, 0, 0),
{
    let ghost b = text@;
    let mut lines: Vec<Line> = Vec::new();
    let mut pos: usize = 0;
    let mut y: i32 = 0;
    while pos < text.len() && y < 480
        invariant
            b == text@,
            pos <= text.len(),
            0 <= y < 480 + 13,
            lines@ + wrapped(b, pos as int, y as int) == wrapped(b, 0, 0),
        decreases text.len() - pos,
    {
        let mut max: usize = 0;
        while max < LINE_WIDTH && pos + max < text.len() && text[pos + max] != NEWLINE
            invariant
                b == text@,
                pos < text.len(),
                max <= LINE_WIDTH,
                pos + max <= text.len(),
                span(b, pos as int, LINE_WIDTH as nat) == max + span(
                    b,
                    (pos + max) as int,
                    (LINE_WIDTH - max) as nat,
                ),
            decreases LINE_WIDTH - max,
        {
            max = max + 1;
        }
        proof {
            lemma_span_bound(b, pos as int, LINE_WIDTH as nat);
            assert(span(b, (pos + max) as int, (LINE_WIDTH - max) as nat) == 0);
        }
        let ghost old_lines = lines@;
        let next = if max == 0 {
            pos + 1
        } else {
            lines.push(Line { y, start: pos, end: pos + max });
            pos + max
        };
        let next = if next < text.len() && text[next] == NEWLINE {
            next + 1
        } else {
            next
        };
        proof {
            if max != 0 {
                assert(lines@ + wrapped(b, next as int, y + 13) =~= old_lines + (seq![
                    Line { y: y as i32, start: pos as usize, end: (pos + max) as usize },
                ] + wrapped(b, next as int, y + 13)));
            }
        }
        pos = next;
        y = y + 13;
    }
    assert(wrapped(b, pos as int, y as int) =~= Seq::<Line>::empty());
    assert(lines@ + Seq::<Line>::empty() =~= lines@);
    lines
}

/// The area of the screen above the avatar, where the text goes.
pub open spec fn text_area() -> Rect {
    Rect { x: 0, y: 0, width: WIDTH, height: (HEIGHT - AVATAR_HEIGHT) as u32 }
}

/// Where the avatar goes: the bottom-left corner of the screen.
pub open spec fn avatar_point() -> Point {
    Point { x: 0, y: (HEIGHT - AVATAR_HEIGHT) as i32 }
}

/// What to draw for the current line of a dialogue.
#[derive(Debug)]
pub struct Frame {
    /// The area to blank first, if the previous text is to be cleared.
    pub clear: Option<Rect>,
    /// A chapter title, drawn alone in the middle of the screen.
    pub headline: Option<&'static str>,
    /// Where to draw the avatar, if the line has one.
    pub avatar: Option<Point>,
    /// The text that `lines` are taken from.
    pub text: Option<&'static str>,
    pub lines: Vec<Line>,
}

/// The frame for `d`: the text area is blanked if the previous text is to
/// be cleared; then, for the current line, a chapter decoration makes the
/// text a headline, and any other decoration has the text broken into
/// lines, with the avatar beside a line of Sloth's.
pub open spec fn frame_of(d: Dialogue, f: Frame) -> bool {
    &&& f.clear == (if d.clear_previous_text { Some(text_area()) } else { None })
    &&& if d.progress < d.text@.len() {
        let (decoration, text) = d.text@[d.progress as int];
        if decoration == Decoration::Chapter {
            &&& f.headline == Some(text)
            &&& f.avatar is None
            &&& f.text is None
            &&& f.lines@.len() == 0
        } else {
            &&& f.headline is None
            &&& f.avatar == (if decoration == Decoration::Sloth { Some(avatar_point()) } else { None })
            &&& f.text == Some(text)
            &&& f.lines@ == wrapped(text.spec_bytes(), 0, 0)
        }
    } else {
        &&& f.headline is None
        &&& f.avatar is None
        &&& f.text is None
        &&& f.lines@.len() == 0
    }
}

/// Lay out the current line of `dialogue`; the request to clear the
/// previous text is used up.
pub fn render(dialogue: &mut Dialogue) -> (f: Frame)
    ensures
        frame_of(*old(dialogue), f),
        final(dialogue).text == old(dialogue).text,
        final(dialogue).progress == old(dialogue).progress,
        !final(dialogue).clear_previous_text,
{
    let clear = if dialogue.clear_previous_text {
        dialogue.clear_previous_text = false;
        Some(Rect { x: 0, y: 0, width: 320, height: 280 })
    } else {
        None
    };
    if dialogue.progress >= dialogue.text.len() {
        return Frame { clear, headline: None, avatar: None, text: None, lines: Vec::new() };
    }
    let (decoration, text) = dialogue.text[dialogue.progress];
    match decoration {
        Decoration::Chapter => Frame { clear, headline: Some(text), avatar: None, text: None, lines: Vec::new() },
        _ => {
            let avatar = if decoration == Decoration::Sloth {
                Some(Point { x: 0, y: 280 })
            } else {
                None
            };
            let lines = wrap(text.as_bytes());
            Frame { clear, headline: None, avatar, text: Some(text), lines }
        },
    }
}

} // verus!
