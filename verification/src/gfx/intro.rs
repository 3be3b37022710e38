//! The rows of the title menu.
use crate::gfx::{blank_rest, lemma_advance_monotone, text_font, CharSize, Point, Rect, CHAR_HEIGHT, CHAR_WIDTH};
use crate::gfx::text::TextBox;
use crate::machine::intro::Intro;
use vstd::prelude::*;
use vstd::string::StringSliceAdditionalSpecFns;

verus! {

broadcast use vstd::string::group_string_axioms;

/// The number of rows of the menu.
pub const LINES: usize = 4;

/// The width of the menu in characters.
pub const WIDTH: usize = 25;

/// The lines of the title menu.
pub open spec fn menu_text() -> Seq<Seq<char>> {
    seq!["1: Start New Game"@, "2: Erase Save Data"@, "3: todo"@]
}

/// The lines asking to confirm an erase.
pub open spec fn confirm_text() -> Seq<Seq<char>> {
    seq!["Are you sure?"@, ""@, "#: Yes, erase my savegame"@, "*: Cancel"@]
}

/// Whether `lines` are the lines `text`, each in ASCII, so that its length
/// in bytes is its length in characters.
pub open spec fn lines_are(lines: Seq<&str>, text: Seq<Seq<char>>) -> bool {
    &&& lines.len() == text.len()
    &&& forall|i: int| 0 <= i < lines.len() ==> {
        &&& (#[trigger] lines[i])@ == text[i]
        &&& lines[i].spec_bytes().len() == text[i].len()
    }
}

/// Whether `text` fits the menu: at most `LINES` lines of at most `WIDTH`
/// characters.
pub open spec fn fits_menu(text: Seq<Seq<char>>) -> bool {
    &&& text.len() <= LINES
    &&& forall|i: int| 0 <= i < text.len() ==> (#[trigger] text[i]).len() <= WIDTH
}

/// Both menus fit the menu box; the confirmation has as many lines as the
/// box, and its widest line is as wide as the box.
pub proof fn lemma_menus_fit()
    ensures
        fits_menu(menu_text()),
        fits_menu(confirm_text()),
        confirm_text().len() == LINES,
        confirm_text()[2].len() == WIDTH,
{
    reveal_strlit("1: Start New Game");
    reveal_strlit("2: Erase Save Data");
    reveal_strlit("3: todo");
    reveal_strlit("Are you sure?");
    reveal_strlit("");
    reveal_strlit("#: Yes, erase my savegame");
    reveal_strlit("*: Cancel");
}

/// The lines of the title menu.
pub fn menu_lines() -> (r: &'static [&'static str])
    ensures
        lines_are(r@, menu_text()),
{
    let r: &'static [&'static str] = &["1: Start New Game", "2: Erase Save Data", "3: todo"];
    proof {
        reveal_strlit("1: Start New Game");
        reveal_strlit("2: Erase Save Data");
        reveal_strlit("3: todo");
        assert(vstd::string::is_ascii(r@[0]));
        assert(vstd::string::is_ascii(r@[1]));
        assert(vstd::string::is_ascii(r@[2]));
    }
    r
}

/// The lines asking to confirm an erase.
pub fn confirm_lines() -> (r: &'static [&'static str])
    ensures
        lines_are(r@, confirm_text()),
{
    let r: &'static [&'static str] = &["Are you sure?", "", "#: Yes, erase my savegame", "*: Cancel"];
    proof {
        reveal_strlit("Are you sure?");
        reveal_strlit("");
        reveal_strlit("#: Yes, erase my savegame");
        reveal_strlit("*: Cancel");
        assert(vstd::string::is_ascii(r@[0]));
        assert(vstd::string::is_ascii(r@[1]));
        assert(vstd::string::is_ascii(r@[2]));
        assert(vstd::string::is_ascii(r@[3]));
    }
    r
}

/// One row of the menu: where it is, the text drawn there, and what to
/// blank after it.
#[derive(Debug, Clone, Copy)]
pub struct Row {
    pub at: Point,
    pub text: Option<&'static str>,
    pub clear: Option<Rect>,
}

/// The menu shown: the confirmation while an erase waits for it, else the
/// title menu.
pub open spec fn shown_text(intro: Intro) -> Seq<Seq<char>> {
    if intro.confirm_erase is Some {
        confirm_text()
    } else {
        menu_text()
    }
}

/// Row `i` of the menu `text`: at the start of line `i`, with line `i` of
/// the text if there is one, and the rest of the box blanked.
pub open spec fn row_is(row: Row, i: int, text: Seq<Seq<char>>) -> bool {
    let point = Point { x: 0, y: (i * CHAR_HEIGHT) as i32 };
    let font = CharSize { width: CHAR_WIDTH, height: CHAR_HEIGHT };
    &&& row.at == point
    &&& if i < text.len() {
        &&& row.text matches Some(t) && t@ == text[i]
        &&& row.clear == blank_rest(point, font, text[i].len() as int, WIDTH as int)
    } else {
        &&& row.text is None
        &&& row.clear == blank_rest(point, font, 0, WIDTH as int)
    }
}

/// The rows of the menu, from the top.
pub fn render(intro: &Intro) -> (rows: Vec<Row>)
    ensures
        rows@.len() == LINES,
        forall|i: int| 0 <= i < LINES ==> row_is(#[trigger] rows@[i], i, shown_text(*intro)),
{
    let menu = if intro.confirm_erase.is_some() {
        confirm_lines()
    } else {
        menu_lines()
    };
    let font = text_font();
    proof {
        lemma_menus_fit();
        lemma_advance_monotone(font, 0, WIDTH as int);
    }
    let mut rows: Vec<Row> = Vec::new();
    let mut i: usize = 0;
    let mut y: i32 = 0;
    while i < LINES
        invariant
            i <= LINES,
            y == i * CHAR_HEIGHT,
            font == (CharSize { width: CHAR_WIDTH, height: CHAR_HEIGHT }),
            lines_are(menu@, shown_text(*intro)),
            fits_menu(shown_text(*intro)),
            rows@.len() == i,
            forall|j: int| 0 <= j < i ==> row_is(#[trigger] rows@[j], j, shown_text(*intro)),
        decreases LINES - i,
    {
        let point = Point { x: 0, y };
        let text = if i < menu.len() {
            Some(menu[i])
        } else {
            None
        };
        let text_len = match text {
            Some(t) => Some(t.len()),
            None => None,
        };
        proof {
            if i < menu@.len() {
                assert(shown_text(*intro)[i as int].len() <= WIDTH);
                lemma_advance_monotone(font, menu@[i as int].spec_bytes().len() as int, WIDTH as int);
            }
        }
        let (_, clear) = TextBox::new(point, font, WIDTH).render_and_clear(text_len);
        rows.push(Row { at: point, text, clear });
        i = i + 1;
        y = y + 13;
    }
    rows
}

} // verus!
