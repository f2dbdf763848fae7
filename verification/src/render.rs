//! Tables for the terminal, drawn by comfy-table.
//!
//! A table is laid out in comfy-table's dynamic arrangement: when stdout is a
//! terminal, columns are fitted to its width; otherwise they keep their full
//! width.  So the text of a table is stated for the width that the terminal
//! offered, whatever it was.
use vstd::prelude::*;
use crate::text::texts;

verus! {

/// The cells of a list of rows.
pub open spec fn cells(rows: Seq<Vec<String>>) -> Seq<Seq<Seq<char>>> {
    rows.map_values(|r: Vec<String>| texts(r@))
}

/// The text that comfy-table's `Display` draws for a table in the dynamic
/// arrangement with `header` over `rows` (every cell as given, no styling),
/// when the table's width is `width` (`None` when stdout is not a terminal or
/// its size is unknown).  `boxed` selects the look: `false` is the default
/// ASCII look, `true` the `UTF8_FULL` preset with `UTF8_ROUND_CORNERS`.
pub uninterp spec fn table_text(
    header: Seq<Seq<char>>,
    rows: Seq<Seq<Seq<char>>>,
    boxed: bool,
    width: Option<u16>,
) -> Seq<char>;

/// comfy-table's `Table` in the default look and the dynamic arrangement,
/// with `header` set and `rows` added, written out by its `Display`.  The
/// width comfy-table lays it out for is that of the terminal on stdout, if
/// any; the result is named for whichever width that was.
#[verifier::external_body]
fn draw_table(header: &Vec<String>, rows: &Vec<Vec<String>>) -> (s: String)
    ensures
        exists|w: Option<u16>| s@ == table_text(texts(header@), cells(rows@), false, w),
{
    let mut t = comfy_table::Table::new();
    t.set_content_arrangement(comfy_table::ContentArrangement::Dynamic);
    t.set_header(header.clone());
    t.add_rows(rows.clone());
    t.to_string()
}

/// comfy-table's `Table` with `header` set, the `UTF8_FULL` preset, the
/// `UTF8_ROUND_CORNERS` modifier and the dynamic arrangement, with `rows`
/// added, written out by its `Display`; named for the terminal's width as for
/// [`draw_table`].
#[verifier::external_body]
fn draw_boxed_table(header: &Vec<String>, rows: &Vec<Vec<String>>) -> (s: String)
    ensures
        exists|w: Option<u16>| s@ == table_text(texts(header@), cells(rows@), true, w),
{
    let mut t = comfy_table::Table::new();
    t.set_header(header.clone());
    t.load_preset(comfy_table::presets::UTF8_FULL);
    t.apply_modifier(comfy_table::modifiers::UTF8_ROUND_CORNERS);
    t.set_content_arrangement(comfy_table::ContentArrangement::Dynamic);
    t.add_rows(rows.clone());
    t.to_string()
}

/// A table with the given header and rows, in a dynamic arrangement, as text.
pub fn render_table(header: &Vec<String>, rows: &Vec<Vec<String>>) -> (s: String)
    ensures
        exists|w: Option<u16>| s@ == table_text(texts(header@), cells(rows@), false, w),
{
    draw_table(header, rows)
}

/// A table with the given header and rows, drawn with UTF-8 borders and
/// rounded corners in a dynamic arrangement, as text.
pub fn render_boxed_table(header: &Vec<String>, rows: &Vec<Vec<String>>) -> (s: String)
    ensures
        exists|w: Option<u16>| s@ == table_text(texts(header@), cells(rows@), true, w),
{
    draw_boxed_table(header, rows)
}

} // verus!
