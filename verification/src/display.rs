//! Fixed-width text for the rows of the context list.

use vstd::prelude::*;
use vstd::string::*;
use crate::app::App;
use crate::context::{context_views, text_view, KubeContext, KubeContextView};

verus! {

/// The width of each column, in characters.
pub const COLUMN_WIDTH: usize = 30;

/// The width of every row: a marker of three characters, a space, and three
/// columns with two separators of three characters between them.
pub const ROW_WIDTH: usize = 100;

/// The character that stands for what was cut off.
pub open spec fn ellipsis() -> char {
    '\u{2026}'
}

/// `n` spaces.
pub open spec fn spaces(n: nat) -> Seq<char> {
    Seq::new(n, |i: int| ' ')
}

/// `s` cut to at most `max_len` characters: a longer text keeps its first
/// `max_len - 1` characters and ends in the ellipsis.
pub open spec fn truncated(s: Seq<char>, max_len: nat) -> Seq<char> {
    if s.len() > max_len {
        s.subrange(0, max_len - 1).push(ellipsis())
    } else {
        s
    }
}

/// `s` filled up with spaces on the right to `width` characters; a text that
/// is as long or longer stays as it is.
pub open spec fn padded(s: Seq<char>, width: nat) -> Seq<char> {
    if s.len() < width {
        s + spaces((width - s.len()) as nat)
    } else {
        s
    }
}

/// A value as one column shows it: cut to the column width, then filled up
/// to it.
pub open spec fn cell(value: Seq<char>) -> Seq<char> {
    padded(truncated(value, COLUMN_WIDTH as nat), COLUMN_WIDTH as nat)
}

/// What a column shows for an optional value: a dash where there is none.
pub open spec fn shown(value: Option<Seq<char>>) -> Seq<char> {
    match value {
        Some(v) => v,
        None => seq!['-'],
    }
}

/// The glyph in front of a row: `(*)` for the current context, blank
/// otherwise.
pub open spec fn marker(is_current: bool) -> Seq<char> {
    if is_current {
        seq!['(', '*', ')']
    } else {
        spaces(3)
    }
}

/// What stands between two columns: a vertical bar with a space on each side.
pub open spec fn separator() -> Seq<char> {
    seq![' ', '\u{2502}', ' ']
}

/// The row for one record in a list whose current context is `current`.
pub open spec fn row_text(context: KubeContextView, current: Seq<char>) -> Seq<char> {
    marker(context.name == current) + seq![' '] + cell(context.name) + separator() + cell(
        shown(context.cluster),
    ) + separator() + cell(shown(context.user))
}

/// The row above the records, which names the columns.
pub open spec fn header_text() -> Seq<char> {
    spaces(4) + cell("CONTEXT"@) + separator() + cell("CLUSTER"@) + separator() + cell("USER"@)
}

/// The rows of the whole list: the header, then one row for each record in
/// order.
pub open spec fn rows_text(contexts: Seq<KubeContextView>, current: Seq<char>) -> Seq<Seq<char>> {
    Seq::new(
        contexts.len() + 1,
        |i: int|
            if i == 0 {
                header_text()
            } else {
                row_text(contexts[i - 1], current)
            },
    )
}

/// Every column is exactly as wide as the column width.
pub proof fn lemma_cell_width(value: Seq<char>)
    ensures
        cell(value).len() == COLUMN_WIDTH,
{
}

/// The header is exactly as wide as the row width.
pub proof fn lemma_header_width()
    ensures
        header_text().len() == ROW_WIDTH,
{
    lemma_cell_width("CONTEXT"@);
    lemma_cell_width("CLUSTER"@);
    lemma_cell_width("USER"@);
}

/// Every row is exactly as wide as the row width, whatever the record holds.
pub proof fn lemma_row_width(context: KubeContextView, current: Seq<char>)
    ensures
        row_text(context, current).len() == ROW_WIDTH,
{
    lemma_cell_width(context.name);
    lemma_cell_width(shown(context.cluster));
    lemma_cell_width(shown(context.user));
}

/// Cuts `s` to at most `max_len` characters, marking the cut with an ellipsis.
/// A text that is not empty cannot be cut to a width of 0, since the ellipsis
/// alone takes one character.
pub fn truncate_str(s: &str, max_len: usize) -> (out: String)
    requires
        max_len >= 1 || s@.len() == 0,
    ensures
        out@ == truncated(s@, max_len as nat),
        s@.len() > max_len ==> out@.len() == max_len,
        s@.len() <= max_len ==> out@ == s@,
{
    if s.unicode_len() > max_len {
        let mut out = String::from_str(s.substring_char(0, max_len - 1));
        proof {
            reveal_strlit("\u{2026}");
        }
        out.append("\u{2026}");
        assert(out@ =~= truncated(s@, max_len as nat));
        out
    } else {
        String::from_str(s)
    }
}

/// Fills `s` up with spaces on the right to `width` characters.
pub fn pad_right(s: String, width: usize) -> (out: String)
    ensures
        out@ == padded(s@, width as nat),
{
    let ghost given = s@;
    let mut out = s;
    let mut len = out.as_str().unicode_len();
    while len < width
        invariant
            len == out@.len(),
            given.len() <= len,
            len <= width || len == given.len(),
            out@ == given + spaces((len - given.len()) as nat),
        decreases width - len,
    {
        proof {
            reveal_strlit(" ");
        }
        out.append(" ");
        len = len + 1;
        assert(out@ =~= given + spaces((len - given.len()) as nat));
    }
    assert(out@ =~= padded(given, width as nat));
    out
}

/// The text of one column for a value.
pub fn fit_column(value: &str) -> (out: String)
    ensures
        out@ == cell(value@),
        out@.len() == COLUMN_WIDTH,
{
    pad_right(truncate_str(value, COLUMN_WIDTH), COLUMN_WIDTH)
}

/// The text of one column for a value that may be missing.
fn fit_optional(value: &Option<String>) -> (out: String)
    ensures
        out@ == cell(shown(text_view(*value))),
{
    match value {
        Some(v) => fit_column(v.as_str()),
        None => {
            proof {
                reveal_strlit("-");
            }
            assert("-"@ =~= seq!['-']);
            fit_column("-")
        },
    }
}

/// The header row of the list.
pub fn header_row() -> (out: String)
    ensures
        out@ == header_text(),
        out@.len() == ROW_WIDTH,
{
    proof {
        reveal_strlit("    ");
        reveal_strlit(" \u{2502} ");
        lemma_header_width();
    }
    assert("    "@ =~= spaces(4));
    assert(" \u{2502} "@ =~= separator());
    let mut out = String::from_str("    ");
    out.append(fit_column("CONTEXT").as_str());
    out.append(" \u{2502} ");
    out.append(fit_column("CLUSTER").as_str());
    out.append(" \u{2502} ");
    out.append(fit_column("USER").as_str());
    out
}

/// The row for one record in a list whose current context is `current`.
pub fn context_row(context: &KubeContext, current: &str) -> (out: String)
    ensures
        out@ == row_text(context@, current@),
        out@.len() == ROW_WIDTH,
{
    proof {
        reveal_strlit("(*)");
        reveal_strlit("   ");
        reveal_strlit(" ");
        reveal_strlit(" \u{2502} ");
        lemma_row_width(context@, current@);
    }
    assert("(*)"@ =~= marker(true));
    assert("   "@ =~= marker(false));
    assert(" "@ =~= seq![' ']);
    assert(" \u{2502} "@ =~= separator());
    let is_current = same_text(context.name.as_str(), current);
    let mut out = String::from_str(if is_current { "(*)" } else { "   " });
    out.append(" ");
    out.append(fit_column(context.name.as_str()).as_str());
    out.append(" \u{2502} ");
    out.append(fit_optional(&context.cluster).as_str());
    out.append(" \u{2502} ");
    out.append(fit_optional(&context.user).as_str());
    out
}

/// Whether two texts hold the same characters.
fn same_text(a: &str, b: &str) -> (same: bool)
    ensures
        same == (a@ == b@),
{
    let left = String::from_str(a);
    let right = String::from_str(b);
    left == right
}

/// The rows of the whole list: the header, then one row for each record in
/// order.
pub fn list_rows(app: &App) -> (rows: Vec<String>)
    ensures
        rows@.len() == app@.contexts.len() + 1,
        forall|i: int| 0 <= i < rows@.len() ==> (#[trigger] rows@[i])@ == rows_text(
            app@.contexts,
            app@.current_context,
        )[i],
{
    let contexts = app.contexts();
    let current = app.current_context();
    let mut rows: Vec<String> = Vec::new();
    rows.push(header_row());
    let mut i: usize = 0;
    while i < contexts.len()
        invariant
            i <= contexts@.len(),
            context_views(contexts@) == app@.contexts,
            current@ == app@.current_context,
            rows@.len() == i + 1,
            forall|k: int| 0 <= k < rows@.len() ==> (#[trigger] rows@[k])@ == rows_text(
                app@.contexts,
                app@.current_context,
            )[k],
        decreases contexts@.len() - i,
    {
        rows.push(context_row(&contexts[i], current.as_str()));
        i = i + 1;
    }
    rows
}

/// The row of the list that the cursor is on, counting the header as row 0.
pub fn highlighted_row(app: &App) -> (row: usize)
    ensures
        row == app@.selected_index + 1,
{
    let count = app.contexts().len();
    let index = app.selected_index();
    assert(index <= count);
    index + 1
}

} // verus!
