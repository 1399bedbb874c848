use vstd::prelude::*;

use crate::course::{CourseView, SIAKCourse, normalize_status, status_of_text, views};

verus! {

/// Position, among a data row's child nodes, of the course code's cell.
pub const CODE_CELL: usize = 3;
/// Position of the curriculum's cell.
pub const CURRICULUM_CELL: usize = 5;
/// Position of the cell with the Indonesian name.
pub const NAME_INDONESIAN_CELL: usize = 7;
/// Position of the cell with the English name.
pub const NAME_ENGLISH_CELL: usize = 9;
/// Position of the status cell.
pub const STATUS_CELL: usize = 15;

/// What the decoder reads of one child node of a table row: the text of its
/// first child, and the text of that child's own first child (the course code
/// sits one element deeper than the other fields).
#[derive(Debug)]
pub struct RowCell {
    pub text: Option<String>,
    pub inner_text: Option<String>,
}

/// One row that follows the anchor row, as the list of its child nodes.
#[derive(Debug)]
pub struct SiblingRow {
    pub cells: Vec<RowCell>,
}

/// A row cell as plain values.
pub struct CellView {
    pub text: Option<Seq<char>>,
    pub inner_text: Option<Seq<char>>,
}

/// The characters of an optional text.
pub open spec fn text_view(t: Option<String>) -> Option<Seq<char>> {
    match t {
        Some(s) => Some(s@),
        None => None,
    }
}

impl View for RowCell {
    type V = CellView;

    open spec fn view(&self) -> CellView {
        CellView { text: text_view(self.text), inner_text: text_view(self.inner_text) }
    }
}

impl View for SiblingRow {
    type V = Seq<CellView>;

    open spec fn view(&self) -> Seq<CellView> {
        self.cells@.map_values(|c: RowCell| c@)
    }
}

/// The course that a row holds: `None` for a row without children and for a
/// row that lacks one of the five texts at its fixed positions.
pub open spec fn row_course(row: Seq<CellView>) -> Option<CourseView> {
    if row.len() > STATUS_CELL && row[CODE_CELL as int].inner_text is Some
        && row[CURRICULUM_CELL as int].text is Some && row[NAME_INDONESIAN_CELL as int].text is Some
        && row[NAME_ENGLISH_CELL as int].text is Some && row[STATUS_CELL as int].text is Some {
        Some(
            CourseView {
                course_code: row[CODE_CELL as int].inner_text->Some_0,
                curriculum: row[CURRICULUM_CELL as int].text->Some_0,
                name_indonesian: row[NAME_INDONESIAN_CELL as int].text->Some_0,
                name_english: row[NAME_ENGLISH_CELL as int].text->Some_0,
                status: status_of_text(row[STATUS_CELL as int].text->Some_0),
            },
        )
    } else {
        None
    }
}

/// The courses of a run of rows, in order, skipping rows that hold none.
pub open spec fn rows_courses(rows: Seq<Seq<CellView>>) -> Seq<CourseView>
    decreases rows.len(),
{
    if rows.len() == 0 {
        Seq::empty()
    } else {
        let rest = rows_courses(rows.drop_last());
        match row_course(rows.last()) {
            Some(c) => rest.push(c),
            None => rest,
        }
    }
}

/// The views of a run of rows.
pub open spec fn row_views(rows: Seq<SiblingRow>) -> Seq<Seq<CellView>> {
    rows.map_values(|r: SiblingRow| r@)
}

/// A copy of an optional text.
fn copy_text(t: &Option<String>) -> (r: Option<String>)
    ensures
        text_view(r) == text_view(*t),
{
    match t {
        Some(s) => Some(s.clone()),
        None => None,
    }
}

/// Reads the course of one row. A row without children is no data row, and
/// a row whose cells do not hold the expected texts is skipped as malformed
/// rather than failing the whole listing.
pub fn decode_row(row: &SiblingRow) -> (r: Option<SIAKCourse>)
    ensures
        match r {
            Some(c) => row_course(row@) == Some(c@),
            None => row_course(row@) is None,
        },
{
    let cells = &row.cells;
    if cells.len() <= STATUS_CELL {
        return None;
    }
    assert(forall|k: int| 0 <= k < cells@.len() ==> row@[k] == cells@[k]@);
    let code = copy_text(&cells[CODE_CELL].inner_text);
    let curriculum = copy_text(&cells[CURRICULUM_CELL].text);
    let name_indonesian = copy_text(&cells[NAME_INDONESIAN_CELL].text);
    let name_english = copy_text(&cells[NAME_ENGLISH_CELL].text);
    match (code, curriculum, name_indonesian, name_english, &cells[STATUS_CELL].text) {
        (Some(code), Some(curriculum), Some(name_indonesian), Some(name_english), Some(status)) => {
            let status = normalize_status(status.as_str());
            Some(SIAKCourse::new(code, curriculum, name_indonesian, name_english, status))
        },
        _ => None,
    }
}

/// The courses listed after the anchor row: `None` where no anchor row was
/// found, else the courses of the rows that hold one, in order. An anchor
/// row with no data rows after it gives an empty listing.
pub fn decode_rows(rows: Option<Vec<SiblingRow>>) -> (r: Option<Vec<SIAKCourse>>)
    ensures
        match rows {
            None => r is None,
            Some(v) => r is Some && views(r->Some_0@) == rows_courses(row_views(v@)),
        },
{
    match rows {
        None => None,
        Some(v) => {
            let mut out: Vec<SIAKCourse> = Vec::new();
            let mut i: usize = 0;
            while i < v.len()
                invariant
                    i <= v@.len(),
                    views(out@) == rows_courses(row_views(v@).take(i as int)),
                decreases v@.len() - i,
            {
                proof {
                    assert(row_views(v@).take(i as int + 1).drop_last() =~= row_views(v@).take(
                        i as int,
                    ));
                    assert(row_views(v@).take(i as int + 1).last() == v@[i as int]@);
                }
                match decode_row(&v[i]) {
                    Some(c) => {
                        out.push(c);
                        assert(views(out@) =~= views(out@).drop_last().push(c@));
                    },
                    None => {},
                }
                i = i + 1;
            }
            assert(row_views(v@).take(v@.len() as int) =~= row_views(v@));
            Some(out)
        },
    }
}

} // verus!
