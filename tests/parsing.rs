use ceksiak::course::{CourseStatus, SIAKCourse};
use ceksiak::page::parse_scores;
use ceksiak::rows::{decode_row, decode_rows, RowCell, SiblingRow};

fn cell(text: Option<&str>, inner: Option<&str>) -> RowCell {
    RowCell { text: text.map(|t| t.to_string()), inner_text: inner.map(|t| t.to_string()) }
}

fn data_row(code: &str, status: &str) -> SiblingRow {
    let mut cells: Vec<RowCell> = Vec::new();
    for k in 0..17 {
        let c = match k {
            3 => cell(None, Some(code)),
            5 => cell(Some("2020"), None),
            7 => cell(Some("Kalkulus"), None),
            9 => cell(Some("Calculus"), None),
            15 => cell(Some(status), None),
            _ => cell(Some("\n"), None),
        };
        cells.push(c);
    }
    SiblingRow { cells }
}

fn expected(code: &str, status: CourseStatus) -> SIAKCourse {
    SIAKCourse::new(
        code.to_string(),
        "2020".to_string(),
        "Kalkulus".to_string(),
        "Calculus".to_string(),
        status,
    )
}

#[test]
fn decode_full_row() {
    assert_eq!(decode_row(&data_row("CS1", "Not published")), Some(expected("CS1", CourseStatus::NotPublished)));
}

#[test]
fn decode_row_without_children() {
    assert_eq!(decode_row(&SiblingRow { cells: Vec::new() }), None);
}

#[test]
fn decode_malformed_row() {
    let mut row = data_row("CS1", "Empty");
    row.cells[3] = cell(Some("CS1"), None);
    assert_eq!(decode_row(&row), None);
    let mut short = data_row("CS1", "Empty");
    short.cells.truncate(15);
    assert_eq!(decode_row(&short), None);
}

#[test]
fn decode_rows_without_anchor() {
    assert_eq!(decode_rows(None), None);
}

#[test]
fn decode_rows_with_no_data_rows() {
    assert_eq!(decode_rows(Some(Vec::new())), Some(Vec::new()));
}

#[test]
fn decode_rows_skips_rows_without_course() {
    let rows = vec![
        SiblingRow { cells: Vec::new() },
        data_row("A", "Empty"),
        SiblingRow { cells: vec![cell(Some("x"), None)] },
        data_row("B", "Complete"),
    ];
    assert_eq!(
        decode_rows(Some(rows)),
        Some(vec![expected("A", CourseStatus::Empty), expected("B", CourseStatus::Published)])
    );
}

fn page(extra_rows: &str) -> String {
    format!(
        "<html><body><table class=\"box\"><tbody>\n<tr class=\"x\"><th>Term</th></tr>\n<tr><th>2024/2025</th></tr>\n{}</tbody></table></body></html>",
        extra_rows
    )
}

fn html_row(code: &str, status: &str) -> String {
    format!(
        "<tr class=\"alt\">\n<td>1</td>\n<td><a href=\"#\">{}</a></td>\n<td>2020</td>\n<td>Kalkulus</td>\n<td>Calculus</td>\n<td>4</td>\n<td>A</td>\n<td>{}</td>\n</tr>\n",
        code, status
    )
}

#[test]
fn page_without_anchor_row() {
    assert_eq!(parse_scores("<html><body><form><input name=\"u\"></form></body></html>"), None);
}

#[test]
fn page_with_anchor_and_no_courses() {
    assert_eq!(parse_scores(&page("")), Some(Vec::new()));
}

#[test]
fn page_with_courses() {
    let rows = format!("{}{}", html_row("CSGE1", "Empty"), html_row("CSGE2", "Final"));
    assert_eq!(
        parse_scores(&page(&rows)),
        Some(vec![expected("CSGE1", CourseStatus::Empty), expected("CSGE2", CourseStatus::Published)])
    );
}
