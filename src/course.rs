use vstd::prelude::*;

verus! {

/// The canonical status of a course's grade for the current term.
#[derive(Debug, Clone, Copy, PartialEq, Eq, Structural)]
pub enum CourseStatus {
    Empty,
    NotPublished,
    Published,
}

/// The status that a cell's text stands for: the two exact literals map to
/// their own status, every other text counts as published.
pub open spec fn status_of_text(t: Seq<char>) -> CourseStatus {
    if t == "Empty"@ {
        CourseStatus::Empty
    } else if t == "Not published"@ {
        CourseStatus::NotPublished
    } else {
        CourseStatus::Published
    }
}

/// Maps the text of a status cell to its canonical status.
pub fn normalize_status(text: &str) -> (r: CourseStatus)
    ensures
        r == status_of_text(text@),
{
    let t = String::from_str(text);
    if t == String::from_str("Empty") {
        CourseStatus::Empty
    } else if t == String::from_str("Not published") {
        CourseStatus::NotPublished
    } else {
        CourseStatus::Published
    }
}

impl CourseStatus {
    /// The label under which this status is stored and shown.
    pub open spec fn label(self) -> Seq<char> {
        match self {
            CourseStatus::Empty => "Empty"@,
            CourseStatus::NotPublished => "Not published"@,
            CourseStatus::Published => "Published"@,
        }
    }

    /// The label of this status: `Empty`, `Not published` or `Published`.
    pub fn as_str(&self) -> (r: &'static str)
        ensures
            r@ == self.label(),
    {
        match self {
            CourseStatus::Empty => "Empty",
            CourseStatus::NotPublished => "Not published",
            CourseStatus::Published => "Published",
        }
    }
}

/// One course of the current term as the portal lists it.
#[derive(Debug)]
pub struct SIAKCourse {
    pub course_code: String,
    pub curriculum: String,
    pub name_indonesian: String,
    pub name_english: String,
    pub status: CourseStatus,
}

/// A course record as plain values.
pub struct CourseView {
    pub course_code: Seq<char>,
    pub curriculum: Seq<char>,
    pub name_indonesian: Seq<char>,
    pub name_english: Seq<char>,
    pub status: CourseStatus,
}

impl View for SIAKCourse {
    type V = CourseView;

    open spec fn view(&self) -> CourseView {
        CourseView {
            course_code: self.course_code@,
            curriculum: self.curriculum@,
            name_indonesian: self.name_indonesian@,
            name_english: self.name_english@,
            status: self.status,
        }
    }
}

impl PartialEq for SIAKCourse {
    fn eq(&self, o: &SIAKCourse) -> (r: bool) {
        self.course_code == o.course_code && self.curriculum == o.curriculum
            && self.name_indonesian == o.name_indonesian && self.name_english == o.name_english
            && self.status == o.status
    }
}

impl vstd::std_specs::cmp::PartialEqSpecImpl for SIAKCourse {
    open spec fn obeys_eq_spec() -> bool {
        true
    }

    open spec fn eq_spec(&self, o: &SIAKCourse) -> bool {
        self@ == o@
    }
}

impl SIAKCourse {
    /// Builds a record from its five fields.
    pub fn new(
        course_code: String,
        curriculum: String,
        name_indonesian: String,
        name_english: String,
        status: CourseStatus,
    ) -> (r: SIAKCourse)
        ensures
            r@ == (CourseView {
                course_code: course_code@,
                curriculum: curriculum@,
                name_indonesian: name_indonesian@,
                name_english: name_english@,
                status,
            }),
    {
        SIAKCourse { course_code, curriculum, name_indonesian, name_english, status }
    }
}

/// The views of a sequence of records.
pub open spec fn views(s: Seq<SIAKCourse>) -> Seq<CourseView> {
    s.map_values(|c: SIAKCourse| c@)
}

} // verus!
