use vstd::prelude::*;

use crate::course::{CourseView, SIAKCourse, views};

verus! {

/// `c` occurs field for field in `s`.
pub open spec fn holds_record(s: Seq<CourseView>, c: CourseView) -> bool {
    exists|j: int| 0 <= j < s.len() && s[j] == c
}

/// `j` is the first position of `s` whose record carries `code`.
pub open spec fn first_with_code(s: Seq<CourseView>, j: int, code: Seq<char>) -> bool {
    &&& 0 <= j < s.len()
    &&& s[j].course_code == code
    &&& forall|k: int| 0 <= k < j ==> s[k].course_code != code
}

/// The new record `c` calls for a notification against the snapshot `prev`:
/// it has no exact match there, or the first snapshot record with its code
/// holds another status.
pub open spec fn record_changed(prev: Seq<CourseView>, c: CourseView) -> bool {
    ||| !holds_record(prev, c)
    ||| exists|j: int| first_with_code(prev, j, c.course_code) && prev[j].status != c.status
}

/// Some record of `new` calls for a notification against `prev`.
pub open spec fn courses_updated(new: Seq<CourseView>, prev: Seq<CourseView>) -> bool {
    exists|i: int| 0 <= i < new.len() && record_changed(prev, new[i])
}

/// No two records of `s` share a course code.
pub open spec fn codes_unique(s: Seq<CourseView>) -> bool {
    forall|i: int, j: int|
        0 <= i < s.len() && 0 <= j < s.len() && i != j ==> s[i].course_code != s[j].course_code
}

/// Whether `c` occurs field for field in `prev`.
pub fn contains_course(prev: &Vec<SIAKCourse>, c: &SIAKCourse) -> (r: bool)
    ensures
        r == holds_record(views(prev@), c@),
{
    let mut j: usize = 0;
    while j < prev.len()
        invariant
            j <= prev@.len(),
            forall|k: int| 0 <= k < j ==> prev@[k]@ != c@,
        decreases prev@.len() - j,
    {
        if prev[j] == *c {
            assert(views(prev@)[j as int] == c@);
            return true;
        }
        j = j + 1;
    }
    proof {
        assert forall|k: int| 0 <= k < views(prev@).len() implies views(prev@)[k] != c@ by {
            assert(views(prev@)[k] == prev@[k]@);
        }
    }
    false
}

/// The first position of `prev` whose record carries `code`, if any.
pub fn position_of_code(prev: &Vec<SIAKCourse>, code: &String) -> (r: Option<usize>)
    ensures
        match r {
            Some(j) => first_with_code(views(prev@), j as int, code@),
            None => forall|k: int| 0 <= k < prev@.len() ==> prev@[k].course_code@ != code@,
        },
{
    let mut j: usize = 0;
    while j < prev.len()
        invariant
            j <= prev@.len(),
            forall|k: int| 0 <= k < j ==> prev@[k].course_code@ != code@,
        decreases prev@.len() - j,
    {
        if prev[j].course_code == *code {
            proof {
                assert forall|k: int| 0 <= k < j implies views(prev@)[k].course_code != code@ by {
                    assert(views(prev@)[k] == prev@[k]@);
                }
            }
            return Some(j);
        }
        j = j + 1;
    }
    None
}

/// Whether `courses`, freshly scraped, call for a notification against the
/// snapshot `previous`. A missing or unreadable snapshot is passed as empty.
/// Courses that left the listing are not looked for: only the new records
/// are checked against the snapshot.
pub fn is_courses_updated(courses: &Vec<SIAKCourse>, previous: &Vec<SIAKCourse>) -> (r: bool)
    ensures
        r == courses_updated(views(courses@), views(previous@)),
{
    let mut i: usize = 0;
    while i < courses.len()
        invariant
            i <= courses@.len(),
            forall|k: int| 0 <= k < i ==> !record_changed(views(previous@), #[trigger] views(courses@)[k]),
        decreases courses@.len() - i,
    {
        let c = &courses[i];
        assert(views(courses@)[i as int] == c@);
        if !contains_course(previous, c) {
            return true;
        }
        match position_of_code(previous, &c.course_code) {
            Some(j) => {
                if previous[j].status != c.status {
                    assert(views(previous@)[j as int] == previous@[j as int]@);
                    assert(first_with_code(views(previous@), j as int, c@.course_code));
                    assert(views(previous@)[j as int].status != c@.status);
                    assert(record_changed(views(previous@), views(courses@)[i as int]));
                    return true;
                }
                proof {
                    assert forall|j2: int|
                        first_with_code(views(previous@), j2, c@.course_code) implies
                        views(previous@)[j2].status == c@.status by {
                        assert(j2 == j as int);
                    }
                }
            },
            None => {
                let ghost w = choose|w: int| 0 <= w < views(previous@).len() && views(previous@)[w] == c@;
                assert(previous@[w]@ == views(previous@)[w]);
            },
        }
        i = i + 1;
    }
    false
}

/// With no snapshot to compare against, any non-empty listing is an update.
pub proof fn lemma_first_run_updates(new: Seq<CourseView>)
    requires
        new.len() > 0,
    ensures
        courses_updated(new, Seq::empty()),
{
    assert(record_changed(Seq::empty(), new[0]));
}

/// A listing whose every record occurs unchanged in a snapshot with unique
/// codes is no update, even when the snapshot holds courses that the listing
/// no longer has: removals go unnoticed.
pub proof fn lemma_removal_unnoticed(new: Seq<CourseView>, prev: Seq<CourseView>)
    requires
        codes_unique(prev),
        forall|i: int| 0 <= i < new.len() ==> holds_record(prev, #[trigger] new[i]),
    ensures
        !courses_updated(new, prev),
{
    assert forall|i: int| 0 <= i < new.len() implies !record_changed(prev, #[trigger] new[i]) by {
        assert(holds_record(prev, new[i]));
        let w = choose|w: int| 0 <= w < prev.len() && prev[w] == new[i];
        assert forall|j: int| first_with_code(prev, j, new[i].course_code) implies prev[j].status
            == new[i].status by {
            assert(j == w);
        }
    }
}

/// Comparing a set of records with unique codes against itself finds no update.
pub proof fn lemma_same_set_not_updated(s: Seq<CourseView>)
    requires
        codes_unique(s),
    ensures
        !courses_updated(s, s),
{
    assert forall|i: int| 0 <= i < s.len() implies holds_record(s, #[trigger] s[i]) by {}
    lemma_removal_unnoticed(s, s);
}

/// A course whose status changed, all else equal, is an update.
pub proof fn lemma_status_change_updates(before: CourseView, after: CourseView)
    requires
        after.course_code == before.course_code,
        after.curriculum == before.curriculum,
        after.name_indonesian == before.name_indonesian,
        after.name_english == before.name_english,
        after.status != before.status,
    ensures
        courses_updated(seq![after], seq![before]),
{
    let prev = seq![before];
    assert(first_with_code(prev, 0, after.course_code));
    assert(record_changed(prev, seq![after][0]));
}

/// A course whose English name changed is an update even when its status
/// stayed the same: the record no longer matches field for field.
pub proof fn lemma_name_change_updates(before: CourseView, after: CourseView)
    requires
        after.name_english != before.name_english,
        after.status == before.status,
    ensures
        courses_updated(seq![after], seq![before]),
{
    let prev = seq![before];
    assert(!holds_record(prev, after));
    assert(record_changed(prev, seq![after][0]));
}

} // verus!
