use vstd::prelude::*;

use crate::course::{CourseView, SIAKCourse, views};
use crate::detect::{courses_updated, is_courses_updated};

verus! {

/// What a polling cycle does next, once a fetch of the score page is done.
#[derive(Debug, Clone, Copy, PartialEq, Eq, Structural)]
pub enum CycleAction {
    /// The page held no listing: log in again and fetch once more.
    Relogin,
    /// The page held no listing after the second login: wait for the next tick.
    GiveUp,
    /// The listing matches the snapshot: nothing to do.
    NoChange,
    /// The listing changed: save it as the new snapshot and send a notification.
    SaveAndNotify,
}

/// The action that follows a fetch. `fetched` is what the page held (`None`
/// where no anchor row was found), `retried` whether this fetch already came
/// after a second login, `previous` the snapshot (empty where none could be
/// read). A cycle logs in again at most once.
pub fn next_action(fetched: &Option<Vec<SIAKCourse>>, retried: bool, previous: &Vec<SIAKCourse>) -> (r:
    CycleAction)
    ensures
        match fetched {
            None => r == (if retried {
                CycleAction::GiveUp
            } else {
                CycleAction::Relogin
            }),
            Some(c) => r == (if courses_updated(views(c@), views(previous@)) {
                CycleAction::SaveAndNotify
            } else {
                CycleAction::NoChange
            }),
        },
{
    match fetched {
        None => {
            if retried {
                CycleAction::GiveUp
            } else {
                CycleAction::Relogin
            }
        },
        Some(c) => {
            if is_courses_updated(c, previous) {
                CycleAction::SaveAndNotify
            } else {
                CycleAction::NoChange
            }
        },
    }
}

/// The line that announces one course.
pub open spec fn course_line(c: CourseView) -> Seq<char> {
    "- "@ + c.name_indonesian + " ("@ + c.name_english + ") - "@ + c.status.label()
}

/// The lines of all courses, in order, joined by line breaks.
pub open spec fn message_body(s: Seq<CourseView>) -> Seq<char>
    decreases s.len(),
{
    if s.len() == 0 {
        Seq::empty()
    } else if s.len() == 1 {
        course_line(s[0])
    } else {
        message_body(s.drop_last()) + "\n"@ + course_line(s.last())
    }
}

/// The body of the notification for `courses`: one line
/// `- {name_indonesian} ({name_english}) - {status}` per course.
pub fn notification_body(courses: &Vec<SIAKCourse>) -> (r: String)
    ensures
        r@ == message_body(views(courses@)),
{
    let mut out = String::new();
    let mut i: usize = 0;
    while i < courses.len()
        invariant
            i <= courses@.len(),
            out@ == message_body(views(courses@).take(i as int)),
        decreases courses@.len() - i,
    {
        let c = &courses[i];
        proof {
            assert(views(courses@).take(i as int + 1).drop_last() =~= views(courses@).take(i as int));
            assert(views(courses@).take(i as int + 1).last() == c@);
            if i == 0 {
                assert(out@ =~= Seq::<char>::empty());
            }
        }
        if i > 0 {
            out.append("\n");
        }
        out.append("- ");
        out.append(c.name_indonesian.as_str());
        out.append(" (");
        out.append(c.name_english.as_str());
        out.append(") - ");
        out.append(c.status.as_str());
        proof {
            let t = views(courses@).take(i as int + 1);
            if i == 0 {
                assert(t.len() == 1);
                assert(out@ =~= course_line(t[0]));
            } else {
                assert(out@ =~= message_body(t.drop_last()) + "\n"@ + course_line(t.last()));
            }
        }
        i = i + 1;
    }
    assert(views(courses@).take(courses@.len() as int) =~= views(courses@));
    out
}

} // verus!
