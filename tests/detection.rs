use ceksiak::course::{CourseStatus, SIAKCourse};
use ceksiak::detect::{contains_course, is_courses_updated, position_of_code};

fn course(code: &str, english: &str, status: CourseStatus) -> SIAKCourse {
    SIAKCourse::new(
        code.to_string(),
        "2020".to_string(),
        format!("Mata kuliah {}", code),
        english.to_string(),
        status,
    )
}

#[test]
fn first_run_reports_update() {
    let new = vec![course("A", "Calculus", CourseStatus::Empty)];
    assert!(is_courses_updated(&new, &Vec::new()));
}

#[test]
fn empty_listing_against_empty_snapshot_is_no_update() {
    assert!(!is_courses_updated(&Vec::new(), &Vec::new()));
}

#[test]
fn same_set_is_no_update() {
    let s = vec![
        course("A", "Calculus", CourseStatus::Empty),
        course("B", "Physics", CourseStatus::Published),
    ];
    let t = vec![
        course("A", "Calculus", CourseStatus::Empty),
        course("B", "Physics", CourseStatus::Published),
    ];
    assert!(!is_courses_updated(&s, &t));
    assert!(!is_courses_updated(&s, &s));
}

#[test]
fn status_change_is_update() {
    let prev = vec![course("A", "Calculus", CourseStatus::Empty)];
    let new = vec![course("A", "Calculus", CourseStatus::Published)];
    assert!(is_courses_updated(&new, &prev));
}

#[test]
fn english_name_change_is_update() {
    let prev = vec![course("A", "Calculus", CourseStatus::Empty)];
    let new = vec![course("A", "Calculus I", CourseStatus::Empty)];
    assert!(is_courses_updated(&new, &prev));
}

#[test]
fn removal_is_not_noticed() {
    let prev = vec![
        course("A", "Calculus", CourseStatus::Empty),
        course("B", "Physics", CourseStatus::NotPublished),
    ];
    let new = vec![course("A", "Calculus", CourseStatus::Empty)];
    assert!(!is_courses_updated(&new, &prev));
}

#[test]
fn added_course_is_update() {
    let prev = vec![course("A", "Calculus", CourseStatus::Empty)];
    let new = vec![
        course("A", "Calculus", CourseStatus::Empty),
        course("B", "Physics", CourseStatus::Empty),
    ];
    assert!(is_courses_updated(&new, &prev));
}

#[test]
fn first_record_with_code_decides_status() {
    let prev = vec![
        course("A", "Calculus", CourseStatus::Empty),
        course("A", "Calculus", CourseStatus::Published),
    ];
    let new = vec![course("A", "Calculus", CourseStatus::Published)];
    assert!(is_courses_updated(&new, &prev));
}

#[test]
fn contains_and_position() {
    let prev = vec![
        course("A", "Calculus", CourseStatus::Empty),
        course("B", "Physics", CourseStatus::Published),
    ];
    assert!(contains_course(&prev, &course("B", "Physics", CourseStatus::Published)));
    assert!(!contains_course(&prev, &course("B", "Physics", CourseStatus::Empty)));
    assert_eq!(position_of_code(&prev, &"B".to_string()), Some(1));
    assert_eq!(position_of_code(&prev, &"C".to_string()), None);
}

#[test]
fn course_equality_covers_all_fields() {
    let a = course("A", "Calculus", CourseStatus::Empty);
    assert_eq!(a, course("A", "Calculus", CourseStatus::Empty));
    assert_ne!(a, course("A", "Calculus", CourseStatus::NotPublished));
    assert_ne!(a, course("A", "Algebra", CourseStatus::Empty));
}
