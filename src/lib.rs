//! Watches a university portal's per-term course listing: decodes the score
//! page into course records, decides whether they changed since the last
//! saved snapshot, and words the notification.

pub mod course;
pub mod cycle;
pub mod detect;
pub mod page;
pub mod rows;
