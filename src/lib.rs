//! A treehouse guest list: visitor records, how each is greeted, and the
//! registry that looks names up and takes in strangers on probation.

pub mod text;
pub mod visitor;
pub mod registry;
