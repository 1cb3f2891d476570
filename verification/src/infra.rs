//! The remote store: where it is, how requests to it are written and how its
//! answers are read.

pub mod employee_repo;
pub mod query;
pub mod reply;
pub mod request;
pub mod supabase;
