pub mod entry_status;
pub mod enums;
pub mod error;
pub mod job_type_filter;
pub mod label_set;
pub mod message;
pub mod query;
