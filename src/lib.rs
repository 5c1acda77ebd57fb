pub mod classify;
pub mod explorer;
pub mod laws;
pub mod numeric;
pub mod report;
pub mod types;
