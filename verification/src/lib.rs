pub mod decode;
pub mod report;
