pub mod digest;
pub mod utils;
