pub mod negotiate;
pub mod recorder;
pub mod wav;
