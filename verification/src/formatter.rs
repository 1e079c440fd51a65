pub mod minutes;
