pub mod person;
pub mod rectangle;
