pub mod kitchen;
