pub mod controller;
pub mod model;
