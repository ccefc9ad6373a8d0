pub mod models;
pub mod migrate;
pub mod risk;
