//! The first model of the application: sheets of rows or columns held in memory.
pub mod adapter;
pub mod datarow;
pub mod model;
