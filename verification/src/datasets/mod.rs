//! Built-in datasets: the CSV reader and the bundled Fisher iris data.

pub mod csv;
pub mod iris;

pub use csv::parse_csv_features;
