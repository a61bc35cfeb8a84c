//! Streaming technical-analysis indicators over fixed-point numbers.
pub mod data_item;
pub mod errors;
pub mod fixed;
pub mod helpers;
pub mod indicators;
pub mod label;
pub mod traits;
pub mod window;

pub use data_item::{Bar, DataItem, DataItemBuilder};
pub use errors::Error;
pub use fixed::Fixed;
pub use helpers::max3;
pub use traits::{Close, High, Low, Next, Open, Reset, Volume};
