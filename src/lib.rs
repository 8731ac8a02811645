//! Small text utilities: uppercasing, filtering empty items, a key/value parse
//! stub, and a processor that decides what to do with a byte buffer given its cache.

pub mod error;
pub mod items;
pub mod processor;
pub mod tags;
pub mod text;

pub use error::DataError;
pub use items::filter_items;
pub use processor::{Action, DataProcessor, RESOURCE_PATH};
pub use tags::parse_json;
pub use text::process_data;
