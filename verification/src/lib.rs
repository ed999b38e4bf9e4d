//! A minimal directory-listing library.
//!
//! Two components, composed linearly: an argument parser that turns the raw
//! process arguments into a [`Config`], and a listing core that turns the
//! outcome of a directory read into the lines to print. All file-system and
//! terminal I/O stays with the caller, which hands the library plain values.

pub mod config;
pub mod listing;

pub use config::Config;
pub use listing::run;
pub use listing::ListingError;
