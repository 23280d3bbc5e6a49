//! Validated loading of the device's startup configuration.
//!
//! A configuration document (TOML text) is parsed into a generic tree of
//! document values and then checked, field by field, against the fixed
//! schema of the application: user credentials, Wi-Fi access point and
//! client networks, UI tunables, optional drive rename rules, optional
//! system tunables, and GPIO pin assignments. The result is either a fully
//! populated `Config` or a descriptive error naming the offending field.

pub mod doc;
pub mod laws;
pub mod load;
pub mod schema;

pub use doc::DocValue;
pub use schema::Config;
