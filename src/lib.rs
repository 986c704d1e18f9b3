//! Groups of named attributes, kept in an INI-like text layout: the data
//! model with its uniqueness rules, a line parser and a serializer.

pub mod model;
pub mod error;
pub mod config_attribute;
pub mod config_group;
pub mod config_file;
pub mod line_format;
pub mod parse;
pub mod serialize;
pub mod laws;

