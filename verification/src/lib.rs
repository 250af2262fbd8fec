//! Resolve a title name to a numeric id through a local catalog, extract the
//! direct-download link from the title's detail page, and account for a
//! streamed transfer of the linked payload.

pub mod catalog;
pub mod cli_parse;
pub mod download;
pub mod extract;
pub mod netsearch;
pub mod pipeline;
pub mod text;
