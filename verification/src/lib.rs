//! Link-preview metadata extraction: given the text of an HTML document
//! fetched from a URL, derive a best-effort preview record (title,
//! description, image, site name) using ordered selector fallbacks.

pub mod config;
pub mod html_query;
pub mod metadata;
