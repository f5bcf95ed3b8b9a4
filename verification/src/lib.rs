//! Content aggregation core of a small static-site generator.
//!
//! Locally authored documents and externally syndicated feed items are
//! normalized into one chronologically ordered, source-tagged article set,
//! from which the site's pages and its own syndication feed are produced.

pub mod article;
pub mod config;
pub mod date;
pub mod external;
pub mod frontmatter;
pub mod local;
pub mod ordering;
pub mod project;
pub mod rss;
pub mod server;
pub mod text;
