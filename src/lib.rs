//! A typed client core for the CommonCrawl CDX index: resource locators
//! restricted to the two CommonCrawl hosts, content negotiation values,
//! a validating CDX query builder, and decoding of fetched bodies into
//! typed records. The network transport itself is left to the caller,
//! which hands each response's status and body back to this library.

pub mod content;
pub mod error;
pub mod fetcher;
pub mod locator;
pub mod query;
pub mod records;
pub mod text;
pub mod timestamp;

pub use content::{Charset, ContentType};
pub use error::Error;
pub use fetcher::{Fetcher, STATUS_OK};
pub use locator::{Url, CDX_HOST, WARC_HOST};
pub use query::CDXQuerier;
pub use records::{CDXItem, CDXItems, CollectionInfo, CollectionsInfo, Fields};
