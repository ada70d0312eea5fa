//! A paginated client for a storefront's public product-listing API.
//!
//! The library models the pagination protocol: a validated page cursor
//! ([`page::Page`]), the request and response shapes
//! ([`get_products::GetProductsRequest`], [`get_products::GetProductsResponse`]),
//! an abstract transport capability ([`client::Client`]) and a pull-based
//! stream engine ([`client::ProductStream`]) that fetches page after page and
//! stops at the first empty or failed page.
//!
//! Network I/O itself is left to the hosting application, which drives the
//! same decision rule ([`client::step`]) around its own transport.

pub mod client;
pub mod decimal;
pub mod error;
pub mod get_products;
pub mod page;
pub mod schema;
