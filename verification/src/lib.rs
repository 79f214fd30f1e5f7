//! Stream-source resolution: turning an addon-supplied description of where
//! media lives into concrete, player-ready URLs, optionally routed through a
//! local streaming helper.

pub mod base16;
pub mod conversion;
pub mod converted_source;
pub mod defaults;
pub mod error;
pub mod form;
pub mod json;
pub mod loadable;
pub mod lz;
pub mod magnet;
pub mod ordered_map;
pub mod percent;
pub mod rating;
mod sealed;
pub mod stream;
pub mod stream_text;
pub mod stream_urls;
pub mod streaming_server;
pub mod text;
pub mod torrent;
pub mod web_url;
