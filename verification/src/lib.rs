//! Terminal search for a video-sharing site: an extractor that turns a raw
//! search-results page into structured video records, and the session state
//! machine that drives keyboard navigation over those records.

pub mod extract;
pub mod json_model;
pub mod json_value;
pub mod record;
pub mod session;
pub mod text;

pub use extract::{extract, watch_url_base};
pub use record::YoutubeVideoInfo;
pub use session::{App, FetchOutcome, KeyInput, SessionAction, search_request_url};
