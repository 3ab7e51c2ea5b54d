//! Feed tracking and notification engine: per-feed state, change detection
//! against a freshly fetched item list, content extraction, message
//! rendering and the polling schedule, with machine-checked contracts.

pub mod command;
pub mod diff;
pub mod feed;
pub mod item;
pub mod notification;
pub mod policy;
pub mod schedule;
pub mod state;
pub mod text;

pub use crate::diff::diff;
pub use crate::feed::{apply_poll, get_last_post, get_rss, parse_feed, FeedError};
pub use crate::item::FeedItem;
pub use crate::notification::RssNotification;
pub use crate::policy::{ExtractContent, UniqueBy};
pub use crate::schedule::time_until_next_update;
pub use crate::state::{get_user_id_and_pin_from_name, RssState};
