//! The logic of a travel planner for public transport: journeys and their
//! legs, the live status of a journey while it is travelled, the stores of
//! bookmarked journeys and recent searches, and the texts shown for them.

pub mod text;
pub mod utility;
pub mod calendar;
pub mod duration;
pub mod late_factor;
pub mod load_factor;
pub mod place;
pub mod remark;
pub mod i18n;
pub mod intermediate_location;
pub mod leg;
pub mod assoc;
pub mod journey;
pub mod notify;
pub mod journeys_result;
pub mod search_store;
pub mod journey_store;
pub mod request_limiter;
pub mod transport;
pub mod migrate_journey_store;
pub mod provider;
pub mod price;
pub mod discount_card;
pub mod labels;
pub mod live_update;
pub mod indicators;
pub mod search_options;
pub mod station_entry;
pub mod detail_layout;
pub mod focus;
pub mod display;
pub mod timer;
pub mod error;
