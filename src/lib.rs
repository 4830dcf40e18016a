//! A traffic signal and a pedestrian crossing, each a timed state machine,
//! coupled by messages so that pedestrians are only invited to cross while
//! traffic is held at red.
pub mod stoplight;
pub mod crosswalk;
pub mod actor;
