//! Verified core logic of the Pulsar launcher UI crates: text utilities,
//! recent-project bookkeeping, cloud servers and their requests, the card
//! grids, the marketplace search (URLs, cache, session, likes), the enum
//! asset editor and its code generation, the plugin catalogue, sign-in,
//! the first-run intro and the dependency setup.

pub mod text;
pub mod keys;
pub mod fetch_queue;
pub mod likes;
pub mod fab;
pub mod recent_projects;
pub mod project_card;
pub mod search_cache;
pub mod thumbnails;
pub mod cloud;
pub mod cloud_servers;
pub mod grid;
pub mod relative_time;
pub mod search_url;
pub mod search_view;
pub mod search_session;
pub mod enum_asset;
pub mod variant_editor;
pub mod enum_editor;
pub mod registry;
pub mod integration;
pub mod types;
pub mod new_project;
pub mod plugins;
pub mod setup;
pub mod sign_in;
pub mod intro;
