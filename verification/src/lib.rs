pub mod ancestry;
pub mod beacon_block;
pub mod beacon_state;
pub mod checkpoint;
pub mod constants;
pub mod data_availability;
pub mod database;
pub mod fork_choice;
pub mod handlers;
pub mod ingestion;
pub mod invariants;
pub mod merkle;
pub mod misc;
pub mod primitives;
pub mod root_map;
pub mod store;
pub mod text;
pub mod types;
pub mod utils;
