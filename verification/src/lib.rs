//! Fixtures, database states and expectations for the integration of DHT operations.

pub mod address;
pub mod call_laws;
pub mod check_laws;
pub mod content;
pub mod content_laws;
pub mod db;
pub mod env;
pub mod hasher;
pub mod header;
pub mod host_calls;
pub mod laws;
pub mod op;
pub mod play;
pub mod query;
pub mod scenario_laws;
pub mod scenarios;
pub mod shown_laws;
pub mod store_laws;
pub mod test_data;
