pub mod acl;
pub mod cache;
pub mod clock;
pub mod connection;
pub mod disconnect;
pub mod error;
pub mod events;
pub mod identity;
pub mod index;
pub mod keep_alive;
pub mod laws;
pub mod metadata;
pub mod metrics;
pub mod pkid;
pub mod protocol;
pub mod qos;
pub mod registry;
pub mod sets;
pub mod state;
pub mod text;
