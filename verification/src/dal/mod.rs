//! The data access layer: the tiers that answer lookups, and the cascade
//! that composes them.

pub mod in_memory_dao;
pub mod ethereum_dao;
pub mod aerospike_dao;
pub mod cascade;
pub mod partners;
pub mod authorized_partners_by_user;
