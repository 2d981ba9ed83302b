//! Admission gateway for client event batches: cascading partner and
//! authorization lookups, admission control, and the publish hand-off.

use vstd::prelude::*;

pub mod api;
pub mod cache;
pub mod config;
pub mod contract;
pub mod dal;
pub mod partners;
pub mod stream;
pub mod web;
