//! The endpoint facades and request builders, one group per market segment.

pub mod bond;
pub mod common;
pub mod derivative;
pub mod esg;
pub mod etp;
pub mod general;
pub mod index;
pub mod stock;
