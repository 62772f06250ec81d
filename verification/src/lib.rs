//! Canonical-chain notification fan-out and fixtures for hash-linked chains
//! of executed blocks.

pub mod primitives;
pub mod execution;
pub mod notification;
pub mod outside;
pub mod factory;
pub mod subscriptions;
