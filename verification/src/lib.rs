//! Serving of a frozen table of static assets over HTTP, with health and
//! metrics endpoints, layered settings and a two-listener lifecycle.
//!
//! Everything here works on plain values: the transport hands in a method and
//! a path and gets a [`response::Response`] back; it reports what happens to
//! its listeners and is told what to do next.
//!
//! - [`config`]: the settings and how their layers are merged.
//! - [`static_assets`]: the asset table and the answers made from it.
//! - [`health`]: the liveness and readiness probes.
//! - [`metrics`]: the request counter and its text exposition.
//! - [`server`]: what each of the two listeners serves.
//! - [`lifecycle`]: starting, running, draining and stopping.
//! - [`response`], [`text`], [`decimal`]: what the others are built on.

pub mod config;
pub mod decimal;
pub mod health;
pub mod lifecycle;
pub mod metrics;
pub mod response;
pub mod server;
pub mod static_assets;
pub mod text;
