//! The two listeners: which requests each of them serves, and with what.
//!
//! Dispatch is a lookup on method and path. The main listener counts every
//! request before it looks at it.

use vstd::prelude::*;
use crate::health::{health, readiness};
use crate::metrics::{metrics_endpoint, next_count, scrape_response, MetricsRegistry};
use crate::response::{bare, plain, Response, ResponseView, NOT_FOUND};
use crate::static_assets::{resolve, resolved, Asset, EmbeddedFileView};
use crate::text::{str_eq, strip_prefix};

verus! {

/// One of the two listeners of the server.
#[derive(Debug, Clone, Copy, PartialEq, Eq, Structural)]
pub enum Listener {
    /// Serves the assets and the health endpoints.
    Main,
    /// Serves the metrics and the health endpoints.
    Observability,
}

/// What a request can be for.
#[derive(Debug, Clone, Copy, PartialEq, Eq, Structural)]
pub enum Endpoint {
    /// The entry-point document or a file under `/static/`.
    Asset,
    /// The liveness probe.
    Health,
    /// The readiness probe.
    Readiness,
    /// The metrics in text form.
    Metrics,
}

/// The endpoint that a request reaches on a listener, if it reaches one.
/// Only `GET` requests are routed. Both listeners answer `/health` and
/// `/ready`; the main listener answers `/` and every path under `/static/`,
/// the observability listener `/metrics`.
pub open spec fn routed(listener: Listener, method: Seq<char>, path: Seq<char>) -> Option<
    Endpoint,
> {
    if method != "GET"@ {
        None
    } else if path == "/health"@ {
        Some(Endpoint::Health)
    } else if path == "/ready"@ {
        Some(Endpoint::Readiness)
    } else {
        match listener {
            Listener::Main => if path == "/"@ || "/static/"@.is_prefix_of(path) {
                Some(Endpoint::Asset)
            } else {
                None
            },
            Listener::Observability => if path == "/metrics"@ {
                Some(Endpoint::Metrics)
            } else {
                None
            },
        }
    }
}

/// The answer of the main listener to a request. A request that reaches
/// no endpoint is answered with a bare 404.
pub open spec fn main_answer(
    table: Map<Seq<char>, EmbeddedFileView>,
    method: Seq<char>,
    path: Seq<char>,
) -> ResponseView {
    match routed(Listener::Main, method, path) {
        Some(Endpoint::Asset) => resolved(table, path),
        Some(Endpoint::Health) => plain(200, "Healthy"@),
        Some(Endpoint::Readiness) => plain(200, "Ready"@),
        _ => bare(404),
    }
}

/// The answer of the observability listener to a request, when `count`
/// requests have been counted. A request that reaches no endpoint is
/// answered with a bare 404.
pub open spec fn observability_answer(count: u64, method: Seq<char>, path: Seq<char>) -> ResponseView {
    match routed(Listener::Observability, method, path) {
        Some(Endpoint::Metrics) => scrape_response(MetricsRegistry::rendered(count)),
        Some(Endpoint::Health) => plain(200, "Healthy"@),
        Some(Endpoint::Readiness) => plain(200, "Ready"@),
        _ => bare(404),
    }
}

/// Finds the endpoint for a request.
pub fn route(listener: Listener, method: &str, path: &str) -> (endpoint: Option<Endpoint>)
    ensures
        endpoint == routed(listener, method@, path@),
{
    if !str_eq(method, "GET") {
        None
    } else if str_eq(path, "/health") {
        Some(Endpoint::Health)
    } else if str_eq(path, "/ready") {
        Some(Endpoint::Readiness)
    } else {
        match listener {
            Listener::Main => {
                if str_eq(path, "/") || strip_prefix(path, "/static/").is_some() {
                    Some(Endpoint::Asset)
                } else {
                    None
                }
            },
            Listener::Observability => {
                if str_eq(path, "/metrics") {
                    Some(Endpoint::Metrics)
                } else {
                    None
                }
            },
        }
    }
}

/// Serves one request on the main listener. The request is counted first,
/// whatever the answer will be.
pub fn handle_main(
    registry: &mut MetricsRegistry,
    assets: &Asset,
    method: &str,
    path: &str,
) -> (response: Response)
    ensures
        final(registry).count() == next_count(old(registry).count()),
        response@ == main_answer(assets@, method@, path@),
{
    registry.record_request();
    match route(Listener::Main, method, path) {
        Some(Endpoint::Asset) => resolve(assets, path),
        Some(Endpoint::Health) => health(),
        Some(Endpoint::Readiness) => readiness(),
        _ => Response::bare(NOT_FOUND),
    }
}

/// Serves one request on the observability listener. Nothing is counted.
pub fn handle_observability(registry: &MetricsRegistry, method: &str, path: &str) -> (response:
    Response)
    ensures
        response@ == observability_answer(registry.count(), method@, path@),
{
    match route(Listener::Observability, method, path) {
        Some(Endpoint::Metrics) => metrics_endpoint(registry),
        Some(Endpoint::Health) => health(),
        Some(Endpoint::Readiness) => readiness(),
        _ => Response::bare(NOT_FOUND),
    }
}

/// The address on which a listener binds: every interface, at `port`.
pub fn bind_address(port: &str) -> (address: String)
    ensures
        address@ == "0.0.0.0:"@ + port@,
{
    "0.0.0.0:".to_owned().concat(port)
}

/// The health endpoints answer the same on both listeners, whatever the
/// table holds and however many requests were counted: `GET /health` with
/// 200 and `Healthy`, `GET /ready` with 200 and `Ready`.
pub proof fn lemma_health_always_answers(table: Map<Seq<char>, EmbeddedFileView>, count: u64)
    ensures
        main_answer(table, "GET"@, "/health"@) == plain(200, "Healthy"@),
        main_answer(table, "GET"@, "/ready"@) == plain(200, "Ready"@),
        observability_answer(count, "GET"@, "/health"@) == plain(200, "Healthy"@),
        observability_answer(count, "GET"@, "/ready"@) == plain(200, "Ready"@),
{
    reveal_strlit("/health");
    reveal_strlit("/ready");
    assert("/health"@.len() == 7);
    assert("/ready"@.len() == 6);
}

/// The main listener answers `GET` requests for the root and for the paths
/// under `/static/` from the asset table.
pub proof fn lemma_main_serves_assets(table: Map<Seq<char>, EmbeddedFileView>, path: Seq<char>)
    requires
        path == "/"@ || "/static/"@.is_prefix_of(path),
    ensures
        main_answer(table, "GET"@, path) == resolved(table, path),
{
    reveal_strlit("/health");
    reveal_strlit("/ready");
    reveal_strlit("/");
    reveal_strlit("/static/");
    assert("/health"@.len() == 7 && "/health"@[1] == 'h');
    assert("/ready"@.len() == 6 && "/ready"@[1] == 'r');
    assert("/"@.len() == 1);
    assert("/static/"@.len() == 8 && "/static/"@[1] == 's');
    if "/static/"@.is_prefix_of(path) {
        assert(path[1] == "/static/"@[1]);
    }
}

/// The observability listener answers `GET /metrics` with the scrape of the
/// registry.
pub proof fn lemma_observability_serves_metrics(count: u64)
    ensures
        observability_answer(count, "GET"@, "/metrics"@) == scrape_response(
            MetricsRegistry::rendered(count),
        ),
{
    reveal_strlit("/health");
    reveal_strlit("/ready");
    reveal_strlit("/metrics");
    assert("/health"@.len() == 7);
    assert("/ready"@.len() == 6);
    assert("/metrics"@.len() == 8);
}

} // verus!
