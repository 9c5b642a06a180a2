//! A typed client for the HTTP API of a Consul agent.
//!
//! The library builds every request from structured options, and turns every
//! response into a decoded value and its metadata following the blocking-query
//! protocol. Sending the request over the network is left to the caller.

mod catalog;
mod config;
mod decimal;
mod error;
mod json;
mod laws;
mod options;
mod request;

pub use catalog::{
    datacenters_from_response, AgentService, Catalog, CatalogDeregistrationPayload, CatalogNode,
    CatalogRegistrationPayload, CatalogService, Node, ServiceWeights,
};
pub use config::{Client, Config, Sealed, DEFAULT_PORT};
pub use decimal::{parse_decimal, render_decimal};
pub use error::{ConsulError, ConsulResult, DecodeFailure};
pub use json::decode_string_list;
pub use laws::{
    lemma_default_read_is_plain, lemma_failed_status, lemma_missing_index_fails,
    lemma_read_index_from_header, lemma_read_index_monotone, lemma_read_precedence,
    lemma_write_precedence, lemma_zero_wait_index_is_no_wait,
};
pub use options::{Consistency, QueryMeta, QueryOptions, WriteMeta, WriteOptions};
pub use request::{
    build_read, build_write, finish_read, finish_write, HttpMethod, HttpRequest, HttpResponse,
    DEFAULT_WAIT_SECS,
};
