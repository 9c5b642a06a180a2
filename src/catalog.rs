use std::collections::HashMap;

use vstd::prelude::*;

use crate::config::{Client, Config, Sealed};
use crate::error::{ConsulError, DecodeFailure};
use crate::json::{decode_string_list, json_string_array, strings_view};
use crate::options::{QueryMeta, QueryOptions, WriteOptions};
use crate::request::{
    build_read, build_write, effective_query, effective_write, finish_read, params_view,
    read_outcome, read_request, write_request, HttpRequest, HttpResponse,
};

verus! {

/// The weights a service gets in DNS answers, by health state.
#[derive(Clone, Copy, Debug, PartialEq, Eq, Structural)]
pub struct ServiceWeights {
    pub passing: u32,
    pub warning: u32,
}

impl Default for ServiceWeights {
    fn default() -> (r: ServiceWeights)
        ensures
            r.passing == 0 && r.warning == 0,
    {
        ServiceWeights { passing: 0, warning: 0 }
    }
}

/// A node within the cluster gossip pool.
#[derive(Clone, Debug, Default, PartialEq, Eq)]
pub struct Node {
    pub id: String,
    pub node: String,
    pub address: String,
    pub datacenter: String,
    pub tagged_addresses: HashMap<String, String>,
    pub meta: HashMap<String, String>,
    pub create_index: u64,
    pub modify_index: u64,
}

/// A service as registered with an agent.
#[derive(Clone, Debug, Default, PartialEq, Eq)]
pub struct AgentService {
    pub id: String,
    pub service: String,
    pub tags: Vec<String>,
    pub port: u32,
    pub address: String,
    pub enable_tag_override: bool,
    pub create_index: u64,
    pub modify_index: u64,
}

/// A service defined within the catalog, with the node that hosts it.
#[derive(Clone, Debug, Default, PartialEq, Eq)]
pub struct CatalogService {
    pub id: String,
    pub node: String,
    pub address: String,
    pub datacenter: String,
    pub tagged_addresses: HashMap<String, String>,
    pub node_meta: HashMap<String, String>,
    pub service_id: String,
    pub service_name: String,
    pub service_address: String,
    pub service_tags: Vec<String>,
    pub service_meta: HashMap<String, String>,
    pub service_port: u32,
    pub service_weights: ServiceWeights,
    pub service_enable_tag_override: bool,
    pub create_index: u64,
    pub modify_index: u64,
}

/// A node of the catalog and the services it hosts, by service name.
#[derive(Clone, Debug, Default, PartialEq, Eq)]
pub struct CatalogNode {
    pub node: Option<Node>,
    pub services: HashMap<String, AgentService>,
}

/// What a catalog registration writes: a node, and optionally one of its
/// services.
#[derive(Clone, Debug, Default, PartialEq, Eq)]
pub struct CatalogRegistrationPayload {
    pub id: Option<String>,
    pub node: String,
    pub address: String,
    pub datacenter: Option<String>,
    pub tagged_addresses: HashMap<String, String>,
    pub node_meta: HashMap<String, String>,
    pub service: Option<AgentService>,
    pub skip_node_update: bool,
}

/// What a catalog deregistration removes: a node, or one of its checks or
/// services.
#[derive(Clone, Debug, Default, PartialEq, Eq)]
pub struct CatalogDeregistrationPayload {
    pub node: String,
    pub datacenter: Option<String>,
    pub check_id: Option<String>,
    pub service_id: Option<String>,
}

pub open spec fn catalog_register_path() -> Seq<char> {
    "/v1/catalog/register"@
}

pub open spec fn catalog_deregister_path() -> Seq<char> {
    "/v1/catalog/deregister"@
}

pub open spec fn catalog_datacenters_path() -> Seq<char> {
    "/v1/catalog/datacenters"@
}

pub open spec fn catalog_nodes_path() -> Seq<char> {
    "/v1/catalog/nodes"@
}

pub open spec fn catalog_services_path() -> Seq<char> {
    "/v1/catalog/services"@
}

pub open spec fn opt_query(q: Option<&QueryOptions>) -> QueryOptions {
    effective_query(
        match q {
            Some(o) => Some(*o),
            None => None,
        },
    )
}

pub open spec fn opt_write(w: Option<&WriteOptions>) -> WriteOptions {
    effective_write(
        match w {
            Some(o) => Some(*o),
            None => None,
        },
    )
}

/// The requests of the catalog endpoints. Write payloads come encoded as JSON.
pub trait Catalog: Sealed {
    /// The configuration the requests are built from.
    spec fn catalog_config(&self) -> Config;

    /// Registers or updates entries in the catalog.
    fn register(&self, reg: Vec<u8>, q: Option<&WriteOptions>) -> (r: HttpRequest)
        ensures
            r@ == write_request(
                self.catalog_config(),
                catalog_register_path(),
                Some(reg@),
                seq![],
                opt_write(q),
            ),
    ;

    /// Removes entries from the catalog.
    fn deregister(&self, dereg: Vec<u8>, q: Option<&WriteOptions>) -> (r: HttpRequest)
        ensures
            r@ == write_request(
                self.catalog_config(),
                catalog_deregister_path(),
                Some(dereg@),
                seq![],
                opt_write(q),
            ),
    ;

    /// Lists the known datacenters.
    fn list_datacenters(&self) -> (r: HttpRequest)
        ensures
            r@ == read_request(
                self.catalog_config(),
                catalog_datacenters_path(),
                seq![],
                opt_query(None),
            ),
    ;

    /// Lists the nodes of a datacenter.
    fn list_datacenter_nodes(&self, q: Option<&QueryOptions>) -> (r: HttpRequest)
        ensures
            r@ == read_request(self.catalog_config(), catalog_nodes_path(), seq![], opt_query(q)),
    ;

    /// Lists the services of a datacenter, with their tags.
    fn list_datacenter_services(&self, q: Option<&QueryOptions>) -> (r: HttpRequest)
        ensures
            r@ == read_request(
                self.catalog_config(),
                catalog_services_path(),
                seq![],
                opt_query(q),
            ),
    ;
}

fn no_params() -> (r: Vec<(String, String)>)
    ensures
        params_view(r@) == Seq::<(Seq<char>, Seq<char>)>::empty(),
{
    let r: Vec<(String, String)> = Vec::new();
    assert(params_view(r@) =~= Seq::<(Seq<char>, Seq<char>)>::empty());
    r
}

impl Catalog for Client {
    open spec fn catalog_config(&self) -> Config {
        self.config
    }

    fn register(&self, reg: Vec<u8>, q: Option<&WriteOptions>) -> (r: HttpRequest) {
        build_write("/v1/catalog/register", Some(reg), &self.config, no_params(), q)
    }

    fn deregister(&self, dereg: Vec<u8>, q: Option<&WriteOptions>) -> (r: HttpRequest) {
        build_write("/v1/catalog/deregister", Some(dereg), &self.config, no_params(), q)
    }

    fn list_datacenters(&self) -> (r: HttpRequest) {
        build_read("/v1/catalog/datacenters", &self.config, no_params(), None)
    }

    fn list_datacenter_nodes(&self, q: Option<&QueryOptions>) -> (r: HttpRequest) {
        build_read("/v1/catalog/nodes", &self.config, no_params(), q)
    }

    fn list_datacenter_services(&self, q: Option<&QueryOptions>) -> (r: HttpRequest) {
        build_read("/v1/catalog/services", &self.config, no_params(), q)
    }
}

/// Interprets the response to a list of the datacenters: the names in the
/// order the server sent them, and the read's metadata.
pub fn datacenters_from_response(resp: HttpResponse) -> (r: Result<(Vec<String>, QueryMeta), ConsulError>)
    ensures
        match read_outcome(resp) {
            Err(e) => r == Err::<(Vec<String>, QueryMeta), ConsulError>(e),
            Ok(m) => if resp.body@.len() == 0 {
                r is Ok && r.unwrap().0@.len() == 0 && r.unwrap().1 == m
            } else {
                match json_string_array(resp.body@) {
                    Some(v) => r is Ok && strings_view(r.unwrap().0@) == v && r.unwrap().1 == m,
                    None => r == Err::<(Vec<String>, QueryMeta), ConsulError>(
                        ConsulError::DecodeError(DecodeFailure::InvalidBody),
                    ),
                }
            },
        },
{
    let (body, meta) = finish_read(resp)?;
    let names = decode_string_list(body.as_slice())?;
    Ok((names, meta))
}

} // verus!
