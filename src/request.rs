use vstd::prelude::*;

use crate::config::Config;
use crate::decimal::{decimal_of, parse_decimal, render_decimal, spec_decimal};
use crate::error::{ConsulError, DecodeFailure};
use crate::options::{
    no_query_options, no_write_options, Consistency, QueryMeta, QueryOptions, WriteMeta,
    WriteOptions,
};

verus! {

/// The blocking time, in seconds, of a blocking read that names none.
pub const DEFAULT_WAIT_SECS: u64 = 300;

/// The HTTP methods the API is called with.
#[derive(Clone, Copy, Debug, PartialEq, Eq, Structural)]
pub enum HttpMethod {
    Get,
    Put,
}

/// A request ready to be sent: `url` with `query` appended, the token (if any)
/// in the `X-Consul-Token` header, and `body` (if any) as JSON.
#[derive(Clone, Debug, PartialEq, Eq)]
pub struct HttpRequest {
    pub method: HttpMethod,
    pub url: String,
    pub query: Vec<(String, String)>,
    pub token: Option<String>,
    pub body: Option<Vec<u8>>,
}

/// What a request is, over views.
pub struct RequestView {
    pub method: HttpMethod,
    pub url: Seq<char>,
    pub query: Seq<(Seq<char>, Seq<char>)>,
    pub token: Option<Seq<char>>,
    pub body: Option<Seq<u8>>,
}

impl View for HttpRequest {
    type V = RequestView;

    open spec fn view(&self) -> RequestView {
        RequestView {
            method: self.method,
            url: self.url@,
            query: params_view(self.query@),
            token: opt_view(self.token),
            body: match self.body {
                Some(b) => Some(b@),
                None => None,
            },
        }
    }
}

/// A response as received: its status, the headers the protocol reads, the
/// time the round trip took, and the body.
#[derive(Clone, Debug, PartialEq, Eq)]
pub struct HttpResponse {
    pub status: u16,
    /// The `X-Consul-Index` header.
    pub index: Option<String>,
    /// The `X-Consul-Knownleader` header.
    pub known_leader: Option<String>,
    /// The `X-Consul-Lastcontenthash` header.
    pub content_hash: Option<String>,
    pub elapsed_ms: u64,
    pub body: Vec<u8>,
}

pub open spec fn params_view(v: Seq<(String, String)>) -> Seq<(Seq<char>, Seq<char>)> {
    v.map_values(|p: (String, String)| (p.0@, p.1@))
}

pub open spec fn opt_view(o: Option<String>) -> Option<Seq<char>> {
    match o {
        Some(s) => Some(s@),
        None => None,
    }
}

/// `a` where it is set, else `b`.
pub open spec fn first_set<T>(a: Option<T>, b: Option<T>) -> Option<T> {
    if a is Some {
        a
    } else {
        b
    }
}

pub open spec fn dc_params(dc: Option<Seq<char>>) -> Seq<(Seq<char>, Seq<char>)> {
    match dc {
        Some(d) => seq![("dc"@, d)],
        None => seq![],
    }
}

pub open spec fn consistency_params(c: Consistency) -> Seq<(Seq<char>, Seq<char>)> {
    match c {
        Consistency::Default => seq![],
        Consistency::Stale => seq![("stale"@, Seq::<char>::empty())],
        Consistency::Consistent => seq![("consistent"@, Seq::<char>::empty())],
    }
}

/// The pair that asks the server to block: only for a non-zero index.
pub open spec fn wait_params(index: Option<u64>, wait: Option<u64>) -> Seq<(Seq<char>, Seq<char>)> {
    match index {
        Some(i) => if i != 0 {
            seq![
                ("index"@, spec_decimal(i as nat)),
                ("wait"@, spec_decimal(
                    match wait {
                        Some(w) => w as nat,
                        None => DEFAULT_WAIT_SECS as nat,
                    },
                ) + "s"@),
            ]
        } else {
            seq![]
        },
        None => seq![],
    }
}

pub open spec fn effective_query(q: Option<QueryOptions>) -> QueryOptions {
    match q {
        Some(o) => o,
        None => no_query_options(),
    }
}

pub open spec fn effective_write(w: Option<WriteOptions>) -> WriteOptions {
    match w {
        Some(o) => o,
        None => no_write_options(),
    }
}

/// The query of a read: the caller's fixed parameters, the datacenter, the
/// consistency mode, then the blocking pair.
pub open spec fn read_params(
    cfg: Config,
    extra: Seq<(Seq<char>, Seq<char>)>,
    q: QueryOptions,
) -> Seq<(Seq<char>, Seq<char>)> {
    extra + dc_params(first_set(opt_view(q.datacenter), opt_view(cfg.datacenter)))
        + consistency_params(q.consistency) + wait_params(
        q.wait_index,
        first_set(q.wait_time_secs, cfg.wait_time_secs),
    )
}

/// The query of a write: the caller's fixed parameters, then the datacenter.
pub open spec fn write_params(
    cfg: Config,
    extra: Seq<(Seq<char>, Seq<char>)>,
    w: WriteOptions,
) -> Seq<(Seq<char>, Seq<char>)> {
    extra + dc_params(first_set(opt_view(w.datacenter), opt_view(cfg.datacenter)))
}

/// The request a read of `path` sends.
pub open spec fn read_request(
    cfg: Config,
    path: Seq<char>,
    extra: Seq<(Seq<char>, Seq<char>)>,
    q: QueryOptions,
) -> RequestView {
    RequestView {
        method: HttpMethod::Get,
        url: cfg.address@ + path,
        query: read_params(cfg, extra, q),
        token: first_set(opt_view(q.token), opt_view(cfg.token)),
        body: None,
    }
}

/// The request a write to `path` sends.
pub open spec fn write_request(
    cfg: Config,
    path: Seq<char>,
    body: Option<Seq<u8>>,
    extra: Seq<(Seq<char>, Seq<char>)>,
    w: WriteOptions,
) -> RequestView {
    RequestView {
        method: HttpMethod::Put,
        url: cfg.address@ + path,
        query: write_params(cfg, extra, w),
        token: first_set(opt_view(w.token), opt_view(cfg.token)),
        body: body,
    }
}

pub open spec fn is_success(status: u16) -> bool {
    200 <= status <= 299
}

/// The leader header says `true`; an absent header means no known leader.
pub open spec fn leader_of(h: Option<String>) -> bool {
    match h {
        Some(s) => s@ == "true"@,
        None => false,
    }
}

/// What a read's response means: the status first, then the index header.
pub open spec fn read_outcome(resp: HttpResponse) -> Result<QueryMeta, ConsulError> {
    if !is_success(resp.status) {
        Err(ConsulError::RequestFailed(resp.status))
    } else {
        match resp.index {
            None => Err(ConsulError::DecodeError(DecodeFailure::MissingIndex)),
            Some(h) => match decimal_of(h@) {
                None => Err(ConsulError::DecodeError(DecodeFailure::InvalidIndex)),
                Some(i) => Ok(
                    QueryMeta {
                        last_index: i,
                        last_content_hash: resp.content_hash,
                        known_leader: leader_of(resp.known_leader),
                        request_time_ms: resp.elapsed_ms,
                    },
                ),
            },
        }
    }
}

/// What a write's response means: its status alone.
pub open spec fn write_outcome(resp: HttpResponse) -> Result<WriteMeta, ConsulError> {
    if !is_success(resp.status) {
        Err(ConsulError::RequestFailed(resp.status))
    } else {
        Ok(WriteMeta { request_time_ms: resp.elapsed_ms })
    }
}

fn clone_opt(o: &Option<String>) -> (r: Option<String>)
    ensures
        r == *o,
{
    match o {
        Some(s) => Some(s.clone()),
        None => None,
    }
}

fn push_param(v: &mut Vec<(String, String)>, key: &str, value: String)
    ensures
        params_view(final(v)@) == params_view(old(v)@).push((key@, value@)),
{
    let ghost before = v@;
    v.push((String::from_str(key), value));
    assert(params_view(v@) =~= params_view(before).push((key@, value@)));
}

fn push_dc(v: &mut Vec<(String, String)>, over: &Option<String>, dflt: &Option<String>)
    ensures
        params_view(final(v)@) == params_view(old(v)@) + dc_params(
            first_set(opt_view(*over), opt_view(*dflt)),
        ),
{
    let ghost before = params_view(v@);
    match over {
        Some(d) => push_param(v, "dc", d.clone()),
        None => match dflt {
            Some(d) => push_param(v, "dc", d.clone()),
            None => {},
        },
    }
    assert(params_view(v@) =~= before + dc_params(first_set(opt_view(*over), opt_view(*dflt))));
}

/// Turns read options into the request that performs the read of `path`.
///
/// No options at all mean the same as default options.
pub fn build_read(
    path: &str,
    config: &Config,
    extra_query_params: Vec<(String, String)>,
    q: Option<&QueryOptions>,
) -> (r: HttpRequest)
    ensures
        r@ == read_request(
            *config,
            path@,
            params_view(extra_query_params@),
            effective_query(
                match q {
                    Some(o) => Some(*o),
                    None => None,
                },
            ),
        ),
{
    let dflt = QueryOptions::default();
    let o: &QueryOptions = match q {
        Some(o) => o,
        None => &dflt,
    };
    let mut query = extra_query_params;
    push_dc(&mut query, &o.datacenter, &config.datacenter);
    let ghost with_dc = params_view(query@);
    match o.consistency {
        Consistency::Default => {},
        Consistency::Stale => push_param(&mut query, "stale", String::new()),
        Consistency::Consistent => push_param(&mut query, "consistent", String::new()),
    }
    assert(params_view(query@) =~= with_dc + consistency_params(o.consistency));
    let ghost with_mode = params_view(query@);
    match o.wait_index {
        Some(i) => if i != 0 {
            let w = match o.wait_time_secs {
                Some(w) => w,
                None => match config.wait_time_secs {
                    Some(w) => w,
                    None => DEFAULT_WAIT_SECS,
                },
            };
            push_param(&mut query, "index", render_decimal(i));
            push_param(&mut query, "wait", render_decimal(w).concat("s"));
        },
        None => {},
    }
    assert(params_view(query@) =~= with_mode + wait_params(
        o.wait_index,
        first_set(o.wait_time_secs, config.wait_time_secs),
    ));
    let token = match &o.token {
        Some(t) => Some(t.clone()),
        None => clone_opt(&config.token),
    };
    HttpRequest {
        method: HttpMethod::Get,
        url: config.address.clone().concat(path),
        query,
        token,
        body: None,
    }
}

/// Turns write options and an encoded payload into the request that performs
/// the write to `path`.
pub fn build_write(
    path: &str,
    body: Option<Vec<u8>>,
    config: &Config,
    extra_query_params: Vec<(String, String)>,
    w: Option<&WriteOptions>,
) -> (r: HttpRequest)
    ensures
        r@ == write_request(
            *config,
            path@,
            match body {
                Some(b) => Some(b@),
                None => None,
            },
            params_view(extra_query_params@),
            effective_write(
                match w {
                    Some(o) => Some(*o),
                    None => None,
                },
            ),
        ),
{
    let dflt = WriteOptions::default();
    let o: &WriteOptions = match w {
        Some(o) => o,
        None => &dflt,
    };
    let mut query = extra_query_params;
    push_dc(&mut query, &o.datacenter, &config.datacenter);
    let token = match &o.token {
        Some(t) => Some(t.clone()),
        None => clone_opt(&config.token),
    };
    HttpRequest {
        method: HttpMethod::Put,
        url: config.address.clone().concat(path),
        query,
        token,
        body,
    }
}

fn leader_flag(h: &Option<String>) -> (r: bool)
    ensures
        r == leader_of(*h),
{
    match h {
        Some(s) => {
            let t = String::from_str("true");
            *s == t
        },
        None => false,
    }
}

/// Interprets the response to a read. A status outside 200 to 299 is
/// reported with its code and the body is dropped undecoded; otherwise the
/// index header must hold the change index, and the body is handed back for
/// decoding.
pub fn finish_read(resp: HttpResponse) -> (r: Result<(Vec<u8>, QueryMeta), ConsulError>)
    ensures
        match read_outcome(resp) {
            Ok(m) => r == Ok::<(Vec<u8>, QueryMeta), ConsulError>((resp.body, m)),
            Err(e) => r == Err::<(Vec<u8>, QueryMeta), ConsulError>(e),
        },
{
    if resp.status < 200 || resp.status > 299 {
        return Err(ConsulError::RequestFailed(resp.status));
    }
    let last_index = match &resp.index {
        None => {
            return Err(ConsulError::DecodeError(DecodeFailure::MissingIndex));
        },
        Some(h) => match parse_decimal(h.as_str()) {
            None => {
                return Err(ConsulError::DecodeError(DecodeFailure::InvalidIndex));
            },
            Some(i) => i,
        },
    };
    let known_leader = leader_flag(&resp.known_leader);
    let meta = QueryMeta {
        last_index,
        last_content_hash: resp.content_hash,
        known_leader,
        request_time_ms: resp.elapsed_ms,
    };
    Ok((resp.body, meta))
}

/// Interprets the response to a write: a status outside 200 to 299 is
/// reported with its code; otherwise the body is handed back.
pub fn finish_write(resp: HttpResponse) -> (r: Result<(Vec<u8>, WriteMeta), ConsulError>)
    ensures
        match write_outcome(resp) {
            Ok(m) => r == Ok::<(Vec<u8>, WriteMeta), ConsulError>((resp.body, m)),
            Err(e) => r == Err::<(Vec<u8>, WriteMeta), ConsulError>(e),
        },
{
    if resp.status < 200 || resp.status > 299 {
        return Err(ConsulError::RequestFailed(resp.status));
    }
    Ok((resp.body, WriteMeta { request_time_ms: resp.elapsed_ms }))
}

} // verus!
