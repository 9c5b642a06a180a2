use vstd::prelude::*;

use crate::config::Config;
use crate::decimal::{
    decimal_of, digits_value, is_digit, lemma_decimal_round_trip, spec_decimal, unsigned_digits,
};
use crate::error::{ConsulError, DecodeFailure};
use crate::options::{
    no_query_options, Consistency, QueryMeta, QueryOptions, WriteMeta, WriteOptions,
};
use crate::request::{
    consistency_params, dc_params, first_set, is_success, opt_view, read_outcome, read_params,
    read_request, wait_params, write_outcome, write_params, write_request, HttpResponse,
};

verus! {

/// A successful read's index is the number that its index header spells,
/// and that number spelled again reads back as the same index: passing it
/// as the next read's wait index asks for exactly that baseline.
pub proof fn lemma_read_index_from_header(resp: HttpResponse)
    requires
        read_outcome(resp) is Ok,
    ensures
        resp.index is Some,
        decimal_of(resp.index.unwrap()@) == Some(read_outcome(resp).unwrap().last_index),
        decimal_of(spec_decimal(read_outcome(resp).unwrap().last_index as nat)) == Some(
            read_outcome(resp).unwrap().last_index,
        ),
{
    let i = read_outcome(resp).unwrap().last_index;
    lemma_decimal_round_trip(i as nat);
    assert(is_digit(spec_decimal(i as nat)[0]));
}

/// Reads whose index headers do not go down return indexes that do not go
/// down: the client neither reorders nor alters the server's counter.
pub proof fn lemma_read_index_monotone(first: HttpResponse, second: HttpResponse)
    requires
        read_outcome(first) is Ok,
        read_outcome(second) is Ok,
        digits_value(unsigned_digits(first.index.unwrap()@)) <= digits_value(
            unsigned_digits(second.index.unwrap()@),
        ),
    ensures
        read_outcome(first).unwrap().last_index <= read_outcome(second).unwrap().last_index,
{
}

/// In a read, the caller's fixed parameters come first and unchanged; the
/// datacenter of the call wins over the client's, and the token of the call
/// wins over the client's. With the default consistency mode, the query holds
/// nothing but the fixed parameters, the datacenter and the blocking pair.
pub proof fn lemma_read_precedence(
    cfg: Config,
    path: Seq<char>,
    extra: Seq<(Seq<char>, Seq<char>)>,
    q: QueryOptions,
)
    ensures
        read_params(cfg, extra, q).take(extra.len() as int) == extra,
        q.datacenter is Some ==> read_params(cfg, extra, q)[extra.len() as int] == (
            "dc"@,
            q.datacenter.unwrap()@,
        ),
        q.datacenter is None && cfg.datacenter is Some ==> read_params(cfg, extra, q)[extra.len() as int] == (
            "dc"@,
            cfg.datacenter.unwrap()@,
        ),
        q.token is Some ==> read_request(cfg, path, extra, q).token == Some(q.token.unwrap()@),
        q.token is None ==> read_request(cfg, path, extra, q).token == opt_view(cfg.token),
        q.consistency == Consistency::Default ==> read_params(cfg, extra, q) == extra + dc_params(
            first_set(opt_view(q.datacenter), opt_view(cfg.datacenter)),
        ) + wait_params(q.wait_index, first_set(q.wait_time_secs, cfg.wait_time_secs)),
{
    let p = read_params(cfg, extra, q);
    if q.consistency == Consistency::Default {
        assert(consistency_params(q.consistency) =~= Seq::<(Seq<char>, Seq<char>)>::empty());
        assert(extra + dc_params(first_set(opt_view(q.datacenter), opt_view(cfg.datacenter)))
            + Seq::<(Seq<char>, Seq<char>)>::empty() =~= extra + dc_params(
            first_set(opt_view(q.datacenter), opt_view(cfg.datacenter)),
        ));
    }
    assert(p.take(extra.len() as int) =~= extra);
}

/// In a write, the caller's fixed parameters come first and unchanged; the
/// datacenter of the call wins over the client's, and the token of the call
/// wins over the client's.
pub proof fn lemma_write_precedence(
    cfg: Config,
    path: Seq<char>,
    body: Option<Seq<u8>>,
    extra: Seq<(Seq<char>, Seq<char>)>,
    w: WriteOptions,
)
    ensures
        write_params(cfg, extra, w).take(extra.len() as int) == extra,
        w.datacenter is Some ==> write_params(cfg, extra, w)[extra.len() as int] == (
            "dc"@,
            w.datacenter.unwrap()@,
        ),
        w.datacenter is None && cfg.datacenter is Some ==> write_params(cfg, extra, w)[extra.len() as int] == (
            "dc"@,
            cfg.datacenter.unwrap()@,
        ),
        w.token is Some ==> write_request(cfg, path, body, extra, w).token == Some(w.token.unwrap()@),
        w.token is None ==> write_request(cfg, path, body, extra, w).token == opt_view(cfg.token),
{
    let p = write_params(cfg, extra, w);
    assert(p.take(extra.len() as int) =~= extra);
}

/// A wait index of zero sends the same request as no wait index.
pub proof fn lemma_zero_wait_index_is_no_wait(
    cfg: Config,
    path: Seq<char>,
    extra: Seq<(Seq<char>, Seq<char>)>,
    q: QueryOptions,
)
    requires
        q.wait_index == Some(0u64),
    ensures
        read_request(cfg, path, extra, q) == read_request(
            cfg,
            path,
            extra,
            QueryOptions { wait_index: None, ..q },
        ),
{
}

/// Default read options (the same as passing none) send a plain,
/// non-blocking read against the client's default datacenter.
pub proof fn lemma_default_read_is_plain(cfg: Config, extra: Seq<(Seq<char>, Seq<char>)>)
    ensures
        read_params(cfg, extra, no_query_options()) == extra + dc_params(opt_view(cfg.datacenter)),
{
    assert(read_params(cfg, extra, no_query_options()) =~= extra + dc_params(
        first_set(None, opt_view(cfg.datacenter)),
    ));
}

/// A status outside 200 to 299 fails a read and a write with that status,
/// whatever the headers and the body hold.
pub proof fn lemma_failed_status(resp: HttpResponse)
    requires
        !is_success(resp.status),
    ensures
        read_outcome(resp) == Err::<QueryMeta, ConsulError>(
            ConsulError::RequestFailed(resp.status),
        ),
        write_outcome(resp) == Err::<WriteMeta, ConsulError>(
            ConsulError::RequestFailed(resp.status),
        ),
{
}

/// A successful read without an index header is a decode failure, never an
/// index of zero.
pub proof fn lemma_missing_index_fails(resp: HttpResponse)
    requires
        is_success(resp.status),
        resp.index is None,
    ensures
        read_outcome(resp) == Err::<QueryMeta, ConsulError>(
            ConsulError::DecodeError(DecodeFailure::MissingIndex),
        ),
{
}

} // verus!
