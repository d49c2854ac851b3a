//! The TCP server transport's configuration. Listening, accepting and
//! fanning data in and out of connected clients are host I/O; the schema
//! validation over the configuration payload is verified here.

use vstd::prelude::*;
use vstd::string::StringExecFns;

use crate::jsoncfg::{
    doc_of, get_string_field, get_u64_field, json_parse, lemma_subset_same_len, obj_len,
    port_from_u64, str_field, uint_field, value_model, JsonVal,
};
use crate::sock::{SockError, SocketParams};

verus! {

broadcast use vstd::set::group_set_axioms;

/// The default listening address: every interface.
pub fn default_ip_local() -> (r: String)
    ensures
        r@ == "0.0.0.0"@,
{
    String::from_str("0.0.0.0")
}

/// Configuration for a TCP server endpoint.
#[derive(Debug)]
pub struct TcpServerConfig {
    /// The address to listen on.
    pub ip_local: String,
    /// The port to listen on.
    pub port_local: u16,
}

/// Whether a parsed document matches the TCP server schema: an object with
/// a sixteen-bit `port_local`, optionally a string `ip_local`, and no other
/// field.
pub open spec fn tcp_server_schema_ok(d: JsonVal) -> bool {
    &&& d is Obj
    &&& (uint_field(d, "port_local"@) matches Some(p) && p <= u16::MAX)
    &&& forall|k: Seq<char>|
        #[trigger] d->Obj_0.dom().contains(k) ==> k == "port_local"@ || (k == "ip_local"@
            && str_field(d, k) is Some)
}

/// The configuration a TCP server schema document denotes: the listening
/// port as given, the listening address as given or its default.
pub open spec fn tcp_server_config_matches(cfg: TcpServerConfig, d: JsonVal) -> bool {
    &&& Some(cfg.port_local as u64) == uint_field(d, "port_local"@)
    &&& cfg.ip_local@ == (if str_field(d, "ip_local"@) is Some {
        str_field(d, "ip_local"@).unwrap()
    } else {
        "0.0.0.0"@
    })
}

/// Reads a TCP server configuration out of its JSON document: accepted
/// exactly when the payload parses and matches the TCP server schema, and
/// the result then carries the document's fields, the address defaulting
/// when absent; everything else is a construction-time error.
pub fn parse_tcp_server_config(params: &SocketParams) -> (r: Result<TcpServerConfig, SockError>)
    ensures
        match r {
            Ok(cfg) => doc_of(params@) matches Some(d) && tcp_server_schema_ok(d)
                && tcp_server_config_matches(cfg, d),
            Err(e) => e == SockError::InvalidConfig && (doc_of(params@) matches Some(d)
                ==> !tcp_server_schema_ok(d)),
        },
{
    let v = json_parse(params.as_str())?;
    let ghost d = value_model(v);
    let total = match obj_len(&v) {
        Some(n) => n,
        None => {
            return Err(SockError::InvalidConfig);
        },
    };
    let port_local = match get_u64_field(&v, "port_local") {
        Some(n) => port_from_u64(n)?,
        None => {
            return Err(SockError::InvalidConfig);
        },
    };
    let mut expected: usize = 1;
    let ip_local = match get_string_field(&v, "ip_local") {
        Some(s) => {
            expected = expected + 1;
            s
        },
        None => default_ip_local(),
    };
    let ghost known = Set::<Seq<char>>::empty().insert("port_local"@);
    let ghost present = (if str_field(d, "ip_local"@) is Some {
        known.insert("ip_local"@)
    } else {
        known
    });
    proof {
        reveal_strlit("port_local");
        reveal_strlit("ip_local");
        assert("port_local"@.len() == 10);
        assert("ip_local"@.len() == 8);
        assert(present.len() == expected);
        assert(present.subset_of(d->Obj_0.dom()));
    }
    if total != expected {
        proof {
            if tcp_server_schema_ok(d) {
                assert forall|k: Seq<char>| d->Obj_0.dom().contains(k) implies present.contains(
                    k,
                ) by {
                    assert(d->Obj_0.dom().contains(k));
                }
                assert(d->Obj_0.dom() =~= present);
            }
        }
        return Err(SockError::InvalidConfig);
    }
    proof {
        lemma_subset_same_len(present, d->Obj_0.dom());
        assert(tcp_server_schema_ok(d));
    }
    Ok(TcpServerConfig { ip_local, port_local })
}

/// Constructs TCP server endpoints: validates the configuration; the host
/// listens, accepts clients on a helper thread, and fans data in and out of
/// them.
pub struct TcpServerFactory;

impl TcpServerFactory {
    pub fn new() -> (r: Self) {
        TcpServerFactory
    }

    /// Validates a configuration payload for the host: accepted exactly
    /// when the payload matches the TCP server schema, with the document's
    /// configuration as the result.
    pub fn create_config(&self, params: &SocketParams) -> (r: Result<TcpServerConfig, SockError>)
        ensures
            match r {
                Ok(cfg) => doc_of(params@) matches Some(d) && tcp_server_schema_ok(d)
                    && tcp_server_config_matches(cfg, d),
                Err(e) => e == SockError::InvalidConfig && (doc_of(params@) matches Some(d)
                    ==> !tcp_server_schema_ok(d)),
            },
    {
        parse_tcp_server_config(params)
    }
}

} // verus!
