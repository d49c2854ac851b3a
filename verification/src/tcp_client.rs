//! The TCP client transport's configuration. Connecting, reading and writing
//! the stream are host I/O; the schema validation over the configuration
//! payload is verified here.

use vstd::prelude::*;

use crate::jsoncfg::{
    doc_of, get_string_field, json_parse, lemma_subset_same_len, obj_len, str_field, value_model,
    JsonVal,
};
use crate::sock::{SockError, SocketParams};
use crate::strconv;
use crate::strconv::{dec_digits_part, dec_val, u16_str_valid};

verus! {

broadcast use vstd::set::group_set_axioms;

/// The default peer port when the configuration names none.
pub fn default_port() -> (r: u16)
    ensures
        r == 0,
{
    0
}

/// Configuration for a TCP client endpoint.
#[derive(Debug)]
pub struct TcpClientConfig {
    /// The peer address.
    pub ip_dst: String,
    /// The peer port, written as a decimal string in the payload.
    pub port_dst: u16,
}

/// Whether a parsed document matches the TCP client schema: an object with
/// a string `ip_dst`, optionally a `port_dst` that is a decimal string
/// fitting sixteen bits, and no other field.
pub open spec fn tcp_client_schema_ok(d: JsonVal) -> bool {
    &&& d is Obj
    &&& str_field(d, "ip_dst"@) is Some
    &&& forall|k: Seq<char>|
        #[trigger] d->Obj_0.dom().contains(k) ==> k == "ip_dst"@ || (k == "port_dst"@ && (
        str_field(d, k) matches Some(s) && u16_str_valid(s)))
}

/// The configuration a TCP client schema document denotes: the peer address
/// as given, the peer port read from its decimal string, or the default
/// when absent.
pub open spec fn tcp_client_config_matches(cfg: TcpClientConfig, d: JsonVal) -> bool {
    &&& Some(cfg.ip_dst@) == str_field(d, "ip_dst"@)
    &&& cfg.port_dst as nat == (if str_field(d, "port_dst"@) is Some {
        dec_val(dec_digits_part(str_field(d, "port_dst"@).unwrap()))
    } else {
        0
    })
}

/// Reads a TCP client configuration out of its JSON document: accepted
/// exactly when the payload parses and matches the TCP client schema, and
/// the result then carries the document's fields, the port defaulting when
/// absent; everything else is a construction-time error.
pub fn parse_tcp_client_config(params: &SocketParams) -> (r: Result<TcpClientConfig, SockError>)
    ensures
        match r {
            Ok(cfg) => doc_of(params@) matches Some(d) && tcp_client_schema_ok(d)
                && tcp_client_config_matches(cfg, d),
            Err(e) => e == SockError::InvalidConfig && (doc_of(params@) matches Some(d)
                ==> !tcp_client_schema_ok(d)),
        },
{
    let v = json_parse(params.as_str())?;
    let ghost d = value_model(v);
    let total = match obj_len(&v) {
        Some(n) => n,
        None => {
            return Err(SockError::InvalidConfig);
        },
    };
    let ip_dst = match get_string_field(&v, "ip_dst") {
        Some(s) => s,
        None => {
            return Err(SockError::InvalidConfig);
        },
    };
    let mut expected: usize = 1;
    let port_dst = match get_string_field(&v, "port_dst") {
        Some(s) => {
            expected = expected + 1;
            match strconv::string_to_u16(s.as_str()) {
                Ok(p) => p,
                Err(e) => {
                    proof {
                        reveal_strlit("ip_dst");
                        reveal_strlit("port_dst");
                        assert("ip_dst"@.len() == 6 && "port_dst"@.len() == 8);
                        assert(d->Obj_0.dom().contains("port_dst"@));
                        assert(!tcp_client_schema_ok(d));
                    }
                    return Err(e);
                },
            }
        },
        None => default_port(),
    };
    let ghost known = Set::<Seq<char>>::empty().insert("ip_dst"@);
    let ghost present = (if str_field(d, "port_dst"@) is Some {
        known.insert("port_dst"@)
    } else {
        known
    });
    proof {
        reveal_strlit("ip_dst");
        reveal_strlit("port_dst");
        assert("ip_dst"@.len() == 6);
        assert("port_dst"@.len() == 8);
        assert(present.len() == expected);
        assert(present.subset_of(d->Obj_0.dom()));
    }
    if total != expected {
        proof {
            if tcp_client_schema_ok(d) {
                assert forall|k: Seq<char>| d->Obj_0.dom().contains(k) implies present.contains(
                    k,
                ) by {
                    assert(d->Obj_0.dom().contains(k));
                }
                assert(d->Obj_0.dom() =~= present);
            }
        }
        return Err(SockError::InvalidConfig);
    }
    proof {
        lemma_subset_same_len(present, d->Obj_0.dom());
        assert(tcp_client_schema_ok(d));
    }
    Ok(TcpClientConfig { ip_dst, port_dst })
}

/// Constructs TCP client endpoints: validates the configuration; the host
/// connects the stream from the validated values. The endpoint is blocking
/// by default.
pub struct TcpClientFactory;

impl TcpClientFactory {
    pub fn new() -> (r: Self) {
        TcpClientFactory
    }

    /// Validates a configuration payload for the host: accepted exactly
    /// when the payload matches the TCP client schema, with the document's
    /// configuration as the result.
    pub fn create_config(&self, params: &SocketParams) -> (r: Result<TcpClientConfig, SockError>)
        ensures
            match r {
                Ok(cfg) => doc_of(params@) matches Some(d) && tcp_client_schema_ok(d)
                    && tcp_client_config_matches(cfg, d),
                Err(e) => e == SockError::InvalidConfig && (doc_of(params@) matches Some(d)
                    ==> !tcp_client_schema_ok(d)),
            },
    {
        parse_tcp_client_config(params)
    }
}

} // verus!
