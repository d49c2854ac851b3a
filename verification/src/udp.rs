//! The UDP transport's configuration. The socket work (bind, connect, send,
//! receive) is host I/O; the schema validation over the configuration
//! payload is verified here. Address strings are validated by the host when
//! it binds, still at construction time.

use vstd::prelude::*;
use vstd::string::StringExecFns;

use crate::jsoncfg::{
    doc_of, get_string_field, get_u64_field, json_parse, lemma_subset_same_len, obj_len,
    port_from_u64, str_field, uint_field, value_model, JsonVal,
};
use crate::sock::{SockError, SocketParams};

verus! {

broadcast use vstd::set::group_set_axioms;

/// The default local address: every interface.
pub fn d_ip_local() -> (r: String)
    ensures
        r@ == "0.0.0.0"@,
{
    String::from_str("0.0.0.0")
}

/// The default local port: any free one.
pub fn d_port_local() -> (r: u16)
    ensures
        r == 0,
{
    0
}

/// Configuration for a UDP endpoint.
#[derive(Debug)]
pub struct UdpConfig {
    /// The local address to bind.
    pub ip_local: String,
    /// The peer address.
    pub ip_dst: String,
    /// The local port to bind.
    pub port_local: u16,
    /// The peer port.
    pub port_dst: u16,
}

/// Whether a parsed document matches the UDP schema: an object with a
/// string `ip_dst` and a sixteen-bit `port_dst`, optionally a string
/// `ip_local` and a sixteen-bit `port_local`, and no other field.
pub open spec fn udp_schema_ok(d: JsonVal) -> bool {
    &&& d is Obj
    &&& str_field(d, "ip_dst"@) is Some
    &&& (uint_field(d, "port_dst"@) matches Some(p) && p <= u16::MAX)
    &&& forall|k: Seq<char>|
        #[trigger] d->Obj_0.dom().contains(k) ==> k == "ip_dst"@ || k == "port_dst"@ || (k
            == "ip_local"@ && str_field(d, k) is Some) || (k == "port_local"@ && (uint_field(d, k)
            matches Some(q) && q <= u16::MAX))
}

/// The configuration a UDP schema document denotes: required fields as
/// given, absent optional fields at their defaults.
pub open spec fn udp_config_matches(cfg: UdpConfig, d: JsonVal) -> bool {
    &&& Some(cfg.ip_dst@) == str_field(d, "ip_dst"@)
    &&& Some(cfg.port_dst as u64) == uint_field(d, "port_dst"@)
    &&& cfg.ip_local@ == (if str_field(d, "ip_local"@) is Some {
        str_field(d, "ip_local"@).unwrap()
    } else {
        "0.0.0.0"@
    })
    &&& cfg.port_local as u64 == (if uint_field(d, "port_local"@) is Some {
        uint_field(d, "port_local"@).unwrap()
    } else {
        0
    })
}

/// Reads a UDP configuration out of its JSON document: accepted exactly
/// when the payload parses and matches the UDP schema, and the result then
/// carries the document's fields, with defaults for the absent optional
/// ones; everything else — not JSON, not an object, a missing or ill-typed
/// required field, an out-of-range port, an unknown field — is a
/// construction-time error.
pub fn parse_udp_config(params: &SocketParams) -> (r: Result<UdpConfig, SockError>)
    ensures
        match r {
            Ok(cfg) => doc_of(params@) matches Some(d) && udp_schema_ok(d) && udp_config_matches(
                cfg,
                d,
            ),
            Err(e) => e == SockError::InvalidConfig && (doc_of(params@) matches Some(d)
                ==> !udp_schema_ok(d)),
        },
{
    let v = json_parse(params.as_str())?;
    let ghost d = value_model(v);
    let total = match obj_len(&v) {
        Some(n) => n,
        None => {
            return Err(SockError::InvalidConfig);
        },
    };
    let ip_dst = match get_string_field(&v, "ip_dst") {
        Some(s) => s,
        None => {
            return Err(SockError::InvalidConfig);
        },
    };
    let port_dst = match get_u64_field(&v, "port_dst") {
        Some(n) => port_from_u64(n)?,
        None => {
            return Err(SockError::InvalidConfig);
        },
    };
    let mut expected: usize = 2;
    let ip_local = match get_string_field(&v, "ip_local") {
        Some(s) => {
            expected = expected + 1;
            s
        },
        None => d_ip_local(),
    };
    let port_local = match get_u64_field(&v, "port_local") {
        Some(n) => {
            expected = expected + 1;
            port_from_u64(n)?
        },
        None => d_port_local(),
    };
    let ghost known = Set::<Seq<char>>::empty().insert("ip_dst"@).insert("port_dst"@);
    let ghost present = (if str_field(d, "ip_local"@) is Some {
        known.insert("ip_local"@)
    } else {
        known
    });
    let ghost present = (if uint_field(d, "port_local"@) is Some {
        present.insert("port_local"@)
    } else {
        present
    });
    proof {
        reveal_strlit("ip_dst");
        reveal_strlit("port_dst");
        reveal_strlit("ip_local");
        reveal_strlit("port_local");
        assert("ip_dst"@.len() == 6);
        assert("port_dst"@.len() == 8);
        assert("ip_local"@.len() == 8);
        assert("port_local"@.len() == 10);
        assert("port_dst"@[0] == 'p' && "ip_local"@[0] == 'i');
        assert("port_dst"@ != "ip_local"@);
        assert(present.len() == expected);
        assert(present.subset_of(d->Obj_0.dom()));
    }
    if total != expected {
        proof {
            if udp_schema_ok(d) {
                assert forall|k: Seq<char>| d->Obj_0.dom().contains(k) implies present.contains(
                    k,
                ) by {
                    assert(d->Obj_0.dom().contains(k));
                }
                assert(d->Obj_0.dom() =~= present);
            }
        }
        return Err(SockError::InvalidConfig);
    }
    proof {
        lemma_subset_same_len(present, d->Obj_0.dom());
        assert(udp_schema_ok(d));
    }
    Ok(UdpConfig { ip_local, ip_dst, port_local, port_dst })
}

/// Constructs UDP endpoints: validates the configuration; the host binds and
/// connects the socket from the validated values.
pub struct SocketUDP {
    config: Option<UdpConfig>,
}

impl SocketUDP {
    pub fn new() -> (r: Self)
        ensures
            r.config_spec() is None,
    {
        SocketUDP { config: None }
    }

    /// The configuration the factory last validated.
    pub closed spec fn config_spec(&self) -> Option<UdpConfig> {
        self.config
    }

    /// Validates a configuration payload and keeps the result for the host
    /// to build the socket from: accepted exactly when the payload matches
    /// the UDP schema, and what is kept is the document's configuration.
    pub fn create_config(&mut self, params: &SocketParams) -> (r: Result<(), SockError>)
        ensures
            match r {
                Ok(_) => doc_of(params@) matches Some(d) && udp_schema_ok(d) && (final(self)
                    .config_spec() matches Some(cfg) && udp_config_matches(cfg, d)),
                Err(e) => e == SockError::InvalidConfig && (doc_of(params@) matches Some(d)
                    ==> !udp_schema_ok(d)) && final(self).config_spec() == old(self).config_spec(),
            },
    {
        let cfg = parse_udp_config(params)?;
        self.config = Some(cfg);
        Ok(())
    }

    /// The validated configuration, handed to the host.
    pub fn config(&self) -> (r: &Option<UdpConfig>)
        ensures
            r == self.config_spec(),
    {
        &self.config
    }
}

} // verus!
