//! The factory for test pattern generators: reads the JSON configuration
//! payload and constructs the generator endpoint. Acceptance is exact: a
//! payload is accepted iff it parses and matches the generator schema — a
//! pattern selection with the fields of its kind, the production cycle, an
//! optional iteration bound, and nothing else.

use vstd::prelude::*;

use crate::jsoncfg::{
    doc_of, get_string_field, get_u64_field, json_as_u64, json_get, json_parse,
    lemma_subset_same_len, obj_len, str_field, uint_field, value_model, JsonVal,
};
use crate::sock::{SockError, SocketFactory, SocketParams};
use crate::strconv;
use crate::testgen::{
    spec_pattern_size, testgen_from_config, SimpleTestGen, TestGenConfig, TestGenTypes,
};

verus! {

broadcast use vstd::set::group_set_axioms;

/// An object holds exactly two fields.
pub open spec fn only_fields2(d: JsonVal, k1: Seq<char>, k2: Seq<char>) -> bool {
    forall|k: Seq<char>| #[trigger] d->Obj_0.dom().contains(k) ==> k == k1 || k == k2
}

/// An object holds exactly three fields.
pub open spec fn only_fields3(d: JsonVal, k1: Seq<char>, k2: Seq<char>, k3: Seq<char>) -> bool {
    forall|k: Seq<char>| #[trigger] d->Obj_0.dom().contains(k) ==> k == k1 || k == k2 || k == k3
}

/// An object with exactly two distinct fields present and no others counts
/// two fields, and a count of two with those fields present admits no
/// others.
proof fn lemma_strict2(d: JsonVal, k1: Seq<char>, k2: Seq<char>)
    requires
        d is Obj,
        d->Obj_0.dom().finite(),
        d->Obj_0.contains_key(k1),
        d->Obj_0.contains_key(k2),
        k1 != k2,
    ensures
        d->Obj_0.dom().len() == 2 ==> only_fields2(d, k1, k2),
        only_fields2(d, k1, k2) ==> d->Obj_0.dom().len() == 2,
{
    let s = Set::<Seq<char>>::empty().insert(k1).insert(k2);
    assert(s.len() == 2);
    assert(s.subset_of(d->Obj_0.dom()));
    if d->Obj_0.dom().len() == 2 {
        lemma_subset_same_len(s, d->Obj_0.dom());
    }
    if only_fields2(d, k1, k2) {
        assert forall|k: Seq<char>| d->Obj_0.dom().contains(k) implies s.contains(k) by {
            assert(d->Obj_0.dom().contains(k));
        }
        assert(d->Obj_0.dom() =~= s);
    }
}

/// The three-field form of the strictness argument.
proof fn lemma_strict3(d: JsonVal, k1: Seq<char>, k2: Seq<char>, k3: Seq<char>)
    requires
        d is Obj,
        d->Obj_0.dom().finite(),
        d->Obj_0.contains_key(k1),
        d->Obj_0.contains_key(k2),
        d->Obj_0.contains_key(k3),
        k1 != k2,
        k1 != k3,
        k2 != k3,
    ensures
        d->Obj_0.dom().len() == 3 ==> only_fields3(d, k1, k2, k3),
        only_fields3(d, k1, k2, k3) ==> d->Obj_0.dom().len() == 3,
{
    let s = Set::<Seq<char>>::empty().insert(k1).insert(k2).insert(k3);
    assert(s.len() == 3);
    assert(s.subset_of(d->Obj_0.dom()));
    if d->Obj_0.dom().len() == 3 {
        lemma_subset_same_len(s, d->Obj_0.dom());
    }
    if only_fields3(d, k1, k2, k3) {
        assert forall|k: Seq<char>| d->Obj_0.dom().contains(k) implies s.contains(k) by {
            assert(d->Obj_0.dom().contains(k));
        }
        assert(d->Obj_0.dom() =~= s);
    }
}

/// The field names a pattern object can carry are pairwise distinct.
proof fn lemma_pattern_keys_distinct()
    ensures
        "type"@ != "data"@,
        "type"@ != "size"@,
        "data"@ != "size"@,
        "type"@ != "blocks"@,
        "type"@ != "block_size"@,
        "blocks"@ != "block_size"@,
        "type"@ != "path"@,
{
    reveal_strlit("type");
    reveal_strlit("data");
    reveal_strlit("size");
    reveal_strlit("blocks");
    reveal_strlit("block_size");
    reveal_strlit("path");
    assert("type"@.len() == 4 && "data"@.len() == 4 && "size"@.len() == 4 && "blocks"@.len() == 6
        && "block_size"@.len() == 10 && "path"@.len() == 4);
    assert("type"@[0] == 't' && "data"@[0] == 'd' && "size"@[0] == 's' && "path"@[0] == 'p');
}

/// The fields one pattern kind requires, by its type tag: the tag decides
/// which fields must be present, their types and side conditions, and the
/// object carries no field beyond them.
pub open spec fn pattern_variant_ok(d: JsonVal, t: Seq<char>) -> bool {
    if t == "static"@ {
        &&& (str_field(d, "data"@) matches Some(h) && strconv::hex_byte_str_valid(h))
        &&& (uint_field(d, "size"@) matches Some(n) && n <= usize::MAX)
        &&& only_fields3(d, "type"@, "data"@, "size"@)
    } else if t == "seq"@ {
        &&& (uint_field(d, "size"@) matches Some(n) && n <= usize::MAX)
        &&& only_fields2(d, "type"@, "size"@)
    } else if t == "inc"@ {
        &&& (str_field(d, "data"@) matches Some(h) && strconv::hex_byte_str_valid(h))
        &&& (uint_field(d, "size"@) matches Some(n) && n <= usize::MAX)
        &&& only_fields3(d, "type"@, "data"@, "size"@)
    } else if t == "blocks"@ {
        &&& (str_field(d, "blocks"@) matches Some(h) && strconv::hex_str_valid(h))
        &&& (uint_field(d, "block_size"@) matches Some(n) && n <= usize::MAX)
        &&& only_fields3(d, "type"@, "blocks"@, "block_size"@)
    } else if t == "text_str"@ {
        &&& str_field(d, "data"@) is Some
        &&& only_fields2(d, "type"@, "data"@)
    } else if t == "hex_str"@ {
        &&& (str_field(d, "data"@) matches Some(h) && strconv::hex_str_valid(h))
        &&& only_fields2(d, "type"@, "data"@)
    } else if t == "file"@ {
        &&& str_field(d, "path"@) is Some
        &&& only_fields2(d, "type"@, "path"@)
    } else {
        false
    }
}

/// Whether a parsed document matches one pattern selection.
pub open spec fn pattern_schema_ok(d: JsonVal) -> bool {
    &&& d is Obj
    &&& (str_field(d, "type"@) matches Some(t) && pattern_variant_ok(d, t))
}

/// The pattern a schema document denotes, field by field; hex-encoded
/// fields carry the decoded bytes.
pub open spec fn pattern_matches_doc(pat: TestGenTypes, d: JsonVal) -> bool {
    match pat {
        TestGenTypes::Static { data, size } => {
            &&& str_field(d, "type"@) == Some("static"@)
            &&& (str_field(d, "data"@) matches Some(h) && data == strconv::hex_byte(h[2], h[3]))
            &&& Some(size as u64) == uint_field(d, "size"@)
        },
        TestGenTypes::Sequence { size } => {
            &&& str_field(d, "type"@) == Some("seq"@)
            &&& Some(size as u64) == uint_field(d, "size"@)
        },
        TestGenTypes::Increment { data, size } => {
            &&& str_field(d, "type"@) == Some("inc"@)
            &&& (str_field(d, "data"@) matches Some(h) && data == strconv::hex_byte(h[2], h[3]))
            &&& Some(size as u64) == uint_field(d, "size"@)
        },
        TestGenTypes::Blocks { blocks, block_size } => {
            &&& str_field(d, "type"@) == Some("blocks"@)
            &&& (str_field(d, "blocks"@) matches Some(h) && blocks@ == strconv::hex_decoded(h))
            &&& Some(block_size as u64) == uint_field(d, "block_size"@)
        },
        TestGenTypes::TextString { data } => {
            &&& str_field(d, "type"@) == Some("text_str"@)
            &&& Some(data@) == str_field(d, "data"@)
        },
        TestGenTypes::HexString { data } => {
            &&& str_field(d, "type"@) == Some("hex_str"@)
            &&& (str_field(d, "data"@) matches Some(h) && data@ == strconv::hex_decoded(h))
        },
        TestGenTypes::File { path } => {
            &&& str_field(d, "type"@) == Some("file"@)
            &&& Some(path@) == str_field(d, "path"@)
        },
    }
}

/// Reads one test pattern selection out of its JSON object: a "type" tag
/// and the fields of that pattern kind, no others. Accepted exactly when
/// the object matches the pattern schema; the returned pattern carries the
/// document's fields, hex-encoded ones decoded to plain bytes.
fn parse_pattern(v: &serde_json::Value) -> (r: Result<TestGenTypes, SockError>)
    ensures
        match r {
            Ok(pat) => pattern_schema_ok(value_model(*v)) && pattern_matches_doc(
                pat,
                value_model(*v),
            ),
            Err(e) => e == SockError::InvalidConfig && !pattern_schema_ok(value_model(*v)),
        },
{
    let ghost d = value_model(*v);
    let total = match obj_len(v) {
        Some(n) => n,
        None => {
            return Err(SockError::InvalidConfig);
        },
    };
    let tag = match get_string_field(v, "type") {
        Some(t) => t,
        None => {
            return Err(SockError::InvalidConfig);
        },
    };
    proof {
        lemma_pattern_keys_distinct();
    }
    if crate::jsoncfg::str_is(&tag, "static") {
        let data_s = match get_string_field(v, "data") {
            Some(s) => s,
            None => {
                return Err(SockError::InvalidConfig);
            },
        };
        let data = strconv::parse_hex_byte_prefixed(data_s.as_str())?;
        let size_u = match get_u64_field(v, "size") {
            Some(s) => s,
            None => {
                return Err(SockError::InvalidConfig);
            },
        };
        let size = crate::jsoncfg::u64_to_usize(size_u)?;
        proof {
            lemma_strict3(d, "type"@, "data"@, "size"@);
        }
        if total != 3 {
            return Err(SockError::InvalidConfig);
        }
        Ok(TestGenTypes::Static { data, size })
    } else if crate::jsoncfg::str_is(&tag, "seq") {
        let size_u = match get_u64_field(v, "size") {
            Some(s) => s,
            None => {
                return Err(SockError::InvalidConfig);
            },
        };
        let size = crate::jsoncfg::u64_to_usize(size_u)?;
        proof {
            lemma_strict2(d, "type"@, "size"@);
        }
        if total != 2 {
            return Err(SockError::InvalidConfig);
        }
        Ok(TestGenTypes::Sequence { size })
    } else if crate::jsoncfg::str_is(&tag, "inc") {
        let data_s = match get_string_field(v, "data") {
            Some(s) => s,
            None => {
                return Err(SockError::InvalidConfig);
            },
        };
        let data = strconv::parse_hex_byte_prefixed(data_s.as_str())?;
        let size_u = match get_u64_field(v, "size") {
            Some(s) => s,
            None => {
                return Err(SockError::InvalidConfig);
            },
        };
        let size = crate::jsoncfg::u64_to_usize(size_u)?;
        proof {
            lemma_strict3(d, "type"@, "data"@, "size"@);
        }
        if total != 3 {
            return Err(SockError::InvalidConfig);
        }
        Ok(TestGenTypes::Increment { data, size })
    } else if crate::jsoncfg::str_is(&tag, "blocks") {
        let blocks_s = match get_string_field(v, "blocks") {
            Some(s) => s,
            None => {
                return Err(SockError::InvalidConfig);
            },
        };
        let blocks = strconv::hex_decode(blocks_s.as_str())?;
        let bs_u = match get_u64_field(v, "block_size") {
            Some(s) => s,
            None => {
                return Err(SockError::InvalidConfig);
            },
        };
        let block_size = crate::jsoncfg::u64_to_usize(bs_u)?;
        proof {
            lemma_strict3(d, "type"@, "blocks"@, "block_size"@);
        }
        if total != 3 {
            return Err(SockError::InvalidConfig);
        }
        Ok(TestGenTypes::Blocks { blocks, block_size })
    } else if crate::jsoncfg::str_is(&tag, "text_str") {
        let data = match get_string_field(v, "data") {
            Some(s) => s,
            None => {
                return Err(SockError::InvalidConfig);
            },
        };
        proof {
            lemma_strict2(d, "type"@, "data"@);
        }
        if total != 2 {
            return Err(SockError::InvalidConfig);
        }
        Ok(TestGenTypes::TextString { data })
    } else if crate::jsoncfg::str_is(&tag, "hex_str") {
        let data_s = match get_string_field(v, "data") {
            Some(s) => s,
            None => {
                return Err(SockError::InvalidConfig);
            },
        };
        let data = strconv::hex_decode(data_s.as_str())?;
        proof {
            lemma_strict2(d, "type"@, "data"@);
        }
        if total != 2 {
            return Err(SockError::InvalidConfig);
        }
        Ok(TestGenTypes::HexString { data })
    } else if crate::jsoncfg::str_is(&tag, "file") {
        let path = match get_string_field(v, "path") {
            Some(s) => s,
            None => {
                return Err(SockError::InvalidConfig);
            },
        };
        proof {
            lemma_strict2(d, "type"@, "path"@);
        }
        if total != 2 {
            return Err(SockError::InvalidConfig);
        }
        Ok(TestGenTypes::File { path })
    } else {
        Err(SockError::InvalidConfig)
    }
}

/// Whether a parsed document matches the generator schema: a pattern
/// selection object under `pat`, a `cycle` integer, optionally an
/// `iter_num` integer, and no other field.
pub open spec fn testgen_schema_ok(d: JsonVal) -> bool {
    &&& d is Obj
    &&& uint_field(d, "cycle"@) is Some
    &&& d->Obj_0.contains_key("pat"@) && pattern_schema_ok(d->Obj_0["pat"@])
    &&& forall|k: Seq<char>|
        #[trigger] d->Obj_0.dom().contains(k) ==> k == "pat"@ || k == "cycle"@ || (k == "iter_num"@
            && uint_field(d, k) is Some)
}

/// The configuration a generator schema document denotes.
pub open spec fn testgen_config_matches(cfg: TestGenConfig, d: JsonVal) -> bool {
    &&& Some(cfg.cycle) == uint_field(d, "cycle"@)
    &&& cfg.iter_num == uint_field(d, "iter_num"@)
    &&& pattern_matches_doc(cfg.pat, d->Obj_0["pat"@])
}

/// The field names a generator configuration can carry are pairwise
/// distinct.
proof fn lemma_testgen_keys_distinct()
    ensures
        "pat"@ != "cycle"@,
        "pat"@ != "iter_num"@,
        "cycle"@ != "iter_num"@,
{
    reveal_strlit("pat");
    reveal_strlit("cycle");
    reveal_strlit("iter_num");
    assert("pat"@.len() == 3 && "cycle"@.len() == 5 && "iter_num"@.len() == 8);
}

/// Reads a test generator configuration out of its JSON document: accepted
/// exactly when the payload parses and matches the generator schema, and
/// the result then carries the document's pattern, cycle and optional
/// iteration bound; everything else — not JSON, not an object, a missing or
/// ill-typed field, a malformed pattern, an unknown field — is a
/// construction-time error.
pub fn parse_testgen_config(params: &str) -> (r: Result<TestGenConfig, SockError>)
    ensures
        match r {
            Ok(cfg) => doc_of(params@) matches Some(d) && testgen_schema_ok(d)
                && testgen_config_matches(cfg, d),
            Err(e) => e == SockError::InvalidConfig && (doc_of(params@) matches Some(d)
                ==> !testgen_schema_ok(d)),
        },
{
    let v = json_parse(params)?;
    let ghost d = value_model(v);
    let total = match obj_len(&v) {
        Some(n) => n,
        None => {
            return Err(SockError::InvalidConfig);
        },
    };
    let cycle = match get_u64_field(&v, "cycle") {
        Some(c) => c,
        None => {
            return Err(SockError::InvalidConfig);
        },
    };
    let iter_num = match json_get(&v, "iter_num") {
        Some(f) => match json_as_u64(f) {
            Some(n) => Some(n),
            None => {
                proof {
                    lemma_testgen_keys_distinct();
                    assert(d->Obj_0.dom().contains("iter_num"@));
                    assert(!testgen_schema_ok(d));
                }
                return Err(SockError::InvalidConfig);
            },
        },
        None => None,
    };
    let pat_v = match json_get(&v, "pat") {
        Some(p) => p,
        None => {
            return Err(SockError::InvalidConfig);
        },
    };
    let ghost known = Set::<Seq<char>>::empty().insert("pat"@).insert("cycle"@);
    let ghost present = (if uint_field(d, "iter_num"@) is Some {
        known.insert("iter_num"@)
    } else {
        known
    });
    let expected: usize = if iter_num.is_some() {
        3
    } else {
        2
    };
    proof {
        lemma_testgen_keys_distinct();
        assert(present.len() == expected);
        assert(present.subset_of(d->Obj_0.dom()));
    }
    if total != expected {
        proof {
            if testgen_schema_ok(d) {
                assert forall|k: Seq<char>| d->Obj_0.dom().contains(k) implies present.contains(
                    k,
                ) by {
                    assert(d->Obj_0.dom().contains(k));
                }
                assert(d->Obj_0.dom() =~= present);
            }
        }
        return Err(SockError::InvalidConfig);
    }
    let pat = parse_pattern(pat_v)?;
    proof {
        lemma_subset_same_len(present, d->Obj_0.dom());
        assert(testgen_schema_ok(d));
    }
    Ok(TestGenConfig { pat, cycle, iter_num })
}

/// None of the pattern type tags is the file tag except the file kind's
/// own.
proof fn lemma_tags_not_file()
    ensures
        "static"@ != "file"@,
        "seq"@ != "file"@,
        "inc"@ != "file"@,
        "blocks"@ != "file"@,
        "text_str"@ != "file"@,
        "hex_str"@ != "file"@,
{
    reveal_strlit("static");
    reveal_strlit("seq");
    reveal_strlit("inc");
    reveal_strlit("blocks");
    reveal_strlit("text_str");
    reveal_strlit("hex_str");
    reveal_strlit("file");
    assert("static"@.len() == 6 && "seq"@.len() == 3 && "inc"@.len() == 3 && "blocks"@.len() == 6
        && "text_str"@.len() == 8 && "hex_str"@.len() == 7 && "file"@.len() == 4);
}

/// Whether the pattern a schema document denotes fits the address space.
/// Only the kinds whose length derives from data — blocks, text, hex — can
/// outgrow it; the sized kinds are bounded by the schema already.
pub open spec fn doc_pattern_fits(d: JsonVal) -> bool {
    let t = str_field(d, "type"@);
    &&& (t == Some("blocks"@) ==> (match (uint_field(d, "block_size"@), str_field(d, "blocks"@)) {
        (Some(bs), Some(h)) => (bs as int) * strconv::hex_decoded(h).len() <= usize::MAX,
        _ => true,
    }))
    &&& (t == Some("text_str"@) ==> (match str_field(d, "data"@) {
        Some(txt) => vstd::utf8::encode_utf8(txt).len() <= usize::MAX,
        None => true,
    }))
    &&& (t == Some("hex_str"@) ==> (match str_field(d, "data"@) {
        Some(h) => strconv::hex_decoded(h).len() <= usize::MAX,
        None => true,
    }))
}

/// Constructs test pattern generators from JSON configuration payloads.
///
/// A file pattern needs the host to load the file first: the factory itself
/// performs no I/O, so it reports such a configuration as unsupported, and
/// the host constructs the generator through `testgen_from_config` with
/// the loaded bytes.
pub struct TestGenFactory {
    next: u32,
}

impl TestGenFactory {
    pub fn new() -> (r: Self)
        ensures
            r.next_id() == 0,
    {
        TestGenFactory { next: 0 }
    }

    /// A factory whose identity counter starts at the given value, so a
    /// host that uses several factories of one kind can keep their
    /// identities disjoint.
    pub fn with_first_id(start: u32) -> (r: Self)
        ensures
            r.next_id() == start,
    {
        TestGenFactory { next: start }
    }
}

impl SocketFactory for TestGenFactory {
    type Sock = SimpleTestGen;

    closed spec fn next_id(&self) -> u32 {
        self.next
    }

    /// Accepted exactly when the payload matches the generator schema, the
    /// pattern is not the file kind (which the host builds after loading the
    /// file), and the denoted pattern fits the address space; a file pattern
    /// in a well-formed payload is unsupported here, everything else
    /// malformed is a configuration error.
    fn create_sock(&mut self, params: &SocketParams) -> (r: Result<SimpleTestGen, SockError>)
        ensures
            r is Ok ==> (doc_of(params@) matches Some(d) && testgen_schema_ok(d) && str_field(
                d->Obj_0["pat"@],
                "type"@,
            ) != Some("file"@)),
            (doc_of(params@) matches Some(d) && testgen_schema_ok(d) && str_field(
                d->Obj_0["pat"@],
                "type"@,
            ) != Some("file"@) && doc_pattern_fits(d->Obj_0["pat"@])) ==> r is Ok,
            r matches Err(e) ==> (e == SockError::InvalidConfig || e == SockError::Unsupported),
            (r matches Err(e) && e == SockError::Unsupported) ==> (doc_of(params@) matches Some(d)
                && testgen_schema_ok(d) && str_field(d->Obj_0["pat"@], "type"@) == Some("file"@)),
            (doc_of(params@) matches Some(d) ==> !testgen_schema_ok(d)) ==> (r matches Err(e) && e
                == SockError::InvalidConfig),
    {
        let cfg = parse_testgen_config(params.as_str())?;
        if let TestGenTypes::File { .. } = &cfg.pat {
            return Err(SockError::Unsupported);
        }
        let ghost gcfg = cfg;
        proof {
            lemma_tags_not_file();
        }
        let s = match testgen_from_config(cfg, Vec::new(), self.next) {
            Ok(s) => s,
            Err(e) => {
                proof {
                    let d = doc_of(params@).unwrap();
                    let pd = d->Obj_0["pat"@];
                    if doc_pattern_fits(pd) {
                        assert(spec_pattern_size(gcfg.pat, Seq::<u8>::empty()) <= usize::MAX);
                        assert(false);
                    }
                }
                return Err(e);
            },
        };
        self.next = self.next + 1;
        Ok(s)
    }
}

} // verus!
