use polysock::sock::{SimpleSock, SockError, SockInfo, SocketFactory};
use polysock::testgen::{testgen_from_config, TestGenConfig, TestGenTypes};
use polysock::testgen_factory::{parse_testgen_config, TestGenFactory};
use polysock::transfer::SocketWrapper;

fn gen_from(cfg: &str) -> SocketWrapper<polysock::testgen::SimpleTestGen> {
    let mut factory = TestGenFactory::new();
    let sock = factory.create_sock(&cfg.to_string()).unwrap();
    SocketWrapper::new(sock).open().unwrap()
}

#[test]
fn parse_config() {
    let cfg = "{ \"pat\": { \"type\": \"static\", \"data\": \"0xf0\", \"size\": 10 }, \"cycle\": 1000 }";
    let cfg: TestGenConfig = parse_testgen_config(cfg).unwrap();
    println!("{:?}", cfg);
}

#[test]
fn static_pattern() {
    let mut w = gen_from(
        "{ \"pat\": { \"type\": \"static\", \"data\": \"0xf0\", \"size\": 10 }, \"cycle\": 1000 }",
    );
    assert_eq!(w.read_all().unwrap(), vec![0xf0u8; 10]);
    // The pattern restarts: the next drain yields another iteration.
    assert_eq!(w.read_all().unwrap(), vec![0xf0u8; 10]);
}

#[test]
fn sequence_pattern() {
    let mut w = gen_from("{ \"pat\": { \"type\": \"seq\", \"size\": 5 }, \"cycle\": 0 }");
    assert_eq!(w.read_all().unwrap(), vec![0, 1, 2, 3, 4]);
    assert_eq!(w.read_all().unwrap(), vec![0, 1, 2, 3, 4]);
}

#[test]
fn sequence_continues_across_partial_reads() {
    let mut w = gen_from("{ \"pat\": { \"type\": \"seq\", \"size\": 5 }, \"cycle\": 0 }");
    assert_eq!(w.generic_read(3).unwrap(), vec![0, 1, 2]);
    // The rest of the iteration is shorter than the request: a short read.
    assert_eq!(w.generic_read(3).unwrap(), vec![3, 4]);
    // After the reset the counter starts over.
    assert_eq!(w.generic_read(3).unwrap(), vec![0, 1, 2]);
}

#[test]
fn increment_pattern() {
    let mut w = gen_from(
        "{ \"pat\": { \"type\": \"inc\", \"data\": \"0xf0\", \"size\": 3 }, \"cycle\": 10000 }",
    );
    assert_eq!(w.read_all().unwrap(), vec![0xf0u8; 3]);
    assert_eq!(w.read_all().unwrap(), vec![0xf1u8; 3]);
    assert_eq!(w.read_all().unwrap(), vec![0xf2u8; 3]);
}

#[test]
fn blocks_pattern() {
    let mut w = gen_from(
        "{ \"pat\": { \"type\": \"blocks\", \"blocks\": \"00fdea\", \"block_size\": 2 }, \"cycle\": 0 }",
    );
    assert_eq!(w.read_all().unwrap(), vec![0x00, 0x00, 0xfd, 0xfd, 0xea, 0xea]);
}

#[test]
fn text_string_pattern() {
    let mut w = gen_from("{ \"pat\": { \"type\": \"text_str\", \"data\": \"AB\" }, \"cycle\": 0 }");
    assert_eq!(w.read_all().unwrap(), vec![0x41, 0x42]);
}

#[test]
fn hex_string_pattern() {
    let mut w = gen_from(
        "{ \"pat\": { \"type\": \"hex_str\", \"data\": \"55ff67aaaa\" }, \"cycle\": 10000 }",
    );
    assert_eq!(w.read_all().unwrap(), vec![0x55, 0xff, 0x67, 0xaa, 0xaa]);
}

#[test]
fn file_pattern_uses_loaded_bytes() {
    let cfg = TestGenConfig {
        pat: TestGenTypes::File { path: "pattern.bin".to_string() },
        cycle: 0,
        iter_num: None,
    };
    let sock = testgen_from_config(cfg, vec![7, 8, 9], 0).unwrap();
    let mut w = SocketWrapper::new(sock).open().unwrap();
    assert_eq!(w.read_all().unwrap(), vec![7, 8, 9]);
}

#[test]
fn file_pattern_needs_the_host() {
    let mut factory = TestGenFactory::new();
    let cfg = "{ \"pat\": { \"type\": \"file\", \"path\": \"p.bin\" }, \"cycle\": 0 }".to_string();
    assert_eq!(factory.create_sock(&cfg).err(), Some(SockError::Unsupported));
}

#[test]
fn iteration_limit_exhausts() {
    let mut w = gen_from(
        "{ \"pat\": { \"type\": \"hex_str\", \"data\": \"1122334455aaddff\" }, \"cycle\": 10000, \"iter_num\": 10 }",
    );
    let expected = vec![0x11, 0x22, 0x33, 0x44, 0x55, 0xaa, 0xdd, 0xff];
    // The bound counts completed iterations; production stops once the
    // count exceeds it.
    for _ in 0..11 {
        assert_eq!(w.read_all().unwrap(), expected);
    }
    assert!(w.read_all().unwrap().is_empty());
    assert!(w.read_all().unwrap().is_empty());
}

#[test]
fn seeded_generator_factory() {
    let mut factory = TestGenFactory::with_first_id(7);
    let cfg = "{ \"pat\": { \"type\": \"seq\", \"size\": 4 }, \"cycle\": 0 }".to_string();
    assert_eq!(factory.create_sock(&cfg).unwrap().get_id(), 7);
}

#[test]
fn generator_identity() {
    let mut factory = TestGenFactory::new();
    let cfg = "{ \"pat\": { \"type\": \"seq\", \"size\": 4 }, \"cycle\": 0 }".to_string();
    let first = factory.create_sock(&cfg).unwrap();
    let second = factory.create_sock(&cfg).unwrap();
    assert_eq!(first.get_type_name(), "test-gen");
    assert_eq!(first.get_id(), 0);
    assert_eq!(second.get_id(), 1);
    assert_eq!(second.get_description(), "test-gen1");
}

#[test]
fn malformed_configs_are_rejected() {
    let cases = [
        "",
        "not json",
        "[1, 2]",
        "{ \"cycle\": 1000 }",
        "{ \"pat\": { \"type\": \"seq\", \"size\": 5 } }",
        "{ \"pat\": { \"type\": \"nosuch\", \"size\": 5 }, \"cycle\": 0 }",
        "{ \"pat\": { \"type\": \"seq\", \"size\": 5, \"extra\": 1 }, \"cycle\": 0 }",
        "{ \"pat\": { \"type\": \"seq\", \"size\": 5 }, \"cycle\": 0, \"surplus\": true }",
        "{ \"pat\": { \"type\": \"seq\", \"size\": -1 }, \"cycle\": 0 }",
        "{ \"pat\": { \"type\": \"static\", \"data\": \"f0\", \"size\": 1 }, \"cycle\": 0 }",
        "{ \"pat\": { \"type\": \"static\", \"data\": \"0xzz\", \"size\": 1 }, \"cycle\": 0 }",
        "{ \"pat\": { \"type\": \"blocks\", \"blocks\": \"00f\", \"block_size\": 2 }, \"cycle\": 0 }",
        "{ \"pat\": { \"type\": \"seq\", \"size\": \"5\" }, \"cycle\": 0 }",
        "{ \"pat\": { \"type\": \"seq\", \"size\": 5 }, \"cycle\": \"0\" }",
    ];
    for cfg in cases {
        assert_eq!(
            parse_testgen_config(cfg).unwrap_err(),
            SockError::InvalidConfig,
            "config {:?}",
            cfg
        );
    }
}

#[test]
fn generator_swallows_writes() {
    let mut factory = TestGenFactory::new();
    let mut sock = factory
        .create_sock(&"{ \"pat\": { \"type\": \"seq\", \"size\": 4 }, \"cycle\": 0 }".to_string())
        .unwrap();
    sock.open().unwrap();
    assert_eq!(sock.write(&[1, 2, 3], 3), Ok(()));
}

#[test]
fn chunk_sized_pattern_drains_without_hanging() {
    // One pattern iteration is exactly the drain chunk size: the drain
    // returns it after one extra, empty read, and does not spin.
    let mut w = gen_from("{ \"pat\": { \"type\": \"seq\", \"size\": 1024 }, \"cycle\": 0 }");
    let expected: Vec<u8> = (0..1024).map(|i| (i % 256) as u8).collect();
    assert_eq!(w.read_all().unwrap(), expected);
    assert_eq!(w.read_all().unwrap(), expected);
}

#[test]
fn zero_sized_pattern_yields_nothing() {
    let mut w = gen_from("{ \"pat\": { \"type\": \"static\", \"data\": \"0x55\", \"size\": 0 }, \"cycle\": 0 }");
    assert!(w.read_all().unwrap().is_empty());
}
