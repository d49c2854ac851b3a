use polysock::decorators::{
    TraceCanonicalDecorator, TraceInfoDecorator, TraceInfoDecoratorFactory, TraceRawDecorator,
    TracedFactory, TracedSock,
};
use polysock::manager::{relay_bidir_step, relay_step, RelayState, SocketManager};
use polysock::membuf::{MemoryFactory, MemorySock};
use polysock::sock::{SimpleSock, SockBlockCtl, SockInfo, SocketFactory};
use polysock::testgen_factory::TestGenFactory;
use polysock::transfer::SocketWrapper;

fn opened_mem(id: u32, pending: &[u8]) -> SocketWrapper<MemorySock> {
    let mut sock = MemorySock::new(id);
    sock.push_bytes(pending);
    SocketWrapper::new(sock).open().unwrap()
}

fn echo_once(data: &[u8]) -> Vec<u8> {
    let mut input = opened_mem(0, data);
    let mut output = opened_mem(1, &[]);
    let st = relay_step(&mut input, &mut output, true);
    assert_eq!(st, RelayState::Running);
    output.get_simple_sock().written().clone()
}

#[test]
fn echo_round_trip_lengths() {
    for len in [0usize, 1, 1023, 1024, 1025, 4096] {
        let data: Vec<u8> = (0..len).map(|i| (i % 251) as u8).collect();
        let out = echo_once(&data);
        assert_eq!(out, data, "length {}", len);
    }
}

#[test]
fn echo_preserves_order() {
    let data: Vec<u8> = vec![9, 8, 7, 1, 2, 3, 0, 255];
    assert_eq!(echo_once(&data), data);
}

#[test]
fn chunk_boundary_drain() {
    // Exactly one full chunk pending: read_all returns it whole, with no
    // duplication and no hang, and a second drain finds nothing.
    let data: Vec<u8> = (0..1024).map(|i| (i % 256) as u8).collect();
    let mut w = opened_mem(0, &data);
    let first = w.read_all().unwrap();
    assert_eq!(first, data);
    let second = w.read_all().unwrap();
    assert!(second.is_empty());
}

#[test]
fn drain_multiple_chunks() {
    let data: Vec<u8> = (0..2600).map(|i| (i % 256) as u8).collect();
    let mut w = opened_mem(0, &data);
    assert_eq!(w.read_all().unwrap(), data);
}

#[test]
fn would_block_normalization() {
    // A non-blocking endpoint with nothing pending reads zero bytes, and
    // that is a success, not an error.
    let mut sock = MemorySock::new(0);
    sock.set_block(false).unwrap();
    sock.open().unwrap();
    let mut buf = vec![0u8; 16];
    assert_eq!(sock.read(&mut buf, 16), Ok(0));
}

#[test]
fn cooperative_cancellation() {
    // Once the shared flag is cleared, the next step stops without touching
    // either endpoint, even with data pending.
    let mut input = opened_mem(0, &[1, 2, 3]);
    let mut output = opened_mem(1, &[]);
    let st = relay_step(&mut input, &mut output, false);
    assert_eq!(st, RelayState::Stopped);
    assert!(output.get_simple_sock().written().is_empty());
    // The pending data is still there for a running step.
    let st = relay_step(&mut input, &mut output, true);
    assert_eq!(st, RelayState::Running);
    assert_eq!(output.get_simple_sock().written().as_slice(), &[1, 2, 3]);
}

#[test]
fn bidirectional_independence() {
    let a_data: Vec<u8> = (0..2000).map(|i| (i % 256) as u8).collect();
    let b_data: Vec<u8> = (0..1500).map(|i| (255 - i % 256) as u8).collect();
    let mut a = opened_mem(0, &a_data);
    let mut b = opened_mem(1, &b_data);
    let st = relay_bidir_step(&mut a, &mut b, true);
    assert_eq!(st, RelayState::Running);
    assert_eq!(b.get_simple_sock().written(), &a_data);
    assert_eq!(a.get_simple_sock().written(), &b_data);
}

#[test]
fn identity_uniqueness() {
    let mut factory = MemoryFactory::new();
    let params = String::new();
    let mut ids = Vec::new();
    for _ in 0..5 {
        let sock = factory.create_sock(&params).unwrap();
        ids.push(sock.get_id());
    }
    for i in 0..ids.len() {
        for j in (i + 1)..ids.len() {
            assert!(ids[i] < ids[j]);
        }
    }
    assert_eq!(ids, vec![0, 1, 2, 3, 4]);
}

#[test]
fn manager_opens_unidirectional() {
    let mut manager = SocketManager::new(MemoryFactory::new(), MemoryFactory::new());
    let params = String::new();
    let (mut input, mut output) = manager
        .open_unidirectional(&params, &params, false)
        .unwrap();
    let st = relay_step(&mut input, &mut output, true);
    assert_eq!(st, RelayState::Running);
    assert!(output.get_simple_sock().written().is_empty());
}

#[test]
fn manager_opens_bidirectional() {
    // Identities are per factory; seeding the second factory keeps the two
    // sides' identities disjoint.
    let mut manager =
        SocketManager::new(MemoryFactory::new(), MemoryFactory::with_first_id(1));
    let params = String::new();
    let (a, b) = manager.open_bidirectional(&params, &params).unwrap();
    assert_eq!(a.get_simple_sock().get_id(), 0);
    assert_eq!(b.get_simple_sock().get_id(), 1);
    assert_eq!(a.get_simple_sock().get_type_name(), "mem");
    assert_eq!(b.get_simple_sock().get_type_name(), "mem");
}

#[test]
fn seeded_factories_keep_identities_disjoint() {
    let params = String::new();
    let mut first = MemoryFactory::new();
    let mut second = MemoryFactory::with_first_id(100);
    assert_eq!(first.create_sock(&params).unwrap().get_id(), 0);
    assert_eq!(second.create_sock(&params).unwrap().get_id(), 100);
    assert_eq!(second.create_sock(&params).unwrap().get_id(), 101);
}

#[test]
fn relay_runs_with_nothing_pending() {
    let mut input = opened_mem(0, &[]);
    let mut output = opened_mem(1, &[]);
    assert_eq!(relay_step(&mut input, &mut output, true), RelayState::Running);
    assert!(output.get_simple_sock().written().is_empty());
}

#[test]
fn decorator_transparency_on_relay() {
    let data: Vec<u8> = (0..1300).map(|i| (i % 256) as u8).collect();
    let plain = echo_once(&data);

    let mut sock = MemorySock::new(0);
    sock.push_bytes(&data);
    let stacked = TraceInfoDecorator::new(TraceRawDecorator::new(TraceCanonicalDecorator::new(
        sock,
    )));
    let mut input = SocketWrapper::new(stacked).open().unwrap();
    let mut output = opened_mem(1, &[]);
    let st = relay_step(&mut input, &mut output, true);
    assert_eq!(st, RelayState::Running);
    assert_eq!(output.get_simple_sock().written(), &plain);
    assert_eq!(plain, data);
}

#[test]
fn decorator_transparency_other_order() {
    let data: Vec<u8> = vec![1, 2, 3, 4, 5];
    let mut sock = MemorySock::new(0);
    sock.push_bytes(&data);
    let stacked = TraceCanonicalDecorator::new(TraceRawDecorator::new(sock));
    let mut input = SocketWrapper::new(stacked).open().unwrap();
    let mut output = opened_mem(1, &[]);
    assert_eq!(relay_step(&mut input, &mut output, true), RelayState::Running);
    assert_eq!(output.get_simple_sock().written(), &data);
}

#[test]
fn decorated_factory_keeps_identity() {
    let mut factory = TraceInfoDecoratorFactory::new(MemoryFactory::new());
    let params = String::new();
    let first = factory.create_sock(&params).unwrap();
    let second = factory.create_sock(&params).unwrap();
    assert_eq!(first.get_id(), 0);
    assert_eq!(second.get_id(), 1);
    assert_eq!(first.get_type_name(), "mem");
    assert_eq!(first.get_description(), "mem0");
}

#[test]
fn traced_composition_point_is_transparent() {
    let data: Vec<u8> = (0..500).map(|i| (i % 256) as u8).collect();
    let mut mem = MemorySock::new(0);
    mem.push_bytes(&data);
    let traced = TracedSock::new(mem, true, true, true);
    let mut input = SocketWrapper::new(traced).open().unwrap();
    let mut output = opened_mem(1, &[]);
    assert_eq!(relay_step(&mut input, &mut output, true), RelayState::Running);
    assert_eq!(output.get_simple_sock().written(), &data);
}

#[test]
fn traced_factory_produces_wrapped_endpoints() {
    let mut factory = TracedFactory::new(MemoryFactory::new(), true, false, false);
    let params = String::new();
    let sock = factory.create_sock(&params).unwrap();
    assert_eq!(sock.get_id(), 0);
    assert_eq!(sock.get_description(), "mem0");
}

#[test]
fn relay_from_generator_to_memory() {
    let mut factory = TestGenFactory::new();
    let gen = factory
        .create_sock(&"{ \"pat\": { \"type\": \"seq\", \"size\": 6 }, \"cycle\": 0 }".to_string())
        .unwrap();
    let mut input = SocketWrapper::new(gen).open().unwrap();
    let mut output = opened_mem(0, &[]);
    assert_eq!(relay_step(&mut input, &mut output, true), RelayState::Running);
    assert_eq!(output.get_simple_sock().written().as_slice(), &[0, 1, 2, 3, 4, 5]);
    // The generator replenishes: a second step moves another iteration.
    assert_eq!(relay_step(&mut input, &mut output, true), RelayState::Running);
    assert_eq!(
        output.get_simple_sock().written().as_slice(),
        &[0, 1, 2, 3, 4, 5, 0, 1, 2, 3, 4, 5]
    );
}

#[test]
fn memory_write_does_not_feed_reads() {
    let mut sock = MemorySock::new(0);
    sock.push_bytes(&[1, 2, 3]);
    sock.open().unwrap();
    sock.write(&[9, 9], 2).unwrap();
    let mut buf = vec![0u8; 8];
    assert_eq!(sock.read(&mut buf, 8), Ok(3));
    assert_eq!(&buf[..3], &[1, 2, 3]);
    assert_eq!(sock.written().as_slice(), &[9, 9]);
}
