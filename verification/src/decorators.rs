//! Tracing decorators: wrappers that observe read/write/open/close on any
//! endpoint without altering its behaviour. Each decorator forwards the
//! semantic outcome of every wrapped operation unchanged — its ghost views
//! are those of the wrapped endpoint — and only emits trace text on the side.
//!
//! Decorators are composable and orderable; the composition point applies
//! the selected kinds in the default order: info output first, then raw
//! bytes, then the canonical hex dump.

use std::io::Write;

use vstd::prelude::*;

use crate::sock::{
    ComplexSock, SimpleSock, SockBlockCtl, SockError, SockInfo, SocketFactory, SocketParams,
};

verus! {

/// Relies on std::io::Stdout::write_fmt (through `writeln!`): prints one
/// line of trace output. The text is a side channel only.
#[verifier::external_body]
fn trace_line(prefix: &str, text: &str) {
    let mut out = std::io::stdout();
    let _ = writeln!(out, "{}{}", prefix, text);
}

/// Relies on std::io::Stdout::write_fmt (through `writeln!`): prints a byte
/// sequence in debug form. The text is a side channel only.
#[verifier::external_body]
fn trace_bytes(prefix: &str, data: &[u8]) {
    let mut out = std::io::stdout();
    let _ = writeln!(out, "{}{:?}", prefix, data);
}

/// What pretty_hex renders for a byte sequence.
pub uninterp spec fn hex_dump_of(b: Seq<u8>) -> Seq<char>;

/// Relies on pretty_hex::pretty_hex: renders an aligned hex dump with
/// offsets for human inspection; the rendering depends on the bytes alone.
#[verifier::external_body]
fn hex_dump_str(data: &[u8]) -> (r: String)
    ensures
        r@ == hex_dump_of(data@),
{
    pretty_hex::pretty_hex(&data)
}

/// The trace text a successful transfer of more than zero bytes produces,
/// in the default order a reader expects: the info line first, then the raw
/// bytes, then the canonical hex dump. Hosts drive their own transports
/// through this so the trigger and ordering rules live here.
pub fn trace_data_event(info: bool, raw: bool, canon: bool, received: bool, desc: &str, data: &[u8]) {
    if info {
        if received {
            trace_line("Data is received from: ", desc);
        } else {
            trace_line("Data is transfered to: ", desc);
        }
    }
    if raw {
        if received {
            trace_bytes("Data is received: ", data);
        } else {
            trace_bytes("Data is written: ", data);
        }
    }
    if canon {
        let dump = hex_dump_str(data);
        if received {
            trace_line("Received data (canonical format):\n", dump.as_str());
        } else {
            trace_line("Written data (canonical format):\n", dump.as_str());
        }
    }
}

/// The trace text an open produces when info tracing is selected.
pub fn trace_open_event(info: bool, desc: &str) {
    if info {
        trace_line("Socket is opened: ", desc);
    }
}

/// The trace text a close produces when info tracing is selected.
pub fn trace_close_event(info: bool, desc: &str) {
    if info {
        trace_line("Socket is closed: ", desc);
    }
}

/// On open and close prints the endpoint description; on a successful read
/// or write of more than zero bytes prints that data moved, with the
/// description.
pub struct TraceInfoDecorator<S: ComplexSock> {
    sock: S,
}

/// On a successful read or write of more than zero bytes prints the exact
/// byte sequence transferred, in debug representation.
pub struct TraceRawDecorator<S: ComplexSock> {
    sock: S,
}

/// On a successful read or write of more than zero bytes prints the bytes
/// as an aligned hex dump with offsets.
pub struct TraceCanonicalDecorator<S: ComplexSock> {
    sock: S,
}

impl<S: ComplexSock> TraceInfoDecorator<S> {
    /// The wrapped endpoint.
    pub closed spec fn inner(&self) -> S {
        self.sock
    }

    pub fn new(sock: S) -> (r: Self)
        ensures
            r.inner() == sock,
            r.avail() == sock.avail(),
            r.taken() == sock.taken(),
            r.sent() == sock.sent(),
            r.steady() == sock.steady(),
            r.is_blocking() == sock.is_blocking(),
            r.is_open() == sock.is_open(),
            r.inv() == sock.inv(),
            r.type_name_spec() == sock.type_name_spec(),
            r.id_spec() == sock.id_spec(),
            r.description_spec() == sock.description_spec(),
    {
        TraceInfoDecorator { sock }
    }
}

impl<S: ComplexSock> TraceRawDecorator<S> {
    /// The wrapped endpoint.
    pub closed spec fn inner(&self) -> S {
        self.sock
    }

    pub fn new(sock: S) -> (r: Self)
        ensures
            r.inner() == sock,
            r.avail() == sock.avail(),
            r.taken() == sock.taken(),
            r.sent() == sock.sent(),
            r.steady() == sock.steady(),
            r.is_blocking() == sock.is_blocking(),
            r.is_open() == sock.is_open(),
            r.inv() == sock.inv(),
            r.type_name_spec() == sock.type_name_spec(),
            r.id_spec() == sock.id_spec(),
            r.description_spec() == sock.description_spec(),
    {
        TraceRawDecorator { sock }
    }
}

impl<S: ComplexSock> TraceCanonicalDecorator<S> {
    /// The wrapped endpoint.
    pub closed spec fn inner(&self) -> S {
        self.sock
    }

    pub fn new(sock: S) -> (r: Self)
        ensures
            r.inner() == sock,
            r.avail() == sock.avail(),
            r.taken() == sock.taken(),
            r.sent() == sock.sent(),
            r.steady() == sock.steady(),
            r.is_blocking() == sock.is_blocking(),
            r.is_open() == sock.is_open(),
            r.inv() == sock.inv(),
            r.type_name_spec() == sock.type_name_spec(),
            r.id_spec() == sock.id_spec(),
            r.description_spec() == sock.description_spec(),
    {
        TraceCanonicalDecorator { sock }
    }
}

impl<S: ComplexSock> SimpleSock for TraceInfoDecorator<S> {
    closed spec fn avail(&self) -> Seq<u8> {
        self.sock.avail()
    }

    closed spec fn taken(&self) -> Seq<u8> {
        self.sock.taken()
    }

    closed spec fn sent(&self) -> Seq<u8> {
        self.sock.sent()
    }

    closed spec fn steady(&self) -> bool {
        self.sock.steady()
    }

    closed spec fn is_blocking(&self) -> bool {
        self.sock.is_blocking()
    }

    closed spec fn is_open(&self) -> bool {
        self.sock.is_open()
    }

    closed spec fn inv(&self) -> bool {
        self.sock.inv()
    }

    fn open(&mut self) -> (r: Result<(), SockError>) {
        let desc = self.sock.get_description();
        trace_line("Socket is opened: ", desc.as_str());
        self.sock.open()
    }

    fn close(&mut self) {
        let desc = self.sock.get_description();
        trace_line("Socket is closed: ", desc.as_str());
        self.sock.close()
    }

    fn read(&mut self, data: &mut Vec<u8>, sz: usize) -> (r: Result<usize, SockError>) {
        let res = self.sock.read(data, sz);
        if let Ok(n) = res {
            if n > 0 {
                let desc = self.sock.get_description();
                trace_line("Data is received from: ", desc.as_str());
            }
        }
        res
    }

    fn write(&mut self, data: &[u8], sz: usize) -> (r: Result<(), SockError>) {
        let res = self.sock.write(data, sz);
        if res.is_ok() && sz > 0 {
            let desc = self.sock.get_description();
            trace_line("Data is transfered to: ", desc.as_str());
        }
        res
    }
}

impl<S: ComplexSock> SimpleSock for TraceRawDecorator<S> {
    closed spec fn avail(&self) -> Seq<u8> {
        self.sock.avail()
    }

    closed spec fn taken(&self) -> Seq<u8> {
        self.sock.taken()
    }

    closed spec fn sent(&self) -> Seq<u8> {
        self.sock.sent()
    }

    closed spec fn steady(&self) -> bool {
        self.sock.steady()
    }

    closed spec fn is_blocking(&self) -> bool {
        self.sock.is_blocking()
    }

    closed spec fn is_open(&self) -> bool {
        self.sock.is_open()
    }

    closed spec fn inv(&self) -> bool {
        self.sock.inv()
    }

    fn open(&mut self) -> (r: Result<(), SockError>) {
        self.sock.open()
    }

    fn close(&mut self) {
        self.sock.close()
    }

    fn read(&mut self, data: &mut Vec<u8>, sz: usize) -> (r: Result<usize, SockError>) {
        let res = self.sock.read(data, sz);
        if let Ok(n) = res {
            if n > 0 {
                let part = vstd::slice::slice_subrange(data.as_slice(), 0, n);
                trace_bytes("Data is received: ", part);
            }
        }
        res
    }

    fn write(&mut self, data: &[u8], sz: usize) -> (r: Result<(), SockError>) {
        let res = self.sock.write(data, sz);
        if res.is_ok() && sz > 0 {
            let part = vstd::slice::slice_subrange(data, 0, sz);
            trace_bytes("Data is written: ", part);
        }
        res
    }
}

impl<S: ComplexSock> SimpleSock for TraceCanonicalDecorator<S> {
    closed spec fn avail(&self) -> Seq<u8> {
        self.sock.avail()
    }

    closed spec fn taken(&self) -> Seq<u8> {
        self.sock.taken()
    }

    closed spec fn sent(&self) -> Seq<u8> {
        self.sock.sent()
    }

    closed spec fn steady(&self) -> bool {
        self.sock.steady()
    }

    closed spec fn is_blocking(&self) -> bool {
        self.sock.is_blocking()
    }

    closed spec fn is_open(&self) -> bool {
        self.sock.is_open()
    }

    closed spec fn inv(&self) -> bool {
        self.sock.inv()
    }

    fn open(&mut self) -> (r: Result<(), SockError>) {
        self.sock.open()
    }

    fn close(&mut self) {
        self.sock.close()
    }

    fn read(&mut self, data: &mut Vec<u8>, sz: usize) -> (r: Result<usize, SockError>) {
        let res = self.sock.read(data, sz);
        if let Ok(n) = res {
            if n > 0 {
                let part = vstd::slice::slice_subrange(data.as_slice(), 0, n);
                let dump = hex_dump_str(part);
                trace_line("Received data (canonical format):\n", dump.as_str());
            }
        }
        res
    }

    fn write(&mut self, data: &[u8], sz: usize) -> (r: Result<(), SockError>) {
        let res = self.sock.write(data, sz);
        if res.is_ok() && sz > 0 {
            let part = vstd::slice::slice_subrange(data, 0, sz);
            let dump = hex_dump_str(part);
            trace_line("Written data (canonical format):\n", dump.as_str());
        }
        res
    }
}

impl<S: ComplexSock> SockBlockCtl for TraceInfoDecorator<S> {
    fn set_block(&mut self, is_blocking: bool) -> (r: Result<(), SockError>) {
        self.sock.set_block(is_blocking)
    }
}

impl<S: ComplexSock> SockBlockCtl for TraceRawDecorator<S> {
    fn set_block(&mut self, is_blocking: bool) -> (r: Result<(), SockError>) {
        self.sock.set_block(is_blocking)
    }
}

impl<S: ComplexSock> SockBlockCtl for TraceCanonicalDecorator<S> {
    fn set_block(&mut self, is_blocking: bool) -> (r: Result<(), SockError>) {
        self.sock.set_block(is_blocking)
    }
}

impl<S: ComplexSock> SockInfo for TraceInfoDecorator<S> {
    closed spec fn type_name_spec(&self) -> Seq<char> {
        self.sock.type_name_spec()
    }

    closed spec fn id_spec(&self) -> u32 {
        self.sock.id_spec()
    }

    closed spec fn description_spec(&self) -> Seq<char> {
        self.sock.description_spec()
    }

    fn get_type_name(&self) -> (r: &str) {
        self.sock.get_type_name()
    }

    fn get_id(&self) -> (r: u32) {
        self.sock.get_id()
    }

    fn get_description(&self) -> (r: String) {
        self.sock.get_description()
    }
}

impl<S: ComplexSock> SockInfo for TraceRawDecorator<S> {
    closed spec fn type_name_spec(&self) -> Seq<char> {
        self.sock.type_name_spec()
    }

    closed spec fn id_spec(&self) -> u32 {
        self.sock.id_spec()
    }

    closed spec fn description_spec(&self) -> Seq<char> {
        self.sock.description_spec()
    }

    fn get_type_name(&self) -> (r: &str) {
        self.sock.get_type_name()
    }

    fn get_id(&self) -> (r: u32) {
        self.sock.get_id()
    }

    fn get_description(&self) -> (r: String) {
        self.sock.get_description()
    }
}

impl<S: ComplexSock> SockInfo for TraceCanonicalDecorator<S> {
    closed spec fn type_name_spec(&self) -> Seq<char> {
        self.sock.type_name_spec()
    }

    closed spec fn id_spec(&self) -> u32 {
        self.sock.id_spec()
    }

    closed spec fn description_spec(&self) -> Seq<char> {
        self.sock.description_spec()
    }

    fn get_type_name(&self) -> (r: &str) {
        self.sock.get_type_name()
    }

    fn get_id(&self) -> (r: u32) {
        self.sock.get_id()
    }

    fn get_description(&self) -> (r: String) {
        self.sock.get_description()
    }
}

/// Decorator transparency: a tracing wrapper leaves every observable aspect
/// of the wrapped endpoint unchanged — the byte streams seen through it are
/// the wrapped endpoint's own; only trace text differs.
pub proof fn lemma_trace_info_transparent<S: ComplexSock>(d: TraceInfoDecorator<S>)
    ensures
        d.avail() == d.inner().avail(),
        d.taken() == d.inner().taken(),
        d.sent() == d.inner().sent(),
        d.steady() == d.inner().steady(),
        d.is_blocking() == d.inner().is_blocking(),
        d.is_open() == d.inner().is_open(),
        d.inv() == d.inner().inv(),
        d.type_name_spec() == d.inner().type_name_spec(),
        d.id_spec() == d.inner().id_spec(),
        d.description_spec() == d.inner().description_spec(),
{
}

/// Decorator transparency for the raw tracing wrapper.
pub proof fn lemma_trace_raw_transparent<S: ComplexSock>(d: TraceRawDecorator<S>)
    ensures
        d.avail() == d.inner().avail(),
        d.taken() == d.inner().taken(),
        d.sent() == d.inner().sent(),
        d.steady() == d.inner().steady(),
        d.is_blocking() == d.inner().is_blocking(),
        d.is_open() == d.inner().is_open(),
        d.inv() == d.inner().inv(),
        d.type_name_spec() == d.inner().type_name_spec(),
        d.id_spec() == d.inner().id_spec(),
        d.description_spec() == d.inner().description_spec(),
{
}

/// Decorator transparency for the canonical tracing wrapper.
pub proof fn lemma_trace_canonical_transparent<S: ComplexSock>(d: TraceCanonicalDecorator<S>)
    ensures
        d.avail() == d.inner().avail(),
        d.taken() == d.inner().taken(),
        d.sent() == d.inner().sent(),
        d.steady() == d.inner().steady(),
        d.is_blocking() == d.inner().is_blocking(),
        d.is_open() == d.inner().is_open(),
        d.inv() == d.inner().inv(),
        d.type_name_spec() == d.inner().type_name_spec(),
        d.id_spec() == d.inner().id_spec(),
        d.description_spec() == d.inner().description_spec(),
{
}

/// Decorator transparency composes: stacking all three kinds, in any order
/// this nesting represents, still leaves every observable aspect of the
/// innermost endpoint unchanged.
pub proof fn lemma_decorator_stack_transparent<S: ComplexSock>(
    d: TraceInfoDecorator<TraceRawDecorator<TraceCanonicalDecorator<S>>>,
)
    ensures
        d.avail() == d.inner().inner().inner().avail(),
        d.taken() == d.inner().inner().inner().taken(),
        d.sent() == d.inner().inner().inner().sent(),
        d.steady() == d.inner().inner().inner().steady(),
        d.is_blocking() == d.inner().inner().inner().is_blocking(),
        d.is_open() == d.inner().inner().inner().is_open(),
        d.inv() == d.inner().inner().inner().inv(),
        d.type_name_spec() == d.inner().inner().inner().type_name_spec(),
        d.id_spec() == d.inner().inner().inner().id_spec(),
        d.description_spec() == d.inner().inner().inner().description_spec(),
{
}

/// Wraps a factory so that every endpoint it produces is wrapped in an info
/// tracing decorator.
pub struct TraceInfoDecoratorFactory<F: SocketFactory> {
    factory: F,
}

impl<F: SocketFactory> TraceInfoDecoratorFactory<F> {
    pub fn new(factory: F) -> (r: Self)
        ensures
            r.next_id() == factory.next_id(),
    {
        TraceInfoDecoratorFactory { factory }
    }
}

impl<F: SocketFactory> SocketFactory for TraceInfoDecoratorFactory<F> {
    type Sock = TraceInfoDecorator<F::Sock>;

    closed spec fn next_id(&self) -> u32 {
        self.factory.next_id()
    }

    fn create_sock(&mut self, params: &SocketParams) -> (r: Result<Self::Sock, SockError>) {
        let sock = self.factory.create_sock(params)?;
        Ok(TraceInfoDecorator::new(sock))
    }
}

/// Wraps a factory so that every endpoint it produces is wrapped in a raw
/// tracing decorator.
pub struct TraceRawDecoratorFactory<F: SocketFactory> {
    factory: F,
}

impl<F: SocketFactory> TraceRawDecoratorFactory<F> {
    pub fn new(factory: F) -> (r: Self)
        ensures
            r.next_id() == factory.next_id(),
    {
        TraceRawDecoratorFactory { factory }
    }
}

impl<F: SocketFactory> SocketFactory for TraceRawDecoratorFactory<F> {
    type Sock = TraceRawDecorator<F::Sock>;

    closed spec fn next_id(&self) -> u32 {
        self.factory.next_id()
    }

    fn create_sock(&mut self, params: &SocketParams) -> (r: Result<Self::Sock, SockError>) {
        let sock = self.factory.create_sock(params)?;
        Ok(TraceRawDecorator::new(sock))
    }
}

/// Wraps a factory so that every endpoint it produces is wrapped in a
/// canonical tracing decorator.
pub struct TraceCanonicalDecoratorFactory<F: SocketFactory> {
    factory: F,
}

impl<F: SocketFactory> TraceCanonicalDecoratorFactory<F> {
    pub fn new(factory: F) -> (r: Self)
        ensures
            r.next_id() == factory.next_id(),
    {
        TraceCanonicalDecoratorFactory { factory }
    }
}

impl<F: SocketFactory> SocketFactory for TraceCanonicalDecoratorFactory<F> {
    type Sock = TraceCanonicalDecorator<F::Sock>;

    closed spec fn next_id(&self) -> u32 {
        self.factory.next_id()
    }

    fn create_sock(&mut self, params: &SocketParams) -> (r: Result<Self::Sock, SockError>) {
        let sock = self.factory.create_sock(params)?;
        Ok(TraceCanonicalDecorator::new(sock))
    }
}

/// The composition point: one wrapper that applies the selected tracing
/// kinds around an endpoint, in the default order a reader expects: info
/// output first, then the raw bytes, then the canonical hex dump. Each kind
/// is independently optional; with none selected the wrapper is silent.
/// Like the single-kind decorators it forwards every outcome unchanged.
pub struct TracedSock<S: ComplexSock> {
    sock: S,
    info: bool,
    raw: bool,
    canon: bool,
}

impl<S: ComplexSock> TracedSock<S> {
    /// The wrapped endpoint.
    pub closed spec fn inner(&self) -> S {
        self.sock
    }

    pub closed spec fn info_spec(&self) -> bool {
        self.info
    }

    pub closed spec fn raw_spec(&self) -> bool {
        self.raw
    }

    pub closed spec fn canon_spec(&self) -> bool {
        self.canon
    }

    pub fn new(sock: S, info: bool, raw: bool, canon: bool) -> (r: Self)
        ensures
            r.inner() == sock,
            r.info_spec() == info,
            r.raw_spec() == raw,
            r.canon_spec() == canon,
            r.avail() == sock.avail(),
            r.taken() == sock.taken(),
            r.sent() == sock.sent(),
            r.steady() == sock.steady(),
            r.is_blocking() == sock.is_blocking(),
            r.is_open() == sock.is_open(),
            r.inv() == sock.inv(),
            r.type_name_spec() == sock.type_name_spec(),
            r.id_spec() == sock.id_spec(),
            r.description_spec() == sock.description_spec(),
    {
        TracedSock { sock, info, raw, canon }
    }

    fn trace_read(&self, data: &Vec<u8>, n: usize)
        requires
            n <= data.len(),
    {
        let desc = self.sock.get_description();
        let part = vstd::slice::slice_subrange(data.as_slice(), 0, n);
        trace_data_event(self.info, self.raw, self.canon, true, desc.as_str(), part);
    }

    fn trace_write(&self, data: &[u8], sz: usize)
        requires
            sz <= data.len(),
    {
        let desc = self.sock.get_description();
        let part = vstd::slice::slice_subrange(data, 0, sz);
        trace_data_event(self.info, self.raw, self.canon, false, desc.as_str(), part);
    }
}

impl<S: ComplexSock> SimpleSock for TracedSock<S> {
    closed spec fn avail(&self) -> Seq<u8> {
        self.sock.avail()
    }

    closed spec fn taken(&self) -> Seq<u8> {
        self.sock.taken()
    }

    closed spec fn sent(&self) -> Seq<u8> {
        self.sock.sent()
    }

    closed spec fn steady(&self) -> bool {
        self.sock.steady()
    }

    closed spec fn is_blocking(&self) -> bool {
        self.sock.is_blocking()
    }

    closed spec fn is_open(&self) -> bool {
        self.sock.is_open()
    }

    closed spec fn inv(&self) -> bool {
        self.sock.inv()
    }

    fn open(&mut self) -> (r: Result<(), SockError>) {
        let desc = self.sock.get_description();
        trace_open_event(self.info, desc.as_str());
        self.sock.open()
    }

    fn close(&mut self) {
        let desc = self.sock.get_description();
        trace_close_event(self.info, desc.as_str());
        self.sock.close()
    }

    fn read(&mut self, data: &mut Vec<u8>, sz: usize) -> (r: Result<usize, SockError>) {
        let res = self.sock.read(data, sz);
        if let Ok(n) = res {
            if n > 0 {
                self.trace_read(data, n);
            }
        }
        res
    }

    fn write(&mut self, data: &[u8], sz: usize) -> (r: Result<(), SockError>) {
        let res = self.sock.write(data, sz);
        if res.is_ok() && sz > 0 {
            self.trace_write(data, sz);
        }
        res
    }
}

impl<S: ComplexSock> SockBlockCtl for TracedSock<S> {
    fn set_block(&mut self, is_blocking: bool) -> (r: Result<(), SockError>) {
        self.sock.set_block(is_blocking)
    }
}

impl<S: ComplexSock> SockInfo for TracedSock<S> {
    closed spec fn type_name_spec(&self) -> Seq<char> {
        self.sock.type_name_spec()
    }

    closed spec fn id_spec(&self) -> u32 {
        self.sock.id_spec()
    }

    closed spec fn description_spec(&self) -> Seq<char> {
        self.sock.description_spec()
    }

    fn get_type_name(&self) -> (r: &str) {
        self.sock.get_type_name()
    }

    fn get_id(&self) -> (r: u32) {
        self.sock.get_id()
    }

    fn get_description(&self) -> (r: String) {
        self.sock.get_description()
    }
}

/// Transparency of the composition point: whatever combination of tracing
/// kinds is selected, every observable aspect of the wrapped endpoint is
/// unchanged; only the trace text differs.
pub proof fn lemma_traced_sock_transparent<S: ComplexSock>(d: TracedSock<S>)
    ensures
        d.avail() == d.inner().avail(),
        d.taken() == d.inner().taken(),
        d.sent() == d.inner().sent(),
        d.steady() == d.inner().steady(),
        d.is_blocking() == d.inner().is_blocking(),
        d.is_open() == d.inner().is_open(),
        d.inv() == d.inner().inv(),
        d.type_name_spec() == d.inner().type_name_spec(),
        d.id_spec() == d.inner().id_spec(),
        d.description_spec() == d.inner().description_spec(),
{
}

/// Wraps a factory with the composition point: every endpoint it produces
/// carries the selected tracing kinds, applied in the default order.
pub struct TracedFactory<F: SocketFactory> {
    factory: F,
    info: bool,
    raw: bool,
    canon: bool,
}

impl<F: SocketFactory> TracedFactory<F> {
    pub fn new(factory: F, info: bool, raw: bool, canon: bool) -> (r: Self)
        ensures
            r.next_id() == factory.next_id(),
    {
        TracedFactory { factory, info, raw, canon }
    }
}

impl<F: SocketFactory> SocketFactory for TracedFactory<F> {
    type Sock = TracedSock<F::Sock>;

    closed spec fn next_id(&self) -> u32 {
        self.factory.next_id()
    }

    fn create_sock(&mut self, params: &SocketParams) -> (r: Result<Self::Sock, SockError>) {
        let sock = self.factory.create_sock(params)?;
        Ok(TracedSock::new(sock, self.info, self.raw, self.canon))
    }
}

} // verus!
