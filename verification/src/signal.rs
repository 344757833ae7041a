//! The signals exchanged with WebSocket clients, the WebSocket messages
//! that carry them, and the big-endian encoding of ping timestamps.

use bytes::Bytes;
use vstd::arithmetic::div_mod::{lemma_fundamental_div_mod_converse, lemma_mod_breakdown};
use vstd::prelude::*;

verus! {

#[verifier::external_type_specification]
#[verifier::external_body]
pub struct ExBytes(bytes::Bytes);

/// The bytes that a `Bytes` buffer holds.
pub uninterp spec fn bytes_content(b: Bytes) -> Seq<u8>;

/// `<Bytes as From<Vec<u8>>>::from`. Trusted: the buffer holds the bytes of
/// the vector, in order (the bytes crate hands over the vector's storage).
#[verifier::external_body]
fn bytes_from_vec(v: Vec<u8>) -> (b: Bytes)
    ensures
        bytes_content(b) == v@,
{
    Bytes::from(v)
}

/// `<Bytes as AsRef<[u8]>>::as_ref`. Trusted: the slice is the buffer's
/// content.
#[verifier::external_body]
fn bytes_as_slice(b: &Bytes) -> (s: &[u8])
    ensures
        s@ == bytes_content(*b),
{
    b.as_ref()
}

/// `<Bytes as Clone>::clone`. Trusted: the clone holds the same bytes (the
/// bytes crate shares or copies the same range).
pub assume_specification[ <Bytes as Clone>::clone ](b: &Bytes) -> (r: Bytes)
    ensures
        bytes_content(r) == bytes_content(*b),
;

/// `256` to the power `k`.
pub open spec fn pow256(k: nat) -> nat
    decreases k,
{
    if k == 0 {
        1
    } else {
        256 * pow256((k - 1) as nat)
    }
}

/// The number that the bytes `s` spell in big-endian order.
pub open spec fn be_value(s: Seq<u8>) -> nat
    decreases s.len(),
{
    if s.len() == 0 {
        0
    } else {
        be_value(s.drop_last()) * 256 + s.last() as nat
    }
}

/// The last `len` base-256 digits of `n`, most significant first.
pub open spec fn be_encode(n: nat, len: nat) -> Seq<u8>
    decreases len,
{
    if len == 0 {
        seq![]
    } else {
        be_encode(n / 256, (len - 1) as nat).push((n % 256) as u8)
    }
}

/// The bytes of `s` spell a number below `256^len`.
pub proof fn lemma_be_value_bound(s: Seq<u8>)
    ensures
        be_value(s) < pow256(s.len()),
    decreases s.len(),
{
    if s.len() > 0 {
        lemma_be_value_bound(s.drop_last());
    }
}

/// `pow256` grows with its exponent.
pub proof fn lemma_pow256_mono(a: nat, b: nat)
    requires
        a <= b,
    ensures
        pow256(a) <= pow256(b),
    decreases b,
{
    if a < b {
        lemma_pow256_mono(a, (b - 1) as nat);
    }
}

/// Reading back `len` encoded digits of `n` gives `n` modulo `256^len`.
pub proof fn lemma_be_value_of_encode(n: nat, len: nat)
    ensures
        be_encode(n, len).len() == len,
        be_value(be_encode(n, len)) == n % pow256(len),
    decreases len,
{
    if len > 0 {
        let p = pow256((len - 1) as nat);
        lemma_be_value_of_encode(n / 256, (len - 1) as nat);
        let e = be_encode(n, len);
        assert(e.drop_last() == be_encode(n / 256, (len - 1) as nat));
        lemma_pow256_mono(0, (len - 1) as nat);
        lemma_mod_breakdown(n as int, 256, p as int);
    }
}

/// Encoding the number that `s` spells, on as many digits as `s` has, gives
/// `s` back.
pub proof fn lemma_be_encode_of_value(s: Seq<u8>)
    ensures
        be_encode(be_value(s), s.len()) == s,
    decreases s.len(),
{
    if s.len() > 0 {
        let d = s.drop_last();
        lemma_be_encode_of_value(d);
        let v = be_value(s);
        lemma_fundamental_div_mod_converse(v as int, 256, be_value(d) as int, s.last() as int);
        assert(s == d.push(s.last()));
    }
}

/// `256^8` is `2^64`, `256^7` is `2^56`.
pub proof fn lemma_pow256_facts()
    ensures
        pow256(7) == 0x100_0000_0000_0000,
        pow256(8) == 0x1_0000_0000_0000_0000,
{
    reveal_with_fuel(pow256, 9);
}

/// The `len` big-endian digits of `n`.
fn encode_be(n: u64, len: usize) -> (v: Vec<u8>)
    ensures
        v@ == be_encode(n as nat, len as nat),
    decreases len,
{
    if len == 0 {
        Vec::new()
    } else {
        let mut v = encode_be(n / 256, len - 1);
        v.push((n % 256) as u8);
        v
    }
}

/// Reads an 8-byte buffer as a big-endian `u64`.
pub fn bytes_to_u64(bytes: Bytes) -> (r: u64)
    requires
        bytes_content(bytes).len() == 8,
    ensures
        r as nat == be_value(bytes_content(bytes)),
{
    let s = bytes_as_slice(&bytes);
    let mut acc: u64 = 0;
    let mut i: usize = 0;
    while i < 8
        invariant
            i <= 8,
            s@.len() == 8,
            acc as nat == be_value(s@.take(i as int)),
        decreases 8 - i,
    {
        proof {
            lemma_be_value_bound(s@.take(i as int));
            lemma_pow256_mono(i as nat, 7);
            lemma_pow256_facts();
            assert(s@.take(i + 1).drop_last() == s@.take(i as int));
        }
        acc = acc * 256 + s[i] as u64;
        i += 1;
    }
    assert(s@.take(8) == s@);
    acc
}

/// The 8-byte big-endian encoding of `num`.
pub fn u64_to_bytes(num: u64) -> (r: Bytes)
    ensures
        bytes_content(r) == be_encode(num as nat, 8),
        bytes_content(r).len() == 8,
        be_value(bytes_content(r)) == num,
{
    let v = encode_be(num, 8);
    proof {
        lemma_be_value_of_encode(num as nat, 8);
        lemma_pow256_facts();
    }
    bytes_from_vec(v)
}


/// A signal exchanged with a WebSocket client.
#[derive(Clone, Debug)]
pub enum Signal {
    /// Payload relayed to or from the upstream UDP service.
    Data(Bytes),
    /// A ping carrying a timestamp.
    Ping(u64),
    /// The answer to a ping, carrying its timestamp.
    Pong(u64),
    /// Anything else.
    Unknown,
}

/// A WebSocket message. The reason of a close frame and the contents of a
/// raw frame are not held: nothing here reads them.
#[derive(Clone, Debug)]
pub enum Message {
    Text(String),
    Binary(Bytes),
    Ping(Bytes),
    Pong(Bytes),
    Close,
    Frame,
}

/// What a signal carries.
pub enum SignalView {
    Data(Seq<u8>),
    Ping(u64),
    Pong(u64),
    Unknown,
}

/// What a message carries.
pub enum MessageView {
    Text(Seq<char>),
    Binary(Seq<u8>),
    Ping(Seq<u8>),
    Pong(Seq<u8>),
    Close,
    Frame,
}

impl View for Signal {
    type V = SignalView;

    open spec fn view(&self) -> SignalView {
        match self {
            Signal::Data(b) => SignalView::Data(bytes_content(*b)),
            Signal::Ping(t) => SignalView::Ping(*t),
            Signal::Pong(t) => SignalView::Pong(*t),
            Signal::Unknown => SignalView::Unknown,
        }
    }
}

impl View for Message {
    type V = MessageView;

    open spec fn view(&self) -> MessageView {
        match self {
            Message::Text(s) => MessageView::Text(s@),
            Message::Binary(b) => MessageView::Binary(bytes_content(*b)),
            Message::Ping(b) => MessageView::Ping(bytes_content(*b)),
            Message::Pong(b) => MessageView::Pong(bytes_content(*b)),
            Message::Close => MessageView::Close,
            Message::Frame => MessageView::Frame,
        }
    }
}

/// A message can be read as a signal unless it is a ping or a pong whose
/// payload is not exactly 8 bytes long.
pub open spec fn is_decodable(m: MessageView) -> bool {
    match m {
        MessageView::Ping(b) => b.len() == 8,
        MessageView::Pong(b) => b.len() == 8,
        _ => true,
    }
}

/// The signal a message carries: binary payload is data, ping and pong
/// payloads are big-endian timestamps, anything else is unknown.
pub open spec fn signal_of_message(m: MessageView) -> SignalView {
    match m {
        MessageView::Binary(b) => SignalView::Data(b),
        MessageView::Ping(b) => SignalView::Ping(be_value(b) as u64),
        MessageView::Pong(b) => SignalView::Pong(be_value(b) as u64),
        _ => SignalView::Unknown,
    }
}

/// The text sent in place of an unknown signal.
pub open spec fn unknown_signal_text() -> Seq<char> {
    "Unknown signal"@
}

/// The message that carries a signal: data goes as binary, timestamps as
/// 8 big-endian bytes, an unknown signal as the text "Unknown signal".
pub open spec fn message_of_signal(s: SignalView) -> MessageView {
    match s {
        SignalView::Data(b) => MessageView::Binary(b),
        SignalView::Ping(t) => MessageView::Ping(be_encode(t as nat, 8)),
        SignalView::Pong(t) => MessageView::Pong(be_encode(t as nat, 8)),
        SignalView::Unknown => MessageView::Text(unknown_signal_text()),
    }
}

impl Signal {
    /// A data signal holding `bytes`.
    pub fn data(bytes: Vec<u8>) -> (r: Signal)
        ensures
            r@ == SignalView::Data(bytes@),
    {
        Signal::Data(bytes_from_vec(bytes))
    }

    /// Reads the signal a message carries.
    pub fn from_message(msg: Message) -> (r: Signal)
        requires
            is_decodable(msg@),
        ensures
            r@ == signal_of_message(msg@),
            msg matches Message::Binary(b) ==> r == Signal::Data(b),
    {
        match msg {
            Message::Binary(bytes) => Signal::Data(bytes),
            Message::Ping(bytes) => Signal::Ping(bytes_to_u64(bytes)),
            Message::Pong(bytes) => Signal::Pong(bytes_to_u64(bytes)),
            _ => Signal::Unknown,
        }
    }
}

impl Message {
    /// The message that carries `signal`.
    pub fn from_signal(signal: Signal) -> (r: Message)
        ensures
            r@ == message_of_signal(signal@),
            signal matches Signal::Data(b) ==> r == Message::Binary(b),
    {
        match signal {
            Signal::Data(bytes) => Message::Binary(bytes),
            Signal::Ping(num) => Message::Ping(u64_to_bytes(num)),
            Signal::Pong(num) => Message::Pong(u64_to_bytes(num)),
            Signal::Unknown => Message::Text(String::from_str("Unknown signal")),
        }
    }
}


/// The first byte is the most significant: it weighs `256` to the power
/// of the number of bytes after it.
pub proof fn law_first_byte_most_significant(s: Seq<u8>)
    requires
        s.len() > 0,
    ensures
        be_value(s) == s[0] as nat * pow256((s.len() - 1) as nat) + be_value(s.drop_first()),
    decreases s.len(),
{
    if s.len() == 1 {
        assert(s.drop_last().len() == 0);
        assert(s.drop_first().len() == 0);
        assert(s.last() == s[0]);
        assert(be_value(s) == be_value(s.drop_last()) * 256 + s.last() as nat);
        assert(be_value(s.drop_last()) == 0);
        assert(pow256(0) == 1);
        assert(be_value(s.drop_first()) == 0);
        assert(pow256((s.len() - 1) as nat) == 1);
        assert(s[0] as nat * pow256((s.len() - 1) as nat) == s[0] as nat);
    } else {
        let d = s.drop_last();
        law_first_byte_most_significant(d);
        assert(d.drop_first() == s.drop_first().drop_last());
        assert(d[0] == s[0]);
        let k = (s.len() - 2) as nat;
        assert(pow256((s.len() - 1) as nat) == 256 * pow256(k));
        assert((s[0] as nat * pow256(k)) * 256 == s[0] as nat * (256 * pow256(k))) by (nonlinear_arith);
        let t = s.drop_first();
        assert(t.last() == s.last());
        assert(be_value(t) == be_value(t.drop_last()) * 256 + t.last() as nat);
        assert(be_value(s) == be_value(d) * 256 + s.last() as nat);
        assert(be_value(d) == s[0] as nat * pow256(k) + be_value(t.drop_last()));
        assert(be_value(s) == s[0] as nat * pow256((s.len() - 1) as nat) + be_value(t));
    }
}

/// Reading back the 8-byte big-endian encoding of a timestamp gives the
/// timestamp: `bytes_to_u64(u64_to_bytes(t)) == t`.
pub proof fn law_timestamp_roundtrip(t: u64)
    ensures
        be_encode(t as nat, 8).len() == 8,
        be_value(be_encode(t as nat, 8)) == t,
{
    lemma_be_value_of_encode(t as nat, 8);
    lemma_pow256_facts();
}

/// An 8-byte payload read as a timestamp and encoded again is the same
/// payload: `u64_to_bytes(bytes_to_u64(b))` holds the bytes of `b`.
pub proof fn law_payload_roundtrip(b: Seq<u8>)
    requires
        b.len() == 8,
    ensures
        be_value(b) <= u64::MAX,
        be_encode((be_value(b) as u64) as nat, 8) == b,
{
    lemma_be_value_bound(b);
    lemma_pow256_facts();
    lemma_be_encode_of_value(b);
}

/// A signal sent as a message and read back is the same signal; the message
/// can always be read.
pub proof fn law_signal_roundtrip(s: SignalView)
    ensures
        is_decodable(message_of_signal(s)),
        signal_of_message(message_of_signal(s)) == s,
{
    match s {
        SignalView::Ping(t) => law_timestamp_roundtrip(t),
        SignalView::Pong(t) => law_timestamp_roundtrip(t),
        _ => {},
    }
}

/// A binary message, or a ping or pong with an 8-byte payload, read as a
/// signal and sent again is the same message.
pub proof fn law_message_roundtrip(m: MessageView)
    requires
        is_decodable(m),
        m is Binary || m is Ping || m is Pong,
    ensures
        message_of_signal(signal_of_message(m)) == m,
{
    match m {
        MessageView::Ping(b) => law_payload_roundtrip(b),
        MessageView::Pong(b) => law_payload_roundtrip(b),
        _ => {},
    }
}

} // verus!
