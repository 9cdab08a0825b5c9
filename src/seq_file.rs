use vstd::prelude::*;

use crate::node::Node;
use vstd::string::StringSliceAdditionalSpecFns;

verus! {

/// A diagnostic text buffer, as bytes.
#[derive(Debug)]
pub struct SeqFile {
    pub buf: Vec<u8>,
}

impl SeqFile {
    /// An empty buffer.
    pub fn new() -> (r: SeqFile)
        ensures
            r.buf@.len() == 0,
    {
        SeqFile { buf: Vec::new() }
    }
}

/// The ASCII decimal digits of `n`, without leading zeros.
pub open spec fn decimal(n: nat) -> Seq<u8>
    decreases n,
{
    if n < 10 {
        seq![(48 + n) as u8]
    } else {
        decimal(n / 10).push((48 + n % 10) as u8)
    }
}

/// The lower-case ASCII hexadecimal digit of `d`, for `d < 16`.
pub open spec fn hex_digit(d: u64) -> u8 {
    if d < 10 {
        (48 + d) as u8
    } else {
        (87 + d) as u8
    }
}

/// The `i`-th of the sixteen nibbles of `v`, most significant first.
pub open spec fn nibble(v: u64, i: int) -> u64 {
    (v >> (60 - 4 * i) as u64) & 15
}

/// `v` as sixteen lower-case hexadecimal digits, zero-padded.
pub open spec fn hex16(v: u64) -> Seq<u8> {
    Seq::new(16, |i: int| hex_digit(nibble(v, i)))
}

/// "node work "
pub open spec fn node_work_label() -> Seq<u8> {
    seq![110u8, 111, 100, 101, 32, 119, 111, 114, 107, 32]
}

/// The diagnostic line of a notification for `node`:
/// `<prefix>node work <debug_id>: u<pointer>c<cookie>` and a newline, the pointer
/// value and the cookie each as sixteen hexadecimal digits.
pub open spec fn debug_line(prefix: Seq<u8>, node: Node) -> Seq<u8> {
    prefix + node_work_label() + decimal(node.debug_id as nat) + seq![58u8, 32, 117] + hex16(
        node.ptr,
    ) + seq![99u8] + hex16(node.cookie) + seq![10u8]
}

fn push_bytes(buf: &mut Vec<u8>, s: &[u8])
    ensures
        final(buf)@ == old(buf)@ + s@,
{
    let ghost start = buf@;
    let mut i: usize = 0;
    while i < s.len()
        invariant
            i <= s@.len(),
            buf@ == start + s@.take(i as int),
        decreases s@.len() - i,
    {
        buf.push(s[i]);
        assert(s@.take(i as int + 1) =~= s@.take(i as int).push(s@[i as int]));
        i = i + 1;
    }
    assert(s@.take(s@.len() as int) =~= s@);
}

fn push_node_work_label(buf: &mut Vec<u8>)
    ensures
        final(buf)@ == old(buf)@ + node_work_label(),
{
    buf.push(110);
    buf.push(111);
    buf.push(100);
    buf.push(101);
    buf.push(32);
    buf.push(119);
    buf.push(111);
    buf.push(114);
    buf.push(107);
    buf.push(32);
    assert(buf@ =~= old(buf)@ + node_work_label());
}

fn push_decimal(buf: &mut Vec<u8>, n: usize)
    ensures
        final(buf)@ == old(buf)@ + decimal(n as nat),
    decreases n,
{
    if n >= 10 {
        push_decimal(buf, n / 10);
    }
    buf.push((48 + n % 10) as u8);
    assert(buf@ =~= old(buf)@ + decimal(n as nat));
}

fn push_hex16(buf: &mut Vec<u8>, v: u64)
    ensures
        final(buf)@ == old(buf)@ + hex16(v),
{
    let ghost start = buf@;
    let mut i: u64 = 0;
    while i < 16
        invariant
            i <= 16,
            buf@ == start + hex16(v).take(i as int),
        decreases 16 - i,
    {
        let sh: u64 = 60 - 4 * i;
        let x: u64 = v >> sh;
        let d: u64 = x & 15;
        assert(x & 15 < 16) by (bit_vector);
        let c: u8 = if d < 10 {
            (48 + d) as u8
        } else {
            (87 + d) as u8
        };
        buf.push(c);
        assert(hex16(v).take(i as int + 1) =~= hex16(v).take(i as int).push(c));
        i = i + 1;
    }
    assert(hex16(v).take(16) =~= hex16(v));
}

/// Appends the diagnostic line of a notification for `node` to `m`.
pub fn print_node_work(m: &mut SeqFile, prefix: &str, node: &Node)
    ensures
        final(m).buf@ == old(m).buf@ + debug_line(prefix.spec_bytes(), *node),
{
    push_bytes(&mut m.buf, prefix.as_bytes());
    push_node_work_label(&mut m.buf);
    push_decimal(&mut m.buf, node.debug_id);
    m.buf.push(58);
    m.buf.push(32);
    m.buf.push(117);
    push_hex16(&mut m.buf, node.ptr);
    m.buf.push(99);
    push_hex16(&mut m.buf, node.cookie);
    m.buf.push(10);
    assert(m.buf@ =~= old(m).buf@ + debug_line(prefix.spec_bytes(), *node));
}

} // verus!
