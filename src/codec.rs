//! Little-endian integer layout of the wire records.

use vstd::prelude::*;

verus! {

/// `256^n`.
pub open spec fn pow256(n: nat) -> nat
    decreases n,
{
    if n == 0 {
        1
    } else {
        256 * pow256((n - 1) as nat)
    }
}

/// The `n` bytes that hold `v` in little-endian order.
pub open spec fn le_bytes(v: nat, n: nat) -> Seq<u8>
    decreases n,
{
    if n == 0 {
        Seq::empty()
    } else {
        seq![(v % 256) as u8] + le_bytes(v / 256, (n - 1) as nat)
    }
}

/// The number that little-endian bytes `s` hold.
pub open spec fn le_value(s: Seq<u8>) -> nat
    decreases s.len(),
{
    if s.len() == 0 {
        0
    } else {
        s[0] as nat + 256 * le_value(s.drop_first())
    }
}

pub proof fn lemma_pow256_pos(n: nat)
    ensures
        pow256(n) >= 1,
    decreases n,
{
    if n > 0 {
        lemma_pow256_pos((n - 1) as nat);
    }
}

pub proof fn lemma_le_bytes_len(v: nat, n: nat)
    ensures
        le_bytes(v, n).len() == n,
    decreases n,
{
    if n > 0 {
        lemma_le_bytes_len(v / 256, (n - 1) as nat);
    }
}

/// Reading back the bytes of a value that fits gives the value.
pub proof fn lemma_le_round_trip(v: nat, n: nat)
    requires
        v < pow256(n),
    ensures
        le_value(le_bytes(v, n)) == v,
        le_bytes(v, n).len() == n,
    decreases n,
{
    lemma_le_bytes_len(v, n);
    if n > 0 {
        let m = (n - 1) as nat;
        assert(v / 256 < pow256(m)) by (nonlinear_arith)
            requires
                v < 256 * pow256(m),
        ;
        lemma_le_round_trip(v / 256, m);
        let s = le_bytes(v, n);
        assert(s.drop_first() =~= le_bytes(v / 256, m));
        assert(((v % 256) as u8) as nat == v % 256);
        assert(v == v % 256 + 256 * (v / 256)) by (nonlinear_arith);
    }
}

/// The value of `n` bytes is below `256^n`.
pub proof fn lemma_le_value_bound(s: Seq<u8>)
    ensures
        le_value(s) < pow256(s.len()),
    decreases s.len(),
{
    if s.len() > 0 {
        let t = s.drop_first();
        lemma_le_value_bound(t);
        let a = s[0] as nat;
        let b = le_value(t);
        let p = pow256(t.len());
        assert(a + 256 * b < 256 * p) by (nonlinear_arith)
            requires
                a < 256,
                b < p,
        ;
    }
}

/// Appends the `n` little-endian bytes of `v`.
pub fn write_le(out: &mut Vec<u8>, v: u128, n: usize)
    requires
        n <= 16,
        v < pow256(n as nat),
    ensures
        final(out)@ == old(out)@ + le_bytes(v as nat, n as nat),
{
    let mut i: usize = 0;
    let mut rest: u128 = v;
    while i < n
        invariant
            i <= n,
            out@ + le_bytes(rest as nat, (n - i) as nat) == old(out)@ + le_bytes(v as nat, n as nat),
        decreases n - i,
    {
        let ghost before = out@;
        out.push((rest % 256) as u8);
        assert(le_bytes(rest as nat, (n - i) as nat) == seq![(rest % 256) as u8] + le_bytes(
            (rest / 256) as nat,
            (n - i - 1) as nat,
        ));
        assert(out@ + le_bytes((rest / 256) as nat, (n - i - 1) as nat) =~= before + le_bytes(
            rest as nat,
            (n - i) as nat,
        ));
        rest = rest / 256;
        i = i + 1;
    }
}

/// `256^n` grows with `n`.
pub proof fn lemma_pow256_mono(a: nat, b: nat)
    requires
        a <= b,
    ensures
        pow256(a) <= pow256(b),
    decreases b - a,
{
    if a < b {
        lemma_pow256_mono(a, (b - 1) as nat);
        lemma_pow256_pos((b - 1) as nat);
    }
}

pub proof fn lemma_pow256_16()
    ensures
        pow256(16) == 0x1_0000_0000_0000_0000_0000_0000_0000_0000,
{
    lemma_pow256_widths();
}

/// `256^n` for the widths that the records use.
pub proof fn lemma_pow256_widths()
    ensures
        pow256(2) == 0x1_0000,
        pow256(4) == 0x1_0000_0000,
        pow256(8) == 0x1_0000_0000_0000_0000,
        pow256(16) == 0x1_0000_0000_0000_0000_0000_0000_0000_0000,
{
    reveal_with_fuel(pow256, 17);
}

/// Reads `n` little-endian bytes of `b` starting at `off`.
pub fn read_le(b: &[u8], off: usize, n: usize) -> (r: u128)
    requires
        n <= 16,
        off + n <= b@.len(),
    ensures
        r as nat == le_value(b@.subrange(off as int, off + n)),
{
    let ghost s = b@.subrange(off as int, off + n);
    let len = b.len();
    let mut j: usize = 0;
    let mut v: u128 = 0;
    while j < n
        invariant
            j <= n,
            n <= 16,
            off + n <= b@.len(),
            len == b@.len(),
            s == b@.subrange(off as int, off + n),
            v as nat == le_value(s.subrange(n - j, n as int)),
            v < pow256(j as nat),
        decreases n - j,
    {
        let byte = b[off + n - 1 - j];
        let ghost t = s.subrange(n - j - 1, n as int);
        assert(t.drop_first() =~= s.subrange(n - j, n as int));
        assert(t[0] == byte);
        proof {
            lemma_pow256_mono((j + 1) as nat, 16);
            lemma_pow256_16();
            let pj = pow256(j as nat);
            assert((v as nat) * 256 + (byte as nat) < 256 * pj) by (nonlinear_arith)
                requires
                    (v as nat) < pj,
                    (byte as nat) < 256,
            ;
        }
        v = v * 256 + byte as u128;
        j = j + 1;
    }
    assert(s.subrange(0, n as int) =~= s);
    v
}

/// Where field `i` of a layout with widths `ws` starts.
pub open spec fn offset(ws: Seq<nat>, i: int) -> nat
    decreases i,
{
    if i <= 0 || ws.len() == 0 {
        0
    } else {
        ws[0] + offset(ws.drop_first(), i - 1)
    }
}

/// Total width of a layout.
pub open spec fn total(ws: Seq<nat>) -> nat {
    offset(ws, ws.len() as int)
}

/// Fields `vals`, each written little-endian in the width `ws` gives it, one
/// after the other.
pub open spec fn layout_bytes(vals: Seq<nat>, ws: Seq<nat>) -> Seq<u8>
    decreases ws.len(),
{
    if ws.len() == 0 || vals.len() == 0 {
        Seq::empty()
    } else {
        le_bytes(vals[0], ws[0]) + layout_bytes(vals.drop_first(), ws.drop_first())
    }
}

/// The fields that bytes `b` hold under the layout `ws`.
pub open spec fn layout_values(b: Seq<u8>, ws: Seq<nat>) -> Seq<nat> {
    Seq::new(ws.len(), |i: int| le_value(b.subrange(offset(ws, i) as int, (offset(ws, i) + ws[i]) as int)))
}

/// Every field fits its width.
pub open spec fn fits(vals: Seq<nat>, ws: Seq<nat>) -> bool {
    &&& vals.len() == ws.len()
    &&& forall|i: int| 0 <= i < ws.len() ==> vals[i] < pow256(#[trigger] ws[i])
}

pub proof fn lemma_offset_step(ws: Seq<nat>, i: int)
    requires
        0 <= i < ws.len(),
    ensures
        offset(ws, i + 1) == (offset(ws, i) + ws[i]) as int,
    decreases i,
{
    let d = ws.drop_first();
    if i > 0 {
        lemma_offset_step(d, i - 1);
        assert(d[i - 1] == ws[i]);
    } else {
        assert(offset(d, 0) == 0);
    }
}

pub proof fn lemma_layout_len(vals: Seq<nat>, ws: Seq<nat>)
    requires
        vals.len() == ws.len(),
    ensures
        layout_bytes(vals, ws).len() == total(ws),
    decreases ws.len(),
{
    if ws.len() > 0 {
        lemma_layout_len(vals.drop_first(), ws.drop_first());
        lemma_le_bytes_len(vals[0], ws[0]);
    }
}

/// Field `i` of a layout sits at its offset.
pub proof fn lemma_layout_field(vals: Seq<nat>, ws: Seq<nat>, i: int)
    requires
        vals.len() == ws.len(),
        0 <= i < ws.len(),
    ensures
        layout_bytes(vals, ws).subrange(offset(ws, i) as int, (offset(ws, i) + ws[i]) as int) == le_bytes(
            vals[i],
            ws[i],
        ),
    decreases i,
{
    let b = layout_bytes(vals, ws);
    let head = le_bytes(vals[0], ws[0]);
    let rest = layout_bytes(vals.drop_first(), ws.drop_first());
    lemma_le_bytes_len(vals[0], ws[0]);
    lemma_le_bytes_len(vals[i], ws[i]);
    lemma_layout_len(vals.drop_first(), ws.drop_first());
    assert(b == head + rest);
    if i == 0 {
        assert(b.subrange(0, ws[0] as int) =~= head);
    } else {
        lemma_layout_field(vals.drop_first(), ws.drop_first(), i - 1);
        let o = offset(ws.drop_first(), i - 1);
        lemma_offset_step(ws.drop_first(), i - 1);
        assert(offset(ws.drop_first(), i) <= total(ws.drop_first())) by {
            lemma_offset_mono(ws.drop_first(), i, ws.drop_first().len() as int);
        }
        assert(b.subrange(offset(ws, i) as int, (offset(ws, i) + ws[i]) as int) =~= rest.subrange(
            o as int,
            (o + ws[i]) as int,
        ));
    }
}

pub proof fn lemma_offset_mono(ws: Seq<nat>, i: int, j: int)
    requires
        0 <= i <= j <= ws.len(),
    ensures
        offset(ws, i) <= offset(ws, j),
    decreases j - i,
{
    if i < j {
        lemma_offset_mono(ws, i, j - 1);
        lemma_offset_step(ws, j - 1);
    }
}

/// Reading a layout back gives the fields that were written.
pub proof fn lemma_layout_round_trip(vals: Seq<nat>, ws: Seq<nat>)
    requires
        fits(vals, ws),
    ensures
        layout_values(layout_bytes(vals, ws), ws) == vals,
        layout_bytes(vals, ws).len() == total(ws),
{
    lemma_layout_len(vals, ws);
    let b = layout_bytes(vals, ws);
    assert forall|i: int| 0 <= i < ws.len() implies #[trigger] layout_values(b, ws)[i]
        == vals[i] by {
        lemma_layout_field(vals, ws, i);
        lemma_le_round_trip(vals[i], ws[i]);
    }
    assert(layout_values(b, ws) =~= vals);
}

pub proof fn lemma_layout_append(vals: Seq<nat>, ws: Seq<nat>, i: int)
    requires
        vals.len() == ws.len(),
        0 <= i < ws.len(),
    ensures
        layout_bytes(vals.take(i + 1), ws.take(i + 1)) == layout_bytes(vals.take(i), ws.take(i))
            + le_bytes(vals[i], ws[i]),
    decreases i,
{
    if i == 0 {
        assert(vals.take(1).drop_first() =~= Seq::<nat>::empty());
        assert(ws.take(1).drop_first() =~= Seq::<nat>::empty());
        assert(layout_bytes(Seq::<nat>::empty(), Seq::<nat>::empty()) == Seq::<u8>::empty());
        assert(le_bytes(vals[0], ws[0]) + Seq::<u8>::empty() =~= le_bytes(vals[0], ws[0]));
        assert(layout_bytes(vals.take(1), ws.take(1)) =~= le_bytes(vals[0], ws[0]));
        assert(layout_bytes(vals.take(0), ws.take(0)) =~= Seq::<u8>::empty());
    } else {
        lemma_layout_append(vals.drop_first(), ws.drop_first(), i - 1);
        assert(vals.take(i + 1).drop_first() =~= vals.drop_first().take(i));
        assert(ws.take(i + 1).drop_first() =~= ws.drop_first().take(i));
        assert(vals.take(i).drop_first() =~= vals.drop_first().take(i - 1));
        assert(ws.take(i).drop_first() =~= ws.drop_first().take(i - 1));
        assert(layout_bytes(vals.take(i + 1), ws.take(i + 1)) =~= layout_bytes(vals.take(i),
            ws.take(i)) + le_bytes(vals[i], ws[i]));
    }
}

/// The widths of a layout, as numbers.
pub open spec fn widths_of(ws: Seq<usize>) -> Seq<nat> {
    ws.map_values(|w: usize| w as nat)
}

/// The fields of a record, as numbers.
pub open spec fn values_of(vs: Seq<u128>) -> Seq<nat> {
    vs.map_values(|v: u128| v as nat)
}

/// Appends fields `vals` in the layout `ws`.
pub fn write_fields(out: &mut Vec<u8>, vals: &Vec<u128>, ws: &Vec<usize>)
    requires
        fits(values_of(vals@), widths_of(ws@)),
        forall|i: int| 0 <= i < ws@.len() ==> #[trigger] ws@[i] <= 16,
    ensures
        final(out)@ == old(out)@ + layout_bytes(values_of(vals@), widths_of(ws@)),
{
    let ghost vs = values_of(vals@);
    let ghost wn = widths_of(ws@);
    let mut i: usize = 0;
    assert(layout_bytes(vs.take(0), wn.take(0)) =~= Seq::<u8>::empty());
    assert(out@ =~= old(out)@ + Seq::<u8>::empty());
    while i < ws.len()
        invariant
            i <= ws@.len(),
            vs == values_of(vals@),
            wn == widths_of(ws@),
            fits(vs, wn),
            forall|k: int| 0 <= k < ws@.len() ==> #[trigger] ws@[k] <= 16,
            out@ == old(out)@ + layout_bytes(vs.take(i as int), wn.take(i as int)),
        decreases ws@.len() - i,
    {
        assert(vs[i as int] < pow256(wn[i as int]));
        write_le(out, vals[i], ws[i]);
        proof {
            lemma_layout_append(vs, wn, i as int);
        }
        assert(out@ =~= old(out)@ + layout_bytes(vs.take(i + 1), wn.take(i + 1)));
        i = i + 1;
    }
    assert(vs.take(ws@.len() as int) =~= vs);
    assert(wn.take(ws@.len() as int) =~= wn);
}

/// Reads the fields of the layout `ws` from `b`, starting at `off`.
pub fn read_fields(b: &[u8], off: usize, ws: &Vec<usize>) -> (r: Vec<u128>)
    requires
        off + total(widths_of(ws@)) <= b@.len(),
        forall|i: int| 0 <= i < ws@.len() ==> #[trigger] ws@[i] <= 16,
    ensures
        values_of(r@) == layout_values(
            b@.subrange(off as int, (off + total(widths_of(ws@))) as int),
            widths_of(ws@),
        ),
        fits(values_of(r@), widths_of(ws@)),
{
    let ghost wn = widths_of(ws@);
    let ghost sub = b@.subrange(off as int, (off + total(wn)) as int);
    let len = b.len();
    let mut r: Vec<u128> = Vec::new();
    let mut pos: usize = off;
    let mut i: usize = 0;
    while i < ws.len()
        invariant
            i <= ws@.len(),
            wn == widths_of(ws@),
            sub == b@.subrange(off as int, (off + total(wn)) as int),
            off + total(wn) <= b@.len(),
            len == b@.len(),
            forall|k: int| 0 <= k < ws@.len() ==> #[trigger] ws@[k] <= 16,
            pos == off + offset(wn, i as int),
            r@.len() == i,
            forall|k: int|
                0 <= k < i ==> (#[trigger] r@[k]) as nat == layout_values(sub, wn)[k] && (
                r@[k] as nat) < pow256(wn[k]),
        decreases ws@.len() - i,
    {
        proof {
            lemma_offset_step(wn, i as int);
            lemma_offset_mono(wn, i + 1, wn.len() as int);
        }
        let v = read_le(b, pos, ws[i]);
        proof {
            let o = offset(wn, i as int);
            assert(sub.subrange(o as int, (o + wn[i as int]) as int) =~= b@.subrange(
                pos as int,
                pos + ws@[i as int],
            ));
            lemma_le_value_bound(b@.subrange(pos as int, pos + ws@[i as int]));
        }
        r.push(v);
        pos = pos + ws[i];
        i = i + 1;
    }
    assert(values_of(r@) =~= layout_values(sub, wn));
    r
}

/// A fixed-size record of the wire format.
pub trait Record: Sized {
    /// Size of one record in bytes.
    spec fn spec_size() -> nat;

    /// The bytes of this record.
    spec fn spec_to_bytes(&self) -> Seq<u8>;

    /// The record that `spec_size()` bytes hold.
    spec fn spec_from_bytes(b: Seq<u8>) -> Self;

    fn byte_size() -> (r: usize)
        ensures
            r == Self::spec_size(),
            0 < r <= 128,
    ;

    /// Appends the bytes of this record.
    fn encode_into(&self, out: &mut Vec<u8>)
        ensures
            final(out)@ == old(out)@ + self.spec_to_bytes(),
    ;

    /// Reads one record from `b`, starting at `off`.
    fn decode_at(b: &[u8], off: usize) -> (r: Self)
        requires
            off + Self::spec_size() <= b@.len(),
        ensures
            r == Self::spec_from_bytes(b@.subrange(off as int, off + Self::spec_size())),
    ;

    /// Decoding the bytes of a record gives the record.
    proof fn lemma_record_round_trip(&self)
        ensures
            self.spec_to_bytes().len() == Self::spec_size(),
            Self::spec_from_bytes(self.spec_to_bytes()) == *self,
    ;
}

/// The records `rs`, one after the other.
pub open spec fn batch_bytes<R: Record>(rs: Seq<R>) -> Seq<u8>
    decreases rs.len(),
{
    if rs.len() == 0 {
        Seq::empty()
    } else {
        batch_bytes(rs.drop_last()) + rs.last().spec_to_bytes()
    }
}

/// The records that `b` holds, one for each whole record size.
pub open spec fn batch_records<R: Record>(b: Seq<u8>) -> Seq<R> {
    Seq::new(
        b.len() / R::spec_size(),
        |i: int| R::spec_from_bytes(b.subrange(i * R::spec_size(), (i + 1) * R::spec_size())),
    )
}

pub proof fn lemma_batch_len<R: Record>(rs: Seq<R>)
    requires
        R::spec_size() > 0,
    ensures
        batch_bytes(rs).len() == rs.len() * R::spec_size(),
    decreases rs.len(),
{
    if rs.len() > 0 {
        lemma_batch_len(rs.drop_last());
        rs.last().lemma_record_round_trip();
        let n = rs.len() as int;
        let k = R::spec_size() as int;
        assert((n - 1) * k + k == n * k) by (nonlinear_arith);
    }
}

/// Record `i` of a batch sits at `i` times the record size.
pub proof fn lemma_batch_item<R: Record>(rs: Seq<R>, i: int)
    requires
        R::spec_size() > 0,
        0 <= i < rs.len(),
    ensures
        batch_bytes(rs).subrange(i * R::spec_size(), (i + 1) * R::spec_size())
            == rs[i].spec_to_bytes(),
    decreases rs.len(),
{
    let k = R::spec_size() as int;
    let n = rs.len() as int;
    let init = rs.drop_last();
    lemma_batch_len(init);
    rs.last().lemma_record_round_trip();
    assert(batch_bytes(rs) == batch_bytes(init) + rs.last().spec_to_bytes());
    if i == n - 1 {
        assert(i * k == (n - 1) * k);
        assert((i + 1) * k == (n - 1) * k + k) by (nonlinear_arith)
            requires
                i == n - 1,
        ;
        assert(batch_bytes(rs).subrange(i * k, (i + 1) * k) =~= rs.last().spec_to_bytes());
    } else {
        lemma_batch_item(init, i);
        assert((i + 1) * k <= (n - 1) * k) by (nonlinear_arith)
            requires
                i + 1 <= n - 1,
                k > 0,
        ;
        assert(0 <= i * k) by (nonlinear_arith)
            requires
                i >= 0,
                k > 0,
        ;
        assert((i + 1) * k == i * k + k) by (nonlinear_arith);
        assert(batch_bytes(rs).subrange(i * k, (i + 1) * k) =~= batch_bytes(init).subrange(
            i * k,
            (i + 1) * k,
        ));
    }
}

/// Decoding the bytes of a batch of records gives the same records, in the
/// same order.
pub proof fn lemma_batch_round_trip<R: Record>(rs: Seq<R>)
    requires
        R::spec_size() > 0,
    ensures
        batch_records::<R>(batch_bytes(rs)) == rs,
        batch_bytes(rs).len() == rs.len() * R::spec_size(),
{
    let k = R::spec_size() as int;
    let n = rs.len() as int;
    lemma_batch_len(rs);
    assert(n * k / k == n) by (nonlinear_arith)
        requires
            k > 0,
    ;
    let got = batch_records::<R>(batch_bytes(rs));
    assert forall|i: int| 0 <= i < n implies #[trigger] got[i] == rs[i] by {
        lemma_batch_item(rs, i);
        rs[i].lemma_record_round_trip();
    }
    assert(got =~= rs);
}

/// The bytes of the records `rs`, one after the other.
pub fn encode_batch<R: Record>(rs: &[R]) -> (r: Vec<u8>)
    ensures
        r@ == batch_bytes(rs@),
{
    let mut out: Vec<u8> = Vec::new();
    let mut i: usize = 0;
    while i < rs.len()
        invariant
            i <= rs@.len(),
            out@ == batch_bytes(rs@.take(i as int)),
        decreases rs@.len() - i,
    {
        rs[i].encode_into(&mut out);
        assert(rs@.take(i + 1).drop_last() =~= rs@.take(i as int));
        i = i + 1;
    }
    assert(rs@.take(rs@.len() as int) =~= rs@);
    out
}

/// The records that `b` holds; `None` where its length is not a whole number
/// of records.
pub fn decode_batch<R: Record>(b: &[u8]) -> (r: Option<Vec<R>>)
    ensures
        r is Some <==> b@.len() % R::spec_size() == 0,
        r matches Some(v) ==> v@ == batch_records::<R>(b@),
{
    let k = R::byte_size();
    let len = b.len();
    if len % k != 0 {
        return None;
    }
    let n = len / k;
    let mut out: Vec<R> = Vec::new();
    let mut i: usize = 0;
    while i < n
        invariant
            k == R::spec_size(),
            0 < k,
            len == b@.len(),
            n == len / k,
            i <= n,
            out@.len() == i,
            forall|j: int| 0 <= j < i ==> #[trigger] out@[j] == batch_records::<R>(b@)[j],
        decreases n - i,
    {
        assert((i + 1) * k <= n * k) by (nonlinear_arith)
            requires
                i < n,
                k > 0,
        ;
        assert(n * k <= len) by (nonlinear_arith)
            requires
                n == len / k,
                k > 0,
        ;
        assert(i * k + k == (i + 1) * k) by (nonlinear_arith);
        let item = R::decode_at(b, i * k);
        out.push(item);
        i = i + 1;
    }
    assert(out@ =~= batch_records::<R>(b@));
    Some(out)
}

/// An identifier, as lookups send it: sixteen little-endian bytes.
impl Record for u128 {
    open spec fn spec_size() -> nat {
        16
    }

    open spec fn spec_to_bytes(&self) -> Seq<u8> {
        le_bytes(*self as nat, 16)
    }

    open spec fn spec_from_bytes(b: Seq<u8>) -> Self {
        le_value(b) as u128
    }

    fn byte_size() -> (r: usize) {
        16
    }

    fn encode_into(&self, out: &mut Vec<u8>) {
        proof {
            lemma_pow256_16();
        }
        write_le(out, *self, 16);
    }

    fn decode_at(b: &[u8], off: usize) -> (r: Self) {
        read_le(b, off, 16)
    }

    proof fn lemma_record_round_trip(&self) {
        lemma_pow256_16();
        lemma_le_round_trip(*self as nat, 16);
    }
}

} // verus!
