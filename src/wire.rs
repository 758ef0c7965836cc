use vstd::prelude::*;
use vstd::arithmetic::div_mod::lemma_fundamental_div_mod;

verus! {

/// The byte that ends a frame's length prefix.
pub const SEPARATOR: u8 = 58;

pub open spec fn is_digit(b: u8) -> bool {
    48 <= b <= 57
}

/// The decimal digits of `n`, most significant first.
pub open spec fn decimal(n: nat) -> Seq<u8>
    decreases n,
{
    if n < 10 {
        seq![(48 + n) as u8]
    } else {
        decimal(n / 10).push((48 + n % 10) as u8)
    }
}

/// The number that the digits of `s` spell, read left to right; other bytes
/// are passed over.
pub open spec fn digits_value(s: Seq<u8>) -> nat
    decreases s.len(),
{
    if s.len() == 0 {
        0
    } else if is_digit(s.last()) {
        digits_value(s.drop_last()) * 10 + (s.last() - 48) as nat
    } else {
        digits_value(s.drop_last())
    }
}

/// A framed message: the payload's length in decimal, the separator, the payload.
pub open spec fn frame(p: Seq<u8>) -> Seq<u8> {
    decimal(p.len()) + seq![SEPARATOR] + p
}

/// Position of the first separator at or after `i`, or -1.
pub open spec fn separator_from(s: Seq<u8>, i: int) -> int
    decreases s.len() - i,
{
    if i < 0 || i >= s.len() {
        -1
    } else if s[i] == SEPARATOR {
        i
    } else {
        separator_from(s, i + 1)
    }
}

/// The first complete frame at the start of `s`: its payload and the number
/// of bytes it takes; `None` while the length prefix or the payload is incomplete.
pub open spec fn unframe(s: Seq<u8>) -> Option<(Seq<u8>, nat)> {
    let c = separator_from(s, 0);
    if c < 0 {
        None
    } else {
        let n = digits_value(s.subrange(0, c));
        if c + 1 + n <= s.len() {
            Some((s.subrange(c + 1, c + 1 + n), (c + 1 + n) as nat))
        } else {
            None
        }
    }
}

pub proof fn lemma_decimal_digits(n: nat)
    ensures
        digits_value(decimal(n)) == n,
        decimal(n).len() >= 1,
        forall|i: int| 0 <= i < decimal(n).len() ==> is_digit(#[trigger] decimal(n)[i]),
    decreases n,
{
    lemma_fundamental_div_mod(n as int, 10);
    if n >= 10 {
        lemma_decimal_digits(n / 10);
        let d = decimal(n);
        assert(d.drop_last() =~= decimal(n / 10));
        assert(d.last() == (48 + n % 10) as u8);
        assert(is_digit(d.last()));
        assert((d.last() - 48) as nat == n % 10);
        assert(digits_value(d) == digits_value(decimal(n / 10)) * 10 + n % 10);
        assert((n / 10) * 10 == 10 * (n / 10)) by (nonlinear_arith);
        assert(digits_value(d) == n);
    } else {
        let d = decimal(n);
        assert(d.drop_last() =~= Seq::<u8>::empty());
        assert(digits_value(d.drop_last()) == 0);
        assert(d.last() == (48 + n) as u8);
        assert(is_digit(d.last()));
        assert(digits_value(d) == n);
    }
}

pub proof fn lemma_separator_from(s: Seq<u8>, i: int)
    requires
        0 <= i <= s.len(),
    ensures
        -1 <= separator_from(s, i) < s.len(),
        separator_from(s, i) >= 0 ==> i <= separator_from(s, i) && s[separator_from(s, i)] == SEPARATOR,
        separator_from(s, i) == -1 ==> forall|j: int| i <= j < s.len() ==> s[j] != SEPARATOR,
        separator_from(s, i) >= 0 ==> forall|j: int| i <= j < separator_from(s, i) ==> s[j] != SEPARATOR,
    decreases s.len() - i,
{
    if i < s.len() && s[i] != SEPARATOR {
        lemma_separator_from(s, i + 1);
    }
}

proof fn lemma_separator_first(s: Seq<u8>, c: int, i: int)
    requires
        0 <= i <= c < s.len(),
        s[c] == SEPARATOR,
        forall|j: int| 0 <= j < c ==> s[j] != SEPARATOR,
    ensures
        separator_from(s, i) == c,
    decreases c - i,
{
    if i < c {
        lemma_separator_first(s, c, i + 1);
    }
}

/// Reading back a frame gives its payload, whatever follows it on the stream.
pub proof fn lemma_frame_round_trip(p: Seq<u8>, rest: Seq<u8>)
    ensures
        unframe(frame(p) + rest) == Some((p, frame(p).len())),
{
    let d = decimal(p.len());
    let s = frame(p) + rest;
    lemma_decimal_digits(p.len());
    lemma_separator_first(s, d.len() as int, 0);
    assert(s.subrange(0, d.len() as int) =~= d);
    assert(s.subrange(d.len() as int + 1, d.len() as int + 1 + p.len()) =~= p);
}

/// The decimal digits of `n`.
pub fn decimal_digits(n: usize) -> (r: Vec<u8>)
    ensures
        r@ == decimal(n as nat),
    decreases n,
{
    if n < 10 {
        vec![48 + n as u8]
    } else {
        let mut v = decimal_digits(n / 10);
        v.push(48 + (n % 10) as u8);
        v
    }
}

/// Frames `payload`: its length in decimal, the separator, then the payload.
pub fn encode_frame(payload: &[u8]) -> (r: Vec<u8>)
    ensures
        r@ == frame(payload@),
{
    let mut out = decimal_digits(payload.len());
    out.push(SEPARATOR);
    let ghost head = out@;
    let mut i: usize = 0;
    while i < payload.len()
        invariant
            i <= payload@.len(),
            out@ == head + payload@.subrange(0, i as int),
        decreases payload@.len() - i,
    {
        out.push(payload[i]);
        i += 1;
        assert(out@ =~= head + payload@.subrange(0, i as int));
    }
    assert(payload@.subrange(0, i as int) =~= payload@);
    out
}

/// What reading one more byte of a length prefix gives.
#[derive(PartialEq, Eq, Structural, Clone, Copy, Debug)]
pub enum HeaderStep {
    /// More of the prefix follows; the length read so far.
    More(usize),
    /// The prefix is complete; the payload's length.
    Done(usize),
    /// The length does not fit in memory.
    TooLong,
}

/// Takes one byte of a length prefix, `acc` being what the bytes before it spell.
pub fn header_step(acc: usize, byte: u8) -> (r: HeaderStep)
    ensures
        byte == SEPARATOR ==> r == HeaderStep::Done(acc),
        byte != SEPARATOR && !is_digit(byte) ==> r == HeaderStep::More(acc),
        is_digit(byte) && acc * 10 + (byte - 48) <= usize::MAX ==> r == HeaderStep::More((acc * 10 + (byte - 48)) as usize),
        is_digit(byte) && acc * 10 + (byte - 48) > usize::MAX ==> r == HeaderStep::TooLong,
{
    if byte == SEPARATOR {
        HeaderStep::Done(acc)
    } else if 48 <= byte && byte <= 57 {
        match acc.checked_mul(10) {
            Some(t) => match t.checked_add((byte - 48) as usize) {
                Some(v) => HeaderStep::More(v),
                None => HeaderStep::TooLong,
            },
            None => HeaderStep::TooLong,
        }
    } else {
        HeaderStep::More(acc)
    }
}

/// Reads the first complete frame of `buf`: its payload and how many bytes it
/// took, or `None` where `buf` does not yet hold a whole frame.
pub fn decode_frame(buf: &[u8]) -> (r: Option<(Vec<u8>, usize)>)
    ensures
        r is None <==> unframe(buf@) is None,
        r matches Some((p, used)) ==> unframe(buf@) == Some((p@, used as nat)),
{
    let ghost s = buf@;
    proof {
        lemma_separator_from(s, 0);
    }
    let mut acc: usize = 0;
    let mut i: usize = 0;
    let mut big = false;
    while i < buf.len() && buf[i] != SEPARATOR
        invariant
            s == buf@,
            i <= s.len(),
            separator_from(s, 0) == separator_from(s, i as int),
            big ==> digits_value(s.subrange(0, i as int)) > s.len(),
            !big ==> acc == digits_value(s.subrange(0, i as int)),
        decreases s.len() - i,
    {
        proof {
            lemma_separator_from(s, i as int);
            assert(s.subrange(0, i + 1).drop_last() =~= s.subrange(0, i as int));
        }
        if !big {
            match header_step(acc, buf[i]) {
                HeaderStep::More(v) => {
                    acc = v;
                },
                _ => {
                    big = true;
                },
            }
        } else {
            assert(digits_value(s.subrange(0, i + 1)) >= digits_value(s.subrange(0, i as int)));
        }
        i += 1;
    }
    if i >= buf.len() {
        return None;
    }
    proof {
        lemma_separator_from(s, i as int);
    }
    if big || acc > buf.len() - i - 1 {
        return None;
    }
    let start = i + 1;
    let end = start + acc;
    let mut p: Vec<u8> = Vec::new();
    let mut k: usize = start;
    while k < end
        invariant
            s == buf@,
            start <= k <= end <= s.len(),
            p@ == s.subrange(start as int, k as int),
        decreases end - k,
    {
        p.push(buf[k]);
        k += 1;
        assert(p@ =~= s.subrange(start as int, k as int));
    }
    Some((p, end))
}

} // verus!
