//! Printable ASCII rendering of arbitrary bytes, for diagnostic output only.
use vstd::prelude::*;

verus! {

/// The lowercase hexadecimal digit (as an ASCII byte) for `n < 16`.
pub open spec fn hex_digit(n: u8) -> u8 {
    if n < 10 {
        (0x30 + n) as u8
    } else {
        (0x57 + n) as u8
    }
}

/// The escape of one byte: `\t`, `\r`, `\n` and `\\` for those bytes, the
/// byte itself for any other byte in 0x20..=0x7e, and `\xNN` (lowercase
/// hex) for everything else.
pub open spec fn escape_byte(b: u8) -> Seq<u8> {
    if b == 0x09 {
        seq![0x5cu8, 0x74u8]
    } else if b == 0x0d {
        seq![0x5cu8, 0x72u8]
    } else if b == 0x0a {
        seq![0x5cu8, 0x6eu8]
    } else if b == 0x5c {
        seq![0x5cu8, 0x5cu8]
    } else if 0x20 <= b <= 0x7e {
        seq![b]
    } else {
        seq![0x5cu8, 0x78u8, hex_digit(b / 16), hex_digit(b % 16)]
    }
}

/// The escapes of all bytes of `s`, one after another.
pub open spec fn escape_all(s: Seq<u8>) -> Seq<u8>
    decreases s.len(),
{
    if s.len() == 0 {
        Seq::empty()
    } else {
        escape_all(s.drop_last()) + escape_byte(s.last())
    }
}

/// A byte that stands for itself in an escape: printable ASCII other than
/// the backslash.
pub open spec fn is_plain(b: u8) -> bool {
    0x20 <= b <= 0x7e && b != 0x5c
}

/// The lowercase hexadecimal digit for `n < 16`.
fn hex_digit_of(n: u8) -> (r: u8)
    requires
        n < 16,
    ensures
        r == hex_digit(n),
{
    if n < 10 {
        0x30 + n
    } else {
        0x57 + n
    }
}

/// The escape of one byte.
fn escape_one(b: u8) -> (r: Vec<u8>)
    ensures
        r@ == escape_byte(b),
{
    let r: Vec<u8> = if b == 0x09 {
        vec![0x5cu8, 0x74u8]
    } else if b == 0x0d {
        vec![0x5cu8, 0x72u8]
    } else if b == 0x0a {
        vec![0x5cu8, 0x6eu8]
    } else if b == 0x5c {
        vec![0x5cu8, 0x5cu8]
    } else if 0x20 <= b && b <= 0x7e {
        vec![b]
    } else {
        vec![0x5cu8, 0x78u8, hex_digit_of(b / 16), hex_digit_of(b % 16)]
    };
    assert(r@ =~= escape_byte(b));
    r
}

/// Renders `req` as printable ASCII, escaping every byte that is not plain.
pub fn bytes_escape(req: &[u8]) -> (r: Vec<u8>)
    ensures
        r@ == escape_all(req@),
{
    let mut escaped: Vec<u8> = Vec::new();
    let mut i: usize = 0;
    while i < req.len()
        invariant
            i <= req@.len(),
            escaped@ == escape_all(req@.subrange(0, i as int)),
        decreases req@.len() - i,
    {
        let mut part = escape_one(req[i]);
        escaped.append(&mut part);
        proof {
            let next = req@.subrange(0, i + 1);
            assert(next.drop_last() =~= req@.subrange(0, i as int));
            assert(next.last() == req@[i as int]);
        }
        i = i + 1;
    }
    assert(req@.subrange(0, req@.len() as int) =~= req@);
    escaped
}

/// Escaping leaves a sequence of plain bytes unchanged, so escaping it
/// again changes nothing either.
pub proof fn lemma_escape_plain_unchanged(s: Seq<u8>)
    requires
        forall|i: int| 0 <= i < s.len() ==> is_plain(#[trigger] s[i]),
    ensures
        escape_all(s) == s,
        escape_all(escape_all(s)) == escape_all(s),
    decreases s.len(),
{
    if s.len() > 0 {
        lemma_escape_plain_unchanged(s.drop_last());
        assert(escape_byte(s.last()) =~= seq![s.last()]);
        assert(s.drop_last().push(s.last()) =~= s);
    }
}

/// Every byte of an escape is printable ASCII.
pub proof fn lemma_escape_printable(s: Seq<u8>)
    ensures
        forall|k: int| 0 <= k < escape_all(s).len() ==> 0x20 <= #[trigger] escape_all(s)[k] <= 0x7e,
    decreases s.len(),
{
    if s.len() > 0 {
        lemma_escape_printable(s.drop_last());
        let b = s.last();
        let e = escape_byte(b);
        assert(forall|k: int| 0 <= k < e.len() ==> 0x20 <= #[trigger] e[k] <= 0x7e) by {
            assert(b / 16 < 16 && b % 16 < 16);
        }
        let prev = escape_all(s.drop_last());
        assert forall|k: int| 0 <= k < escape_all(s).len() implies 0x20 <= #[trigger] escape_all(
            s,
        )[k] <= 0x7e by {
            if k < prev.len() {
                assert(escape_all(s)[k] == prev[k]);
            } else {
                assert(escape_all(s)[k] == e[k - prev.len()]);
            }
        }
    }
}

} // verus!
