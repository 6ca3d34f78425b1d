//! The Internet checksum (one's-complement sum of big-endian 16-bit words)
//! and the header field that stores it.

use vstd::prelude::*;
use vstd::arithmetic::div_mod::lemma_fundamental_div_mod_converse;

verus! {

/// The byte at index `i`, or zero past the end: a buffer of odd length is
/// summed as if padded with one zero byte.
pub open spec fn padded_byte(bytes: Seq<u8>, i: int) -> nat {
    if 0 <= i < bytes.len() {
        bytes[i] as nat
    } else {
        0
    }
}

/// The `k`-th 16-bit word of the buffer, read big-endian.
pub open spec fn word_at(bytes: Seq<u8>, k: int) -> nat {
    padded_byte(bytes, 2 * k) * 256 + padded_byte(bytes, 2 * k + 1)
}

/// Number of 16-bit words in the padded buffer.
pub open spec fn word_count(bytes: Seq<u8>) -> nat {
    ((bytes.len() + 1) / 2) as nat
}

/// Plain (unbounded) sum of the first `n` words.
pub open spec fn words_sum(bytes: Seq<u8>, n: nat) -> nat
    decreases n,
{
    if n == 0 {
        0
    } else {
        words_sum(bytes, (n - 1) as nat) + word_at(bytes, n - 1)
    }
}

/// Plain sum of all words of the buffer.
pub open spec fn word_sum(bytes: Seq<u8>) -> nat {
    words_sum(bytes, word_count(bytes))
}

/// A plain sum reduced to 16 bits by end-around carry: zero stays zero, any
/// other sum becomes the value in `1..=0xFFFF` congruent to it modulo `0xFFFF`.
pub open spec fn fold_carries(n: nat) -> nat {
    if n == 0 {
        0
    } else {
        ((n - 1) as nat % 0xFFFF + 1) as nat
    }
}

/// The Internet checksum of a buffer: the one's complement of its folded word sum.
pub open spec fn internet_checksum(bytes: Seq<u8>) -> u16 {
    (0xFFFF - fold_carries(word_sum(bytes))) as u16
}

/// Adding a 16-bit word to a folded sum, with end-around carry, gives the
/// folded value of the plain sum.
proof fn lemma_fold_add_word(n: nat, w: nat)
    requires
        w <= 0xFFFF,
    ensures
        fold_carries(n) <= 0xFFFF,
        fold_carries(n + w) as int == if fold_carries(n) + w > 0xFFFF {
            fold_carries(n) + w - 0xFFFF
        } else {
            fold_carries(n) + w as int
        },
{
    if n == 0 {
        if w > 0 {
            lemma_fundamental_div_mod_converse(w - 1, 0xFFFF, 0, w - 1);
        }
    } else if w > 0 {
        let q = (n - 1) / 0xFFFF;
        let r = (n - 1) % 0xFFFF;
        lemma_fundamental_div_mod_converse(n - 1, 0xFFFF, q, r);
        if r + w + 1 > 0xFFFF {
            lemma_fundamental_div_mod_converse(n + w - 1, 0xFFFF, q + 1, r + w - 0xFFFF);
        } else {
            lemma_fundamental_div_mod_converse(n + w - 1, 0xFFFF, q, r + w);
        }
    }
}

/// Computes the Internet checksum of `buf`: its 16-bit big-endian words
/// (a final odd byte padded with zero) summed with end-around carry, then
/// complemented.
pub fn inet_cksum(buf: &[u8]) -> (r: u16)
    ensures
        r == internet_checksum(buf@),
{
    let n = buf.len();
    let words = n / 2 + n % 2;
    let mut acc: u32 = 0;
    let mut k: usize = 0;
    while k < words
        invariant
            n == buf@.len(),
            words == word_count(buf@),
            k <= words,
            acc <= 0xFFFF,
            acc == fold_carries(words_sum(buf@, k as nat)),
        decreases words - k,
    {
        let i = 2 * k;
        let hi = buf[i] as u32;
        let lo: u32 = if i + 1 < n {
            buf[i + 1] as u32
        } else {
            0
        };
        let w = hi * 256 + lo;
        assert(w == word_at(buf@, k as int));
        proof {
            lemma_fold_add_word(words_sum(buf@, k as nat), w as nat);
        }
        let t = acc + w;
        acc = if t > 0xFFFF {
            t - 0xFFFF
        } else {
            t
        };
        k = k + 1;
    }
    (0xFFFF - acc) as u16
}

/// Adding to a sum the one's complement of its folded value gives a sum that
/// folds to `0xFFFF`, the one's-complement form of zero.
pub proof fn lemma_fold_complement(a: nat)
    ensures
        fold_carries(a) <= 0xFFFF,
        fold_carries((a + 0xFFFF - fold_carries(a)) as nat) == 0xFFFF,
{
    if a == 0 {
        lemma_fundamental_div_mod_converse(0xFFFE, 0xFFFF, 0, 0xFFFE);
    } else {
        let q = (a - 1) / 0xFFFF;
        let r = (a - 1) % 0xFFFF;
        lemma_fundamental_div_mod_converse(a - 1, 0xFFFF, q, r);
        lemma_fundamental_div_mod_converse(a + 0xFFFF - (r + 1) - 1, 0xFFFF, q, 0xFFFE);
    }
}

/// A sum that folds to `0xFFFF` no longer does once a nonzero amount smaller
/// than `0xFFFF` in magnitude is added to or taken from it.
proof fn lemma_fold_disturbed(s: nat, d: int)
    requires
        fold_carries(s) == 0xFFFF,
        0 < d < 0xFFFF || -0xFFFF < d < 0,
        s + d >= 0,
    ensures
        fold_carries((s + d) as nat) != 0xFFFF,
{
    let q = (s - 1) / 0xFFFF;
    lemma_fundamental_div_mod_converse(s - 1, 0xFFFF, q, 0xFFFE);
    if s + d > 0 {
        if d > 0 {
            lemma_fundamental_div_mod_converse(s + d - 1, 0xFFFF, q + 1, d - 1);
        } else {
            lemma_fundamental_div_mod_converse(s + d - 1, 0xFFFF, q, 0xFFFE + d);
        }
    }
}

/// Changing byte `i` to `v` changes the sum of the first `n` words by the
/// byte difference, weighted 256 at an even index (high byte of its word)
/// and 1 at an odd one, provided the byte lies within those words.
proof fn lemma_words_sum_update(bytes: Seq<u8>, i: int, v: u8, n: nat)
    requires
        0 <= i < bytes.len(),
    ensures
        words_sum(bytes.update(i, v), n) == words_sum(bytes, n) + if i / 2 < n {
            (v - bytes[i]) * if i % 2 == 0 {
                256int
            } else {
                1int
            }
        } else {
            0int
        },
    decreases n,
{
    if n > 0 {
        lemma_words_sum_update(bytes, i, v, (n - 1) as nat);
        let b2 = bytes.update(i, v);
        let k = n - 1;
        assert(padded_byte(b2, 2 * k) == if 2 * k == i { v as nat } else { padded_byte(bytes, 2 * k) });
        assert(padded_byte(b2, 2 * k + 1) == if 2 * k + 1 == i {
            v as nat
        } else {
            padded_byte(bytes, 2 * k + 1)
        });
    }
}

/// Flipping any one bit of a buffer whose checksum is zero makes its
/// checksum nonzero: a single-bit error is always detected.
pub proof fn lemma_single_bit_flip_detected(bytes: Seq<u8>, i: int, k: u8)
    requires
        internet_checksum(bytes) == 0,
        0 <= i < bytes.len(),
        k < 8,
    ensures
        internet_checksum(bytes.update(i, bytes[i] ^ (1u8 << k))) != 0,
{
    let b = bytes[i];
    let v = b ^ (1u8 << k);
    assert(1 <= (1u8 << k) <= 128 && (v == b + (1u8 << k) || v + (1u8 << k) == b)) by (bit_vector)
        requires
            k < 8,
            v == b ^ (1u8 << k),
    ;
    let flipped = bytes.update(i, v);
    lemma_words_sum_update(bytes, i, v, word_count(bytes));
    assert(word_count(flipped) == word_count(bytes));
    let d = (v - b) * if i % 2 == 0 {
        256int
    } else {
        1int
    };
    assert(word_sum(flipped) == word_sum(bytes) + d);
    lemma_fold_complement(word_sum(bytes));
    lemma_fold_complement(word_sum(flipped));
    lemma_fold_disturbed(word_sum(bytes), d);
}

/// The checksum field of a header, holding the 16-bit checksum value; it is
/// written to the wire big-endian.
#[derive(Clone, Copy, PartialEq, Eq, Hash, Debug, Structural)]
pub struct InetCkSum(pub u16);

impl InetCkSum {
    /// The cleared field, as it stands while a checksum is computed.
    pub fn zero() -> (r: Self)
        ensures
            r.0 == 0,
    {
        InetCkSum(0)
    }

    /// Whether the field holds zero.
    pub fn is_zero(&self) -> (r: bool)
        ensures
            r == (self.0 == 0),
    {
        self.0 == 0
    }
}

impl From<u16> for InetCkSum {
    fn from(value: u16) -> Self {
        InetCkSum(value)
    }
}

impl vstd::std_specs::convert::FromSpecImpl<u16> for InetCkSum {
    open spec fn obeys_from_spec() -> bool {
        true
    }

    open spec fn from_spec(v: u16) -> Self {
        InetCkSum(v)
    }
}

} // verus!
