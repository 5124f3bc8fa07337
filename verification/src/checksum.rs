//! The one's-complement 16-bit internet checksum.

use vstd::prelude::*;

verus! {

/// The value of the big-endian 16-bit word made of two bytes.
pub open spec fn be_word(hi: u8, lo: u8) -> nat {
    (hi as nat) * 256 + (lo as nat)
}

/// The sum of the first `n` big-endian 16-bit words of `bytes`.
pub open spec fn words_sum(bytes: Seq<u8>, n: nat) -> nat
    decreases n,
{
    if n == 0 {
        0
    } else {
        words_sum(bytes, (n - 1) as nat) + be_word(bytes[2 * n - 2], bytes[2 * n - 1])
    }
}

/// What a trailing odd byte adds: it is the high byte of a word padded with zero.
pub open spec fn odd_tail(bytes: Seq<u8>) -> nat {
    if bytes.len() % 2 == 1 {
        (bytes[bytes.len() - 1] as nat) * 256
    } else {
        0
    }
}

/// The sum of all 16-bit big-endian words of `bytes`.
pub open spec fn word_sum(bytes: Seq<u8>) -> nat {
    words_sum(bytes, bytes.len() / 2) + odd_tail(bytes)
}

/// End-around carry: the part of `sum` above 16 bits is added back until
/// nothing is left above.
pub open spec fn fold16(sum: nat) -> nat
    decreases sum,
{
    if sum < 0x10000 {
        sum
    } else {
        fold16(sum / 0x10000 + sum % 0x10000)
    }
}

/// The checksum that belongs to a sum of words: the complement of the folded sum.
pub open spec fn checksum_of(sum: nat) -> u16 {
    (0xFFFF - fold16(sum)) as u16
}

/// The internet checksum of `bytes`.
pub open spec fn internet_checksum_spec(bytes: Seq<u8>) -> u16 {
    checksum_of(word_sum(bytes))
}

/// `bytes` with the 16-bit value `value` written big-endian at offset `at`.
pub open spec fn with_word(bytes: Seq<u8>, at: int, value: u16) -> Seq<u8> {
    bytes.update(at, (value / 256) as u8).update(at + 1, (value % 256) as u8)
}

/// The most that the words of `len` bytes can sum to.
pub open spec fn word_sum_bound(len: nat) -> nat {
    (len / 2) * 0xFFFF + 0xFF00
}

pub proof fn lemma_words_sum_bound(bytes: Seq<u8>, n: nat)
    ensures
        words_sum(bytes, n) <= n * 0xFFFF,
    decreases n,
{
    if n > 0 {
        lemma_words_sum_bound(bytes, (n - 1) as nat);
    }
}

pub proof fn lemma_word_sum_bound(bytes: Seq<u8>)
    ensures
        word_sum(bytes) <= word_sum_bound(bytes.len()),
{
    lemma_words_sum_bound(bytes, bytes.len() / 2);
}

/// Words that lie wholly inside a common prefix of two sequences sum alike.
pub proof fn lemma_words_sum_agree(a: Seq<u8>, b: Seq<u8>, n: nat)
    requires
        2 * n <= a.len(),
        2 * n <= b.len(),
        forall|i: int| 0 <= i < 2 * n ==> a[i] == b[i],
    ensures
        words_sum(a, n) == words_sum(b, n),
    decreases n,
{
    if n > 0 {
        lemma_words_sum_agree(a, b, (n - 1) as nat);
    }
}

/// The words of a concatenation, where the first part has an even length, are
/// the words of the first part followed by those of the second.
pub proof fn lemma_words_sum_concat(a: Seq<u8>, b: Seq<u8>, n: nat)
    requires
        a.len() % 2 == 0,
        2 * n <= b.len(),
    ensures
        words_sum(a + b, a.len() / 2 + n) == words_sum(a, a.len() / 2) + words_sum(b, n),
    decreases n,
{
    if n == 0 {
        lemma_words_sum_agree(a + b, a, a.len() / 2);
    } else {
        lemma_words_sum_concat(a, b, (n - 1) as nat);
        let m = a.len() / 2 + n;
        assert((a + b)[2 * m - 2] == b[2 * n - 2]);
        assert((a + b)[2 * m - 1] == b[2 * n - 1]);
    }
}

/// The word sum of a concatenation whose first part has an even length is the
/// sum of the two word sums.
pub proof fn lemma_word_sum_concat(a: Seq<u8>, b: Seq<u8>)
    requires
        a.len() % 2 == 0,
    ensures
        word_sum(a + b) == word_sum(a) + word_sum(b),
{
    lemma_words_sum_concat(a, b, b.len() / 2);
    assert((a + b).len() == a.len() + b.len());
    assert((a + b).len() / 2 == a.len() / 2 + b.len() / 2);
    if b.len() % 2 == 1 {
        assert((a + b)[(a + b).len() - 1] == b[b.len() - 1]);
    }
}

/// Writing a word at an even offset changes the sum of the first `n` words by
/// the difference between the new word and the old one.
pub proof fn lemma_words_sum_with_word(bytes: Seq<u8>, n: nat, at: int, value: u16)
    requires
        2 * n <= bytes.len(),
        0 <= at,
        at % 2 == 0,
        at + 1 < 2 * n,
    ensures
        words_sum(with_word(bytes, at, value), n) + be_word(bytes[at], bytes[at + 1])
            == words_sum(bytes, n) + value,
    decreases n,
{
    let filled = with_word(bytes, at, value);
    if at + 2 == 2 * n {
        lemma_words_sum_agree(filled, bytes, (n - 1) as nat);
        assert(filled[at] == (value / 256) as u8);
        assert(filled[at + 1] == (value % 256) as u8);
        assert(be_word((value / 256) as u8, (value % 256) as u8) == value);
    } else {
        lemma_words_sum_with_word(bytes, (n - 1) as nat, at, value);
        assert(filled[2 * n - 2] == bytes[2 * n - 2]);
        assert(filled[2 * n - 1] == bytes[2 * n - 1]);
    }
}

/// Writing a word at an even offset changes the word sum by the difference
/// between the new word and the old one.
pub proof fn lemma_word_sum_with_word(bytes: Seq<u8>, at: int, value: u16)
    requires
        0 <= at,
        at % 2 == 0,
        at + 1 < bytes.len(),
    ensures
        word_sum(with_word(bytes, at, value)) + be_word(bytes[at], bytes[at + 1]) == word_sum(
            bytes,
        ) + value,
{
    let filled = with_word(bytes, at, value);
    assert(filled.len() == bytes.len());
    lemma_words_sum_with_word(bytes, bytes.len() / 2, at, value);
    if bytes.len() % 2 == 1 {
        assert(filled[bytes.len() - 1] == bytes[bytes.len() - 1]);
    }
}

/// Folding keeps a sum's remainder modulo 0xFFFF, never grows it, and maps
/// every positive sum into 1..=0xFFFF.
pub proof fn lemma_fold16(sum: nat)
    ensures
        fold16(sum) <= 0xFFFF,
        fold16(sum) <= sum,
        fold16(sum) % 0xFFFF == sum % 0xFFFF,
        sum > 0 ==> fold16(sum) > 0,
    decreases sum,
{
    if sum >= 0x10000 {
        let q = sum / 0x10000;
        let r = sum % 0x10000;
        lemma_fold16(q + r);
        assert(sum == q * 0xFFFF + (q + r)) by (nonlinear_arith)
            requires
                q == sum / 0x10000,
                r == sum % 0x10000,
        ;
        assert((q * 0xFFFF + (q + r)) % 0xFFFF == (q + r) % 0xFFFF) by (nonlinear_arith);
    }
}

/// A buffer whose checksum field is zero, once the checksum of its words (and
/// of any words `initial` that are summed before it, such as a pseudo-header)
/// is written into that field, checks to zero.
pub proof fn lemma_filled_checksum_is_zero(bytes: Seq<u8>, at: int, initial: nat)
    requires
        0 <= at,
        at % 2 == 0,
        at + 1 < bytes.len(),
        bytes[at] == 0,
        bytes[at + 1] == 0,
    ensures
        checksum_of(
            initial + word_sum(with_word(bytes, at, checksum_of(initial + word_sum(bytes)))),
        ) == 0,
{
    let before = initial + word_sum(bytes);
    let value = checksum_of(before);
    lemma_fold16(before);
    lemma_word_sum_with_word(bytes, at, value);
    let after = initial + word_sum(with_word(bytes, at, value));
    assert(after == before + (0xFFFF - fold16(before)));
    lemma_fold16(after);
    let f = fold16(before);
    assert(after % 0xFFFF == 0) by (nonlinear_arith)
        requires
            after == before + (0xFFFF - f),
            f % 0xFFFF == before % 0xFFFF,
            f <= before,
    ;
    assert(fold16(after) == 0xFFFF) by (nonlinear_arith)
        requires
            fold16(after) % 0xFFFF == 0,
            0 < fold16(after) <= 0xFFFF,
    ;
}

/// The internet checksum of a buffer that holds its own checksum is zero.
pub proof fn lemma_checksum_verifies(bytes: Seq<u8>, at: int)
    requires
        0 <= at,
        at % 2 == 0,
        at + 1 < bytes.len(),
        bytes[at] == 0,
        bytes[at + 1] == 0,
    ensures
        internet_checksum_spec(with_word(bytes, at, internet_checksum_spec(bytes))) == 0,
{
    lemma_filled_checksum_is_zero(bytes, at, 0);
}

/// Adds the 16-bit big-endian words of `data` to `initial`.
pub fn add_words(data: &[u8], initial: u32) -> (sum: u32)
    requires
        data@.len() <= 0xFFFF,
        initial < 0x8000_0000,
    ensures
        sum == initial + word_sum(data@),
{
    let words: usize = data.len() / 2;
    let mut sum: u32 = initial;
    let mut i: usize = 0;
    while i < words
        invariant
            words == data@.len() / 2,
            data@.len() <= 0xFFFF,
            initial < 0x8000_0000,
            i <= words,
            sum == initial + words_sum(data@, i as nat),
        decreases words - i,
    {
        proof {
            lemma_words_sum_bound(data@, i as nat);
        }
        let word: u32 = (data[2 * i] as u32) * 256 + (data[2 * i + 1] as u32);
        sum = sum + word;
        i = i + 1;
    }
    proof {
        lemma_words_sum_bound(data@, words as nat);
    }
    if data.len() % 2 == 1 {
        sum = sum + (data[data.len() - 1] as u32) * 256;
    }
    sum
}

/// Folds a 32-bit sum of words to 16 bits with end-around carry.
pub fn fold_sum(sum: u32) -> (folded: u16)
    ensures
        folded == fold16(sum as nat),
{
    let mut s: u32 = sum;
    while (s >> 16) != 0
        invariant
            fold16(s as nat) == fold16(sum as nat),
        decreases s,
    {
        assert(s >> 16 == s / 0x10000 && s & 0xFFFF == s % 0x10000) by (bit_vector);
        s = (s & 0xFFFF) + (s >> 16);
    }
    assert(s >> 16 == 0 ==> s < 0x10000) by (bit_vector);
    s as u16
}

/// Turns a 32-bit sum of words into the checksum that belongs to it.
pub fn finish_checksum(sum: u32) -> (checksum: u16)
    ensures
        checksum == checksum_of(sum as nat),
{
    let folded: u16 = fold_sum(sum);
    assert(!folded == 0xFFFFu16 - folded) by (bit_vector);
    !folded
}

/// Computes the internet checksum of `data`.
pub fn internet_checksum(data: &[u8]) -> (checksum: u16)
    requires
        data@.len() <= 0xFFFF,
    ensures
        checksum == internet_checksum_spec(data@),
{
    finish_checksum(add_words(data, 0))
}

} // verus!
