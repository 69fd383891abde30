use vstd::prelude::*;

verus! {

/// The canonical base58 text of a byte string, in the Bitcoin alphabet:
/// one `'1'` for each leading zero byte, then the big-endian value of the
/// remaining bytes written in base 58.
pub uninterp spec fn base58_of(bytes: Seq<u8>) -> Seq<char>;

/// A character of the base58 alphabet (digits and letters without `0`, `O`, `I`, `l`).
pub open spec fn is_base58_char(c: char) -> bool {
    ||| '1' <= c <= '9'
    ||| 'A' <= c <= 'H'
    ||| 'J' <= c <= 'N'
    ||| 'P' <= c <= 'Z'
    ||| 'a' <= c <= 'k'
    ||| 'm' <= c <= 'z'
}

/// Every character of `s` is in the base58 alphabet.
pub open spec fn all_base58_chars(s: Seq<char>) -> bool {
    forall|i: int| 0 <= i < s.len() ==> #[trigger] is_base58_char(s[i])
}

/// `s` is the canonical base58 text of some byte string of length `n`.
pub open spec fn is_base58_text_of_len(s: Seq<char>, n: nat) -> bool {
    exists|b: Seq<u8>| b.len() == n && #[trigger] base58_of(b) == s
}

} // verus!
