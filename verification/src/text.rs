//! Texts and their UTF-8 bytes: where a text begins with ASCII characters,
//! its bytes can be cut behind them.

use vstd::prelude::*;
use vstd::utf8::*;

verus! {

/// Whether the first `k` characters of `chars` exist and are ASCII.
pub open spec fn ascii_head(chars: Seq<char>, k: nat) -> bool {
    k <= chars.len() && forall|i: int| 0 <= i < k ==> (#[trigger] chars[i] as u32) < 0x80
}

/// Whether the first `k` bytes of `bytes` exist and are ASCII.
pub open spec fn ascii_head_bytes(bytes: Seq<u8>, k: nat) -> bool {
    k <= bytes.len() && forall|i: int| 0 <= i < k ==> #[trigger] bytes[i] < 0x80
}

/// A character's code fits its casts.
pub proof fn lemma_char_code(c: char)
    ensures
        0 <= c as int <= 0x10FFFF,
        c as u32 == c as int,
        (c as u32) < 0x80 ==> c as u8 == c as int,
{
}

/// The encoding of a nonempty text begins with an ASCII byte exactly where the
/// text begins with an ASCII character. That byte then is the character, and
/// the bytes behind it encode the rest of the text.
pub proof fn lemma_first_ascii(chars: Seq<char>)
    requires
        chars.len() > 0,
    ensures
        encode_utf8(chars).len() > 0,
        encode_utf8(chars)[0] < 0x80 <==> (chars[0] as u32) < 0x80,
        encode_utf8(chars)[0] < 0x80 ==> encode_utf8(chars)[0] == chars[0] as u8,
        encode_utf8(chars)[0] < 0x80 ==> encode_utf8(chars).skip(1) == encode_utf8(
            chars.drop_first(),
        ),
{
    let first = encode_utf8(chars)[0];
    encode_utf8_first_scalar(chars);
    lemma_char_code(chars[0]);
    if first < 0x80 {
        assert((first & 0x7F) as u32 == first as u32) by (bit_vector)
            requires
                first < 0x80,
        ;
    }
}

/// The encoding of a text begins with `k` ASCII bytes exactly where the text
/// begins with `k` ASCII characters. Those bytes then are the characters, the
/// bytes behind them encode the rest of the text, and the text can be cut
/// there.
pub proof fn lemma_ascii_head(chars: Seq<char>, k: nat)
    ensures
        ascii_head_bytes(encode_utf8(chars), k) <==> ascii_head(chars, k),
        ascii_head(chars, k) ==> forall|i: int|
            0 <= i < k ==> #[trigger] encode_utf8(chars)[i] == chars[i] as u8,
        ascii_head(chars, k) ==> encode_utf8(chars).skip(k as int) == encode_utf8(
            chars.skip(k as int),
        ),
        ascii_head(chars, k) ==> is_char_boundary(encode_utf8(chars), k as int),
    decreases k,
{
    let bytes = encode_utf8(chars);
    encode_utf8_valid_utf8(chars);
    if k == 0 {
        assert(chars.skip(0) =~= chars);
    } else if chars.len() > 0 {
        let rest = chars.drop_first();
        let tail = bytes.skip(1);
        let j = (k - 1) as nat;
        lemma_first_ascii(chars);
        lemma_ascii_head(rest, j);
        if bytes[0] < 0x80 {
            if ascii_head_bytes(bytes, k) {
                assert forall|i: int| 0 <= i < j implies #[trigger] tail[i] < 0x80 by {
                    assert(tail[i] == bytes[i + 1]);
                }
                assert forall|i: int| 0 <= i < k implies (#[trigger] chars[i] as u32) < 0x80 by {
                    if i > 0 {
                        assert(chars[i] == rest[i - 1]);
                    }
                }
            }
            if ascii_head(chars, k) {
                assert forall|i: int| 0 <= i < j implies (#[trigger] rest[i] as u32) < 0x80 by {
                    assert(rest[i] == chars[i + 1]);
                }
                assert forall|i: int| 0 <= i < k implies #[trigger] bytes[i] == chars[i] as u8 by {
                    if i > 0 {
                        assert(bytes[i] == tail[i - 1]);
                        assert(chars[i] == rest[i - 1]);
                    }
                }
                assert(bytes.skip(k as int) =~= tail.skip(j as int));
                assert(chars.skip(k as int) =~= rest.skip(j as int));
                assert(pop_first_scalar(bytes) =~= tail);
            }
        }
    }
}

/// A text begins with the two ASCII characters `a` and `b` exactly where its
/// encoding begins with their two bytes.
pub proof fn lemma_two_ascii(chars: Seq<char>, a: char, b: char)
    requires
        (a as u32) < 0x80,
        (b as u32) < 0x80,
    ensures
        seq![a, b].is_prefix_of(chars) <==> encode_utf8(chars).len() >= 2 && encode_utf8(chars)[0]
            == a as u8 && encode_utf8(chars)[1] == b as u8,
        seq![a, b].is_prefix_of(chars) ==> ascii_head(chars, 2),
{
    let bytes = encode_utf8(chars);
    let pair = seq![a, b];
    lemma_ascii_head(chars, 2);
    if pair.is_prefix_of(chars) {
        assert(chars[0] == pair[0] && chars[1] == pair[1]);
    }
    if bytes.len() >= 2 && bytes[0] == a as u8 && bytes[1] == b as u8 {
        lemma_char_code(chars[0]);
        lemma_char_code(chars[1]);
        assert(pair =~= chars.subrange(0, 2));
    }
}

} // verus!
