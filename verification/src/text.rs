use vstd::prelude::*;
use vstd::utf8::{encode_scalar, encode_utf8, valid_utf8};
use vstd::string::StringSliceAdditionalSpecFns;

verus! {

/// A string can be handed to the platform layer as a C string exactly when
/// it holds no NUL character.
pub open spec fn c_compatible(s: Seq<char>) -> bool {
    !s.contains('\0')
}

/// Only the NUL character has a zero byte in its UTF-8 encoding.
proof fn lemma_scalar_zero_byte(c: char)
    ensures
        encode_scalar(c as u32).contains(0u8) <==> c == '\0',
{
    let v = c as u32;
    let e = encode_scalar(v);
    if v <= 0x7F {
        assert(((v & 0x7F) as u8 == 0u8) <==> v == 0) by (bit_vector)
            requires
                v <= 0x7F,
        ;
        assert(e =~= seq![(v & 0x7F) as u8]);
        if e.contains(0u8) {
            let k = choose|k: int| 0 <= k < e.len() && e[k] == 0u8;
            assert(k == 0);
        }
        if c == '\0' {
            assert(e[0] == 0u8);
        }
    } else {
        assert(forall|x: u8| #![auto] (0xC0u8 | x) != 0u8) by (bit_vector);
        assert(forall|x: u8| #![auto] (0xE0u8 | x) != 0u8) by (bit_vector);
        assert(forall|x: u8| #![auto] (0xF0u8 | x) != 0u8) by (bit_vector);
        assert(forall|x: u8| #![auto] (0x80u8 | x) != 0u8) by (bit_vector);
        assert forall|k: int| 0 <= k < e.len() implies e[k] != 0u8 by {
        }
        assert(c != '\0');
    }
}

/// A string's UTF-8 encoding holds a zero byte exactly when the string holds
/// a NUL character.
pub proof fn lemma_zero_byte_iff_nul(s: Seq<char>)
    ensures
        encode_utf8(s).contains(0u8) <==> s.contains('\0'),
    decreases s.len(),
{
    if s.len() == 0 {
        assert(encode_utf8(s) =~= Seq::<u8>::empty());
    } else {
        let first = encode_scalar(s[0] as u32);
        let rest = encode_utf8(s.drop_first());
        lemma_zero_byte_iff_nul(s.drop_first());
        lemma_scalar_zero_byte(s[0]);
        assert(encode_utf8(s) == first + rest);
        if (first + rest).contains(0u8) {
            let k = choose|k: int| 0 <= k < (first + rest).len() && (first + rest)[k] == 0u8;
            if k < first.len() {
                assert(first[k] == 0u8);
                assert(s[0] == '\0');
            } else {
                assert(rest[k - first.len()] == 0u8);
                let j = choose|j: int| 0 <= j < s.drop_first().len() && s.drop_first()[j] == '\0';
                assert(s[j + 1] == '\0');
            }
        }
        if s.contains('\0') {
            let j = choose|j: int| 0 <= j < s.len() && s[j] == '\0';
            if j == 0 {
                let k = choose|k: int| 0 <= k < first.len() && first[k] == 0u8;
                assert((first + rest)[k] == 0u8);
            } else {
                assert(s.drop_first()[j - 1] == '\0');
                let k = choose|k: int| 0 <= k < rest.len() && rest[k] == 0u8;
                assert((first + rest)[first.len() + k] == 0u8);
            }
        }
    }
}

/// Whether `s` can be turned into a C string: it holds no NUL character.
pub fn is_c_compatible(s: &str) -> (ok: bool)
    ensures
        ok == c_compatible(s@),
{
    let bytes = s.as_bytes();
    let n = bytes.len();
    let mut i: usize = 0;
    proof {
        lemma_zero_byte_iff_nul(s@);
    }
    while i < n
        invariant
            n == bytes@.len(),
            bytes@ == encode_utf8(s@),
            encode_utf8(s@).contains(0u8) <==> s@.contains('\0'),
            i <= n,
            forall|j: int| 0 <= j < i ==> bytes@[j] != 0u8,
        decreases n - i,
    {
        if bytes[i] == 0u8 {
            assert(encode_utf8(s@)[i as int] == 0u8);
            return false;
        }
        i = i + 1;
    }
    assert(!encode_utf8(s@).contains(0u8)) by {
        if encode_utf8(s@).contains(0u8) {
            let k = choose|k: int| 0 <= k < encode_utf8(s@).len() && encode_utf8(s@)[k] == 0u8;
            assert(bytes@[k] != 0u8);
        }
    }
    true
}

/// A message from the web page was not valid UTF-8.
#[derive(Clone, Copy, Debug, PartialEq, Eq, Structural)]
pub struct InvalidUtf8;

/// `std::str::from_utf8`: the bytes read as a string slice, which succeeds
/// exactly when they are valid UTF-8 (as `vstd::utf8::valid_utf8` defines
/// it), and then holds the same bytes.
#[verifier::external_body]
pub(crate) fn str_from_utf8(bytes: &[u8]) -> (res: Result<&str, InvalidUtf8>)
    ensures
        res is Ok <==> valid_utf8(bytes@),
        res matches Ok(s) ==> s.spec_bytes() == bytes@,
{
    match std::str::from_utf8(bytes) {
        Ok(s) => Ok(s),
        Err(_) => Err(InvalidUtf8),
    }
}

} // verus!
