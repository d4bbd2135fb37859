//! Length-checked reinterpretation of a raw output byte buffer as 32-bit
//! little-endian words, the form in which score buffers cross the foreign
//! boundary.

use vstd::prelude::*;

verus! {

/// Word `i` of a little-endian byte buffer.
pub open spec fn word_at(b: Seq<u8>, i: int) -> u32
    recommends
        0 <= i,
        4 * i + 4 <= b.len(),
{
    (b[4 * i] + 256 * b[4 * i + 1] + 65536 * b[4 * i + 2] + 16777216 * b[4 * i + 3]) as u32
}

/// Reads a buffer of raw bytes as little-endian 32-bit words; a buffer
/// whose length is not a whole number of words is rejected rather than
/// truncated.
pub fn words_from_le(buf: &Vec<u8>) -> (r: Option<Vec<u32>>)
    ensures
        r is None <==> buf@.len() % 4 != 0,
        r matches Some(v) ==> v@.len() == buf@.len() / 4 && forall|i: int|
            0 <= i < v@.len() ==> #[trigger] v@[i] == word_at(buf@, i),
{
    if buf.len() % 4 != 0 {
        return None;
    }
    let n = buf.len() / 4;
    let mut v: Vec<u32> = Vec::new();
    let mut i: usize = 0;
    while i < n
        invariant
            i <= n == buf@.len() / 4,
            buf@.len() <= usize::MAX,
            buf@.len() % 4 == 0,
            v@.len() == i,
            forall|t: int| 0 <= t < i ==> #[trigger] v@[t] == word_at(buf@, t),
        decreases n - i,
    {
        assert(4 * i + 4 <= buf@.len());
        let w = buf[4 * i] as u32 + 256 * (buf[4 * i + 1] as u32) + 65536 * (buf[4 * i + 2] as u32)
            + 16777216 * (buf[4 * i + 3] as u32);
        v.push(w);
        i = i + 1;
    }
    Some(v)
}

/// The prefix of a fixed-size C name field up to (not including) its first
/// NUL byte, or nothing when no NUL terminates it.
pub fn bytes_until_nul(chars: &Vec<u8>) -> (r: Option<Vec<u8>>)
    ensures
        r is None <==> (forall|i: int| 0 <= i < chars@.len() ==> chars@[i] != 0),
        r matches Some(v) ==> {
            &&& v@.len() <= chars@.len()
            &&& v@ == chars@.subrange(0, v@.len() as int)
            &&& forall|i: int| 0 <= i < v@.len() ==> chars@[i] != 0
            &&& chars@[v@.len() as int] == 0
        },
{
    let mut i: usize = 0;
    while i < chars.len()
        invariant
            i <= chars@.len(),
            forall|t: int| 0 <= t < i ==> chars@[t] != 0,
        decreases chars@.len() - i,
    {
        if chars[i] == 0 {
            let mut v: Vec<u8> = Vec::new();
            let mut t: usize = 0;
            while t < i
                invariant
                    t <= i < chars@.len(),
                    v@.len() == t,
                    forall|u: int| 0 <= u < t ==> v@[u] == chars@[u],
                decreases i - t,
            {
                v.push(chars[t]);
                t = t + 1;
            }
            proof {
                assert(v@ =~= chars@.subrange(0, i as int));
            }
            return Some(v);
        }
        i = i + 1;
    }
    None
}

} // verus!
