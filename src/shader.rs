//! Preparing GLSL source text for the driver.
use vstd::prelude::*;

verus! {

/// The byte of a carriage return.
pub const CARRIAGE_RETURN: u8 = 13;

/// The source with every carriage return removed.
pub open spec fn strip_carriage_returns(s: Seq<u8>) -> Seq<u8>
    decreases s.len(),
{
    if s.len() == 0 {
        Seq::empty()
    } else if s.last() == CARRIAGE_RETURN {
        strip_carriage_returns(s.drop_last())
    } else {
        strip_carriage_returns(s.drop_last()).push(s.last())
    }
}

/// Removing carriage returns works piece by piece.
pub proof fn lemma_strip_concat(a: Seq<u8>, b: Seq<u8>)
    ensures
        strip_carriage_returns(a + b) == strip_carriage_returns(a) + strip_carriage_returns(b),
    decreases b.len(),
{
    if b.len() == 0 {
        assert(a + b == a);
    } else {
        lemma_strip_concat(a, b.drop_last());
        assert((a + b).drop_last() == a + b.drop_last());
        assert((a + b).last() == b.last());
    }
}

/// The text holds a NUL byte after carriage returns are removed exactly
/// when it held one before.
pub proof fn lemma_strip_keeps_nul(s: Seq<u8>)
    ensures
        strip_carriage_returns(s).contains(0u8) <==> s.contains(0u8),
    decreases s.len(),
{
    if s.len() > 0 {
        let t = strip_carriage_returns(s.drop_last());
        lemma_strip_keeps_nul(s.drop_last());
        if s.contains(0u8) && !s.drop_last().contains(0u8) {
            let j = choose|j: int| 0 <= j < s.len() && s[j] == 0u8;
            if j < s.len() - 1 {
                assert(s.drop_last()[j] == 0u8);
            }
            assert(strip_carriage_returns(s) == t.push(0u8));
            assert(t.push(0u8)[t.len() as int] == 0u8);
        }
        if s.drop_last().contains(0u8) {
            let j = choose|j: int| 0 <= j < t.len() && t[j] == 0u8;
            if s.last() != CARRIAGE_RETURN {
                assert(t.push(s.last())[j] == 0u8);
            }
        }
        if strip_carriage_returns(s).contains(0u8) && !t.contains(0u8) {
            let j = choose|j: int| 0 <= j < strip_carriage_returns(s).len() && strip_carriage_returns(s)[j] == 0u8;
            assert(s[s.len() - 1] == 0u8);
        }
    }
}

/// Why a shader source cannot be handed to the driver.
#[derive(Debug, Clone, Copy, PartialEq, Eq, Structural)]
pub enum SourceError {
    /// The text holds a NUL byte, which cannot stand inside a C string;
    /// the index is its place in the text after carriage returns are removed.
    InteriorNul(usize),
}

/// Turns the raw text of a shader file into the bytes of the C string the
/// driver compiles: carriage returns are dropped, and a NUL byte is refused.
pub fn prepare_source(raw: &[u8]) -> (r: Result<Vec<u8>, SourceError>)
    ensures
        match r {
            Ok(text) => text@ == strip_carriage_returns(raw@) && !text@.contains(0u8),
            Err(SourceError::InteriorNul(at)) => {
                &&& at < strip_carriage_returns(raw@).len()
                &&& strip_carriage_returns(raw@)[at as int] == 0u8
                &&& !strip_carriage_returns(raw@).subrange(0, at as int).contains(0u8)
            },
        },
        r is Ok <==> !raw@.contains(0u8),
{
    let mut text: Vec<u8> = Vec::new();
    let mut i: usize = 0;
    while i < raw.len()
        invariant
            i <= raw@.len(),
            text@ == strip_carriage_returns(raw@.subrange(0, i as int)),
            forall|j: int| 0 <= j < i ==> raw@[j] != 0u8,
        decreases raw@.len() - i,
    {
        let b = raw[i];
        proof {
            assert(raw@.subrange(0, i + 1).drop_last() == raw@.subrange(0, i as int));
            assert(raw@.subrange(0, i + 1).last() == b);
        }
        if b == 0 {
            let at = text.len();
            proof {
                let head = raw@.subrange(0, i + 1);
                let tail = raw@.subrange(i + 1, raw@.len() as int);
                assert(raw@ == head + tail);
                lemma_strip_concat(head, tail);
                let whole = strip_carriage_returns(raw@);
                assert(whole[at as int] == 0u8);
                assert(whole.subrange(0, at as int) == text@);
                assert(!raw@.subrange(0, i as int).contains(0u8));
                lemma_strip_keeps_nul(raw@.subrange(0, i as int));
                assert(raw@[i as int] == 0u8);
            }
            return Err(SourceError::InteriorNul(at));
        }
        if b != CARRIAGE_RETURN {
            text.push(b);
        }
        i = i + 1;
    }
    proof {
        assert(raw@.subrange(0, raw@.len() as int) == raw@);
        assert(!raw@.contains(0u8));
        lemma_strip_keeps_nul(raw@);
    }
    Ok(text)
}

} // verus!
