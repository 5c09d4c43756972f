//! The byte signatures that open a PROXY protocol preamble, and how far a
//! run of received bytes agrees with one.

use vstd::prelude::*;

verus! {

/// How received bytes stand to a signature.
#[derive(Clone, Copy, Debug, PartialEq, Eq, Structural)]
pub enum PrefixMatch {
    /// The bytes begin with the whole signature.
    Full,
    /// The bytes are shorter than the signature and agree with its beginning.
    Partial,
    /// The bytes differ from the signature somewhere in their common length.
    Mismatch,
}

/// The signature of the text form: the letters `PROXY`.
pub open spec fn v1_signature() -> Seq<u8> {
    seq![0x50u8, 0x52u8, 0x4fu8, 0x58u8, 0x59u8]
}

/// The signature of the binary form: `\r\n\r\n\0\r\nQUIT\n`.
pub open spec fn v2_signature() -> Seq<u8> {
    seq![
        0x0du8, 0x0au8, 0x0du8, 0x0au8, 0x00u8, 0x0du8,
        0x0au8, 0x51u8, 0x55u8, 0x49u8, 0x54u8, 0x0au8,
    ]
}

/// The relation of `data` to `signature`.
pub open spec fn prefix_match(data: Seq<u8>, signature: Seq<u8>) -> PrefixMatch {
    if signature.is_prefix_of(data) {
        PrefixMatch::Full
    } else if data.is_prefix_of(signature) {
        PrefixMatch::Partial
    } else {
        PrefixMatch::Mismatch
    }
}

impl PrefixMatch {
    /// Whether the bytes may still turn out to carry the signature.
    pub open spec fn spec_is_candidate(&self) -> bool {
        !(*self is Mismatch)
    }

    #[verifier::when_used_as_spec(spec_is_candidate)]
    pub fn is_candidate(&self) -> (r: bool)
        ensures
            r == self.spec_is_candidate(),
    {
        match self {
            PrefixMatch::Mismatch => false,
            _ => true,
        }
    }
}

/// Compares `data` with `signature` over their common length.
pub fn match_prefix(data: &[u8], signature: &[u8]) -> (r: PrefixMatch)
    ensures
        r == prefix_match(data@, signature@),
{
    let n: usize = if data.len() < signature.len() {
        data.len()
    } else {
        signature.len()
    };
    let mut i: usize = 0;
    while i < n
        invariant
            i <= n,
            n <= data.len(),
            n <= signature.len(),
            forall|j: int| 0 <= j < i ==> data@[j] == signature@[j],
        decreases n - i,
    {
        if data[i] != signature[i] {
            proof {
                let k = i as int;
                if signature@.is_prefix_of(data@) {
                    assert(data@.subrange(0, signature@.len() as int)[k] == data@[k]);
                }
                if data@.is_prefix_of(signature@) {
                    assert(signature@.subrange(0, data@.len() as int)[k] == signature@[k]);
                }
            }
            return PrefixMatch::Mismatch;
        }
        i += 1;
    }
    if data.len() >= signature.len() {
        assert(signature@ =~= data@.subrange(0, signature@.len() as int));
        PrefixMatch::Full
    } else {
        assert(data@ =~= signature@.subrange(0, data@.len() as int));
        assert(!signature@.is_prefix_of(data@));
        PrefixMatch::Partial
    }
}

/// The relation of `data` to the signature of the text form.
pub fn match_v1(data: &[u8]) -> (r: PrefixMatch)
    ensures
        r == prefix_match(data@, v1_signature()),
{
    let signature: [u8; 5] = [0x50, 0x52, 0x4f, 0x58, 0x59];
    assert(signature@ =~= v1_signature());
    match_prefix(data, &signature)
}

/// The relation of `data` to the signature of the binary form.
pub fn match_v2(data: &[u8]) -> (r: PrefixMatch)
    ensures
        r == prefix_match(data@, v2_signature()),
{
    let signature: [u8; 12] = [
        0x0d, 0x0a, 0x0d, 0x0a, 0x00, 0x0d, 0x0a, 0x51, 0x55, 0x49, 0x54, 0x0a,
    ];
    assert(signature@ =~= v2_signature());
    match_prefix(data, &signature)
}

} // verus!
