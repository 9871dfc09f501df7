use vstd::prelude::*;

verus! {

/// A 20-byte digest value: the length is fixed, the content is opaque.
#[derive(Debug, PartialEq, Eq, Hash)]
pub struct Hash160 {
    bytes: Vec<u8>,
}

impl Clone for Hash160 {
    /// The clone holds the same digest bytes.
    fn clone(&self) -> (r: Self)
        ensures
            r@ == self@,
    {
        proof {
            use_type_invariant(self);
        }
        let bytes = self.bytes.clone();
        proof {
            assert forall|i: int| 0 <= i < bytes@.len() implies bytes@[i] == self.bytes@[i] by {
                assert(cloned::<u8>(self.bytes@[i], bytes@[i]));
            }
            assert(bytes@ =~= self.bytes@);
        }
        Hash160 { bytes }
    }
}

impl View for Hash160 {
    type V = Seq<u8>;

    closed spec fn view(&self) -> Seq<u8> {
        self.bytes@
    }
}

impl Hash160 {
    /// A digest holds exactly 20 bytes.
    #[verifier::type_invariant]
    pub closed spec fn wf(self) -> bool {
        self.bytes@.len() == 20
    }

    /// Wraps an already-computed 20-byte digest, taking ownership.
    ///
    /// Returns `None` exactly when the input is not 20 bytes long: a raw
    /// 32-byte digest, for instance, must be rejected rather than wrapped.
    pub fn from_data(bytes: Vec<u8>) -> (r: Option<Hash160>)
        ensures
            match r {
                Some(h) => bytes@.len() == 20 && h@ == bytes@,
                None => bytes@.len() != 20,
            },
    {
        if bytes.len() == 20 {
            Some(Hash160 { bytes })
        } else {
            None
        }
    }

    /// Wraps an already-computed 20-byte digest arriving in a borrowed
    /// buffer; same contract as [`Self::from_data`].
    pub fn from_slice(bytes: &[u8]) -> (r: Option<Hash160>)
        ensures
            match r {
                Some(h) => bytes@.len() == 20 && h@ == bytes@,
                None => bytes@.len() != 20,
            },
    {
        if bytes.len() == 20 {
            let mut copied: Vec<u8> = Vec::new();
            let mut i: usize = 0;
            while i < 20
                invariant
                    i <= 20,
                    bytes@.len() == 20,
                    copied@ == bytes@.take(i as int),
                decreases 20 - i,
            {
                copied.push(bytes[i]);
                proof {
                    assert(copied@ =~= bytes@.take(i as int + 1));
                }
                i = i + 1;
            }
            proof {
                assert(copied@ =~= bytes@);
            }
            Some(Hash160 { bytes: copied })
        } else {
            None
        }
    }

    /// Wraps a vector already known to hold exactly 20 bytes.
    pub(crate) fn from_byte_vec(bytes: Vec<u8>) -> (r: Hash160)
        requires
            bytes@.len() == 20,
        ensures
            r@ == bytes@,
    {
        Hash160 { bytes }
    }

    /// Read-only view of the digest bytes.
    pub fn as_bytes(&self) -> (r: &[u8])
        ensures
            r@ == self@,
            r@.len() == 20,
    {
        proof {
            use_type_invariant(self);
        }
        self.bytes.as_slice()
    }

    /// The number of digest bytes; always 20.
    pub fn len(&self) -> (r: usize)
        ensures
            r == 20,
            r == self@.len(),
    {
        proof {
            use_type_invariant(self);
        }
        self.bytes.len()
    }

    /// The digest byte at `index`.
    pub fn byte_at(&self, index: usize) -> (r: u8)
        requires
            index < 20,
        ensures
            r == self@[index as int],
    {
        proof {
            use_type_invariant(self);
        }
        self.bytes[index]
    }
}

} // verus!
