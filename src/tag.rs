use vstd::prelude::*;

verus! {

/// A tag byte string that can be handed to the native side as a C string:
/// it holds no NUL byte of its own.
pub open spec fn is_valid_tag(name: Seq<u8>) -> bool {
    forall|i: int| 0 <= i < name.len() ==> name[i] != 0u8
}

/// An owned tag, stored with its NUL terminator.
///
/// Its view is the tag's bytes without the terminator.
pub struct TimerTag {
    bytes: Vec<u8>,
}

impl View for TimerTag {
    type V = Seq<u8>;

    closed spec fn view(&self) -> Seq<u8> {
        self.bytes@.drop_last()
    }
}

impl TimerTag {
    #[verifier::type_invariant]
    spec fn terminated(&self) -> bool {
        &&& self.bytes@.len() > 0
        &&& self.bytes@.last() == 0u8
        &&& is_valid_tag(self.bytes@.drop_last())
    }

    /// Builds a tag from its bytes; `None` when they hold a NUL byte.
    pub fn new(name: &[u8]) -> (r: Option<TimerTag>)
        ensures
            r.is_some() <==> is_valid_tag(name@),
            r matches Some(t) ==> t@ == name@,
    {
        let mut bytes: Vec<u8> = Vec::new();
        let mut i: usize = 0;
        while i < name.len()
            invariant
                i <= name@.len(),
                bytes@ == name@.subrange(0, i as int),
                is_valid_tag(bytes@),
            decreases name@.len() - i,
        {
            if name[i] == 0u8 {
                return None;
            }
            bytes.push(name[i]);
            i = i + 1;
        }
        assert(bytes@ == name@);
        bytes.push(0u8);
        assert(bytes@.drop_last() == name@);
        Some(TimerTag { bytes })
    }

    /// The tag's bytes followed by the NUL terminator, as the native side
    /// reads them.
    pub fn as_bytes_with_nul(&self) -> (r: &[u8])
        ensures
            r@ == self@.push(0u8),
            is_valid_tag(self@),
    {
        proof {
            use_type_invariant(self);
            assert(self.bytes@ == self.bytes@.drop_last().push(0u8));
        }
        self.bytes.as_slice()
    }

    /// The number of bytes in the tag, the terminator not counted.
    pub fn len(&self) -> (r: usize)
        ensures
            r == self@.len(),
    {
        proof {
            use_type_invariant(self);
        }
        self.bytes.len() - 1
    }
}

} // verus!
