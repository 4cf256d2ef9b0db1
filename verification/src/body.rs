//! The dual-mode body: a request body is either the live inbound stream,
//! relayed verbatim, or a fully materialized in-memory byte buffer. The two
//! variants share one streaming-read shape; the buffered variant's reads are
//! modeled here and are lossless.

use vstd::prelude::*;

verus! {

/// A two-variant container: a value taken verbatim from one side, or a value
/// of the other side. A request body is `Left` while it is the live inbound
/// stream and `Right` once it has been materialized into a buffer; once
/// converted it is never converted back.
#[allow(inconsistent_fields)]
pub enum Either<L, R> {
    Left { value: L },
    Right { value: R },
}

impl<L, R> Either<L, R> {
    /// Wrap a value of the left side.
    pub fn left(value: L) -> (r: Self)
        ensures
            r matches Either::Left { value: v } && v == value,
    {
        Either::Left { value }
    }

    /// Wrap a value of the right side.
    pub fn right(value: R) -> (r: Self)
        ensures
            r matches Either::Right { value: v } && v == value,
    {
        Either::Right { value }
    }
}

/// A fully materialized request body: an immutable byte sequence, yielded
/// once, in order, as a single data frame. An empty body yields no frame at
/// all and reports completion immediately.
pub struct BufferedBody {
    data: Vec<u8>,
    yielded: bool,
}

impl BufferedBody {
    /// A body whose frame is still to yield holds at least one byte: an
    /// empty body is constructed already complete.
    #[verifier::type_invariant]
    closed spec fn inv(self) -> bool {
        !self.yielded ==> self.data@.len() > 0
    }

    /// The bytes this body holds; they never change after construction.
    pub closed spec fn bytes(self) -> Seq<u8> {
        self.data@
    }

    /// Whether all bytes have been yielded: true once the single data frame
    /// was taken, and from the start for a body with no bytes to yield.
    pub closed spec fn done(self) -> bool {
        self.yielded
    }

    /// Materialize a body from collected bytes. A non-empty body has its
    /// frame still to yield; an empty one is complete immediately.
    pub fn new(data: Vec<u8>) -> (r: Self)
        ensures
            r.bytes() == data@,
            r.done() <==> data@.len() == 0,
    {
        let yielded = data.len() == 0;
        BufferedBody { data, yielded }
    }

    /// End of body is reached exactly when all bytes have been yielded once;
    /// for an empty body that is the case from the start.
    pub fn is_end_stream(&self) -> (r: bool)
        ensures
            r <==> self.done(),
    {
        self.yielded
    }

    /// The number of bytes still to be yielded: all of them before the data
    /// frame is taken, none afterwards.
    pub fn remaining_len(&self) -> (n: usize)
        ensures
            n == if self.done() {
                0int
            } else {
                self.bytes().len() as int
            },
    {
        if self.yielded {
            0
        } else {
            self.data.len()
        }
    }

    /// Yield the body's bytes: the whole sequence, byte-identical to what was
    /// buffered, as one data frame; nothing afterwards, and nothing at all
    /// for an empty body.
    pub fn take_frame(&mut self) -> (r: Option<Vec<u8>>)
        ensures
            final(self).bytes() == old(self).bytes(),
            final(self).done(),
            old(self).done() ==> r is None,
            !old(self).done() ==> (r matches Some(frame) && frame@ == old(self).bytes()
                && frame@.len() > 0),
    {
        proof {
            use_type_invariant(&*self);
        }
        if self.yielded {
            return None;
        }
        self.yielded = true;
        let mut frame: Vec<u8> = Vec::new();
        let mut i: usize = 0;
        while i < self.data.len()
            invariant
                i <= self.data@.len(),
                frame@ == self.data@.subrange(0, i as int),
            decreases self.data@.len() - i,
        {
            frame.push(self.data[i]);
            assert(frame@ =~= self.data@.subrange(0, i + 1));
            i += 1;
        }
        assert(frame@ =~= self.data@);
        Some(frame)
    }
}

} // verus!
