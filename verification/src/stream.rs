//! The character-source abstraction the tokenizer pulls from, and its one
//! implementation: an ordered list of borrowed text fragments presented as
//! a single logical stream.

use vstd::prelude::*;
use vstd::string::StrSliceExecFns;

verus! {

/// A peekable character input stream.
pub trait InputStream {
    /// The characters not yet consumed.
    spec fn remaining(&self) -> Seq<char>;

    /// The stream's internal consistency.
    spec fn wf(&self) -> bool;

    /// Consume and return the next character, or signal exhaustion.
    fn get_next(&mut self) -> (r: Option<char>)
        requires
            old(self).wf(),
        ensures
            final(self).wf(),
            old(self).remaining().len() > 0 ==> r == Some(old(self).remaining()[0])
                && final(self).remaining() == old(self).remaining().drop_first(),
            old(self).remaining().len() == 0 ==> r is None && final(self).remaining()
                == old(self).remaining(),
    ;

    /// Inspect the next character without consuming it.
    fn peek_next(&mut self) -> (r: Option<char>)
        requires
            old(self).wf(),
        ensures
            final(self).wf(),
            final(self).remaining() == old(self).remaining(),
            old(self).remaining().len() > 0 ==> r == Some(old(self).remaining()[0]),
            old(self).remaining().len() == 0 ==> r is None,
    ;
}

/// The concatenation of the views of the fragments from `index` on.
pub open spec fn remaining_from(streams: Seq<&str>, index: int) -> Seq<char>
    decreases streams.len() - index,
{
    if index < 0 || index >= streams.len() {
        Seq::empty()
    } else {
        streams[index]@ + remaining_from(streams, index + 1)
    }
}

/// Multiple borrowed character sources joined to form one single stream.
pub struct MultiInputsStream<'a> {
    /// The input text fragments.
    pub streams: Vec<&'a str>,
    /// The character length of each fragment, computed once.
    pub lengths: Vec<usize>,
    /// The current fragment index.
    pub index: usize,
    /// Characters already consumed of the current fragment.
    pub offset: usize,
}

impl<'a> MultiInputsStream<'a> {
    /// Join a list of text fragments into one stream.
    pub fn new(input: &[&'a str]) -> (r: Self)
        ensures
            r.wf(),
            r.remaining() == remaining_from(input@, 0),
    {
        let mut streams: Vec<&'a str> = Vec::new();
        let mut lengths: Vec<usize> = Vec::new();
        let n = input.len();
        let mut i: usize = 0;
        while i < n
            invariant
                n == input@.len(),
                i <= n,
                streams@ == input@.take(i as int),
                lengths@.len() == i,
                forall|j: int| 0 <= j < i ==> lengths@[j] == streams@[j]@.len(),
            decreases n - i,
        {
            let fragment = input[i];
            streams.push(fragment);
            lengths.push(fragment.unicode_len());
            proof {
                assert(input@.take(i as int).push(input@[i as int]) =~= input@.take(i as int + 1));
            }
            i += 1;
        }
        proof {
            assert(input@.take(n as int) =~= input@);
        }
        let r = MultiInputsStream { streams, lengths, index: 0, offset: 0 };
        proof {
            if r.streams@.len() > 0 {
                assert(r.streams@[0]@.skip(0) =~= r.streams@[0]@);
            }
        }
        r
    }
}

impl<'a> InputStream for MultiInputsStream<'a> {
    open spec fn remaining(&self) -> Seq<char> {
        if self.index < self.streams@.len() {
            self.streams@[self.index as int]@.skip(self.offset as int) + remaining_from(
                self.streams@,
                self.index as int + 1,
            )
        } else {
            Seq::empty()
        }
    }

    open spec fn wf(&self) -> bool {
        &&& self.lengths@.len() == self.streams@.len()
        &&& forall|j: int|
            0 <= j < self.streams@.len() ==> self.lengths@[j] == self.streams@[j]@.len()
        &&& (self.index as int) <= self.streams@.len()
        &&& ((self.index as int) < self.streams@.len() ==> (self.offset as int)
            <= self.streams@[self.index as int]@.len())
        &&& ((self.index as int) >= self.streams@.len() ==> self.offset == 0)
    }

    fn get_next(&mut self) -> (r: Option<char>)
        ensures
            final(self).wf(),
            old(self).remaining().len() > 0 ==> r == Some(old(self).remaining()[0])
                && final(self).remaining() == old(self).remaining().drop_first(),
            old(self).remaining().len() == 0 ==> r is None && final(self).remaining()
                == old(self).remaining(),
    {
        loop
            invariant
                self.wf(),
                self.remaining() == old(self).remaining(),
            decreases self.streams@.len() - self.index,
        {
            if self.index >= self.streams.len() {
                return None;
            }
            let flen = self.lengths[self.index];
            if self.offset < flen {
                let c = self.streams[self.index].get_char(self.offset);
                let ghost frag = self.streams@[self.index as int]@;
                let ghost off = self.offset as int;
                self.offset = self.offset + 1;
                proof {
                    assert(frag.skip(off)[0] == frag[off]);
                    assert(frag.skip(off).drop_first() =~= frag.skip(off + 1));
                    assert(final(self).remaining() =~= old(self).remaining().drop_first());
                }
                return Some(c);
            } else {
                let ghost pre = *self;
                let ghost idx = self.index as int;
                self.index = self.index + 1;
                self.offset = 0;
                proof {
                    if self.index < self.streams.len() {
                        assert(self.streams@[idx + 1]@.skip(0) =~= self.streams@[idx + 1]@);
                    }
                    assert(pre.streams@[idx]@.skip(pre.offset as int) =~= Seq::<char>::empty());
                    assert(self.remaining() =~= pre.remaining());
                }
            }
        }
    }

    fn peek_next(&mut self) -> (r: Option<char>)
        ensures
            final(self).wf(),
            final(self).remaining() == old(self).remaining(),
            old(self).remaining().len() > 0 ==> r == Some(old(self).remaining()[0]),
            old(self).remaining().len() == 0 ==> r is None,
    {
        loop
            invariant
                self.wf(),
                self.remaining() == old(self).remaining(),
            decreases self.streams@.len() - self.index,
        {
            if self.index >= self.streams.len() {
                return None;
            }
            let flen = self.lengths[self.index];
            if self.offset < flen {
                let c = self.streams[self.index].get_char(self.offset);
                proof {
                    let frag = self.streams@[self.index as int]@;
                    assert(frag.skip(self.offset as int)[0] == frag[self.offset as int]);
                }
                return Some(c);
            } else {
                let ghost pre = *self;
                let ghost idx = self.index as int;
                self.index = self.index + 1;
                self.offset = 0;
                proof {
                    if self.index < self.streams.len() {
                        assert(self.streams@[idx + 1]@.skip(0) =~= self.streams@[idx + 1]@);
                    }
                    assert(pre.streams@[idx]@.skip(pre.offset as int) =~= Seq::<char>::empty());
                    assert(self.remaining() =~= pre.remaining());
                }
            }
        }
    }
}

} // verus!
