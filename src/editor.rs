//! The fixed-capacity line buffer behind the shell's line editor.

use vstd::prelude::*;

verus! {

/// Bytes of storage in a line buffer; one is kept free for a terminator.
pub const CAPACITY: usize = 256;

/// The longest line the buffer holds.
pub const MAX_LINE: usize = 255;

/// A line of typed bytes in fixed storage that stays zero past the line.
pub struct EditBuffer {
    bytes: Vec<u8>,
    len: usize,
}

impl View for EditBuffer {
    type V = Seq<u8>;

    closed spec fn view(&self) -> Seq<u8> {
        self.bytes@.subrange(0, self.len as int)
    }
}

impl EditBuffer {
    /// The storage has its full size, the line leaves room for the
    /// terminator, and every byte past the line is zero.
    pub closed spec fn wf(&self) -> bool {
        &&& self.bytes@.len() == CAPACITY
        &&& self.len <= MAX_LINE
        &&& forall|i: int| self.len <= i < CAPACITY ==> #[trigger] self.bytes@[i] == 0
    }

    /// The whole storage, line and padding.
    pub closed spec fn storage(&self) -> Seq<u8> {
        self.bytes@
    }

    /// An empty buffer.
    pub fn new() -> (r: EditBuffer)
        ensures
            r.wf(),
            r@ == Seq::<u8>::empty(),
    {
        let bytes = vec![0u8; CAPACITY];
        let r = EditBuffer { bytes, len: 0 };
        assert(r@ =~= Seq::<u8>::empty());
        r
    }

    /// The number of bytes in the line.
    pub fn len(&self) -> (r: usize)
        requires
            self.wf(),
        ensures
            r == self@.len(),
    {
        self.len
    }

    pub fn is_empty(&self) -> (r: bool)
        requires
            self.wf(),
        ensures
            r == (self@.len() == 0),
    {
        self.len == 0
    }

    /// Appends a byte if the line is shorter than its bound; otherwise the
    /// byte is dropped. Returns whether it was stored.
    pub fn insert(&mut self, b: u8) -> (r: bool)
        requires
            old(self).wf(),
        ensures
            final(self).wf(),
            r == (old(self)@.len() < MAX_LINE),
            final(self)@ == (if r { old(self)@.push(b) } else { old(self)@ }),
    {
        if self.len < MAX_LINE {
            let ghost before = self@;
            self.bytes.set(self.len, b);
            self.len = self.len + 1;
            assert(self@ =~= before.push(b));
            assert forall|i: int| self.len <= i < CAPACITY implies #[trigger] self.bytes@[i] == 0 by {
            }
            true
        } else {
            false
        }
    }

    /// Removes the last byte, if any, and zeroes its place. Returns whether a
    /// byte was removed.
    pub fn backspace(&mut self) -> (r: bool)
        requires
            old(self).wf(),
        ensures
            final(self).wf(),
            r == (old(self)@.len() > 0),
            final(self)@ == (if r { old(self)@.drop_last() } else { old(self)@ }),
    {
        if self.len > 0 {
            let ghost before = self@;
            self.len = self.len - 1;
            self.bytes.set(self.len, 0);
            assert(self@ =~= before.drop_last());
            true
        } else {
            false
        }
    }

    /// Empties the line and zeroes the whole storage.
    pub fn clear(&mut self)
        requires
            old(self).wf(),
        ensures
            final(self).wf(),
            final(self)@ == Seq::<u8>::empty(),
            forall|i: int| 0 <= i < CAPACITY ==> #[trigger] final(self).storage()[i] == 0,
    {
        let mut i: usize = 0;
        while i < CAPACITY
            invariant
                self.bytes@.len() == CAPACITY,
                0 <= i <= CAPACITY,
                forall|j: int| 0 <= j < i ==> #[trigger] self.bytes@[j] == 0,
            decreases CAPACITY - i,
        {
            self.bytes.set(i, 0);
            i = i + 1;
        }
        self.len = 0;
        assert(self@ =~= Seq::<u8>::empty());
    }

    /// Inserts each byte of `input` in turn; those past the bound are
    /// dropped. Returns how many were stored.
    pub fn insert_all(&mut self, input: &[u8]) -> (r: usize)
        requires
            old(self).wf(),
        ensures
            final(self).wf(),
            final(self)@ == insert_all_spec(old(self)@, input@),
            r == final(self)@.len() - old(self)@.len(),
    {
        let ghost start = self@;
        let mut i: usize = 0;
        let mut stored: usize = 0;
        while i < input.len()
            invariant
                self.wf(),
                0 <= i <= input@.len(),
                self@ == insert_all_spec(start, input@.take(i as int)),
                stored == self@.len() - start.len(),
            decreases input@.len() - i,
        {
            assert(input@.take(i as int + 1).drop_last() =~= input@.take(i as int));
            if self.insert(input[i]) {
                stored = stored + 1;
            }
            i = i + 1;
        }
        assert(input@.take(input@.len() as int) =~= input@);
        stored
    }

    /// A copy of the line.
    pub fn contents(&self) -> (r: Vec<u8>)
        requires
            self.wf(),
        ensures
            r@ == self@,
    {
        let mut r: Vec<u8> = Vec::new();
        let mut i: usize = 0;
        while i < self.len
            invariant
                self.wf(),
                0 <= i <= self.len,
                r@ == self.bytes@.subrange(0, i as int),
            decreases self.len - i,
        {
            r.push(self.bytes[i]);
            i = i + 1;
            assert(r@ =~= self.bytes@.subrange(0, i as int));
        }
        r
    }
}

/// The line after one insert of `b`.
pub open spec fn insert_spec(line: Seq<u8>, b: u8) -> Seq<u8> {
    if line.len() < MAX_LINE {
        line.push(b)
    } else {
        line
    }
}

/// The line after inserting each byte of `input` in turn.
pub open spec fn insert_all_spec(line: Seq<u8>, input: Seq<u8>) -> Seq<u8>
    decreases input.len(),
{
    if input.len() == 0 {
        line
    } else {
        insert_spec(insert_all_spec(line, input.drop_last()), input.last())
    }
}

pub open spec fn min_nat(a: nat, b: nat) -> nat {
    if a <= b {
        a
    } else {
        b
    }
}

/// However many bytes are inserted without a clear, the line never grows
/// past its bound: it holds the first bytes of the old line followed by the
/// input, cut at the bound, and the rest is dropped.
pub proof fn lemma_inserts_stay_bounded(line: Seq<u8>, input: Seq<u8>)
    requires
        line.len() <= MAX_LINE,
    ensures
        insert_all_spec(line, input).len() == min_nat(line.len() + input.len(), MAX_LINE as nat),
        insert_all_spec(line, input) == (line + input).take(
            min_nat(line.len() + input.len(), MAX_LINE as nat) as int,
        ),
    decreases input.len(),
{
    if input.len() > 0 {
        lemma_inserts_stay_bounded(line, input.drop_last());
        let prev = insert_all_spec(line, input.drop_last());
        assert(line + input.drop_last() =~= (line + input).drop_last());
        if prev.len() < MAX_LINE {
            assert(prev.push(input.last()) =~= (line + input).take(prev.len() + 1int));
        } else {
            assert(prev =~= (line + input).take(MAX_LINE as int));
        }
    } else {
        assert(line + input =~= line);
        assert(line.take(line.len() as int) =~= line);
    }
}

} // verus!
