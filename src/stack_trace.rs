//! Stack diagnostics: frames found by walking the frame-pointer chain, a
//! small fixed-capacity list to hold them, and usage statistics.

use vstd::prelude::*;

verus! {

/// The most items a `Vec` of this module holds.
pub const VEC_CAPACITY: usize = 16;

/// Where the kernel stack is taken to start; it grows down from here.
pub const ESTIMATED_STACK_START: u32 = 0x100000;

/// One frame of the call chain: its base pointer and return address.
#[derive(Clone, Copy, Debug, PartialEq, Eq, Structural)]
pub struct StackFrame {
    pub ebp: u32,
    pub eip: u32,
}

impl StackFrame {
    pub fn new(ebp: u32, eip: u32) -> (r: StackFrame)
        ensures
            r == (StackFrame { ebp, eip }),
    {
        StackFrame { ebp, eip }
    }
}

/// Whether a frame pointer is worth following: above the first page, in the
/// lower half of the address space, and four-byte aligned.
pub open spec fn valid_address_spec(addr: u32) -> bool {
    addr > 0x1000 && addr < 0x80000000 && addr % 4 == 0
}

/// Whether a frame pointer is worth following.
pub fn is_valid_address(addr: u32) -> (r: bool)
    ensures
        r == valid_address_spec(addr),
{
    assert(addr & 3 == addr % 4) by (bit_vector);
    addr > 0x1000 && addr < 0x80000000 && (addr & 0x3) == 0
}

/// A list that holds at most `VEC_CAPACITY` items and ignores pushes past
/// that.
pub struct Vec<T> {
    data: std::vec::Vec<T>,
}

impl<T> View for Vec<T> {
    type V = Seq<T>;

    closed spec fn view(&self) -> Seq<T> {
        self.data@
    }
}

impl<T> Vec<T> {
    pub closed spec fn wf(&self) -> bool {
        self.data@.len() <= VEC_CAPACITY
    }

    pub fn new() -> (r: Vec<T>)
        ensures
            r.wf(),
            r@ == Seq::<T>::empty(),
    {
        Vec { data: std::vec::Vec::new() }
    }

    /// Appends `item` while there is room; a full list stays as it is.
    pub fn push(&mut self, item: T)
        requires
            old(self).wf(),
        ensures
            final(self).wf(),
            final(self)@ == (if old(self)@.len() < VEC_CAPACITY {
                old(self)@.push(item)
            } else {
                old(self)@
            }),
    {
        if self.data.len() < VEC_CAPACITY {
            self.data.push(item);
        }
    }

    pub fn len(&self) -> (r: usize)
        ensures
            r == self@.len(),
    {
        self.data.len()
    }

    /// The item at `index`, if there is one.
    pub fn get(&self, index: usize) -> (r: Option<&T>)
        ensures
            index < self@.len() ==> r == Some(&self@[index as int]),
            index >= self@.len() ==> r is None,
    {
        if index < self.data.len() {
            Some(&self.data[index])
        } else {
            None
        }
    }

    /// A cursor over the items, first to last.
    pub fn iter(&self) -> (r: VecIter<'_, T>)
        ensures
            r.vec == self,
            r.index == 0,
    {
        VecIter { vec: self, index: 0 }
    }
}

/// A cursor over a `Vec`: `next` hands out the items in order.
pub struct VecIter<'a, T> {
    pub vec: &'a Vec<T>,
    pub index: usize,
}

impl<'a, T> VecIter<'a, T> {
    /// The next item, or `None` once all have been handed out.
    pub fn next(&mut self) -> (r: Option<&'a T>)
        ensures
            old(self).index < old(self).vec@.len() ==> r == Some(&old(self).vec@[old(self).index as int]) && final(self).index == old(self).index + 1,
            old(self).index >= old(self).vec@.len() ==> r is None && final(self).index == old(self).index,
            final(self).vec == old(self).vec,
    {
        if self.index < self.vec.len() {
            let item = self.vec.get(self.index);
            self.index = self.index + 1;
            item
        } else {
            None
        }
    }
}

/// Stack usage figures.
#[derive(Clone, Copy, Debug, PartialEq, Eq, Structural)]
pub struct StackStats {
    pub current_esp: u32,
    pub current_ebp: u32,
    pub estimated_used: u32,
    pub frame_count: usize,
}

/// The usage figures for the given stack and base pointers and the number
/// of frames found: the stack is taken to start at `ESTIMATED_STACK_START`.
pub fn get_stack_stats(esp: u32, ebp: u32, frame_count: usize) -> (r: StackStats)
    requires
        frame_count <= VEC_CAPACITY,
    ensures
        r.frame_count <= VEC_CAPACITY,
        r.current_esp == esp,
        r.current_ebp == ebp,
        r.frame_count == frame_count,
        r.estimated_used == (if esp < ESTIMATED_STACK_START {
            ESTIMATED_STACK_START - esp
        } else {
            0
        }),
{
    let used = if esp < ESTIMATED_STACK_START {
        ESTIMATED_STACK_START - esp
    } else {
        0
    };
    StackStats { current_esp: esp, current_ebp: ebp, estimated_used: used, frame_count }
}

/// The size of the live stack between the stack and base pointers, when
/// the base pointer lies above.
pub fn stack_span(esp: u32, ebp: u32) -> (r: Option<u32>)
    ensures
        ebp > esp ==> r == Some((ebp - esp) as u32),
        ebp <= esp ==> r is None,
{
    if ebp > esp {
        Some(ebp - esp)
    } else {
        None
    }
}

/// A walk up the frame-pointer chain, one frame per step. The caller reads
/// the two words at the address `next_read` names (the saved base pointer,
/// then the return address) and hands them to `feed`.
pub struct FrameWalker {
    frames: Vec<StackFrame>,
    current: u32,
    remaining: usize,
    done: bool,
}

impl FrameWalker {
    pub closed spec fn wf(&self) -> bool {
        self.frames.wf() && self.frames@.len() + self.remaining <= VEC_CAPACITY
    }

    /// The frames found so far, innermost first.
    pub closed spec fn found(&self) -> Seq<StackFrame> {
        self.frames@
    }

    /// The frame pointer to be read next.
    pub closed spec fn current_spec(&self) -> u32 {
        self.current
    }

    /// Whether the walk goes on: frames are still wanted, the chain has not
    /// turned back, and the frame pointer is worth following.
    pub closed spec fn active(&self) -> bool {
        !self.done && self.remaining > 0 && self.current != 0 && valid_address_spec(self.current)
    }

    /// The address of the frame to read next, while the walk goes on.
    pub fn next_read(&self) -> (r: Option<u32>)
        ensures
            r == (if self.active() {
                Some(self.current_spec())
            } else {
                None::<u32>
            }),
    {
        if !self.done && self.remaining > 0 && self.current != 0 && is_valid_address(self.current) {
            Some(self.current)
        } else {
            None
        }
    }

    /// Records the frame at the address `next_read` gave, from the words
    /// read there, and moves to the caller's frame. A saved pointer that
    /// does not lie above the current one ends the walk after this frame.
    pub fn feed(&mut self, saved_ebp: u32, saved_eip: u32)
        requires
            old(self).wf(),
            old(self).active(),
        ensures
            final(self).wf(),
            final(self).found() == old(self).found().push(
                StackFrame { ebp: old(self).current_spec(), eip: saved_eip },
            ),
            final(self).current_spec() == saved_ebp,
            (saved_ebp != 0 && saved_ebp <= old(self).current_spec()) ==> !final(self).active(),
    {
        self.frames.push(StackFrame::new(self.current, saved_eip));
        self.remaining = self.remaining - 1;
        if saved_ebp != 0 && saved_ebp <= self.current {
            self.done = true;
        }
        self.current = saved_ebp;
    }

    /// The frames found, innermost first.
    pub fn frames(self) -> (r: Vec<StackFrame>)
        requires
            self.wf(),
        ensures
            r.wf(),
            r@ == self.found(),
    {
        self.frames
    }
}

/// Starts a walk at base pointer `ebp` that collects at most `max_frames`
/// frames (and never more than a `Vec` holds).
pub fn walk_stack(ebp: u32, max_frames: usize) -> (r: FrameWalker)
    ensures
        r.wf(),
        r.found() == Seq::<StackFrame>::empty(),
        r.current_spec() == ebp,
        r.active() == (max_frames > 0 && ebp != 0 && valid_address_spec(ebp)),
{
    let remaining = if max_frames < VEC_CAPACITY {
        max_frames
    } else {
        VEC_CAPACITY
    };
    FrameWalker { frames: Vec::new(), current: ebp, remaining, done: false }
}

} // verus!
