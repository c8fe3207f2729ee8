//! Bookkeeping for the virtual screens: which one is active and which ones
//! have been shown at least once.

use vstd::prelude::*;

verus! {

/// The number of virtual screens.
pub const MAX_SCREENS: usize = 4;

/// The active screen and, for each screen, whether it was ever activated.
pub struct ScreenManager {
    active: usize,
    initialized: [bool; 4],
}

impl ScreenManager {
    pub closed spec fn wf(&self) -> bool {
        self.active < MAX_SCREENS && self.initialized@.len() == MAX_SCREENS
    }

    pub closed spec fn active_spec(&self) -> nat {
        self.active as nat
    }

    /// Which screens have been activated, by index.
    pub closed spec fn shown(&self) -> Seq<bool> {
        self.initialized@
    }

    /// Screen 0 active, and the only one shown so far.
    pub fn new() -> (r: ScreenManager)
        ensures
            r.wf(),
            r.active_spec() == 0,
            r.shown() == seq![true, false, false, false],
            r.shown().len() == MAX_SCREENS,
    {
        let r = ScreenManager { active: 0, initialized: [true, false, false, false] };
        assert(r.shown() =~= seq![true, false, false, false]);
        r
    }

    /// Makes `index` the active screen. Returns whether this was the screen's
    /// first activation, after which its prompt has to be drawn. An index past
    /// the last screen changes nothing and returns false.
    pub fn switch_to_screen(&mut self, index: usize) -> (r: bool)
        requires
            old(self).wf(),
        ensures
            final(self).wf(),
            final(self).shown().len() == MAX_SCREENS,
            index < MAX_SCREENS ==> {
                &&& final(self).active_spec() == index
                &&& r == !old(self).shown()[index as int]
                &&& final(self).shown() == old(self).shown().update(index as int, true)
            },
            index >= MAX_SCREENS ==> !r && final(self).active_spec() == old(self).active_spec()
                && final(self).shown() == old(self).shown(),
    {
        if index >= MAX_SCREENS {
            return false;
        }
        let first = !self.initialized[index];
        self.initialized[index] = true;
        self.active = index;
        assert(self.shown() =~= old(self).shown().update(index as int, true));
        first
    }

    /// The index of the active screen.
    pub fn active(&self) -> (r: usize)
        requires
            self.wf(),
        ensures
            r == self.active_spec(),
            r < MAX_SCREENS,
    {
        self.active
    }
}

/// The index of the active screen of `screens`.
pub fn get_active_screen(screens: &ScreenManager) -> (r: usize)
    requires
        screens.wf(),
    ensures
        r == screens.active_spec(),
        r < MAX_SCREENS,
{
    screens.active()
}

} // verus!
