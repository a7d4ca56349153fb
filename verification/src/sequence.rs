use vstd::prelude::*;

use crate::id::GamepadId;

verus! {

/// A finite, single-pass sequence of currently connected controllers, each
/// paired with the identifier its backend issued for it.
///
/// A backend builds one per enumeration pass from a snapshot of the devices
/// it sees at that moment. The sequence is not restartable: a fresh one must
/// be requested for a new pass. Its view is the sequence of pairs still to
/// be produced.
pub struct ConnectedGamepadsIterator<H> {
    pairs: Vec<(GamepadId, H)>,
}

impl<H> View for ConnectedGamepadsIterator<H> {
    type V = Seq<(GamepadId, H)>;

    closed spec fn view(&self) -> Seq<(GamepadId, H)> {
        self.pairs@
    }
}

impl<H> ConnectedGamepadsIterator<H> {
    /// Builds the sequence from one snapshot of connected devices, in the
    /// order the backend reports them.
    pub fn from_pairs(pairs: Vec<(GamepadId, H)>) -> (connected: Self)
        ensures
            connected@ == pairs@,
    {
        ConnectedGamepadsIterator { pairs }
    }

    /// How many pairs the sequence has still to produce.
    pub fn remaining(&self) -> (n: usize)
        ensures
            n == self@.len(),
    {
        self.pairs.len()
    }

    /// Produces the next still-connected (identifier, handle) pair, or
    /// `None` once the sequence is exhausted. A sequence over zero devices
    /// is exhausted immediately and stays so.
    pub fn next(&mut self) -> (item: Option<(GamepadId, H)>)
        ensures
            old(self)@.len() == 0 ==> item is None && final(self)@ == old(self)@,
            old(self)@.len() > 0 ==> item == Some(old(self)@[0])
                && final(self)@ == old(self)@.drop_first(),
    {
        if self.pairs.len() > 0 {
            let pair = self.pairs.remove(0);
            proof {
                assert(self.pairs@ =~= old(self).pairs@.drop_first());
            }
            Some(pair)
        } else {
            None
        }
    }
}

} // verus!
