use vstd::prelude::*;

verus! {

/// The program's standalone demonstration counter.
pub struct Idngenelectevotingsolana {
    pub count: u8,
}

impl Idngenelectevotingsolana {
    /// A fresh counter at zero.
    pub fn initialize() -> (r: Idngenelectevotingsolana)
        ensures
            r.count == 0,
    {
        Idngenelectevotingsolana { count: 0 }
    }

    pub fn increment(&mut self)
        requires
            old(self).count < u8::MAX,
        ensures
            final(self).count == old(self).count + 1,
    {
        self.count = self.count + 1;
    }

    pub fn decrement(&mut self)
        requires
            old(self).count > 0,
        ensures
            final(self).count == old(self).count - 1,
    {
        self.count = self.count - 1;
    }

    pub fn set(&mut self, value: u8)
        ensures
            final(self).count == value,
    {
        self.count = value;
    }
}

} // verus!
