use vstd::prelude::*;

verus! {

/// Frame timing bookkeeping: the time of the last counted frame and
/// the time elapsed since it, both in microseconds.
pub struct FPSManager {
    pub delta_time: u128,
    pub last_time: u128,
}

impl FPSManager {
    pub fn new() -> (m: FPSManager)
        ensures
            m.delta_time == 0,
            m.last_time == 0,
    {
        FPSManager {
            delta_time: 0u128,
            last_time: 0u128,
        }
    }

    /// Take a new clock reading: the delta becomes the time elapsed
    /// since the last counted frame, and the reading is remembered
    /// exactly when some time has passed.
    pub fn update(&mut self, new_time: u128)
        requires
            new_time >= old(self).last_time,
        ensures
            final(self).delta_time == new_time - old(self).last_time,
            final(self).last_time
                == (if new_time != old(self).last_time { new_time } else { old(self).last_time }),
    {
        let dt: u128 = new_time - self.last_time;
        self.delta_time = dt;
        if dt != 0u128 {
            self.last_time = new_time;
        }
    }
}

} // verus!
