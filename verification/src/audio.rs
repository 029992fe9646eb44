//! The audio service's volume polling: the average of the channel volumes
//! and when a change is reported.
use vstd::prelude::*;

use crate::text::trunc_div;

verus! {

/// The sum of some volumes.
pub open spec fn sum(s: Seq<i64>) -> int
    decreases s.len(),
{
    if s.len() == 0 {
        0
    } else {
        sum(s.drop_last()) + s.last()
    }
}

/// Every running sum of the volumes fits in an `i64`.
pub open spec fn sums_fit(s: Seq<i64>) -> bool {
    forall|k: int| 0 <= k <= s.len() ==> i64::MIN <= #[trigger] sum(s.take(k)) <= i64::MAX
}

/// The average of the volumes read from the channels, rounded toward zero.
/// With no channel read, or a sum that does not fit, the average is outside
/// the contract.
pub fn average_volume(volumes: &Vec<i64>) -> (r: i64)
    requires
        volumes@.len() > 0,
        volumes@.len() <= i64::MAX,
        sums_fit(volumes@),
    ensures
        r == trunc_div(sum(volumes@), volumes@.len() as int),
{
    let mut acc: i64 = 0;
    let mut count: i64 = 0;
    let mut i: usize = 0;
    while i < volumes.len()
        invariant
            i <= volumes@.len(),
            volumes@.len() <= i64::MAX,
            count == i,
            acc == sum(volumes@.take(i as int)),
            sums_fit(volumes@),
        decreases volumes@.len() - i,
    {
        proof {
            assert(volumes@.take(i + 1).drop_last() =~= volumes@.take(i as int));
            assert(i64::MIN <= sum(volumes@.take(i + 1)) <= i64::MAX);
        }
        acc = acc + volumes[i];
        count = count + 1;
        i = i + 1;
    }
    assert(volumes@.take(i as int) =~= volumes@);
    acc / count
}

/// Whether a polled volume is reported after `previous` was: only a change is.
pub open spec fn volume_reported(previous: i64, volume: i64) -> bool {
    previous != volume
}

/// Remembers the last volume reported.
pub struct VolumeTracker {
    pub previous_volume: i64,
}

impl VolumeTracker {
    /// A tracker that has reported volume 0.
    pub fn new() -> (r: VolumeTracker)
        ensures
            r.previous_volume == 0,
    {
        VolumeTracker { previous_volume: 0 }
    }

    /// Whether a polled volume is reported: only when it differs from the
    /// last one reported.
    pub fn changed(&self, volume: i64) -> (r: bool)
        ensures
            r == volume_reported(self.previous_volume, volume),
    {
        self.previous_volume != volume
    }

    /// Records a volume as reported, once its report has been sent.
    pub fn record(&mut self, volume: i64)
        ensures
            final(self).previous_volume == volume,
    {
        self.previous_volume = volume;
    }
}

/// Polling the same volume twice reports it at most once: once a reading has
/// been reported and recorded, the same reading is not reported again.
pub proof fn law_repeated_volume_is_quiet(previous: i64, volume: i64)
    ensures
        !volume_reported(volume, volume),
        volume_reported(previous, volume) <==> previous != volume,
{
}

} // verus!
