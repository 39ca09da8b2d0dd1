//! Software volumes: percentages, per-channel volumes and their average.

use vstd::prelude::*;

verus! {

/// The normal volume (100%).
pub const VOLUME_NORM: u32 = 0x10000;

/// The largest valid volume.
pub const VOLUME_MAX: u32 = 0x7fff_ffff;

/// The largest number of channels a per-channel volume holds.
pub const CHANNELS_MAX: usize = 32;

/// The volume as a whole percentage of the normal volume, rounded down.
pub open spec fn percent_of_volume(vol: u32) -> int {
    vol * 100 / 65536
}

/// Converts a volume to a percentage of the normal volume, rounded down.
pub fn volume_to_percent(vol: u32) -> (p: i32)
    ensures
        p == percent_of_volume(vol),
        0 <= p <= 6553599,
{
    let scaled: u64 = vol as u64 * 100;
    let q: u64 = scaled / 65536;
    assert(q <= 6553599) by {
        assert(scaled < 429496729600);
    }
    q as i32
}

/// Integer division that rounds toward zero.
pub open spec fn div_toward_zero(a: int, b: int) -> int {
    if a >= 0 {
        a / b
    } else {
        -((-a) / b)
    }
}

/// The volume for a percentage of the normal volume, rounded toward zero
/// and taken modulo 2^32.
pub open spec fn volume_of_percent(percent: i32) -> u32 {
    div_toward_zero(percent * 65536, 100) as u32
}

/// Converts a percentage of the normal volume to a volume.
pub fn percent_to_volume(percent: i32) -> (vol: u32)
    ensures
        vol == volume_of_percent(percent),
{
    if percent >= 0 {
        let raw: u64 = (percent as u64) * 65536 / 100;
        raw as u32
    } else {
        let magnitude: u64 = ((0i64 - percent as i64) as u64) * 65536 / 100;
        let q: i64 = 0i64 - magnitude as i64;
        q as u32
    }
}

/// Caps a volume at the normal volume unless boosting is allowed.
pub fn limit_boost(vol: u32, allow_boost: bool) -> (r: u32)
    ensures
        r == if !allow_boost && vol > VOLUME_NORM { VOLUME_NORM } else { vol },
{
    if !allow_boost && vol > VOLUME_NORM {
        VOLUME_NORM
    } else {
        vol
    }
}

/// Caps a volume at the largest valid volume.
pub fn clamp_volume(vol: u32) -> (r: u32)
    ensures
        r == if vol > VOLUME_MAX { VOLUME_MAX } else { vol },
{
    if vol > VOLUME_MAX {
        VOLUME_MAX
    } else {
        vol
    }
}

/// 100% is the normal volume.
pub proof fn lemma_hundred_percent_is_normal()
    ensures
        volume_of_percent(100) == VOLUME_NORM,
        percent_of_volume(VOLUME_NORM) == 100,
{
}

/// Setting a percentage and reading the volume back as a percentage loses
/// at most one point, and nothing when the percentage is a multiple of 25;
/// this holds for every percentage whose volume fits in 32 bits.
pub proof fn lemma_percent_round_trip(p: i32)
    requires
        0 <= p <= 6553599,
    ensures
        p - 1 <= percent_of_volume(volume_of_percent(p)) <= p,
        p % 25 == 0 ==> percent_of_volume(volume_of_percent(p)) == p,
{
    let x: int = p * 65536;
    let v: int = x / 100;
    assert(0 <= v <= 4294966640) by (nonlinear_arith)
        requires
            x == p * 65536,
            v == x / 100,
            0 <= p <= 6553599,
    ;
    assert(volume_of_percent(p) == v);
    let r: int = v * 100 / 65536;
    assert(p - 1 <= r <= p) by (nonlinear_arith)
        requires
            x == p * 65536,
            v == x / 100,
            r == v * 100 / 65536,
            0 <= p,
    ;
    if p % 25 == 0 {
        assert(r == p) by (nonlinear_arith)
            requires
                x == p * 65536,
                v == x / 100,
                r == v * 100 / 65536,
                p % 25 == 0,
                0 <= p,
        ;
    }
}

/// More percent never means less volume, as long as the volume fits in
/// 32 bits; and a louder volume never reads as a smaller percentage.
pub proof fn lemma_percent_monotonic(p: i32, q: i32, u: u32, w: u32)
    requires
        0 <= p <= q <= 6553599,
        u <= w,
    ensures
        volume_of_percent(p) <= volume_of_percent(q),
        percent_of_volume(u) <= percent_of_volume(w),
{
    let vp: int = p * 65536 / 100;
    let vq: int = q * 65536 / 100;
    assert(0 <= vp <= vq <= 4294966640) by (nonlinear_arith)
        requires
            vp == p * 65536 / 100,
            vq == q * 65536 / 100,
            0 <= p <= q <= 6553599,
    ;
    assert(volume_of_percent(p) == vp);
    assert(volume_of_percent(q) == vq);
    assert(u * 100 / 65536 <= w * 100 / 65536) by (nonlinear_arith)
        requires
            u <= w,
    ;
}

} // verus!

verus! {

/// The sum of a sequence of volumes.
pub open spec fn volume_sum(s: Seq<u32>) -> nat
    decreases s.len(),
{
    if s.len() == 0 {
        0
    } else {
        volume_sum(s.drop_last()) + (s.last() as nat)
    }
}

/// Whether a sequence of per-channel volumes is valid: between one and
/// `CHANNELS_MAX` channels, each at most `VOLUME_MAX`.
pub open spec fn volumes_valid(s: Seq<u32>) -> bool {
    &&& 1 <= s.len() <= CHANNELS_MAX
    &&& forall|i: int| 0 <= i < s.len() ==> #[trigger] s[i] <= VOLUME_MAX
}

/// The average of valid per-channel volumes, rounded down; zero (muted)
/// for invalid ones.
pub open spec fn volume_average(s: Seq<u32>) -> u32 {
    if volumes_valid(s) {
        (volume_sum(s) / s.len()) as u32
    } else {
        0
    }
}

/// The volume of each active channel of a device.
#[derive(Debug, Clone)]
pub struct ChannelVolumes {
    pub values: Vec<u32>,
}

impl View for ChannelVolumes {
    type V = Seq<u32>;

    open spec fn view(&self) -> Seq<u32> {
        self.values@
    }
}

/// Valid volumes sum to at most their count times the largest valid volume.
pub proof fn lemma_sum_bound_max(s: Seq<u32>)
    requires
        forall|i: int| 0 <= i < s.len() ==> #[trigger] s[i] <= VOLUME_MAX,
    ensures
        volume_sum(s) <= s.len() * (VOLUME_MAX as nat),
    decreases s.len(),
{
    if s.len() > 0 {
        let t = s.drop_last();
        assert forall|i: int| 0 <= i < t.len() implies #[trigger] t[i] <= VOLUME_MAX by {
            assert(t[i] == s[i]);
        }
        lemma_sum_bound_max(t);
    }
}

impl ChannelVolumes {
    /// Per-channel volumes with the given values.
    pub fn new(values: Vec<u32>) -> (cv: ChannelVolumes)
        ensures
            cv@ == values@,
    {
        ChannelVolumes { values }
    }

    /// The number of active channels.
    pub fn len(&self) -> (n: usize)
        ensures
            n == self@.len(),
    {
        self.values.len()
    }

    /// A copy of these volumes.
    pub fn copy(&self) -> (cv: ChannelVolumes)
        ensures
            cv@ == self@,
    {
        let mut values: Vec<u32> = Vec::new();
        let mut i: usize = 0;
        while i < self.values.len()
            invariant
                i <= self.values.len(),
                values@ == self.values@.take(i as int),
            decreases self.values.len() - i,
        {
            values.push(self.values[i]);
            assert(self.values@.take(i + 1) =~= self.values@.take(i as int).push(self.values@[i as int]));
            i = i + 1;
        }
        assert(self.values@.take(self.values.len() as int) =~= self.values@);
        ChannelVolumes { values }
    }

    /// Whether there are between one and `CHANNELS_MAX` channels, each at
    /// a valid volume.
    pub fn is_valid(&self) -> (b: bool)
        ensures
            b == volumes_valid(self@),
    {
        let n = self.values.len();
        if n < 1 || n > CHANNELS_MAX {
            return false;
        }
        let mut i: usize = 0;
        while i < n
            invariant
                i <= n,
                n == self@.len(),
                forall|j: int| 0 <= j < i ==> #[trigger] self@[j] <= VOLUME_MAX,
            decreases n - i,
        {
            if self.values[i] > VOLUME_MAX {
                return false;
            }
            i = i + 1;
        }
        true
    }

    /// The average volume of all channels, rounded down; muted when the
    /// volumes are not valid.
    pub fn avg(&self) -> (v: u32)
        ensures
            v == volume_average(self@),
    {
        if !self.is_valid() {
            return 0;
        }
        let n = self.values.len();
        let mut total: u64 = 0;
        let mut i: usize = 0;
        while i < n
            invariant
                i <= n,
                n == self@.len(),
                n <= CHANNELS_MAX,
                total == volume_sum(self@.take(i as int)),
                total <= i * (u32::MAX as nat),
            decreases n - i,
        {
            assert(self@.take(i + 1).drop_last() =~= self@.take(i as int));
            assert(self@.take(i + 1).last() == self@[i as int]);
            total = total + self.values[i] as u64;
            i = i + 1;
        }
        assert(self@.take(n as int) =~= self@);
        proof {
            lemma_sum_bound_max(self@);
            let q = total / (n as u64);
            assert(q <= VOLUME_MAX) by (nonlinear_arith)
                requires
                    total <= n * (VOLUME_MAX as nat),
                    q == total / (n as u64),
                    n >= 1,
            ;
        }
        (total / (n as u64)) as u32
    }

    /// Sets the first `channels` channels, and only those, to `vol`.
    pub fn set(&mut self, channels: usize, vol: u32)
        requires
            1 <= channels <= CHANNELS_MAX,
        ensures
            final(self)@ == Seq::new(channels as nat, |i: int| vol),
    {
        let mut values: Vec<u32> = Vec::new();
        let mut i: usize = 0;
        while i < channels
            invariant
                i <= channels,
                values@ == Seq::new(i as nat, |k: int| vol),
            decreases channels - i,
        {
            values.push(vol);
            assert(values@ =~= Seq::new((i + 1) as nat, |k: int| vol));
            i = i + 1;
        }
        self.values = values;
    }
}

proof fn lemma_sum_constant(n: nat, v: u32)
    ensures
        volume_sum(Seq::new(n, |i: int| v)) == n * v,
    decreases n,
{
    if n > 0 {
        let s = Seq::new(n, |i: int| v);
        assert(s.drop_last() =~= Seq::new((n - 1) as nat, |i: int| v));
        lemma_sum_constant((n - 1) as nat, v);
        assert(volume_sum(s) == (n - 1) * v + v);
        assert((n - 1) * v + v == n * v) by (nonlinear_arith);
    } else {
        assert(n * v == 0) by (nonlinear_arith)
            requires
                n == 0,
        ;
    }
}

/// Setting every active channel to one valid volume makes that volume the
/// average.
pub proof fn lemma_average_after_set(channels: nat, vol: u32)
    requires
        1 <= channels <= CHANNELS_MAX,
        vol <= VOLUME_MAX,
    ensures
        volume_average(Seq::new(channels, |i: int| vol)) == vol,
{
    let s = Seq::new(channels, |i: int| vol);
    lemma_sum_constant(channels, vol);
    assert(volumes_valid(s));
    let c: int = channels as int;
    let w: int = vol as int;
    assert((c * w) / c == w) by (nonlinear_arith)
        requires
            c >= 1,
    ;
}

/// The average of valid volumes lies between their smallest and largest.
pub proof fn lemma_average_bounds(s: Seq<u32>, lo: u32, hi: u32)
    requires
        volumes_valid(s),
        forall|i: int| 0 <= i < s.len() ==> lo <= #[trigger] s[i] <= hi,
    ensures
        lo <= volume_average(s) <= hi,
{
    lemma_sum_between(s, lo, hi);
    let n = s.len();
    let t = volume_sum(s);
    assert(lo <= t / n <= hi) by (nonlinear_arith)
        requires
            n * lo <= t <= n * hi,
            n >= 1,
    ;
}

proof fn lemma_sum_between(s: Seq<u32>, lo: u32, hi: u32)
    requires
        forall|i: int| 0 <= i < s.len() ==> lo <= #[trigger] s[i] <= hi,
    ensures
        s.len() * lo <= volume_sum(s) <= s.len() * hi,
    decreases s.len(),
{
    if s.len() > 0 {
        let t = s.drop_last();
        assert forall|i: int| 0 <= i < t.len() implies lo <= #[trigger] t[i] <= hi by {
            assert(t[i] == s[i]);
        }
        lemma_sum_between(t, lo, hi);
        assert(lo <= s.last() <= hi);
        assert(t.len() * lo + lo == s.len() * lo) by (nonlinear_arith)
            requires
                s.len() == t.len() + 1,
        ;
        assert(t.len() * hi + hi == s.len() * hi) by (nonlinear_arith)
            requires
                s.len() == t.len() + 1,
        ;
    } else {
        let z: int = s.len() as int;
        assert(z * lo == 0 && z * hi == 0) by (nonlinear_arith)
            requires
                z == 0,
        ;
    }
}

} // verus!
