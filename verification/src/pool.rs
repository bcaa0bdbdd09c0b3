use crate::channel::Channel;
use crate::channel::Requester;
use crate::channel::Responder;
use vstd::prelude::*;

verus! {

/// A fixed set of channels claimable independently: one allocation carved
/// into many channels, with a rotating cursor spreading claims round-robin.
pub struct Interchange<Rq, Rp> {
    /// The channels of the pool; the capacity is fixed at construction.
    pub channels: Vec<Channel<Rq, Rp>>,
    /// Count of claim attempts so far; a claim scans from this count modulo
    /// the pool size, so successive claims start at successive channels.
    pub last_claimed: usize,
}

/// The position of the first channel with both handles free among
/// `lo..hi`, if any.
pub open spec fn first_free_in<Rq, Rp>(s: Seq<Channel<Rq, Rp>>, lo: int, hi: int) -> Option<int>
    decreases hi - lo,
{
    if lo >= hi {
        None::<int>
    } else if s[lo].can_split() {
        Some(lo)
    } else {
        first_free_in(s, lo + 1, hi)
    }
}

/// The position of the first channel with both handles free, scanning from
/// `start` to the end and then wrapping around to the front.
pub open spec fn rotation_first_free<Rq, Rp>(s: Seq<Channel<Rq, Rp>>, start: int) -> Option<int> {
    match first_free_in(s, start, s.len() as int) {
        Some(i) => Some(i),
        None => first_free_in(s, 0, start),
    }
}

/// The channel sequence after one claim that scanned from `start`: the
/// first free channel in rotation order has both its handles claimed; if
/// every channel is in use, nothing changes.
pub open spec fn seq_after_claim<Rq, Rp>(s: Seq<Channel<Rq, Rp>>, start: int) -> Seq<
    Channel<Rq, Rp>,
> {
    match rotation_first_free(s, start) {
        Some(i) => s.update(i, s[i].after_split()),
        None => s,
    }
}

/// How many channels among `s` have both handles free.
pub open spec fn free_count<Rq, Rp>(s: Seq<Channel<Rq, Rp>>) -> nat
    decreases s.len(),
{
    if s.len() == 0 {
        0nat
    } else {
        free_count(s.drop_last()) + if s.last().can_split() {
            1nat
        } else {
            0nat
        }
    }
}

/// A scan over positions that are all in use finds nothing.
pub proof fn lemma_first_free_in_none<Rq, Rp>(s: Seq<Channel<Rq, Rp>>, lo: int, hi: int)
    requires
        forall|j: int| lo <= j < hi ==> !(#[trigger] s[j]).can_split(),
    ensures
        first_free_in(s, lo, hi) is None,
    decreases hi - lo,
{
    if lo < hi {
        lemma_first_free_in_none(s, lo + 1, hi);
    }
}

/// A scan finds exactly the first free position: a free channel at `m`
/// behind a fully-in-use stretch from `lo` is the scan's result.
pub proof fn lemma_first_free_in_some<Rq, Rp>(s: Seq<Channel<Rq, Rp>>, lo: int, hi: int, m: int)
    requires
        lo <= m < hi,
        s[m].can_split(),
        forall|j: int| lo <= j < m ==> !(#[trigger] s[j]).can_split(),
    ensures
        first_free_in(s, lo, hi) == Some(m),
    decreases m - lo,
{
    if lo < m {
        lemma_first_free_in_some(s, lo + 1, hi, m);
    }
}

/// What a successful scan result means: the found position is in range and
/// free.
pub proof fn lemma_first_free_in_found<Rq, Rp>(s: Seq<Channel<Rq, Rp>>, lo: int, hi: int)
    requires
        first_free_in(s, lo, hi) is Some,
    ensures
        lo <= first_free_in(s, lo, hi)->0 < hi,
        s[first_free_in(s, lo, hi)->0].can_split(),
    decreases hi - lo,
{
    if lo < hi && !s[lo].can_split() {
        lemma_first_free_in_found(s, lo + 1, hi);
    }
}

/// The rotating scan succeeds exactly when some channel of the pool has
/// both handles free, and what it finds is in range and free.
pub proof fn lemma_rotation_first_free<Rq, Rp>(s: Seq<Channel<Rq, Rp>>, start: int)
    requires
        0 <= start <= s.len(),
    ensures
        rotation_first_free(s, start) matches Some(i) ==> 0 <= i < s.len() && s[i].can_split(),
        rotation_first_free(s, start) is None ==> forall|j: int|
            0 <= j < s.len() ==> !(#[trigger] s[j]).can_split(),
{
    if first_free_in(s, start, s.len() as int) is Some {
        lemma_first_free_in_found(s, start, s.len() as int);
    } else if first_free_in(s, 0, start) is Some {
        lemma_first_free_in_found(s, 0, start);
    } else {
        assert forall|j: int| 0 <= j < s.len() implies !(#[trigger] s[j]).can_split() by {
            if s[j].can_split() {
                if j >= start {
                    lemma_first_free_in_some_exists(s, start, s.len() as int, j);
                } else {
                    lemma_first_free_in_some_exists(s, 0, start, j);
                }
            }
        }
    }
}

/// A free channel inside the scanned range means the scan finds something.
pub proof fn lemma_first_free_in_some_exists<Rq, Rp>(
    s: Seq<Channel<Rq, Rp>>,
    lo: int,
    hi: int,
    m: int,
)
    requires
        lo <= m < hi,
        s[m].can_split(),
    ensures
        first_free_in(s, lo, hi) is Some,
    decreases m - lo,
{
    if lo < m && !s[lo].can_split() {
        lemma_first_free_in_some_exists(s, lo + 1, hi, m);
    }
}

impl<Rq, Rp> Interchange<Rq, Rp> {
    /// Every channel of the pool satisfies the slot/state invariant.
    pub open spec fn wf(self) -> bool {
        forall|i: int|
            0 <= i < self.channels@.len() ==> (#[trigger] self.channels@[i]).wf()
    }

    /// A pool as it leaves the constructor: every channel idle, empty and
    /// unclaimed, the cursor at zero.
    pub open spec fn fresh(self) -> bool {
        &&& forall|i: int|
            0 <= i < self.channels@.len() ==> (#[trigger] self.channels@[i]).fresh()
        &&& self.last_claimed == 0
    }

    /// Whether some channel of the pool has both handles free, so a claim
    /// can succeed.
    pub open spec fn can_claim(self) -> bool {
        exists|i: int|
            0 <= i < self.channels@.len() && (#[trigger] self.channels@[i]).can_split()
    }

    /// The cursor after one claim attempt: one more, wrapping around at the
    /// integer's end.
    pub open spec fn next_cursor(self) -> usize {
        if self.last_claimed == usize::MAX {
            0
        } else {
            (self.last_claimed + 1) as usize
        }
    }

    /// Where the next claim starts scanning.
    pub open spec fn scan_start(self) -> int
        recommends
            self.channels@.len() > 0,
    {
        self.last_claimed as int % self.channels@.len() as int
    }

    /// Create a pool of `n` idle, empty, unclaimed channels.
    pub fn new(n: usize) -> (r: Self)
        ensures
            r.channels@.len() == n,
            r.fresh(),
            r.wf(),
    {
        let mut channels: Vec<Channel<Rq, Rp>> = Vec::new();
        let mut k: usize = 0;
        while k < n
            invariant
                k <= n,
                channels@.len() == k,
                forall|i: int| 0 <= i < k ==> (#[trigger] channels@[i]).fresh(),
                forall|i: int| 0 <= i < k ==> (#[trigger] channels@[i]).wf(),
            decreases n - k,
        {
            channels.push(Channel::new());
            k = k + 1;
        }
        Self { channels, last_claimed: 0 }
    }

    /// The number of channels in the pool.
    pub fn capacity(&self) -> (r: usize)
        ensures
            r == self.channels@.len(),
    {
        self.channels.len()
    }

    /// Borrow channel `i` of the pool, to drive an exchange on it or to
    /// release its handles.
    pub fn channel_mut(&mut self, i: usize) -> (r: &mut Channel<Rq, Rp>)
        requires
            i < old(self).channels@.len(),
        ensures
            *r == old(self).channels@[i as int],
            final(self).channels@ == old(self).channels@.update(i as int, *final(r)),
            final(self).last_claimed == old(self).last_claimed,
    {
        &mut self.channels[i]
    }

    /// Borrow channel `i` of the pool read-only.
    pub fn channel(&self, i: usize) -> (r: &Channel<Rq, Rp>)
        requires
            i < self.channels@.len(),
        ensures
            *r == self.channels@[i as int],
    {
        &self.channels[i]
    }

    /// Claim one channel of the pool: both its handles, together with its
    /// position, to address the channel through.
    ///
    /// The scan starts where the cursor points and wraps around once, so
    /// successive claims spread over the pool; it takes the first channel
    /// whose two handles are both free, or returns nothing if all channels
    /// are in use.
    pub fn claim(&mut self) -> (r: Option<(usize, Requester, Responder)>)
        ensures
            final(self).last_claimed == old(self).next_cursor(),
            final(self).channels@.len() == old(self).channels@.len(),
            old(self).channels@.len() == 0 ==> r is None && final(self).channels@ == old(
                self,
            ).channels@,
            old(self).channels@.len() > 0 ==> final(self).channels@ == seq_after_claim(
                old(self).channels@,
                old(self).scan_start(),
            ),
            old(self).channels@.len() > 0 ==> (match rotation_first_free(
                old(self).channels@,
                old(self).scan_start(),
            ) {
                Some(i) => r matches Some(t) && t.0 == i,
                None => r is None,
            }),
            r is Some <==> old(self).can_claim(),
            old(self).wf() ==> final(self).wf(),
    {
        let ghost orig: Seq<Channel<Rq, Rp>> = self.channels@;
        let index = self.last_claimed;
        self.last_claimed = if index == usize::MAX {
            0
        } else {
            index + 1
        };
        let n = self.channels.len();
        if n == 0 {
            return None;
        }
        let start = index % n;

        let mut i = start;
        while i < n
            invariant
                start <= i <= n,
                orig == old(self).channels@,
                n == self.channels@.len(),
                start as int == old(self).scan_start(),
                self.channels@ == orig,
                self.last_claimed == old(self).next_cursor(),
                forall|j: int| start <= j < i ==> !(#[trigger] orig[j]).can_split(),
            decreases n - i,
        {
            let channel = &mut self.channels[i];
            let got = channel.split();
            if let Some((rq, rp)) = got {
                proof {
                    assert(self.channels@ =~= orig.update(
                        i as int,
                        orig[i as int].after_split(),
                    ));
                    lemma_first_free_in_some(orig, start as int, n as int, i as int);
                }
                return Some((i, rq, rp));
            }
            proof {
                assert(self.channels@ =~= orig);
            }
            i = i + 1;
        }

        proof {
            lemma_first_free_in_none(orig, start as int, n as int);
        }

        let mut i: usize = 0;
        while i < start
            invariant
                i <= start,
                start < n,
                orig == old(self).channels@,
                n == self.channels@.len(),
                start as int == old(self).scan_start(),
                self.channels@ == orig,
                self.last_claimed == old(self).next_cursor(),
                first_free_in(orig, start as int, n as int) is None,
                forall|j: int| 0 <= j < i ==> !(#[trigger] orig[j]).can_split(),
            decreases start - i,
        {
            let channel = &mut self.channels[i];
            let got = channel.split();
            if let Some((rq, rp)) = got {
                proof {
                    assert(self.channels@ =~= orig.update(
                        i as int,
                        orig[i as int].after_split(),
                    ));
                    lemma_first_free_in_some(orig, 0, start as int, i as int);
                }
                return Some((i, rq, rp));
            }
            proof {
                assert(self.channels@ =~= orig);
            }
            i = i + 1;
        }

        proof {
            lemma_first_free_in_none(orig, 0, start as int);
            lemma_rotation_first_free(orig, start as int);
        }
        None
    }
}

} // verus!
