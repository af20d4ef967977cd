//! Download progress: the percentage shown while a package streams in, and
//! the rule that decides when a new value is worth announcing.

use vstd::prelude::*;
use vstd::arithmetic::div_mod::lemma_div_is_ordered;

verus! {

/// Highest value announced while the body is still arriving.
pub const STREAMING_CEILING: u32 = 98;

/// Announced once the whole body is on disk and unpacking is about to start.
pub const DOWNLOAD_COMPLETE: u32 = 99;

/// Announced once unpacking and every registration step have succeeded.
pub const INSTALL_COMPLETE: u32 = 100;

/// The percentage reached after `downloaded` bytes of a body announced as
/// `total` bytes long: the whole percent completed, never above the
/// streaming ceiling. A body of unknown or zero length stays at zero, so it
/// never gives rise to a signal.
pub open spec fn level(total: nat, downloaded: nat) -> nat {
    if total == 0 {
        0
    } else if downloaded * 100 / total > 98 {
        98
    } else {
        downloaded * 100 / total
    }
}

/// What is announced when the byte count moves from `before` to `after`:
/// the new level, and only if it differs from the level already shown.
pub open spec fn signal(total: nat, before: nat, after: nat) -> Option<nat> {
    if level(total, after) != level(total, before) {
        Some(level(total, after))
    } else {
        None
    }
}

/// Every value announced while chunks of the given lengths arrive one after
/// another, starting from a count of `start` bytes.
pub open spec fn signals(total: nat, start: nat, chunks: Seq<nat>) -> Seq<nat>
    decreases chunks.len(),
{
    if chunks.len() == 0 {
        Seq::empty()
    } else {
        let rest = signals(total, start + chunks[0], chunks.drop_first());
        match signal(total, start, start + chunks[0]) {
            Some(v) => seq![v] + rest,
            None => rest,
        }
    }
}

/// The level never exceeds the streaming ceiling.
pub proof fn lemma_level_bounded(total: nat, downloaded: nat)
    ensures
        level(total, downloaded) <= 98,
{
}

/// More bytes never lower the level.
pub proof fn lemma_level_monotonic(total: nat, a: nat, b: nat)
    requires
        a <= b,
    ensures
        level(total, a) <= level(total, b),
{
    if total > 0 {
        lemma_div_is_ordered((a * 100) as int, (b * 100) as int, total as int);
    }
}

/// A signal is always a step upwards: it lies strictly above the level shown
/// before and within the streaming ceiling.
pub proof fn lemma_signal_rises(total: nat, before: nat, after: nat)
    requires
        before <= after,
    ensures
        signal(total, before, after) matches Some(v) ==> level(total, before) < v <= 98,
{
    lemma_level_monotonic(total, before, after);
}

/// The values announced during streaming lie within `[0, 98]`, strictly
/// increase from one to the next (so none is repeated and none goes down),
/// and all lie above the level that was showing when streaming began.
pub proof fn lemma_signals_strictly_increase(total: nat, start: nat, chunks: Seq<nat>)
    ensures
        forall|i: int|
            0 <= i < signals(total, start, chunks).len() ==> level(total, start) < (
            #[trigger] signals(total, start, chunks)[i]) <= 98,
        forall|i: int, j: int|
            0 <= i < j < signals(total, start, chunks).len() ==> signals(total, start, chunks)[i]
                < signals(total, start, chunks)[j],
    decreases chunks.len(),
{
    if chunks.len() > 0 {
        let next = start + chunks[0];
        let rest = signals(total, next, chunks.drop_first());
        lemma_signals_strictly_increase(total, next, chunks.drop_first());
        lemma_level_monotonic(total, start, next);
        lemma_signal_rises(total, start, next);
        match signal(total, start, next) {
            Some(v) => {
                let all = signals(total, start, chunks);
                assert(all == seq![v] + rest);
                assert(all[0] == v);
                assert forall|i: int| 0 < i < all.len() implies all[i] == rest[i - 1] by {}
            },
            None => {},
        }
    }
}

/// A body of unknown or zero length gives rise to no signal at all, however
/// its chunks arrive.
pub proof fn lemma_unknown_length_is_silent(start: nat, chunks: Seq<nat>)
    ensures
        signals(0, start, chunks).len() == 0,
    decreases chunks.len(),
{
    if chunks.len() > 0 {
        lemma_unknown_length_is_silent(start + chunks[0], chunks.drop_first());
    }
}

/// The payload of a progress notification: a percentage from 0 to 100.
#[derive(Clone, Copy, Debug, PartialEq, Eq, Structural)]
pub struct InstallProgress {
    pub progress: u32,
}

/// Running account of a download: the announced length of the body, the
/// bytes stored so far and the level last shown to the user.
#[derive(Clone, Copy, Debug, PartialEq, Eq, Structural)]
pub struct ProgressTracker {
    pub total: u64,
    pub downloaded: u64,
    pub last: u32,
}

impl ProgressTracker {
    /// The level on record is the level of the bytes on record.
    pub open spec fn wf(self) -> bool {
        self.last as nat == level(self.total as nat, self.downloaded as nat)
    }

    /// The tracker at the start of a body of `content_length` bytes, or of
    /// unknown length: nothing stored, nothing shown.
    pub open spec fn fresh(content_length: Option<u64>) -> ProgressTracker {
        ProgressTracker {
            total: match content_length {
                Some(n) => n,
                None => 0,
            },
            downloaded: 0,
            last: 0,
        }
    }

    /// The tracker after a further chunk of `len` bytes was stored.
    pub open spec fn advanced(self, len: u64) -> ProgressTracker {
        ProgressTracker {
            total: self.total,
            downloaded: (self.downloaded + len) as u64,
            last: level(self.total as nat, (self.downloaded + len) as nat) as u32,
        }
    }

    /// The value to announce for a further chunk of `len` bytes, if any.
    pub open spec fn announcement(self, len: u64) -> Option<InstallProgress> {
        match signal(self.total as nat, self.downloaded as nat, (self.downloaded + len) as nat) {
            Some(v) => Some(InstallProgress { progress: v as u32 }),
            None => None,
        }
    }

    /// A tracker for a body of `content_length` bytes, or of unknown length.
    pub fn new(content_length: Option<u64>) -> (t: ProgressTracker)
        ensures
            t == ProgressTracker::fresh(content_length),
            t.wf(),
    {
        let total: u64 = match content_length {
            Some(n) => n,
            None => 0,
        };
        ProgressTracker { total, downloaded: 0, last: 0 }
    }

    /// Accounts for a stored chunk of `len` bytes and returns the value to
    /// announce, if the level moved: a value strictly above the one shown
    /// before and within the streaming ceiling.
    pub fn record(&mut self, len: u64) -> (announced: Option<InstallProgress>)
        requires
            old(self).wf(),
            old(self).downloaded + len <= u64::MAX,
        ensures
            final(self).wf(),
            *final(self) == old(self).advanced(len),
            announced == old(self).announcement(len),
            announced matches Some(shown) ==> old(self).last < shown.progress <= 98
                && shown.progress == final(self).last,
            announced.is_none() ==> final(self).last == old(self).last,
    {
        proof {
            lemma_level_monotonic(
                self.total as nat,
                self.downloaded as nat,
                (self.downloaded + len) as nat,
            );
        }
        self.downloaded = self.downloaded + len;
        let now: u32 = streaming_level(self.total, self.downloaded);
        if now != self.last {
            self.last = now;
            Some(InstallProgress { progress: now })
        } else {
            None
        }
    }
}

/// Computes the level for a byte count, in whole percent and without ever
/// dividing by a zero length.
pub fn streaming_level(total: u64, downloaded: u64) -> (percent: u32)
    ensures
        percent as nat == level(total as nat, downloaded as nat),
        percent <= STREAMING_CEILING,
{
    if total == 0 {
        0
    } else {
        let scaled: u128 = (downloaded as u128) * 100;
        let whole: u128 = scaled / (total as u128);
        if whole > 98 {
            98
        } else {
            whole as u32
        }
    }
}

} // verus!
