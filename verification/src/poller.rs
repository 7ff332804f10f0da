//! The polling state of an active mining session: the latest snapshots and
//! the session timer.
//!
//! The caller owns the clock and the fetches. Once a second it calls `tick`;
//! whenever a fetch completes it records the result in that fetch's slot. A
//! failed fetch marks its own slot and nothing else, and the next result for
//! the slot replaces it.

use crate::async_result::{AsyncResult, FetchError};
use crate::metrics::{derive_metrics, metrics_match, supply_displayable, ToolbarMetrics};
use crate::snapshot::{same_hash, Proof, TokenSupply, Treasury};
use vstd::prelude::*;

verus! {

/// Seconds since the current mining epoch was first seen.
///
/// `epoch` is the hash of the proof snapshot that the timer counts for; it is
/// `None` until a snapshot has been seen.
#[derive(Clone, Copy, Debug, PartialEq, Eq)]
pub struct SessionTimer {
    pub seconds: u64,
    pub epoch: Option<[u8; 32]>,
}

impl SessionTimer {
    /// Whether the slot holds a snapshot of another epoch than the one that
    /// the timer counts for. A slot without a snapshot shows no new epoch.
    pub open spec fn sees_new_epoch(self, slot: AsyncResult<Proof>) -> bool {
        match slot {
            AsyncResult::Ready(p) => match self.epoch {
                Some(hash) => hash@ != p.hash@,
                None => true,
            },
            _ => false,
        }
    }

    /// The timer after one tick with the given proof slot: back at zero for a
    /// new epoch, one second further otherwise.
    pub open spec fn ticked(self, slot: AsyncResult<Proof>) -> SessionTimer {
        if self.sees_new_epoch(slot) {
            SessionTimer { seconds: 0, epoch: Some(slot->Ready_0.hash) }
        } else {
            SessionTimer { seconds: (self.seconds + 1) as u64, epoch: self.epoch }
        }
    }

    /// Whether a tick with this slot can be counted: a tick that resets
    /// always can, one that increments needs room for one more second.
    pub open spec fn can_tick(self, slot: AsyncResult<Proof>) -> bool {
        self.sees_new_epoch(slot) || self.seconds < u64::MAX
    }

    /// The timer after `n` ticks, the `k`-th of them with the slot `slots[k]`.
    pub open spec fn after_ticks(self, slots: Seq<AsyncResult<Proof>>, n: nat) -> SessionTimer
        decreases n,
    {
        if n == 0 {
            self
        } else {
            self.after_ticks(slots, (n - 1) as nat).ticked(slots[n - 1])
        }
    }

    /// A timer at zero that has seen no snapshot.
    pub fn new() -> (timer: Self)
        ensures
            timer == (SessionTimer { seconds: 0, epoch: None }),
    {
        SessionTimer { seconds: 0, epoch: None }
    }

    /// A timer at zero for the epoch of `snapshot`.
    pub fn started_with(snapshot: &Proof) -> (timer: Self)
        ensures
            timer == (SessionTimer { seconds: 0, epoch: Some(snapshot.hash) }),
    {
        SessionTimer { seconds: 0, epoch: Some(snapshot.hash) }
    }

    pub fn seconds(&self) -> (s: u64)
        ensures
            s == self.seconds,
    {
        self.seconds
    }

    /// Whether `slot` holds a snapshot of a new epoch.
    pub fn observes_new_epoch(&self, slot: &AsyncResult<Proof>) -> (new_epoch: bool)
        ensures
            new_epoch == self.sees_new_epoch(*slot),
    {
        match slot {
            AsyncResult::Ready(p) => match &self.epoch {
                Some(hash) => !same_hash(hash, &p.hash),
                None => true,
            },
            _ => false,
        }
    }

    /// Counts one tick. The reset for a new epoch takes the place of the
    /// tick's increment, so the two never meet in one tick.
    pub fn tick(&mut self, slot: &AsyncResult<Proof>)
        requires
            old(self).can_tick(*slot),
        ensures
            *final(self) == old(self).ticked(*slot),
    {
        match slot {
            AsyncResult::Ready(p) => {
                if self.observes_new_epoch(slot) {
                    self.seconds = 0;
                    self.epoch = Some(p.hash);
                } else {
                    self.seconds = self.seconds + 1;
                }
            },
            _ => {
                self.seconds = self.seconds + 1;
            },
        }
    }
}

/// The snapshots that the poller keeps fresh, and the session timer.
#[derive(Clone, Debug, PartialEq, Eq)]
pub struct MiningPoller {
    pub treasury: AsyncResult<Treasury>,
    pub proof_slot: AsyncResult<Proof>,
    pub supply: AsyncResult<TokenSupply>,
    pub timer: SessionTimer,
}

impl MiningPoller {
    /// The poller before anything was fetched.
    pub open spec fn idle() -> MiningPoller {
        MiningPoller {
            treasury: AsyncResult::Loading,
            proof_slot: AsyncResult::Loading,
            supply: AsyncResult::Loading,
            timer: SessionTimer { seconds: 0, epoch: None },
        }
    }

    /// The poller of a session that starts from `snapshot`.
    pub open spec fn starting_from(snapshot: Proof) -> MiningPoller {
        MiningPoller {
            treasury: AsyncResult::Loading,
            proof_slot: AsyncResult::Ready(snapshot),
            supply: AsyncResult::Loading,
            timer: SessionTimer { seconds: 0, epoch: Some(snapshot.hash) },
        }
    }

    pub open spec fn can_tick(self) -> bool {
        self.timer.can_tick(self.proof_slot)
    }

    /// The poller after one tick: only the timer moves.
    pub open spec fn ticked(self) -> MiningPoller {
        MiningPoller { timer: self.timer.ticked(self.proof_slot), ..self }
    }

    pub fn new() -> (poller: Self)
        ensures
            poller == Self::idle(),
    {
        MiningPoller {
            treasury: AsyncResult::Loading,
            proof_slot: AsyncResult::Loading,
            supply: AsyncResult::Loading,
            timer: SessionTimer::new(),
        }
    }

    pub fn start(snapshot: Proof) -> (poller: Self)
        ensures
            poller == Self::starting_from(snapshot),
    {
        MiningPoller {
            treasury: AsyncResult::Loading,
            proof_slot: AsyncResult::Ready(snapshot),
            supply: AsyncResult::Loading,
            timer: SessionTimer::started_with(&snapshot),
        }
    }

    /// Records the result of a treasury fetch in the treasury's slot.
    pub fn record_treasury(&mut self, fetched: Result<Treasury, FetchError>)
        ensures
            *final(self) == (MiningPoller {
                treasury: AsyncResult::of_fetch(fetched),
                ..*old(self)
            }),
    {
        self.treasury = AsyncResult::from_fetch(fetched);
    }

    /// Records the result of a proof fetch in the proof's slot. The timer
    /// takes note of it at the next tick.
    pub fn record_proof(&mut self, fetched: Result<Proof, FetchError>)
        ensures
            *final(self) == (MiningPoller {
                proof_slot: AsyncResult::of_fetch(fetched),
                ..*old(self)
            }),
    {
        self.proof_slot = AsyncResult::from_fetch(fetched);
    }

    /// Records the result of a supply fetch in the supply's slot.
    pub fn record_supply(&mut self, fetched: Result<TokenSupply, FetchError>)
        ensures
            *final(self) == (MiningPoller {
                supply: AsyncResult::of_fetch(fetched),
                ..*old(self)
            }),
    {
        self.supply = AsyncResult::from_fetch(fetched);
    }

    /// Counts one tick of the session timer against the current proof slot.
    pub fn tick(&mut self)
        requires
            old(self).can_tick(),
        ensures
            *final(self) == old(self).ticked(),
    {
        let slot = self.proof_slot;
        self.timer.tick(&slot);
    }

    /// What the toolbar shows of the current snapshots.
    pub fn metrics(&self) -> (metrics: ToolbarMetrics)
        requires
            supply_displayable(self.supply),
        ensures
            metrics_match(metrics, self.treasury, self.proof_slot, self.supply),
    {
        derive_metrics(&self.treasury, &self.proof_slot, &self.supply)
    }

    pub fn elapsed_seconds(&self) -> (s: u64)
        ensures
            s == self.timer.seconds,
    {
        self.timer.seconds()
    }
}

/// Whether the slot shows nothing but the epoch of `hash`: it holds a
/// snapshot with that hash, or no snapshot at all.
pub open spec fn within_epoch(hash: [u8; 32], slot: AsyncResult<Proof>) -> bool {
    slot matches AsyncResult::Ready(p) ==> p.hash@ == hash@
}

/// A snapshot with another hash than the one before it puts the timer back
/// to zero on the tick that first sees it.
pub proof fn law_new_epoch_resets_timer(timer: SessionTimer, previous: Proof, current: Proof)
    requires
        timer.epoch == Some(previous.hash),
        previous.hash@ != current.hash@,
    ensures
        timer.can_tick(AsyncResult::Ready(current)),
        timer.ticked(AsyncResult::Ready(current)) == (SessionTimer {
            seconds: 0,
            epoch: Some(current.hash),
        }),
{
}

/// The first snapshot that a timer sees puts it to zero as well.
pub proof fn law_first_snapshot_resets_timer(timer: SessionTimer, current: Proof)
    requires
        timer.epoch is None,
    ensures
        timer.ticked(AsyncResult::Ready(current)) == (SessionTimer {
            seconds: 0,
            epoch: Some(current.hash),
        }),
{
}

/// While the hash does not change, every tick adds one second: after `n` such
/// ticks the timer shows `n` seconds more, for the same epoch. A tick whose
/// slot holds no snapshot counts like one with an unchanged hash.
pub proof fn law_timer_counts_within_epoch(
    timer: SessionTimer,
    slots: Seq<AsyncResult<Proof>>,
    n: nat,
)
    requires
        timer.epoch is Some,
        n <= slots.len(),
        forall|k: int| 0 <= k < n ==> within_epoch(timer.epoch->0, #[trigger] slots[k]),
        timer.seconds + n <= u64::MAX,
    ensures
        timer.after_ticks(slots, n) == (SessionTimer {
            seconds: (timer.seconds + n) as u64,
            epoch: timer.epoch,
        }),
        forall|k: nat| k < n ==> timer.after_ticks(slots, k).can_tick(#[trigger] slots[k as int]),
    decreases n,
{
    if n > 0 {
        law_timer_counts_within_epoch(timer, slots, (n - 1) as nat);
        let before = timer.after_ticks(slots, (n - 1) as nat);
        assert(within_epoch(timer.epoch->0, slots[n - 1]));
        assert(!before.sees_new_epoch(slots[n - 1]));
        assert forall|k: nat| k < n implies timer.after_ticks(slots, k).can_tick(
            #[trigger] slots[k as int],
        ) by {
            if k < n - 1 {
            } else {
                assert(k == n - 1);
            }
        }
    }
}

/// From one change of the hash to the next: the tick that first sees the new
/// snapshot leaves the timer at zero, and after `n` further ticks with the
/// hash unchanged it shows `n` seconds.
pub proof fn law_timer_restarts_and_counts(
    timer: SessionTimer,
    previous: Proof,
    current: Proof,
    slots: Seq<AsyncResult<Proof>>,
    n: nat,
)
    requires
        timer.epoch == Some(previous.hash),
        previous.hash@ != current.hash@,
        n <= slots.len(),
        n <= u64::MAX,
        forall|k: int| 0 <= k < n ==> within_epoch(current.hash, #[trigger] slots[k]),
    ensures
        timer.ticked(AsyncResult::Ready(current)).seconds == 0,
        timer.ticked(AsyncResult::Ready(current)).after_ticks(slots, n).seconds == n,
        timer.ticked(AsyncResult::Ready(current)).after_ticks(slots, n).epoch == Some(
            current.hash,
        ),
{
    law_new_epoch_resets_timer(timer, previous, current);
    law_timer_counts_within_epoch(timer.ticked(AsyncResult::Ready(current)), slots, n);
}

} // verus!
