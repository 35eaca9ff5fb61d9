//! The per-pass scheduling algorithm: deciding which sites are due for a
//! check, advancing each site's countdown, and producing the complete
//! replacement list that one pass commits.

use vstd::prelude::*;

use crate::website::CheckOutcome;
use crate::website::Status;
use crate::website::Website;
use crate::website::apply_outcome_spec;
use crate::website::outcome_is_success;

verus! {

/// The number of passes between two checks of a site: its configured
/// interval, or 60 when none is configured.
pub open spec fn effective_interval_spec(w: Website) -> u32 {
    match w.update_interval {
        Some(i) => i,
        None => 60,
    }
}

/// A site's check runs within the pass that is handling it when the site
/// has never been scheduled, when its countdown already stood at zero, or
/// when the pass's own decrement brings the countdown to zero.
pub open spec fn is_due_spec(w: Website) -> bool {
    ||| w.next_update is None
    ||| w.next_update == Some(0u32)
    ||| w.next_update == Some(1u32)
}

/// The scheduling half of one pass over a site: the countdown is lowered
/// by one, and a due site — its countdown was absent, stood at zero, or
/// has just reached zero — leaves with the countdown reset to the
/// effective interval. No other field changes.
pub open spec fn tick_next_spec(w: Website) -> Website {
    match w.next_update {
        Some(n) => if n <= 1 {
            Website { next_update: Some(effective_interval_spec(w)), ..w }
        } else {
            Website { next_update: Some((n - 1) as u32), ..w }
        },
        None => Website { next_update: Some(effective_interval_spec(w)), ..w },
    }
}

/// One full pass over a single site: the countdown advances, and if the
/// site was due, the outcome of its check, taken at time `now`, is
/// recorded on top.
pub open spec fn pass_step_spec(w: Website, o: CheckOutcome, now: i64) -> Website {
    if is_due_spec(w) {
        apply_outcome_spec(tick_next_spec(w), o, now)
    } else {
        tick_next_spec(w)
    }
}

impl Website {
    /// The number of passes between two checks of this site.
    pub fn effective_interval(&self) -> (r: u32)
        ensures
            r == effective_interval_spec(*self),
    {
        match self.update_interval {
            Some(i) => i,
            None => 60,
        }
    }

    /// Whether this site's check runs within the pass that is about to
    /// handle it.
    pub fn is_due(&self) -> (r: bool)
        ensures
            r == is_due_spec(*self),
    {
        match self.next_update {
            Some(n) => n <= 1,
            None => true,
        }
    }

    /// Advance this site's countdown by one pass, returning whether its
    /// check runs within this same pass. A due site — never scheduled,
    /// countdown at zero, or countdown just reaching zero — leaves with
    /// the countdown reset to the effective interval.
    pub fn tick(&mut self) -> (due: bool)
        ensures
            *final(self) == tick_next_spec(*old(self)),
            due == is_due_spec(*old(self)),
    {
        match self.next_update {
            Some(n) => {
                if n <= 1 {
                    let i = self.effective_interval();
                    self.next_update = Some(i);
                    true
                } else {
                    self.next_update = Some(n - 1);
                    false
                }
            }
            None => {
                let i = self.effective_interval();
                self.next_update = Some(i);
                true
            }
        }
    }
}

/// One full scheduling pass: every site's countdown advances by one, the
/// sites that were due have the outcome of their check recorded at time
/// `now`, and the whole updated list is returned as one complete
/// replacement for the old one. `outcomes` holds one slot per site, in the
/// same order; the slots of sites that were not due are ignored.
pub fn updater(sites: Vec<Website>, outcomes: &Vec<CheckOutcome>, now: i64) -> (updated: Vec<
    Website,
>)
    requires
        sites@.len() == outcomes@.len(),
    ensures
        updated@.len() == sites@.len(),
        forall|i: int|
            0 <= i < sites@.len() ==> updated@[i] == pass_step_spec(sites@[i], outcomes@[i], now),
{
    let ghost orig: Seq<Website> = sites@;
    let n = sites.len();
    let mut remaining = sites;
    let mut updated: Vec<Website> = Vec::new();
    let mut idx: usize = 0;
    while idx < n
        invariant
            idx <= n,
            updated@.len() == idx,
            outcomes@.len() == n,
            orig.len() == n,
            remaining@ == orig.subrange(idx as int, n as int),
            forall|j: int|
                0 <= j < idx ==> updated@[j] == pass_step_spec(orig[j], outcomes@[j], now),
        decreases n - idx,
    {
        let mut w = remaining.remove(0);
        let due = w.tick();
        if due {
            w.apply_outcome(outcomes[idx], now);
        }
        updated.push(w);
        idx = idx + 1;
    }
    updated
}

/// The state of a site after `k` passes in which it was never due, so that
/// each pass only lowered its countdown.
pub open spec fn after_idle_passes(w: Website, k: nat) -> Website
    decreases k,
{
    if k == 0 {
        w
    } else {
        tick_next_spec(after_idle_passes(w, (k - 1) as nat))
    }
}

/// Countdown law: a site whose countdown stands at `n >= 1` is not due
/// for the next `n - 1` passes, each of which lowers the countdown by
/// one; the pass after them lowers it to zero, is thereby due, and runs
/// the check within that same pass.
pub proof fn lemma_countdown(w: Website, n: u32, k: nat)
    requires
        w.next_update == Some(n),
        n >= 1,
        k <= n - 1,
    ensures
        after_idle_passes(w, k).next_update == Some((n - k) as u32),
        k < n - 1 ==> !is_due_spec(after_idle_passes(w, k)),
        k == n - 1 ==> is_due_spec(after_idle_passes(w, k)),
    decreases k,
{
    if k > 0 {
        lemma_countdown(w, n, (k - 1) as nat);
    }
}

/// While a site is not due, one full pass is exactly one idle tick of its
/// countdown, whatever outcome its (unread) slot carries: no check is
/// recorded.
pub proof fn lemma_idle_pass(w: Website, o: CheckOutcome, now: i64)
    requires
        !is_due_spec(w),
    ensures
        pass_step_spec(w, o, now) == tick_next_spec(w),
{
}

/// A site that has never been scheduled is due on the very first pass it
/// participates in.
pub proof fn lemma_first_pass_due(w: Website)
    requires
        w.next_update is None,
    ensures
        is_due_spec(w),
{
}

/// Immediately after a pass that ran a check, the countdown stands at the
/// site's effective interval, so by `lemma_countdown` the next check comes
/// no sooner than that many passes later.
pub proof fn lemma_reschedule(w: Website, o: CheckOutcome, now: i64)
    requires
        is_due_spec(w),
    ensures
        pass_step_spec(w, o, now).next_update == Some(effective_interval_spec(w)),
{
}

/// Scheduling law: a site that a pass has just checked, leaving its
/// countdown at its effective interval `I >= 1`, is not due for the next
/// `I - 1` passes, and the `I`-th pass after the check finds the
/// countdown reaching zero and runs the next check: consecutive checks
/// are exactly `I` passes apart.
pub proof fn lemma_next_check_no_sooner(w: Website, o: CheckOutcome, now: i64, k: nat)
    requires
        is_due_spec(w),
        effective_interval_spec(w) >= 1,
        k <= effective_interval_spec(w) - 1,
    ensures
        k < effective_interval_spec(w) - 1 ==> !is_due_spec(
            after_idle_passes(pass_step_spec(w, o, now), k),
        ),
        k == effective_interval_spec(w) - 1 ==> is_due_spec(
            after_idle_passes(pass_step_spec(w, o, now), k),
        ),
{
    lemma_reschedule(w, o, now);
    lemma_countdown(pass_step_spec(w, o, now), effective_interval_spec(w), k);
}

/// Status law: a pass in which a site was due leaves its status `Up` if
/// and only if the check's outcome was a 2xx response; a pass in which it
/// was not due leaves the status untouched, so it still reflects the most
/// recent completed check.
pub proof fn lemma_status_reflects_outcome(w: Website, o: CheckOutcome, now: i64)
    ensures
        is_due_spec(w) ==> (pass_step_spec(w, o, now).status == Status::Up <==> outcome_is_success(
            o,
        )),
        !is_due_spec(w) ==> pass_step_spec(w, o, now).status == w.status,
{
}

/// `last_online` moves only on a successful check: a pass whose outcome
/// was a failure or a non-2xx response, or in which the site was not due,
/// leaves it untouched.
pub proof fn lemma_last_online_updates_only_on_success(w: Website, o: CheckOutcome, now: i64)
    ensures
        !(is_due_spec(w) && outcome_is_success(o)) ==> pass_step_spec(w, o, now).last_online
            == w.last_online,
{
}

/// As long as the clock reading handed to a pass is not older than the
/// recorded success time, `last_online` never decreases across a pass.
pub proof fn lemma_last_online_monotonic(w: Website, o: CheckOutcome, now: i64, prev: i64)
    requires
        w.last_online == Some(prev),
        now >= prev,
    ensures
        pass_step_spec(w, o, now).last_online matches Some(t) && t >= prev,
{
}

/// A site with no configured interval behaves exactly as one whose
/// interval is set to 60: it is due at the same passes, and a scheduling
/// step carries both to the same state apart from the interval field
/// itself.
pub proof fn lemma_default_interval(w: Website, w60: Website, o: CheckOutcome, now: i64)
    requires
        w.update_interval is None,
        w60 == (Website { update_interval: Some(60u32), ..w }),
    ensures
        is_due_spec(w60) == is_due_spec(w),
        pass_step_spec(w60, o, now) == (Website {
            update_interval: Some(60u32),
            ..pass_step_spec(w, o, now)
        }),
{
}

} // verus!
