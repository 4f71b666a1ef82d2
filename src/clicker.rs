use crate::settings::{ClickType, Settings};
use vstd::prelude::*;

verus! {

#[derive(Clone, Copy, Debug, PartialEq, Eq, Structural)]
pub enum ClickerStatus {
    Clicking,
    Idle,
}

/// What the clicking thread does next, decided at the top of each turn of
/// its loop.
#[derive(Clone, Copy, Debug, PartialEq, Eq, Structural)]
pub enum WorkerStep {
    /// A stop was asked for: leave the loop.
    Exit,
    /// Press `click_type`, hold it `hold_ms`, release it, then wait `pause_ms`.
    Click { click_type: ClickType, hold_ms: u64, pause_ms: u64 },
}

/// The step that the worker takes for a stop flag and one snapshot of the
/// settings.
pub open spec fn step_spec(stop_requested: bool, snapshot: Settings) -> WorkerStep {
    if stop_requested {
        WorkerStep::Exit
    } else {
        WorkerStep::Click {
            click_type: snapshot.click_type,
            hold_ms: snapshot.click_duration_ms,
            pause_ms: snapshot.click_delay_ms,
        }
    }
}

/// Time that one turn of the worker's loop is scheduled to take.
pub open spec fn cycle_ms(s: Settings) -> int {
    s.click_duration_ms + s.click_delay_ms
}

/// Decides one turn of the worker's loop from the stop flag it polled and the
/// settings snapshot it took.
pub fn next_step(stop_requested: bool, snapshot: Settings) -> (r: WorkerStep)
    ensures
        r == step_spec(stop_requested, snapshot),
{
    if stop_requested {
        WorkerStep::Exit
    } else {
        WorkerStep::Click {
            click_type: snapshot.click_type,
            hold_ms: snapshot.click_duration_ms,
            pause_ms: snapshot.click_delay_ms,
        }
    }
}

/// The status after `start`, whatever it was before.
pub open spec fn started(st: ClickerStatus) -> ClickerStatus {
    ClickerStatus::Clicking
}

/// The status after `stop`, whatever it was before.
pub open spec fn stopped(st: ClickerStatus) -> ClickerStatus {
    ClickerStatus::Idle
}

/// The abstract state of a clicker: the worker record, if a worker runs, and
/// the settings that the next turn of the worker will read.
pub struct ClickerView<W> {
    pub worker: Option<W>,
    pub settings: Settings,
}

impl<W> ClickerView<W> {
    pub open spec fn status(self) -> ClickerStatus {
        if self.worker is Some {
            ClickerStatus::Clicking
        } else {
            ClickerStatus::Idle
        }
    }
}

/// The state of an auto-clicker. `W` is the record that the caller keeps of a
/// running worker (its stop channel and thread); the clicker is `Clicking`
/// exactly while it holds one.
pub struct Clicker<W> {
    worker: Option<W>,
    settings: Settings,
}

impl<W> View for Clicker<W> {
    type V = ClickerView<W>;

    closed spec fn view(&self) -> ClickerView<W> {
        ClickerView { worker: self.worker, settings: self.settings }
    }
}

impl<W> Clicker<W> {
    pub fn new(settings: Settings) -> (r: Self)
        ensures
            r@.worker is None,
            r@.status() == ClickerStatus::Idle,
            r@.settings == settings,
    {
        Clicker { worker: None, settings }
    }

    pub fn status(&self) -> (r: ClickerStatus)
        ensures
            r == self@.status(),
    {
        match self.worker {
            Some(_) => ClickerStatus::Clicking,
            None => ClickerStatus::Idle,
        }
    }

    /// A copy of the current settings, as the worker reads them at the top of
    /// each turn.
    pub fn settings(&self) -> (r: Settings)
        ensures
            r == self@.settings,
    {
        self.settings
    }

    /// Replaces the settings wholesale; a running worker picks them up on its
    /// next turn.
    pub fn set_settings(&mut self, settings: Settings)
        ensures
            final(self)@.settings == settings,
            final(self)@.worker == old(self)@.worker,
    {
        self.settings = settings;
    }

    /// Starts clicking. When idle, calls `spawn` once and keeps the worker
    /// record it returns; when already clicking, does nothing and does not
    /// call `spawn`. Returns whether a worker was spawned.
    pub fn start<F: FnOnce() -> W>(&mut self, spawn: F) -> (r: bool)
        requires
            spawn.requires(()),
        ensures
            r == (old(self)@.status() == ClickerStatus::Idle),
            final(self)@.status() == started(old(self)@.status()),
            final(self)@.settings == old(self)@.settings,
            !r ==> final(self)@.worker == old(self)@.worker,
            r ==> spawn.ensures((), final(self)@.worker->Some_0),
    {
        match self.worker {
            Some(_) => false,
            None => {
                let w = spawn();
                self.worker = Some(w);
                true
            },
        }
    }

    /// Stops clicking: hands back the worker record, which the caller signals
    /// and joins; `None` when already idle, which changes nothing.
    pub fn stop(&mut self) -> (r: Option<W>)
        ensures
            r == old(self)@.worker,
            final(self)@.worker is None,
            final(self)@.status() == stopped(old(self)@.status()),
            final(self)@.settings == old(self)@.settings,
    {
        self.worker.take()
    }
}

/// The status after `n` calls of `start` in a row.
pub open spec fn status_after_starts(st: ClickerStatus, n: nat) -> ClickerStatus
    decreases n,
{
    if n == 0 {
        st
    } else {
        started(status_after_starts(st, (n - 1) as nat))
    }
}

/// How many workers `n` calls of `start` in a row spawn: one for each call
/// made while idle.
pub open spec fn spawns_in_starts(st: ClickerStatus, n: nat) -> nat
    decreases n,
{
    if n == 0 {
        0
    } else {
        spawns_in_starts(st, (n - 1) as nat) + if status_after_starts(st, (n - 1) as nat)
            == ClickerStatus::Idle {
            1nat
        } else {
            0nat
        }
    }
}

/// Starting is idempotent: any run of one or more `start` calls leaves the
/// clicker `Clicking` and spawns exactly the workers that a single call would.
pub proof fn lemma_start_idempotent(st: ClickerStatus, n: nat)
    requires
        n >= 1,
    ensures
        status_after_starts(st, n) == status_after_starts(st, 1),
        status_after_starts(st, n) == ClickerStatus::Clicking,
        spawns_in_starts(st, n) == spawns_in_starts(st, 1),
    decreases n,
{
    if n > 1 {
        lemma_start_idempotent(st, (n - 1) as nat);
    }
}

/// Stopping an idle clicker changes nothing: it stays `Idle` and has no
/// worker to hand back.
pub proof fn lemma_stop_when_idle<W>(c: ClickerView<W>)
    requires
        c.status() == ClickerStatus::Idle,
    ensures
        stopped(c.status()) == ClickerStatus::Idle,
        c.worker is None,
{
}

/// The worker polls for a stop once per turn: a stop seen at the top of a
/// turn ends the loop, and a turn that starts without one is scheduled to
/// take exactly the hold time plus the pause of its snapshot.
pub proof fn lemma_stop_seen_within_one_cycle(s: Settings)
    ensures
        step_spec(true, s) == WorkerStep::Exit,
        step_spec(false, s) matches WorkerStep::Click { hold_ms, pause_ms, .. } && hold_ms
            + pause_ms == cycle_ms(s),
{
}

/// A click never mixes two settings: whichever snapshot a turn takes, before
/// or after a replacement, its button and hold time both come from it.
pub proof fn lemma_click_from_one_snapshot(before: Settings, after: Settings, snapshot: Settings)
    requires
        snapshot == before || snapshot == after,
    ensures
        step_spec(false, snapshot) matches WorkerStep::Click { click_type, hold_ms, .. } && ((
        click_type == before.click_type && hold_ms == before.click_duration_ms) || (click_type
            == after.click_type && hold_ms == after.click_duration_ms)),
{
}

} // verus!
