//! Stopping in order: the cleanups that were registered run last first, and
//! the stop is clean where each of them succeeds in time.

use vstd::prelude::*;

verus! {

/// The time that the cleanups are given where nothing else is said, in
/// milliseconds.
pub const DEFAULT_SHUTDOWN_TIMEOUT_MS: u64 = 30000;

/// What a shutdown did: the cleanups that it ran, in the order in which it
/// ran them, and whether each of them succeeded.
#[derive(Debug)]
pub struct ShutdownReport {
    pub ran: Vec<usize>,
    pub clean: bool,
}

/// Keeps the cleanups to run when the program stops, and whether it was told
/// to stop. A cleanup is known by its number: the first one registered is 0.
#[derive(Debug)]
pub struct ShutdownHandler {
    timeout_ms: u64,
    cleanups: usize,
    shutdown_initiated: bool,
}

/// The numbers from `n - 1` down to 0.
pub open spec fn countdown(n: nat) -> Seq<usize> {
    Seq::new(n, |i: int| (n - 1 - i) as usize)
}

impl ShutdownHandler {
    /// The time that the cleanups are given, in milliseconds.
    pub closed spec fn spec_timeout_ms(&self) -> u64 {
        self.timeout_ms
    }

    /// The number of cleanups registered.
    pub closed spec fn registered(&self) -> nat {
        self.cleanups as nat
    }

    /// Whether the handler was told to stop.
    pub closed spec fn initiated(&self) -> bool {
        self.shutdown_initiated
    }

    /// A handler without cleanups that was not told to stop.
    pub fn new(timeout_ms: u64) -> (out: Self)
        ensures
            out.spec_timeout_ms() == timeout_ms,
            out.registered() == 0,
            !out.initiated(),
    {
        ShutdownHandler { timeout_ms, cleanups: 0, shutdown_initiated: false }
    }

    /// A handler that gives the cleanups thirty seconds.
    pub fn default() -> (out: Self)
        ensures
            out.spec_timeout_ms() == 30000,
            out.registered() == 0,
            !out.initiated(),
    {
        ShutdownHandler::new(DEFAULT_SHUTDOWN_TIMEOUT_MS)
    }

    /// The time that the cleanups are given, in milliseconds.
    pub fn timeout_ms(&self) -> (t: u64)
        ensures
            t == self.spec_timeout_ms(),
    {
        self.timeout_ms
    }

    /// Registers one more cleanup and gives its number, or `None` where no
    /// number is left.
    pub fn register_cleanup(&mut self) -> (id: Option<usize>)
        ensures
            final(self).spec_timeout_ms() == old(self).spec_timeout_ms(),
            final(self).initiated() == old(self).initiated(),
            match id {
                Some(n) => n == old(self).registered() && final(self).registered() == n + 1,
                None => old(self).registered() == usize::MAX && final(self).registered()
                    == old(self).registered(),
            },
    {
        if self.cleanups == usize::MAX {
            return None;
        }
        let id = self.cleanups;
        self.cleanups = self.cleanups + 1;
        Some(id)
    }

    /// Tells the handler to stop. Returns whether this call was the first to
    /// do so.
    pub fn initiate_shutdown(&mut self) -> (first: bool)
        ensures
            final(self).initiated(),
            first == !old(self).initiated(),
            final(self).registered() == old(self).registered(),
            final(self).spec_timeout_ms() == old(self).spec_timeout_ms(),
    {
        let first = !self.shutdown_initiated;
        self.shutdown_initiated = true;
        first
    }

    /// Whether the handler was told to stop.
    pub fn is_shutdown_initiated(&self) -> (r: bool)
        ensures
            r == self.initiated(),
    {
        self.shutdown_initiated
    }

    /// Runs the cleanups, the last one registered first: `run` is called once
    /// with the number of each and says whether that cleanup succeeded. A
    /// cleanup that fails does not keep the others from running.
    pub fn shutdown<F: FnMut(usize) -> bool>(&self, mut run: F) -> (report: ShutdownReport)
        requires
            forall|f: F, id: usize| call_requires(f, (id,)),
        ensures
            report.ran@ == countdown(self.registered()),
            report.clean ==> forall|i: int|
                0 <= i < report.ran@.len() ==> ran_clean::<F>(#[trigger] report.ran@[i]),
            !report.clean ==> exists|i: int|
                0 <= i < report.ran@.len() && ran_failing::<F>(#[trigger] report.ran@[i]),
    {
        let mut ran: Vec<usize> = Vec::new();
        let mut clean = true;
        let mut left: usize = self.cleanups;
        let ghost mut failed_at: int = 0;
        while left > 0
            invariant
                forall|f: F, id: usize| call_requires(f, (id,)),
                left <= self.cleanups,
                ran@.len() == self.cleanups - left,
                forall|i: int| 0 <= i < ran@.len() ==> #[trigger] ran@[i] == self.cleanups - 1 - i,
                clean ==> forall|i: int| 0 <= i < ran@.len() ==> ran_clean::<F>(#[trigger] ran@[i]),
                !clean ==> 0 <= failed_at < ran@.len() && ran_failing::<F>(ran@[failed_at]),
            decreases left,
        {
            left -= 1;
            let ghost called = run;
            let ok = run(left);
            assert(call_ensures(called, (left,), ok));
            let ghost before = ran@;
            ran.push(left);
            proof {
                if !ok && clean {
                    failed_at = before.len() as int;
                }
                assert forall|i: int| 0 <= i < ran@.len() && (clean && ok) implies ran_clean::<F>(
                    #[trigger] ran@[i],
                ) by {
                    if i < before.len() {
                        assert(ran@[i] == before[i]);
                    }
                }
                if !clean {
                    assert(ran@[failed_at] == before[failed_at]);
                }
            }
            if !ok {
                clean = false;
            }
        }
        assert(ran@ =~= countdown(self.registered()));
        let report = ShutdownReport { ran, clean };
        proof {
            if !clean {
                assert(0 <= failed_at < report.ran@.len() && ran_failing::<F>(report.ran@[failed_at]));
            }
        }
        report
    }

    /// Whether the stop was clean, given the report of the shutdown where it
    /// ended in time, and `None` where the time ran out first: clean is a
    /// shutdown that ended in time with every cleanup succeeding.
    pub fn conclude(report: Option<&ShutdownReport>) -> (clean: bool)
        ensures
            clean == (report matches Some(r) && r.clean),
    {
        match report {
            Some(r) => r.clean,
            None => false,
        }
    }
}

/// Whether a call of a cleanup runner of type `F` with `id` can report
/// success.
pub open spec fn ran_clean<F: FnMut(usize) -> bool>(id: usize) -> bool {
    exists|f: F| call_ensures(f, (id,), true)
}

/// Whether a call of a cleanup runner of type `F` with `id` can report
/// failure.
pub open spec fn ran_failing<F: FnMut(usize) -> bool>(id: usize) -> bool {
    exists|f: F| call_ensures(f, (id,), false)
}

} // verus!
