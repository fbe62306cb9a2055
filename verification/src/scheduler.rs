//! Tasks run on later ticks: once after a delay, or every few ticks.
use vstd::prelude::*;

verus! {

broadcast use vstd::seq::group_seq_axioms, vstd::seq_lib::group_seq_properties;

struct OnceTask<F> {
    run_at: u64,
    task: F,
}

struct RepeatingTask<F> {
    next: u64,
    period: u64,
    task: F,
}

/// Calls a scheduled task with the current tick.
fn run_task<F: FnMut(u64)>(task: &mut F, now: u64)
    requires
        call_requires(*old(task), (now,)),
    ensures
        call_ensures(*old(task), (now,), ()),
{
    task(now)
}

/// The one-shot run times still waiting after a tick at `now`, in order:
/// those later than `now`.
pub open spec fn pending_after(run_ats: Seq<u64>, now: u64) -> Seq<u64>
    decreases run_ats.len(),
{
    if run_ats.len() == 0 {
        Seq::empty()
    } else {
        let kept = pending_after(run_ats.drop_last(), now);
        if run_ats.last() > now {
            kept.push(run_ats.last())
        } else {
            kept
        }
    }
}

/// The one-shot tasks still waiting after a tick at `now`, in order: those
/// whose run time (in `run_ats`, alongside) is later than `now`.
pub open spec fn pending_tasks<F>(run_ats: Seq<u64>, tasks: Seq<F>, now: u64) -> Seq<F>
    decreases run_ats.len(),
{
    if run_ats.len() == 0 {
        Seq::empty()
    } else {
        let kept = pending_tasks(run_ats.drop_last(), tasks.drop_last(), now);
        if run_ats.last() > now {
            kept.push(tasks.last())
        } else {
            kept
        }
    }
}

/// A repeating task's (next, period) after a tick at `now`: a due task is
/// next due one period after `now`.
pub open spec fn repeat_after(entry: (u64, u64), now: u64) -> (u64, u64) {
    if now >= entry.0 {
        (now.saturating_add(entry.1), entry.1)
    } else {
        entry
    }
}

/// Runs tasks on ticks: one-shot tasks once their tick has come, repeating
/// tasks every `period` ticks.
pub struct Scheduler<F> {
    now: u64,
    once: Vec<OnceTask<F>>,
    repeating: Vec<RepeatingTask<F>>,
}

impl<F: FnMut(u64)> Scheduler<F> {
    /// The last tick the scheduler was told of.
    pub closed spec fn spec_now(&self) -> u64 {
        self.now
    }

    /// When each waiting one-shot task runs, in the order they were added.
    pub closed spec fn spec_once(&self) -> Seq<u64> {
        self.once@.map_values(|t: OnceTask<F>| t.run_at)
    }

    /// (next run, period) of each repeating task, in the order they were added.
    pub closed spec fn spec_repeating(&self) -> Seq<(u64, u64)> {
        self.repeating@.map_values(|t: RepeatingTask<F>| (t.next, t.period))
    }

    /// The waiting one-shot tasks themselves, alongside `spec_once`.
    pub closed spec fn spec_once_tasks(&self) -> Seq<F> {
        self.once@.map_values(|t: OnceTask<F>| t.task)
    }

    /// The repeating tasks themselves, alongside `spec_repeating`.
    pub closed spec fn spec_repeating_tasks(&self) -> Seq<F> {
        self.repeating@.map_values(|t: RepeatingTask<F>| t.task)
    }

    /// Every task due at `now` accepts being called with `now`.
    pub open spec fn due_tasks_callable(&self, now: u64) -> bool {
        &&& forall|i: int|
            0 <= i < self.spec_once().len() && self.spec_once()[i] <= now ==> call_requires(
                #[trigger] self.spec_once_tasks()[i],
                (now,),
            )
        &&& forall|k: int|
            0 <= k < self.spec_repeating().len() && now >= self.spec_repeating()[k].0 ==> call_requires(
                #[trigger] self.spec_repeating_tasks()[k],
                (now,),
            )
    }

    proof fn lemma_lens(&self)
        ensures
            self.spec_once().len() == self.spec_once_tasks().len() == self.once@.len(),
            self.spec_repeating().len() == self.spec_repeating_tasks().len() == self.repeating@.len(),
    {
    }

    /// Tick 0 and no tasks.
    #[must_use]
    pub fn new() -> (r: Self)
        ensures
            r.spec_now() == 0,
            r.spec_once() == Seq::<u64>::empty(),
            r.spec_repeating() == Seq::<(u64, u64)>::empty(),
            r.spec_once_tasks() == Seq::<F>::empty(),
            r.spec_repeating_tasks() == Seq::<F>::empty(),
    {
        let r = Scheduler { now: 0, once: Vec::new(), repeating: Vec::new() };
        assert(r.spec_once() =~= Seq::<u64>::empty());
        assert(r.spec_repeating() =~= Seq::<(u64, u64)>::empty());
        assert(r.spec_once_tasks() =~= Seq::<F>::empty());
        assert(r.spec_repeating_tasks() =~= Seq::<F>::empty());
        r
    }

    /// Runs `task` at the next tick.
    pub fn run_next_tick(&mut self, task: F)
        ensures
            final(self).spec_now() == old(self).spec_now(),
            final(self).spec_once() == old(self).spec_once().push(old(self).spec_now()),
            final(self).spec_repeating() == old(self).spec_repeating(),
            final(self).spec_once_tasks() == old(self).spec_once_tasks().push(task),
            final(self).spec_repeating_tasks() == old(self).spec_repeating_tasks(),
    {
        self.run_later(0, task);
    }

    /// Runs `task` once, `delay` ticks after the current one (at the last
    /// tick if that would overflow).
    pub fn run_later(&mut self, delay: u64, task: F)
        ensures
            final(self).spec_now() == old(self).spec_now(),
            final(self).spec_once() == old(self).spec_once().push(old(self).spec_now().saturating_add(delay)),
            final(self).spec_repeating() == old(self).spec_repeating(),
            final(self).spec_once_tasks() == old(self).spec_once_tasks().push(task),
            final(self).spec_repeating_tasks() == old(self).spec_repeating_tasks(),
    {
        let run_at = self.now.saturating_add(delay);
        let ghost t = task;
        self.once.push(OnceTask { run_at, task });
        assert(self.spec_once() =~= old(self).spec_once().push(run_at));
        assert(self.spec_once_tasks() =~= old(self).spec_once_tasks().push(t));
    }

    /// Runs `task` every `period` ticks, first `period` ticks from now.
    pub fn run_every(&mut self, period: u64, task: F)
        requires
            period > 0,
        ensures
            final(self).spec_now() == old(self).spec_now(),
            final(self).spec_once() == old(self).spec_once(),
            final(self).spec_repeating() == old(self).spec_repeating().push(
                (old(self).spec_now().saturating_add(period), period),
            ),
            final(self).spec_once_tasks() == old(self).spec_once_tasks(),
            final(self).spec_repeating_tasks() == old(self).spec_repeating_tasks().push(task),
    {
        let next = self.now.saturating_add(period);
        let ghost t = task;
        self.repeating.push(RepeatingTask { next, period, task });
        assert(self.spec_repeating() =~= old(self).spec_repeating().push((next, period)));
        assert(self.spec_repeating_tasks() =~= old(self).spec_repeating_tasks().push(t));
    }

    /// Runs, in the order they were added, every one-shot task whose tick
    /// has come (and drops it), then every repeating task that is due (and
    /// reschedules it a period after `now`). Each due task is called once,
    /// with `now`; the other tasks stay as they were.
    pub fn tick(&mut self, now: u64)
        requires
            old(self).due_tasks_callable(now),
        ensures
            final(self).spec_now() == now,
            final(self).spec_once() == pending_after(old(self).spec_once(), now),
            final(self).spec_once_tasks() == pending_tasks(old(self).spec_once(), old(self).spec_once_tasks(), now),
            forall|i: int|
                0 <= i < old(self).spec_once().len() && old(self).spec_once()[i] <= now ==> call_ensures(
                    #[trigger] old(self).spec_once_tasks()[i],
                    (now,),
                    (),
                ),
            final(self).spec_repeating() == old(self).spec_repeating().map_values(|e: (u64, u64)| repeat_after(e, now)),
            final(self).spec_repeating_tasks().len() == old(self).spec_repeating_tasks().len(),
            forall|k: int|
                0 <= k < old(self).spec_repeating().len() ==> if now >= old(self).spec_repeating()[k].0 {
                    call_ensures(#[trigger] old(self).spec_repeating_tasks()[k], (now,), ())
                } else {
                    final(self).spec_repeating_tasks()[k] == old(self).spec_repeating_tasks()[k]
                },
    {
        proof { old(self).lemma_lens(); }
        self.now = now;
        let ghost orig = old(self).spec_once();
        let ghost orig_fs = old(self).spec_once_tasks();
        let ghost orig_tasks = self.once@;
        let mut i: usize = 0;
        let ghost mut j: int = 0;
        while i < self.once.len()
            invariant
                self.now == now,
                self.repeating@ == old(self).repeating@,
                orig == orig_tasks.map_values(|t: OnceTask<F>| t.run_at),
                orig_fs == orig_tasks.map_values(|t: OnceTask<F>| t.task),
                forall|m: int|
                    0 <= m < orig.len() && orig[m] <= now ==> call_requires(#[trigger] orig_fs[m], (now,)),
                0 <= i <= j <= orig_tasks.len(),
                i <= self.once@.len(),
                self.once@.skip(i as int) == orig_tasks.skip(j),
                self.once@.take(i as int).map_values(|t: OnceTask<F>| t.run_at) == pending_after(orig.take(j), now),
                self.once@.take(i as int).map_values(|t: OnceTask<F>| t.task) == pending_tasks(
                    orig.take(j),
                    orig_fs.take(j),
                    now,
                ),
                forall|m: int| 0 <= m < j && orig[m] <= now ==> call_ensures(#[trigger] orig_fs[m], (now,), ()),
            decreases self.once@.len() - i,
        {
            proof {
                assert(self.once@.skip(i as int).len() == self.once@.len() - i);
                assert(j < orig_tasks.len());
                assert(self.once@.skip(i as int)[0] == self.once@[i as int]);
                assert(self.once@[i as int] == orig_tasks[j]);
                assert(orig.take(j + 1).drop_last() =~= orig.take(j));
                assert(orig_fs.take(j + 1).drop_last() =~= orig_fs.take(j));
                assert(orig[j] == orig_tasks[j].run_at);
                assert(orig_fs[j] == orig_tasks[j].task);
            }
            if self.once[i].run_at <= now {
                let ghost before = self.once@;
                let mut entry = self.once.remove(i);
                run_task(&mut entry.task, now);
                proof {
                    assert(self.once@.take(i as int) =~= before.take(i as int));
                    assert(self.once@.skip(i as int) =~= orig_tasks.skip(j + 1));
                    j = j + 1;
                }
            } else {
                proof {
                    assert(self.once@.take(i + 1).map_values(|t: OnceTask<F>| t.run_at)
                        =~= self.once@.take(i as int).map_values(|t: OnceTask<F>| t.run_at).push(orig[j]));
                    assert(self.once@.take(i + 1).map_values(|t: OnceTask<F>| t.task)
                        =~= self.once@.take(i as int).map_values(|t: OnceTask<F>| t.task).push(orig_fs[j]));
                    assert(self.once@.skip(i + 1) =~= orig_tasks.skip(j + 1));
                    j = j + 1;
                }
                i = i + 1;
            }
        }
        proof {
            assert(j == orig_tasks.len());
            assert(orig.take(j) =~= orig);
            assert(orig_fs.take(j) =~= orig_fs);
            assert(self.once@.take(i as int) =~= self.once@);
        }
        let ghost reps = old(self).spec_repeating();
        let ghost rep_fs = old(self).spec_repeating_tasks();
        let mut pending: Vec<RepeatingTask<F>> = Vec::new();
        std::mem::swap(&mut pending, &mut self.repeating);
        let ghost orig_reps = pending@;
        let ghost mut k: int = 0;
        while pending.len() > 0
            invariant
                self.now == now,
                0 <= k <= orig_reps.len(),
                reps == orig_reps.map_values(|t: RepeatingTask<F>| (t.next, t.period)),
                rep_fs == orig_reps.map_values(|t: RepeatingTask<F>| t.task),
                forall|m: int|
                    0 <= m < reps.len() && now >= reps[m].0 ==> call_requires(#[trigger] rep_fs[m], (now,)),
                pending@ == orig_reps.skip(k),
                self.repeating@.len() == k,
                self.repeating@.map_values(|t: RepeatingTask<F>| (t.next, t.period))
                    == reps.take(k).map_values(|e: (u64, u64)| repeat_after(e, now)),
                forall|m: int|
                    0 <= m < k ==> if now >= reps[m].0 {
                        call_ensures(#[trigger] rep_fs[m], (now,), ())
                    } else {
                        self.repeating@[m].task == rep_fs[m]
                    },
                self.once@.map_values(|t: OnceTask<F>| t.run_at) == pending_after(orig, now),
                self.once@.map_values(|t: OnceTask<F>| t.task) == pending_tasks(orig, orig_fs, now),
            decreases pending@.len(),
        {
            let mut entry = pending.remove(0);
            proof {
                assert(entry == orig_reps[k]);
                assert(pending@ =~= orig_reps.skip(k + 1));
                assert(reps[k] == (entry.next, entry.period));
                assert(rep_fs[k] == entry.task);
            }
            if now >= entry.next {
                run_task(&mut entry.task, now);
                entry.next = now.saturating_add(entry.period);
            }
            assert((entry.next, entry.period) == repeat_after(reps[k], now));
            let ghost before = self.repeating@;
            self.repeating.push(entry);
            proof {
                assert(self.repeating@.map_values(|t: RepeatingTask<F>| (t.next, t.period))
                    =~= before.map_values(|t: RepeatingTask<F>| (t.next, t.period)).push((entry.next, entry.period)));
                assert(reps.take(k + 1) =~= reps.take(k).push(reps[k]));
                assert(self.repeating@.map_values(|t: RepeatingTask<F>| (t.next, t.period))
                    =~= reps.take(k + 1).map_values(|e: (u64, u64)| repeat_after(e, now)));
                assert forall|m: int| 0 <= m < k + 1 implies if now >= reps[m].0 {
                    call_ensures(#[trigger] rep_fs[m], (now,), ())
                } else {
                    self.repeating@[m].task == rep_fs[m]
                } by {
                    if m < k {
                        assert(self.repeating@[m] == before[m]);
                    }
                }
                k = k + 1;
            }
        }
        proof {
            assert(k == orig_reps.len());
            assert(reps.take(k) =~= reps);
            self.lemma_lens();
        }
    }
}

impl<F: FnMut(u64)> Default for Scheduler<F> {
    fn default() -> (r: Self)
        ensures
            r.spec_now() == 0,
            r.spec_once() == Seq::<u64>::empty(),
            r.spec_repeating() == Seq::<(u64, u64)>::empty(),
    {
        Scheduler::new()
    }
}

} // verus!
