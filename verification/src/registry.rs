//! The in-memory registry of submitted report tasks.
//!
//! One record exists per successful submission. Before a submission round
//! appends its fresh records, every record older than seven days is
//! evicted; both happen in one registry update, so a reader never sees the
//! registry between the two halves.

use vstd::prelude::*;

verus! {

/// One submitted report-generation task. `create_day` is the day number
/// (as in `crate::dates`) of the submission round that created the record.
#[derive(Clone, Debug)]
pub struct TaskInfo {
    pub id: String,
    pub product_group_code: i32,
    pub data_start_date: String,
    pub data_end_date: String,
    pub status: String,
    pub create_day: i32,
}

impl TaskInfo {
    /// A copy whose fields equal the original's.
    pub fn duplicate(&self) -> (r: TaskInfo)
        ensures
            r == *self,
    {
        TaskInfo {
            id: self.id.clone(),
            product_group_code: self.product_group_code,
            data_start_date: self.data_start_date.clone(),
            data_end_date: self.data_end_date.clone(),
            status: self.status.clone(),
            create_day: self.create_day,
        }
    }
}

/// Whether a record is young enough to survive an update on `today`:
/// strictly less than seven days old.
pub open spec fn is_fresh(task: TaskInfo, today: int) -> bool {
    today - task.create_day < 7
}

/// The records that survive eviction, in their original order.
pub open spec fn retained(tasks: Seq<TaskInfo>, today: int) -> Seq<TaskInfo>
    decreases tasks.len(),
{
    if tasks.len() == 0 {
        Seq::<TaskInfo>::empty()
    } else if is_fresh(tasks.last(), today) {
        retained(tasks.drop_last(), today).push(tasks.last())
    } else {
        retained(tasks.drop_last(), today)
    }
}

/// Law: eviction keeps exactly the fresh records — everything it keeps is
/// under seven days old and was in the registry, and every record under
/// seven days old survives it.
pub proof fn lemma_eviction_keeps_exactly_the_fresh(tasks: Seq<TaskInfo>, today: int)
    ensures
        forall|j: int|
            0 <= j < retained(tasks, today).len() ==> is_fresh(
                #[trigger] retained(tasks, today)[j],
                today,
            ) && tasks.contains(retained(tasks, today)[j]),
        forall|i: int|
            0 <= i < tasks.len() && is_fresh(#[trigger] tasks[i], today) ==> retained(
                tasks,
                today,
            ).contains(tasks[i]),
    decreases tasks.len(),
{
    if tasks.len() > 0 {
        let prefix = tasks.drop_last();
        lemma_eviction_keeps_exactly_the_fresh(prefix, today);
        let r = retained(tasks, today);
        let rp = retained(prefix, today);
        assert forall|j: int| 0 <= j < r.len() implies is_fresh(#[trigger] r[j], today)
            && tasks.contains(r[j]) by {
            if is_fresh(tasks.last(), today) && j == r.len() - 1 {
                assert(r[j] == tasks.last());
                assert(tasks[tasks.len() - 1] == tasks.last());
            } else {
                assert(r[j] == rp[j]);
                let w = choose|w: int| 0 <= w < prefix.len() && prefix[w] == rp[j];
                assert(tasks[w] == rp[j]);
            }
        }
        assert forall|i: int| 0 <= i < tasks.len() && is_fresh(#[trigger] tasks[i], today)
            implies r.contains(tasks[i]) by {
            if i == tasks.len() - 1 {
                assert(r[r.len() - 1] == tasks[i]);
            } else {
                assert(rp.contains(prefix[i]));
                let w = choose|w: int| 0 <= w < rp.len() && rp[w] == prefix[i];
                assert(r[w] == tasks[i]);
            }
        }
    }
}

/// Law: after a submission round's registry update — eviction, then the
/// fresh batch — a record seven or more days old is gone, and a record
/// under seven days old is still there, whatever the rest of the registry
/// and the batch hold. The one proviso: the batch must not itself carry
/// the stale record back in.
pub proof fn lemma_round_evicts_stale_and_keeps_fresh(
    tasks: Seq<TaskInfo>,
    batch: Seq<TaskInfo>,
    today: int,
    stale: TaskInfo,
    fresh: TaskInfo,
)
    requires
        tasks.contains(stale),
        tasks.contains(fresh),
        today - stale.create_day >= 7,
        today - fresh.create_day < 7,
        !batch.contains(stale),
    ensures
        !(retained(tasks, today) + batch).contains(stale),
        (retained(tasks, today) + batch).contains(fresh),
{
    lemma_eviction_keeps_exactly_the_fresh(tasks, today);
    let r = retained(tasks, today);
    assert(r.contains(fresh));
    let w = choose|w: int| 0 <= w < r.len() && r[w] == fresh;
    assert((r + batch)[w] == fresh);
    assert forall|k: int| 0 <= k < (r + batch).len() implies (r + batch)[k] != stale by {
        if k < r.len() {
            assert((r + batch)[k] == r[k]);
            assert(is_fresh(r[k], today));
        } else {
            assert((r + batch)[k] == batch[k - r.len()]);
            if batch[k - r.len()] == stale {
                assert(batch.contains(stale));
            }
        }
    }
    if (r + batch).contains(stale) {
        let v = choose|v: int| 0 <= v < (r + batch).len() && (r + batch)[v] == stale;
        assert(false);
    }
}

/// The process-lifetime collection of submitted tasks.
pub struct TaskRegistry {
    pub tasks: Vec<TaskInfo>,
}

impl TaskRegistry {
    pub fn new() -> (r: TaskRegistry)
        ensures
            r.tasks@ == Seq::<TaskInfo>::empty(),
    {
        TaskRegistry { tasks: Vec::new() }
    }

    /// One atomic registry update for a submission round on `today`: every
    /// record seven or more days old is evicted, then the round's fresh
    /// records are appended, in order.
    pub fn update_round(&mut self, today: i32, new_tasks: Vec<TaskInfo>)
        ensures
            final(self).tasks@ == retained(old(self).tasks@, today as int) + new_tasks@,
    {
        let mut kept: Vec<TaskInfo> = Vec::new();
        let mut i: usize = 0;
        assert(self.tasks@.subrange(0, 0) =~= Seq::<TaskInfo>::empty());
        while i < self.tasks.len()
            invariant
                0 <= i <= self.tasks@.len(),
                self.tasks@ == old(self).tasks@,
                kept@ == retained(self.tasks@.subrange(0, i as int), today as int),
            decreases self.tasks@.len() - i,
        {
            let age_ok = (today as i64) - (self.tasks[i].create_day as i64) < 7;
            if age_ok {
                kept.push(self.tasks[i].duplicate());
            }
            proof {
                let pre = self.tasks@.subrange(0, i + 1);
                assert(pre.drop_last() =~= self.tasks@.subrange(0, i as int));
                assert(pre.last() == self.tasks@[i as int]);
            }
            i = i + 1;
        }
        assert(self.tasks@.subrange(0, self.tasks@.len() as int) =~= self.tasks@);
        let mut incoming = new_tasks;
        kept.append(&mut incoming);
        self.tasks = kept;
    }

    /// Copies of the current records, for a reader that polls them.
    pub fn snapshot(&self) -> (r: Vec<TaskInfo>)
        ensures
            r@ == self.tasks@,
    {
        let mut out: Vec<TaskInfo> = Vec::new();
        let mut i: usize = 0;
        while i < self.tasks.len()
            invariant
                0 <= i <= self.tasks@.len(),
                out@ == self.tasks@.subrange(0, i as int),
            decreases self.tasks@.len() - i,
        {
            out.push(self.tasks[i].duplicate());
            assert(out@ =~= self.tasks@.subrange(0, i + 1));
            i = i + 1;
        }
        assert(self.tasks@.subrange(0, self.tasks@.len() as int) =~= self.tasks@);
        out
    }
}

} // verus!
