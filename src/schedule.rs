use vstd::prelude::*;

verus! {

/// One tranche of a vesting record: `amount` becomes releasable once the
/// clock has passed `release_time`. A released tranche keeps its place with
/// its amount set to zero.
#[derive(Clone, Copy, Debug, PartialEq, Eq, Structural)]
pub struct Schedule {
    pub release_time: u64,
    pub amount: u64,
}

impl Schedule {
    /// Bytes that one schedule takes in the stored record.
    #[allow(non_snake_case)]
    pub fn LEN() -> (r: usize)
        ensures
            r == 16,
    {
        8 + 8
    }
}

/// The clock has passed the schedule's release time (strictly).
pub open spec fn is_due(s: Schedule, now: u64) -> bool {
    now > s.release_time
}

/// A schedule is eligible when it is due and still holds a balance.
pub open spec fn is_eligible(s: Schedule, now: u64) -> bool {
    is_due(s, now) && s.amount > 0
}

/// The sum of all amounts.
pub open spec fn total(s: Seq<Schedule>) -> nat
    decreases s.len(),
{
    if s.len() == 0 {
        0
    } else {
        total(s.drop_last()) + s.last().amount as nat
    }
}

/// The sum of the amounts of the due schedules.
pub open spec fn due_total(s: Seq<Schedule>, now: u64) -> nat
    decreases s.len(),
{
    if s.len() == 0 {
        0
    } else {
        due_total(s.drop_last(), now) + if is_due(s.last(), now) {
            s.last().amount as nat
        } else {
            0
        }
    }
}

/// The sum of the amounts of the schedules that are not yet due.
pub open spec fn locked_total(s: Seq<Schedule>, now: u64) -> nat
    decreases s.len(),
{
    if s.len() == 0 {
        0
    } else {
        locked_total(s.drop_last(), now) + if is_due(s.last(), now) {
            0
        } else {
            s.last().amount as nat
        }
    }
}

/// A schedule after a release at `now`: zeroed if due, untouched otherwise.
pub open spec fn settled(s: Schedule, now: u64) -> Schedule {
    if is_due(s, now) {
        Schedule { release_time: s.release_time, amount: 0 }
    } else {
        s
    }
}

/// The schedules after a release at `now`.
pub open spec fn after_release(s: Seq<Schedule>, now: u64) -> Seq<Schedule> {
    Seq::new(s.len(), |i: int| settled(s[i], now))
}

/// Every amount splits into the due part and the locked part.
pub proof fn lemma_total_splits(s: Seq<Schedule>, now: u64)
    ensures
        total(s) == due_total(s, now) + locked_total(s, now),
    decreases s.len(),
{
    if s.len() > 0 {
        lemma_total_splits(s.drop_last(), now);
    }
}

/// The due part of a prefix never exceeds the due part of a longer prefix.
pub proof fn lemma_due_prefix_monotonic(s: Seq<Schedule>, now: u64, i: int, j: int)
    requires
        0 <= i <= j <= s.len(),
    ensures
        due_total(s.take(i), now) <= due_total(s.take(j), now),
        locked_total(s.take(i), now) <= locked_total(s.take(j), now),
    decreases j - i,
{
    if i < j {
        lemma_due_prefix_monotonic(s, now, i, j - 1);
        assert(s.take(j).drop_last() =~= s.take(j - 1));
    }
}

/// After a release, nothing due is left and the total is the locked part.
pub proof fn lemma_after_release(s: Seq<Schedule>, now: u64)
    ensures
        due_total(after_release(s, now), now) == 0,
        locked_total(after_release(s, now), now) == locked_total(s, now),
        total(after_release(s, now)) == locked_total(s, now),
        after_release(after_release(s, now), now) == after_release(s, now),
    decreases s.len(),
{
    let r = after_release(s, now);
    if s.len() > 0 {
        lemma_after_release(s.drop_last(), now);
        assert(r.drop_last() =~= after_release(s.drop_last(), now));
    }
    lemma_total_splits(r, now);
    assert(after_release(r, now) =~= r);
}

/// The due part is positive exactly when some schedule is eligible.
pub proof fn lemma_due_positive_iff_eligible(s: Seq<Schedule>, now: u64)
    ensures
        due_total(s, now) > 0 <==> exists|j: int| 0 <= j < s.len() && is_eligible(#[trigger] s[j], now),
    decreases s.len(),
{
    if s.len() > 0 {
        let p = s.drop_last();
        lemma_due_positive_iff_eligible(p, now);
        if due_total(p, now) > 0 {
            let j = choose|j: int| 0 <= j < p.len() && is_eligible(#[trigger] p[j], now);
            assert(s[j] == p[j]);
        }
        if exists|j: int| 0 <= j < s.len() && is_eligible(#[trigger] s[j], now) {
            let j = choose|j: int| 0 <= j < s.len() && is_eligible(#[trigger] s[j], now);
            if j < p.len() {
                assert(p[j] == s[j]);
            }
        }
    }
}

/// Zeroes every due schedule and returns the sum that was released.
pub fn release_due(schedules: &mut Vec<Schedule>, now: u64) -> (released: u64)
    requires
        total(old(schedules)@) <= u64::MAX,
    ensures
        released == due_total(old(schedules)@, now),
        final(schedules)@ == after_release(old(schedules)@, now),
{
    let ghost s = schedules@;
    let mut released: u64 = 0;
    let mut i: usize = 0;
    proof {
        lemma_total_splits(s, now);
        lemma_due_prefix_monotonic(s, now, 0, s.len() as int);
        assert(s.take(s.len() as int) =~= s);
    }
    while i < schedules.len()
        invariant
            i <= s.len(),
            schedules@.len() == s.len(),
            released == due_total(s.take(i as int), now),
            due_total(s, now) <= u64::MAX,
            forall|j: int| 0 <= j < i ==> schedules@[j] == settled(s[j], now),
            forall|j: int| i <= j < s.len() ==> schedules@[j] == s[j],
        decreases s.len() - i,
    {
        let item = schedules[i];
        proof {
            assert(s.take(i + 1).drop_last() =~= s.take(i as int));
            lemma_due_prefix_monotonic(s, now, i + 1, s.len() as int);
            assert(s.take(s.len() as int) =~= s);
        }
        if now > item.release_time {
            released = released + item.amount;
            schedules.set(i, Schedule { release_time: item.release_time, amount: 0 });
        }
        i = i + 1;
    }
    proof {
        assert(s.take(s.len() as int) =~= s);
        assert(schedules@ =~= after_release(s, now));
    }
    released
}

/// Returns the due part and the locked part of the schedules' amounts.
pub fn tally(schedules: &Vec<Schedule>, now: u64) -> (r: (u64, u64))
    requires
        total(schedules@) <= u64::MAX,
    ensures
        r.0 == due_total(schedules@, now),
        r.1 == locked_total(schedules@, now),
{
    let ghost s = schedules@;
    let mut due: u64 = 0;
    let mut locked: u64 = 0;
    let mut i: usize = 0;
    proof {
        lemma_total_splits(s, now);
    }
    while i < schedules.len()
        invariant
            i <= s.len(),
            s == schedules@,
            due == due_total(s.take(i as int), now),
            locked == locked_total(s.take(i as int), now),
            due_total(s, now) + locked_total(s, now) <= u64::MAX,
        decreases s.len() - i,
    {
        let item = schedules[i];
        proof {
            assert(s.take(i + 1).drop_last() =~= s.take(i as int));
            lemma_due_prefix_monotonic(s, now, i + 1, s.len() as int);
            assert(s.take(s.len() as int) =~= s);
        }
        if now > item.release_time {
            due = due + item.amount;
        } else {
            locked = locked + item.amount;
        }
        i = i + 1;
    }
    proof {
        assert(s.take(s.len() as int) =~= s);
    }
    (due, locked)
}

} // verus!
