//! Buffers of claimed jobs, one for each task identifier.
//!
//! Jobs of one identifier leave in the order in which they came. The identifiers
//! take turns.

use std::collections::VecDeque;

use vstd::prelude::*;

use crate::job::Job;

verus! {

/// Jobs that wait in this process, by task identifier.
pub struct QueueBuffers<C> {
    pub queues: Vec<(String, VecDeque<Job<C>>)>,
    /// Index of the queue whose turn it is.
    pub next_queue: usize,
}

/// Number of jobs in some queues.
pub open spec fn job_count<C>(queues: Seq<(Seq<char>, Seq<Job<C>>)>) -> nat
    decreases queues.len(),
{
    if queues.len() == 0 {
        0
    } else {
        job_count(queues.drop_last()) + queues.last().1.len()
    }
}

/// The jobs of some queues, one queue after the other.
pub open spec fn all_jobs<C>(queues: Seq<(Seq<char>, Seq<Job<C>>)>) -> Seq<Job<C>>
    decreases queues.len(),
{
    if queues.len() == 0 {
        Seq::empty()
    } else {
        all_jobs(queues.drop_last()) + queues.last().1
    }
}

/// Whether no identifier has two queues.
pub open spec fn distinct_identifiers<C>(queues: Seq<(Seq<char>, Seq<Job<C>>)>) -> bool {
    forall|i: int, j: int|
        0 <= i < j < queues.len() ==> (#[trigger] queues[i]).0 != (#[trigger] queues[j]).0
}

/// Index of the queue of an identifier, or the number of queues if it has none.
pub open spec fn queue_of<C>(
    queues: Seq<(Seq<char>, Seq<Job<C>>)>,
    identifier: Seq<char>,
) -> int
    decreases queues.len(),
{
    if queues.len() == 0 {
        0
    } else {
        let before = queue_of(queues.drop_last(), identifier);
        if before < queues.len() - 1 {
            before
        } else if queues.last().0 == identifier {
            queues.len() - 1
        } else {
            queues.len() as int
        }
    }
}

/// Queues after jobs came in for an identifier: behind the jobs that are there, in
/// a queue of their own if the identifier has none yet.
pub open spec fn queues_pushed<C>(
    queues: Seq<(Seq<char>, Seq<Job<C>>)>,
    identifier: Seq<char>,
    jobs: Seq<Job<C>>,
) -> Seq<(Seq<char>, Seq<Job<C>>)> {
    let index = queue_of(queues, identifier);
    if jobs.len() == 0 {
        queues
    } else if index < queues.len() {
        queues.update(index, (identifier, queues[index].1 + jobs))
    } else {
        queues.push((identifier, jobs))
    }
}

/// How many empty queues come first when the queues are looked at in turn, from
/// `start + from` on. The number of queues if all of them are empty.
pub open spec fn empty_turns<C>(
    queues: Seq<(Seq<char>, Seq<Job<C>>)>,
    start: int,
    from: int,
) -> int
    decreases queues.len() - from,
{
    if from >= queues.len() {
        queues.len() as int
    } else if queues[(start + from) % (queues.len() as int)].1.len() > 0 {
        from
    } else {
        empty_turns(queues, start, from + 1)
    }
}

/// Index of the queue that gives the next job, if there is one: the first that is
/// not empty, beginning with the one whose turn it is.
pub open spec fn serving_queue<C>(
    queues: Seq<(Seq<char>, Seq<Job<C>>)>,
    next_queue: int,
) -> Option<int> {
    let count = queues.len() as int;
    if count == 0 {
        None
    } else {
        let turns = empty_turns(queues, next_queue % count, 0);
        if turns < count {
            Some((next_queue % count + turns) % count)
        } else {
            None
        }
    }
}

/// What a pop does. The serving queue gives its oldest job, and the turn goes to the
/// queue behind it. Without a serving queue no job is left, and all that may happen
/// is that the turn is counted from the first queue again.
pub open spec fn buffers_popped<C>(
    before: QueueBuffers<C>,
    job: Option<Job<C>>,
    after: QueueBuffers<C>,
) -> bool {
    let queues = before.contents();
    match serving_queue(queues, before.next_queue as int) {
        Some(index) => {
            &&& 0 <= index < queues.len()
            &&& queues[index].1.len() > 0
            &&& job == Some(queues[index].1[0])
            &&& after.contents() == queues.update(
                index,
                (queues[index].0, queues[index].1.skip(1)),
            )
            &&& after.next_queue == (index + 1) % queues.len() as int
            &&& job_count(after.contents()) == job_count(queues) - 1
        },
        None => {
            &&& job is None
            &&& after.contents() == queues
            &&& queues.len() > 0 ==> after.next_queue == before.next_queue as int
                % queues.len() as int
            &&& queues.len() == 0 ==> after.next_queue == before.next_queue
            &&& job_count(queues) == 0
        },
    }
}

/// Queues with every job taken out. The queues themselves stay.
pub open spec fn queues_drained<C>(
    queues: Seq<(Seq<char>, Seq<Job<C>>)>,
) -> Seq<(Seq<char>, Seq<Job<C>>)> {
    queues.map_values(|queue: (Seq<char>, Seq<Job<C>>)| (queue.0, Seq::<Job<C>>::empty()))
}

impl<C> QueueBuffers<C> {
    /// The queues: identifier and waiting jobs.
    pub open spec fn contents(self) -> Seq<(Seq<char>, Seq<Job<C>>)> {
        self.queues@.map_values(|queue: (String, VecDeque<Job<C>>)| (queue.0@, queue.1@))
    }

    /// Whether every identifier has one queue only.
    pub open spec fn wf(self) -> bool {
        distinct_identifiers(self.contents())
    }

    /// Creates empty buffers.
    pub fn new() -> (buffers: Self)
        ensures
            buffers.wf(),
            buffers.contents() == Seq::<(Seq<char>, Seq<Job<C>>)>::empty(),
            buffers.next_queue == 0,
            buffers.queues@.len() == 0,
    {
        let buffers = QueueBuffers { queues: Vec::new(), next_queue: 0 };
        assert(buffers.contents() =~= Seq::<(Seq<char>, Seq<Job<C>>)>::empty());
        buffers
    }

    /// Adds jobs under an identifier.
    pub fn push(&mut self, identifier: String, jobs: Vec<Job<C>>)
        requires
            old(self).wf(),
        ensures
            final(self).wf(),
            jobs@.len() == 0 ==> *final(self) == *old(self),
            jobs@.len() > 0 && (forall|k: int|
                0 <= k < old(self).queues@.len() ==> (#[trigger] old(self).queues@[k]).0@
                    != identifier@) ==> {
                &&& final(self).queues@.len() == old(self).queues@.len() + 1
                &&& final(self).queues@.last().0@ == identifier@
                &&& final(self).queues@.last().1@ == jobs@
            },
            forall|k: int|
                0 <= k < old(self).queues@.len() ==> k < final(self).queues@.len() && (
                #[trigger] final(self).queues@[k]).0@ == old(self).queues@[k].0@
                    && final(self).queues@[k].1@ == if old(self).queues@[k].0@ == identifier@ {
                    old(self).queues@[k].1@ + jobs@
                } else {
                    old(self).queues@[k].1@
                },
            (exists|k: int|
                0 <= k < old(self).queues@.len() && (#[trigger] old(self).queues@[k]).0@
                    == identifier@) ==> final(self).queues@.len() == old(self).queues@.len(),
            final(self).contents() == queues_pushed(old(self).contents(), identifier@, jobs@),
            final(self).next_queue == old(self).next_queue,
            job_count(final(self).contents()) == job_count(old(self).contents()) + jobs@.len(),
    {
        if jobs.len() == 0 {
            proof {
                assert forall|k: int| 0 <= k < self.queues@.len() implies (
                #[trigger] self.queues@[k]).1@ + jobs@ =~= self.queues@[k].1@ by {}
            }
            return;
        }
        let ghost contents = self.contents();
        let ghost given = jobs@;
        let count: usize = self.queues.len();
        let mut index: usize = 0;
        assert(contents.take(0) =~= Seq::<(Seq<char>, Seq<Job<C>>)>::empty());
        while index < count && self.queues[index].0 != identifier
            invariant
                count == self.queues@.len(),
                index <= count,
                *self == *old(self),
                contents == self.contents(),
                queue_of(contents.take(index as int), identifier@) == index,
            decreases count - index,
        {
            index += 1;
            assert(contents.take(index as int).drop_last() =~= contents.take(index - 1));
        }
        proof {
            lemma_queue_of_stays(contents, identifier@, index as int);
        }
        if index < count {
            for job in it: jobs
                invariant
                    it.seq() == given,
                    index < count == self.queues@.len(),
                    self.next_queue == old(self).next_queue,
                    self.queues@.len() == old(self).queues@.len(),
                    self.queues@[index as int].0 == old(self).queues@[index as int].0,
                    self.queues@[index as int].1@ == contents[index as int].1 + given.take(
                        it.index(),
                    ),
                    contents == old(self).contents(),
                    forall|k: int|
                        0 <= k < count && k != index ==> #[trigger] self.queues@[k] == old(
                            self,
                        ).queues@[k],
            {
                let ghost at = it.index();
                self.queues[index].1.push_back(job);
                assert(given.take(at + 1) =~= given.take(at).push(given[at]));
                assert(self.queues@[index as int].1@ =~= contents[index as int].1 + given.take(
                    at + 1,
                ));
            }
            assert(given.take(given.len() as int) =~= given);
            assert(self.contents() =~= queues_pushed(contents, identifier@, given));
            proof {
                law_push_adds_to_one_queue(contents, identifier@, given);
                assert forall|k: int| 0 <= k < count implies (#[trigger] self.queues@[k]).0@ == old(
                    self,
                ).queues@[k].0@ && self.queues@[k].1@ == if old(self).queues@[k].0@
                    == identifier@ {
                    old(self).queues@[k].1@ + given
                } else {
                    old(self).queues@[k].1@
                } by {
                    if k != index {
                        assert(contents[k].0 != contents[index as int].0);
                    }
                }
            }
        } else {
            let ghost name = identifier@;
            let mut queue: VecDeque<Job<C>> = VecDeque::new();
            for job in it: jobs
                invariant
                    it.seq() == given,
                    queue@ == given.take(it.index()),
            {
                let ghost at = it.index();
                queue.push_back(job);
                assert(given.take(at + 1) =~= given.take(at).push(given[at]));
            }
            assert(given.take(given.len() as int) =~= given);
            self.queues.push((identifier, queue));
            assert(self.contents() =~= queues_pushed(contents, name, given));
            proof {
                law_push_adds_to_one_queue(contents, name, given);
                lemma_queue_of_absent(contents, name);
                assert forall|k: int| 0 <= k < count implies (#[trigger] old(self).queues@[k]).0@
                    != name by {
                    assert(contents[k].0 != name);
                }
                assert forall|k: int| 0 <= k < count implies (#[trigger] self.queues@[k]).0@ == old(
                    self,
                ).queues@[k].0@ && old(self).queues@[k].0@ != name && self.queues@[k].1@ == old(
                    self,
                ).queues@[k].1@ by {
                    assert(contents[k].0 == old(self).queues@[k].0@);
                }
            }
        }
    }
}

impl<C> QueueBuffers<C> {
    /// Takes the next job. Queues that have jobs take turns; each gives its oldest.
    pub fn pop_round_robin(&mut self) -> (job: Option<Job<C>>)
        requires
            old(self).wf(),
        ensures
            final(self).wf(),
            buffers_popped(*old(self), job, *final(self)),
            final(self).queues@.len() == old(self).queues@.len(),
            job is None <==> forall|k: int|
                0 <= k < old(self).queues@.len() ==> (#[trigger] old(self).queues@[k]).1@.len()
                    == 0,
            job matches Some(popped) ==> exists|i: int|
                0 <= i < old(self).queues@.len() && (#[trigger] old(self).queues@[i]).1@.len() > 0
                    && popped == old(self).queues@[i].1@[0] && final(self).queues@[i].1@ == old(
                    self,
                ).queues@[i].1@.skip(1) && final(self).next_queue == (i + 1) % old(
                    self,
                ).queues@.len() as int && (forall|k: int|
                    0 <= k < old(self).queues@.len() && k != i ==> (
                    #[trigger] final(self).queues@[k]).1@ == old(self).queues@[k].1@)
                    && (forall|k: int|
                    0 <= k < old(self).queues@.len() && (k - old(self).next_queue) % (old(
                        self,
                    ).queues@.len() as int) < (i - old(self).next_queue) % (old(
                        self,
                    ).queues@.len() as int) ==> (#[trigger] old(self).queues@[k]).1@.len() == 0),
    {
        let ghost contents = self.contents();
        let count: usize = self.queues.len();
        if count == 0 {
            return None;
        }
        let ghost start = self.next_queue as int % count as int;
        proof {
            lemma_empty_turns_bounds(contents, start, 0);
            vstd::arithmetic::div_mod::lemma_mod_twice(self.next_queue as int, count as int);
        }
        let mut turn: usize = 0;
        while turn < count
            invariant
                turn <= count,
                count == self.queues@.len(),
                count > 0,
                count == contents.len(),
                contents == self.contents(),
                contents == old(self).contents(),
                old(self).wf(),
                start == old(self).next_queue as int % count as int,
                0 <= start < count,
                self.next_queue as int % count as int == (start + turn) % count as int,
                turn > 0 ==> self.next_queue < count,
                turn == 0 ==> self.next_queue == old(self).next_queue,
                empty_turns(contents, start, 0) == empty_turns(contents, start, turn as int),
            decreases count - turn,
        {
            let index: usize = self.next_queue % count;
            proof {
                vstd::arithmetic::div_mod::lemma_add_mod_noop(
                    start + turn,
                    1,
                    count as int,
                );
                vstd::arithmetic::div_mod::lemma_add_mod_noop(
                    self.next_queue as int,
                    1,
                    count as int,
                );
                vstd::arithmetic::div_mod::lemma_mod_twice(index + 1, count as int);
                vstd::arithmetic::div_mod::lemma_mod_twice(start + turn, count as int);
                vstd::arithmetic::div_mod::lemma_add_mod_noop(index as int, 1, count as int);
                assert((index + 1) % count as int == (start + turn + 1) % count as int);
                assert(contents[index as int] == (
                    self.queues@[index as int].0@,
                    self.queues@[index as int].1@,
                ));
            }
            self.next_queue = (index + 1) % count;
            let ghost queue = self.queues@[index as int];
            let front: Option<Job<C>> = self.queues[index].1.pop_front();
            if let Some(job) = front {
                proof {
                    assert(index == (start + turn) % count as int);
                    assert(empty_turns(contents, start, turn as int) == turn);
                    let taken = (queue.0@, queue.1@.skip(1));
                    assert(queue.1@.subrange(1, queue.1@.len() as int) =~= queue.1@.skip(1));
                    assert(self.contents() =~= contents.update(index as int, taken));
                    lemma_count_update(contents, index as int, taken);
                    lemma_earlier_queues_are_empty(
                        contents,
                        old(self).next_queue as int,
                        index as int,
                    );
                    assert(contents[index as int].1 == old(self).queues@[index as int].1@);
                    assert forall|k: int| 0 <= k < count && k != index implies (
                    #[trigger] self.queues@[k]).1@ == old(self).queues@[k].1@ by {
                        assert(self.contents()[k] == contents[k]);
                    }
                    assert forall|k: int|
                        0 <= k < count && (k - old(self).next_queue) % (count as int) < (index
                            - old(self).next_queue) % (count as int) implies (
                    #[trigger] old(self).queues@[k]).1@.len() == 0 by {
                        assert(contents[k].1.len() == 0);
                    }
                }
                return Some(job);
            }
            assert(self.contents() =~= contents);
            turn += 1;
        }
        proof {
            lemma_no_serving_queue(contents, start);
            lemma_count_is_zero_iff_empty(*old(self));
            vstd::arithmetic::div_mod::lemma_small_mod(self.next_queue as nat, count as nat);
            vstd::arithmetic::div_mod::lemma_mod_add_multiples_vanish(start, count as int);
            vstd::arithmetic::div_mod::lemma_small_mod(start as nat, count as nat);
        }
        None
    }

    /// Counts the waiting jobs.
    pub fn len(&self) -> (count: usize)
        requires
            job_count(self.contents()) <= usize::MAX,
        ensures
            count == job_count(self.contents()),
            count == all_jobs(self.contents()).len(),
            count == 0 <==> forall|k: int|
                0 <= k < self.queues@.len() ==> (#[trigger] self.queues@[k]).1@.len() == 0,
    {
        let ghost contents = self.contents();
        let mut count: usize = 0;
        let mut i: usize = 0;
        assert(contents.take(0) =~= Seq::<(Seq<char>, Seq<Job<C>>)>::empty());
        while i < self.queues.len()
            invariant
                i <= self.queues@.len(),
                contents == self.contents(),
                job_count(contents) <= usize::MAX,
                count == job_count(contents.take(i as int)),
            decreases self.queues@.len() - i,
        {
            proof {
                assert(contents.take(i + 1).drop_last() =~= contents.take(i as int));
                lemma_count_of_prefix(contents, i + 1);
                assert(contents[i as int].1 == self.queues@[i as int].1@);
            }
            count = count + self.queues[i].1.len();
            i += 1;
        }
        assert(contents.take(i as int) =~= contents);
        proof {
            law_every_job_is_counted(contents);
            lemma_count_is_zero_iff_empty(*self);
        }
        count
    }

    /// Takes all jobs out, one queue after the other.
    pub fn drain(&mut self) -> (jobs: Vec<Job<C>>)
        requires
            old(self).wf(),
            job_count(old(self).contents()) <= usize::MAX,
        ensures
            final(self).wf(),
            jobs@ == all_jobs(old(self).contents()),
            jobs@.len() == job_count(old(self).contents()),
            final(self).contents() == queues_drained(old(self).contents()),
            final(self).next_queue == old(self).next_queue,
            final(self).queues@.len() == old(self).queues@.len(),
            forall|k: int|
                0 <= k < final(self).queues@.len() ==> (#[trigger] final(self).queues@[k]).0@
                    == old(self).queues@[k].0@ && final(self).queues@[k].1@.len() == 0,
            job_count(final(self).contents()) == 0,
    {
        let ghost contents = self.contents();
        let ghost given = self.queues@;
        let count: usize = self.queues.len();
        let mut jobs: Vec<Job<C>> = Vec::with_capacity(self.len());
        let mut i: usize = 0;
        assert(contents.take(0) =~= Seq::<(Seq<char>, Seq<Job<C>>)>::empty());
        while i < count
            invariant
                i <= count,
                count == self.queues@.len(),
                count == given.len(),
                given == old(self).queues@,
                contents == old(self).contents(),
                self.next_queue == old(self).next_queue,
                jobs@ == all_jobs(contents.take(i as int)),
                forall|k: int| i <= k < count ==> #[trigger] self.queues@[k] == given[k],
                forall|k: int|
                    0 <= k < i ==> (#[trigger] self.queues@[k]).0 == given[k].0
                        && self.queues@[k].1@ == Seq::<Job<C>>::empty(),
            decreases count - i,
        {
            let ghost waiting = given[i as int].1@;
            let ghost before = jobs@;
            assert(waiting.skip(0) =~= waiting);
            assert(before + waiting.take(0) =~= before);
            let mut taken: VecDeque<Job<C>> = VecDeque::new();
            std::mem::swap(&mut taken, &mut self.queues[i].1);
            while taken.len() > 0
                invariant
                    taken@.len() <= waiting.len(),
                    taken@ == waiting.skip(waiting.len() - taken@.len()),
                    jobs@ == before + waiting.take(waiting.len() - taken@.len()),
                decreases taken@.len(),
            {
                let ghost gone = waiting.len() - taken@.len();
                if let Some(job) = taken.pop_front() {
                    jobs.push(job);
                    assert(taken@ =~= waiting.skip(gone + 1));
                    assert(waiting.take(gone + 1) =~= waiting.take(gone).push(waiting[gone]));
                    assert(jobs@ =~= before + waiting.take(gone + 1));
                }
            }
            assert(waiting.take(waiting.len() as int) =~= waiting);
            assert(contents.take(i + 1).drop_last() =~= contents.take(i as int));
            i += 1;
        }
        assert(contents.take(i as int) =~= contents);
        assert(self.contents() =~= queues_drained(contents));
        proof {
            lemma_all_jobs_len(contents);
            lemma_count_drained(contents);
            assert forall|a: int, b: int| 0 <= a < b < contents.len() implies (
            #[trigger] self.contents()[a]).0 != (#[trigger] self.contents()[b]).0 by {
                assert(contents[a].0 != contents[b].0);
            }
        }
        jobs
    }
}

/// Law: what the buffers hold is what their queues hold, queue by queue.
pub proof fn law_contents_are_the_queues<C>(buffers: QueueBuffers<C>, index: int)
    ensures
        buffers.contents().len() == buffers.queues@.len(),
        0 <= index < buffers.queues@.len() ==> buffers.contents()[index].0
            == buffers.queues@[index].0@ && buffers.contents()[index].1
            == buffers.queues@[index].1@,
        buffers.wf() <==> forall|i: int, j: int|
            0 <= i < j < buffers.contents().len() ==> (#[trigger] buffers.contents()[i]).0 != (
            #[trigger] buffers.contents()[j]).0,
{
}

/// Law: jobs are collected and counted one queue after the other, and none is left out.
pub proof fn law_jobs_go_queue_by_queue<C>(
    left: Seq<(Seq<char>, Seq<Job<C>>)>,
    right: Seq<(Seq<char>, Seq<Job<C>>)>,
)
    ensures
        all_jobs(left + right) == all_jobs(left) + all_jobs(right),
        job_count(left + right) == job_count(left) + job_count(right),
        left.len() == 1 ==> all_jobs(left) == left[0].1 && job_count(left) == left[0].1.len(),
    decreases right.len(),
{
    if right.len() == 0 {
        assert(left + right =~= left);
        assert(all_jobs(left) + all_jobs(right) =~= all_jobs(left));
    } else {
        law_jobs_go_queue_by_queue(left, right.drop_last());
        assert((left + right).drop_last() =~= left + right.drop_last());
        assert(all_jobs(left + right) =~= all_jobs(left) + all_jobs(right));
    }
    if left.len() == 1 {
        assert(left.drop_last() =~= Seq::<(Seq<char>, Seq<Job<C>>)>::empty());
        assert(all_jobs(left.drop_last()) =~= Seq::<Job<C>>::empty());
        assert(job_count(left.drop_last()) == 0);
        assert(all_jobs(left) =~= left[0].1);
    }
}

/// Law: the count of the jobs is the number of those that there are.
pub proof fn law_every_job_is_counted<C>(queues: Seq<(Seq<char>, Seq<Job<C>>)>)
    ensures
        job_count(queues) == all_jobs(queues).len(),
{
    lemma_all_jobs_len(queues);
}

/// Law: draining empties every queue and keeps every queue.
pub proof fn law_drained_queues_stay<C>(queues: Seq<(Seq<char>, Seq<Job<C>>)>, index: int)
    ensures
        queues_drained(queues).len() == queues.len(),
        0 <= index < queues.len() ==> queues_drained(queues)[index].0 == queues[index].0
            && queues_drained(queues)[index].1.len() == 0,
        all_jobs(queues_drained(queues)).len() == 0,
{
    lemma_count_drained(queues);
    lemma_all_jobs_len(queues_drained(queues));
}

/// Law: a pop serves the queue whose turn comes first among those that have jobs. It
/// gives the oldest job of that queue, leaves every other queue as it is, and passes the
/// turn to the queue behind it.
pub proof fn law_pop_serves_the_next_queue<C>(
    before: QueueBuffers<C>,
    job: Option<Job<C>>,
    after: QueueBuffers<C>,
    queue: int,
)
    requires
        buffers_popped(before, job, after),
        0 <= queue < before.contents().len(),
        before.contents()[queue].1.len() > 0,
        forall|k: int|
            0 <= k < before.contents().len() && turns_until(before, k) < turns_until(before, queue)
                ==> (#[trigger] before.contents()[k]).1.len() == 0,
    ensures
        job == Some(before.contents()[queue].1[0]),
        after.contents().len() == before.contents().len(),
        after.contents()[queue].0 == before.contents()[queue].0,
        after.contents()[queue].1 == before.contents()[queue].1.skip(1),
        forall|k: int|
            0 <= k < before.contents().len() && k != queue ==> #[trigger] after.contents()[k]
                == before.contents()[k],
        after.next_queue == (queue + 1) % before.contents().len() as int,
        turns_until(before, queue) == (queue - before.next_queue) % before.contents().len() as int,
{
    let queues = before.contents();
    let count = queues.len() as int;
    lemma_turn_comes_closer(queues, before.next_queue as int, queue);
    let served = serving_queue(queues, before.next_queue as int)->0;
    lemma_earlier_queues_are_empty(queues, before.next_queue as int, served);
    if served != queue {
        if turns_until(before, served) < turns_until(before, queue) {
            assert(queues[served].1.len() == 0);
        } else if turns_until(before, queue) < turns_until(before, served) {
            assert(queues[queue].1.len() == 0);
        } else {
            lemma_turn_names_its_queue(count, before.next_queue as int, served);
            lemma_turn_names_its_queue(count, before.next_queue as int, queue);
        }
    }
}

/// Different queues have different turns.
proof fn lemma_turn_names_its_queue(count: int, next_queue: int, queue: int)
    requires
        0 <= queue < count,
    ensures
        0 <= (queue - next_queue) % count < count,
        (next_queue % count + (queue - next_queue) % count) % count == queue,
{
    let start = next_queue % count;
    vstd::arithmetic::div_mod::lemma_mod_bound(queue - next_queue, count);
    vstd::arithmetic::div_mod::lemma_add_mod_noop(next_queue, queue - next_queue, count);
    vstd::arithmetic::div_mod::lemma_small_mod(queue as nat, count as nat);
}

/// Every queue whose turn comes before that of the serving one is empty.
proof fn lemma_earlier_queues_are_empty<C>(
    queues: Seq<(Seq<char>, Seq<Job<C>>)>,
    next_queue: int,
    served: int,
)
    requires
        next_queue >= 0,
        serving_queue(queues, next_queue) == Some(served),
    ensures
        0 <= served < queues.len(),
        queues[served].1.len() > 0,
        forall|k: int|
            0 <= k < queues.len() && (k - next_queue) % (queues.len() as int) < (served
                - next_queue) % (queues.len() as int) ==> (#[trigger] queues[k]).1.len() == 0,
{
    let count = queues.len() as int;
    let start = next_queue % count;
    vstd::arithmetic::div_mod::lemma_mod_bound(next_queue, count);
    lemma_empty_turns_bounds(queues, start, 0);
    let turns = empty_turns(queues, start, 0);
    vstd::arithmetic::div_mod::lemma_mod_bound(start + turns, count);
    assert((served - next_queue) % count == turns) by {
        vstd::arithmetic::div_mod::lemma_sub_mod_noop(served, next_queue, count);
        vstd::arithmetic::div_mod::lemma_sub_mod_noop(start + turns, start, count);
        vstd::arithmetic::div_mod::lemma_mod_twice(start + turns, count);
        vstd::arithmetic::div_mod::lemma_mod_twice(next_queue, count);
        vstd::arithmetic::div_mod::lemma_small_mod(turns as nat, count as nat);
    }
    assert forall|k: int|
        0 <= k < queues.len() && (k - next_queue) % count < (served - next_queue)
            % count implies (#[trigger] queues[k]).1.len() == 0 by {
        let turn = (k - next_queue) % count;
        lemma_turn_names_its_queue(count, next_queue, k);
        if queues[k].1.len() > 0 {
            lemma_empty_turns_reach(queues, start, 0, turn);
        }
    }
}

/// No job waits if and only if every queue is empty.
pub(crate) proof fn lemma_count_is_zero_iff_empty<C>(buffers: QueueBuffers<C>)
    ensures
        job_count(buffers.contents()) == 0 <==> forall|k: int|
            0 <= k < buffers.queues@.len() ==> (#[trigger] buffers.queues@[k]).1@.len() == 0,
{
    let contents = buffers.contents();
    if forall|k: int|
        0 <= k < buffers.queues@.len() ==> (#[trigger] buffers.queues@[k]).1@.len() == 0 {
        assert forall|k: int| 0 <= k < contents.len() implies (#[trigger] contents[k]).1.len()
            == 0 by {
            assert(buffers.queues@[k].1@.len() == 0);
        }
        lemma_count_of_empty(contents);
    } else {
        let k = choose|k: int|
            0 <= k < buffers.queues@.len() && (#[trigger] buffers.queues@[k]).1@.len() != 0;
        assert(contents.take(k + 1).drop_last() =~= contents.take(k));
        assert(contents.take(k + 1).last() == contents[k]);
        lemma_count_of_prefix(contents, k + 1);
    }
}

/// Law: no identifier waits for ever. While a queue has jobs, every pop gives a job,
/// and either it is the oldest of that queue or fewer turns are left until that queue
/// is served. With `n` queues no more than `n - 1` other jobs come first.
pub proof fn law_every_queue_gets_its_turn<C>(
    before: QueueBuffers<C>,
    job: Option<Job<C>>,
    after: QueueBuffers<C>,
    queue: int,
)
    requires
        buffers_popped(before, job, after),
        0 <= queue < before.contents().len(),
        before.contents()[queue].1.len() > 0,
    ensures
        job is Some,
        after.contents().len() == before.contents().len(),
        job == Some(before.contents()[queue].1[0]) && after.contents()[queue].1
            == before.contents()[queue].1.skip(1) || {
            &&& after.contents()[queue] == before.contents()[queue]
            &&& turns_until(after, queue) < turns_until(before, queue)
        },
        turns_until(before, queue) < before.contents().len(),
{
    let queues = before.contents();
    let count = queues.len() as int;
    lemma_turn_comes_closer(queues, before.next_queue as int, queue);
    let served = serving_queue(queues, before.next_queue as int)->0;
    vstd::arithmetic::div_mod::lemma_mod_bound(queue - before.next_queue, count);
    if served != queue {
        vstd::arithmetic::div_mod::lemma_sub_mod_noop(queue, served + 1, count);
        vstd::arithmetic::div_mod::lemma_sub_mod_noop(queue, (served + 1) % count, count);
        vstd::arithmetic::div_mod::lemma_mod_twice(served + 1, count);
    }
}

/// How many other queues come before this one, at most, until it is served.
pub open spec fn turns_until<C>(buffers: QueueBuffers<C>, queue: int) -> int {
    (queue - buffers.next_queue) % (buffers.contents().len() as int)
}

/// If the queue at `queue` has a job and another queue is served, then fewer turns
/// are left until `queue` gets its own.
proof fn lemma_turn_comes_closer<C>(
    queues: Seq<(Seq<char>, Seq<Job<C>>)>,
    next_queue: int,
    queue: int,
)
    requires
        0 <= queue < queues.len(),
        queues[queue].1.len() > 0,
        next_queue >= 0,
    ensures
        serving_queue(queues, next_queue) matches Some(served) && 0 <= served < queues.len() && (
        served != queue ==> (queue - (served + 1)) % (queues.len() as int) < (queue - next_queue)
            % (queues.len() as int)),
{
    let count = queues.len() as int;
    let start = next_queue % count;
    vstd::arithmetic::div_mod::lemma_mod_bound(next_queue, count);
    lemma_empty_turns_bounds(queues, start, 0);
    let turns = empty_turns(queues, start, 0);
    let distance = (queue - next_queue) % count;
    vstd::arithmetic::div_mod::lemma_mod_bound(queue - next_queue, count);
    vstd::arithmetic::div_mod::lemma_sub_mod_noop(queue, next_queue, count);
    vstd::arithmetic::div_mod::lemma_sub_mod_noop(queue, start, count);
    vstd::arithmetic::div_mod::lemma_mod_twice(next_queue, count);
    assert(distance == (queue - start) % count);
    assert((start + distance) % count == queue) by {
        vstd::arithmetic::div_mod::lemma_add_mod_noop(start, queue - start, count);
        vstd::arithmetic::div_mod::lemma_add_mod_noop(start, distance, count);
        vstd::arithmetic::div_mod::lemma_mod_twice(queue - start, count);
        vstd::arithmetic::div_mod::lemma_small_mod(queue as nat, count as nat);
    }
    lemma_empty_turns_reach(queues, start, 0, distance);
    let served = (start + turns) % count;
    vstd::arithmetic::div_mod::lemma_mod_bound(start + turns, count);
    if served != queue {
        assert(turns != distance);
        let left = distance - turns - 1;
        assert((queue - (served + 1)) % count == left) by {
            vstd::arithmetic::div_mod::lemma_add_mod_noop(start + turns, 1, count);
            vstd::arithmetic::div_mod::lemma_add_mod_noop(served, 1, count);
            vstd::arithmetic::div_mod::lemma_mod_twice(start + turns, count);
            vstd::arithmetic::div_mod::lemma_sub_mod_noop(queue, served + 1, count);
            vstd::arithmetic::div_mod::lemma_sub_mod_noop(queue, start + turns + 1, count);
            vstd::arithmetic::div_mod::lemma_sub_mod_noop(queue - start, turns + 1, count);
            vstd::arithmetic::div_mod::lemma_sub_mod_noop(distance, turns + 1, count);
            vstd::arithmetic::div_mod::lemma_mod_twice(queue - start, count);
            vstd::arithmetic::div_mod::lemma_small_mod(left as nat, count as nat);
        }
    }
}

/// Law: jobs of an identifier wait in the order in which they came in, and jobs of
/// the other identifiers are left alone.
pub proof fn law_push_is_first_in_first_out<C>(
    queues: Seq<(Seq<char>, Seq<Job<C>>)>,
    identifier: Seq<char>,
    jobs: Seq<Job<C>>,
    other: Seq<char>,
)
    ensures
        waiting_jobs(queues_pushed(queues, identifier, jobs), identifier) == waiting_jobs(
            queues,
            identifier,
        ) + jobs,
        other != identifier ==> waiting_jobs(queues_pushed(queues, identifier, jobs), other)
            == waiting_jobs(queues, other),
{
    let index = queue_of(queues, identifier);
    let after = queues_pushed(queues, identifier, jobs);
    lemma_queue_of_bounds(queues, identifier);
    if jobs.len() > 0 {
        if index < queues.len() {
            lemma_queue_of_found(queues, identifier);
            lemma_queue_of_same_names(queues, after, identifier);
            lemma_queue_of_same_names(queues, after, other);
            if other != identifier {
                lemma_queue_of_bounds(queues, other);
                lemma_queue_of_found(queues, other);
            }
        } else {
            assert(after.drop_last() =~= queues);
            lemma_queue_of_bounds(queues, other);
            if other != identifier && queue_of(queues, other) < queues.len() {
                lemma_queue_of_found(queues, other);
            }
            assert(waiting_jobs(after, identifier) =~= waiting_jobs(queues, identifier) + jobs);
        }
    } else {
        assert(waiting_jobs(queues, identifier) + jobs =~= waiting_jobs(queues, identifier));
    }
}

/// Law: a push touches one queue at most. Identifiers that have one queue each keep
/// that, and the count grows by the pushed jobs. Without jobs nothing changes. A known
/// identifier gets the jobs behind its own, and every other queue stays. A new one
/// gets a queue of its own behind all others.
pub proof fn law_push_adds_to_one_queue<C>(
    queues: Seq<(Seq<char>, Seq<Job<C>>)>,
    identifier: Seq<char>,
    jobs: Seq<Job<C>>,
)
    requires
        distinct_identifiers(queues),
    ensures
        distinct_identifiers(queues_pushed(queues, identifier, jobs)),
        job_count(queues_pushed(queues, identifier, jobs)) == job_count(queues) + jobs.len(),
        jobs.len() == 0 ==> queues_pushed(queues, identifier, jobs) == queues,
        forall|i: int|
            jobs.len() > 0 && 0 <= i < queues.len() && (#[trigger] queues[i]).0 == identifier
                ==> queues_pushed(queues, identifier, jobs) == queues.update(
                i,
                (identifier, queues[i].1 + jobs),
            ),
        jobs.len() > 0 && (forall|i: int|
            0 <= i < queues.len() ==> (#[trigger] queues[i]).0 != identifier) ==> queues_pushed(
            queues,
            identifier,
            jobs,
        ) == queues.push((identifier, jobs)),
{
    let index = queue_of(queues, identifier);
    let after = queues_pushed(queues, identifier, jobs);
    lemma_queue_of_bounds(queues, identifier);
    lemma_queue_of_found(queues, identifier);
    if jobs.len() > 0 {
        if index < queues.len() {
            lemma_count_update(queues, index, (identifier, queues[index].1 + jobs));
            assert forall|i: int, j: int| 0 <= i < j < after.len() implies (#[trigger] after[i]).0
                != (#[trigger] after[j]).0 by {
                assert(queues[i].0 != queues[j].0);
            }
            assert forall|i: int|
                0 <= i < queues.len() && (#[trigger] queues[i]).0 == identifier implies i
                == index by {
                if i < index {
                    assert(queues[i].0 != queues[index].0);
                } else if i > index {
                    assert(queues[index].0 != queues[i].0);
                }
            }
        } else {
            lemma_queue_of_absent(queues, identifier);
            assert(after.drop_last() =~= queues);
            assert forall|i: int, j: int| 0 <= i < j < after.len() implies (#[trigger] after[i]).0
                != (#[trigger] after[j]).0 by {
                assert(after[i] == queues[i]);
                if j < queues.len() {
                    assert(after[j] == queues[j]);
                }
            }
        }
    }
}

/// Law: pushing adds exactly the pushed jobs to those that wait.
pub proof fn law_push_keeps_every_job<C>(
    queues: Seq<(Seq<char>, Seq<Job<C>>)>,
    identifier: Seq<char>,
    jobs: Seq<Job<C>>,
)
    ensures
        all_jobs(queues_pushed(queues, identifier, jobs)).to_multiset() == all_jobs(
            queues,
        ).to_multiset().add(jobs.to_multiset()),
{
    let index = queue_of(queues, identifier);
    lemma_queue_of_bounds(queues, identifier);
    if jobs.len() == 0 {
        jobs.to_multiset_ensures();
        vstd::seq_lib::to_multiset_len(jobs);
        assert(all_jobs(queues) + jobs =~= all_jobs(queues));
        vstd::seq_lib::lemma_multiset_commutative(all_jobs(queues), jobs);
    } else if index < queues.len() {
        lemma_all_jobs_update(queues, index, (identifier, queues[index].1 + jobs));
        vstd::seq_lib::lemma_multiset_commutative(queues[index].1, jobs);
        let waiting = queues[index].1.to_multiset();
        let all = all_jobs(queues).to_multiset();
        let added = jobs.to_multiset();
        assert(all.add(waiting.add(added)) =~= all.add(added).add(waiting));
        lemma_multiset_cancel(
            all_jobs(queues_pushed(queues, identifier, jobs)).to_multiset(),
            all.add(added),
            waiting,
        );
    } else {
        assert(queues.push((identifier, jobs)).drop_last() =~= queues);
        vstd::seq_lib::lemma_multiset_commutative(all_jobs(queues), jobs);
    }
}

/// Law: popping takes exactly the popped job away from those that wait, and gives
/// none only if none waits.
pub proof fn law_pop_takes_one_job<C>(
    before: QueueBuffers<C>,
    job: Option<Job<C>>,
    after: QueueBuffers<C>,
)
    requires
        buffers_popped(before, job, after),
    ensures
        match job {
            Some(popped) => all_jobs(before.contents()).to_multiset() == all_jobs(
                after.contents(),
            ).to_multiset().insert(popped),
            None => all_jobs(before.contents()) == Seq::<Job<C>>::empty() && all_jobs(
                after.contents(),
            ) == Seq::<Job<C>>::empty(),
        },
{
    if job is Some {
        lemma_pop_of_queue(
            before.contents(),
            serving_queue(before.contents(), before.next_queue as int)->0,
        );
    } else {
        lemma_all_jobs_len(before.contents());
    }
}

/// Taking the first job of a queue takes just that job.
proof fn lemma_pop_of_queue<C>(queues: Seq<(Seq<char>, Seq<Job<C>>)>, index: int)
    requires
        0 <= index < queues.len(),
        queues[index].1.len() > 0,
    ensures
        all_jobs(queues).to_multiset() == all_jobs(
            queues.update(index, (queues[index].0, queues[index].1.skip(1))),
        ).to_multiset().insert(queues[index].1[0]),
{
    let queue = queues[index].1;
    let rest = queue.skip(1);
    let first = seq![queue[0]];
    lemma_all_jobs_update(queues, index, (queues[index].0, rest));
    assert(queue =~= first + rest);
    vstd::seq_lib::lemma_multiset_commutative(first, rest);
    assert(first =~= Seq::<Job<C>>::empty().push(queue[0]));
    vstd::seq_lib::to_multiset_build(Seq::<Job<C>>::empty(), queue[0]);
    Seq::<Job<C>>::empty().to_multiset_ensures();
    assert(first.to_multiset() =~= vstd::multiset::Multiset::singleton(queue[0])) by {
        assert(Seq::<Job<C>>::empty().to_multiset() =~= vstd::multiset::Multiset::empty());
    }
    let after = all_jobs(queues.update(index, (queues[index].0, rest))).to_multiset();
    assert(after.add(first.to_multiset().add(rest.to_multiset())) =~= after.insert(queue[0]).add(
        rest.to_multiset(),
    ));
    lemma_multiset_cancel(
        all_jobs(queues).to_multiset(),
        after.insert(queue[0]),
        rest.to_multiset(),
    );
}

/// The jobs that wait under an identifier.
pub open spec fn waiting_jobs<C>(
    queues: Seq<(Seq<char>, Seq<Job<C>>)>,
    identifier: Seq<char>,
) -> Seq<Job<C>> {
    let index = queue_of(queues, identifier);
    if index < queues.len() {
        queues[index].1
    } else {
        Seq::empty()
    }
}

/// The same part can be taken away on both sides.
proof fn lemma_multiset_cancel<C>(
    a: vstd::multiset::Multiset<Job<C>>,
    b: vstd::multiset::Multiset<Job<C>>,
    part: vstd::multiset::Multiset<Job<C>>,
)
    requires
        a.add(part) == b.add(part),
    ensures
        a == b,
{
    assert forall|job: Job<C>| a.count(job) == b.count(job) by {
        assert(a.add(part).count(job) == a.count(job) + part.count(job));
        assert(b.add(part).count(job) == b.count(job) + part.count(job));
    }
    assert(a =~= b);
}

/// Replacing one queue exchanges its jobs for others.
proof fn lemma_all_jobs_update<C>(
    queues: Seq<(Seq<char>, Seq<Job<C>>)>,
    index: int,
    queue: (Seq<char>, Seq<Job<C>>),
)
    requires
        0 <= index < queues.len(),
    ensures
        all_jobs(queues.update(index, queue)).to_multiset().add(queues[index].1.to_multiset())
            == all_jobs(queues).to_multiset().add(queue.1.to_multiset()),
    decreases queues.len(),
{
    let updated = queues.update(index, queue);
    let front = queues.drop_last();
    vstd::seq_lib::lemma_multiset_commutative(all_jobs(front), queues.last().1);
    vstd::seq_lib::lemma_multiset_commutative(
        all_jobs(updated.drop_last()),
        updated.last().1,
    );
    if index == queues.len() - 1 {
        assert(updated.drop_last() =~= front);
        assert(all_jobs(updated).to_multiset().add(queues[index].1.to_multiset()) =~= all_jobs(
            queues,
        ).to_multiset().add(queue.1.to_multiset()));
    } else {
        lemma_all_jobs_update(front, index, queue);
        assert(updated.drop_last() =~= front.update(index, queue));
        let last = queues.last().1.to_multiset();
        let changed = all_jobs(front.update(index, queue)).to_multiset();
        let kept = all_jobs(front).to_multiset();
        assert(changed.add(last).add(queues[index].1.to_multiset()) =~= changed.add(
            queues[index].1.to_multiset(),
        ).add(last));
        assert(kept.add(last).add(queue.1.to_multiset()) =~= kept.add(
            queue.1.to_multiset(),
        ).add(last));
    }
}

/// A queue that is found goes under the identifier.
proof fn lemma_queue_of_found<C>(queues: Seq<(Seq<char>, Seq<Job<C>>)>, identifier: Seq<char>)
    ensures
        0 <= queue_of(queues, identifier) < queues.len() ==> queues[queue_of(
            queues,
            identifier,
        )].0 == identifier,
    decreases queues.len(),
{
    if queues.len() > 0 {
        lemma_queue_of_found(queues.drop_last(), identifier);
        lemma_queue_of_bounds(queues.drop_last(), identifier);
    }
}

/// Finding a queue looks at the identifiers only.
proof fn lemma_queue_of_same_names<C>(
    queues: Seq<(Seq<char>, Seq<Job<C>>)>,
    others: Seq<(Seq<char>, Seq<Job<C>>)>,
    identifier: Seq<char>,
)
    requires
        queues.len() == others.len(),
        forall|i: int| 0 <= i < queues.len() ==> (#[trigger] queues[i]).0 == others[i].0,
    ensures
        queue_of(queues, identifier) == queue_of(others, identifier),
    decreases queues.len(),
{
    if queues.len() > 0 {
        assert forall|i: int| 0 <= i < queues.drop_last().len() implies (
        #[trigger] queues.drop_last()[i]).0 == others.drop_last()[i].0 by {
            assert(queues[i].0 == others[i].0);
        }
        lemma_queue_of_same_names(queues.drop_last(), others.drop_last(), identifier);
    }
}

proof fn lemma_empty_turns_bounds<C>(
    queues: Seq<(Seq<char>, Seq<Job<C>>)>,
    start: int,
    from: int,
)
    requires
        0 <= from <= queues.len(),
    ensures
        from <= empty_turns(queues, start, from) <= queues.len(),
        empty_turns(queues, start, from) < queues.len() ==> queues[(start + empty_turns(
            queues,
            start,
            from,
        )) % (queues.len() as int)].1.len() > 0,
    decreases queues.len() - from,
{
    if from < queues.len() {
        if queues[(start + from) % (queues.len() as int)].1.len() == 0 {
            lemma_empty_turns_bounds(queues, start, from + 1);
        }
    }
}

/// A queue with a job ends the run of empty ones.
proof fn lemma_empty_turns_reach<C>(
    queues: Seq<(Seq<char>, Seq<Job<C>>)>,
    start: int,
    from: int,
    turn: int,
)
    requires
        0 <= from <= turn < queues.len(),
        queues[(start + turn) % (queues.len() as int)].1.len() > 0,
    ensures
        empty_turns(queues, start, from) <= turn,
    decreases turn - from,
{
    if queues[(start + from) % (queues.len() as int)].1.len() == 0 {
        lemma_empty_turns_reach(queues, start, from + 1, turn);
    }
}

/// If no queue serves, no job waits.
proof fn lemma_no_serving_queue<C>(queues: Seq<(Seq<char>, Seq<Job<C>>)>, start: int)
    requires
        queues.len() > 0,
        0 <= start < queues.len(),
        empty_turns(queues, start, 0) == queues.len(),
    ensures
        job_count(queues) == 0,
{
    let count = queues.len() as int;
    assert forall|i: int| 0 <= i < count implies (#[trigger] queues[i]).1.len() == 0 by {
        let turn = (i - start) % count;
        vstd::arithmetic::div_mod::lemma_mod_bound(i - start, count);
        vstd::arithmetic::div_mod::lemma_add_mod_noop(start, i - start, count);
        vstd::arithmetic::div_mod::lemma_add_mod_noop(start, turn, count);
        vstd::arithmetic::div_mod::lemma_mod_twice(i - start, count);
        vstd::arithmetic::div_mod::lemma_small_mod(i as nat, count as nat);
        assert((start + turn) % count == i);
        if queues[i].1.len() > 0 {
            lemma_empty_turns_reach(queues, start, 0, turn);
        }
    }
    lemma_count_of_empty(queues);
}

proof fn lemma_count_of_empty<C>(queues: Seq<(Seq<char>, Seq<Job<C>>)>)
    requires
        forall|i: int| 0 <= i < queues.len() ==> (#[trigger] queues[i]).1.len() == 0,
    ensures
        job_count(queues) == 0,
    decreases queues.len(),
{
    if queues.len() > 0 {
        assert forall|i: int| 0 <= i < queues.drop_last().len() implies (
        #[trigger] queues.drop_last()[i]).1.len() == 0 by {
            assert(queues[i].1.len() == 0);
        }
        lemma_count_of_empty(queues.drop_last());
    }
}

proof fn lemma_count_drained<C>(queues: Seq<(Seq<char>, Seq<Job<C>>)>)
    ensures
        job_count(queues_drained(queues)) == 0,
{
    lemma_count_of_empty(queues_drained(queues));
}

proof fn lemma_count_of_prefix<C>(queues: Seq<(Seq<char>, Seq<Job<C>>)>, count: int)
    requires
        0 <= count <= queues.len(),
    ensures
        job_count(queues.take(count)) <= job_count(queues),
    decreases queues.len(),
{
    if count == queues.len() {
        assert(queues.take(count) =~= queues);
    } else {
        lemma_count_of_prefix(queues.drop_last(), count);
        assert(queues.drop_last().take(count) =~= queues.take(count));
    }
}

proof fn lemma_all_jobs_len<C>(queues: Seq<(Seq<char>, Seq<Job<C>>)>)
    ensures
        all_jobs(queues).len() == job_count(queues),
    decreases queues.len(),
{
    if queues.len() > 0 {
        lemma_all_jobs_len(queues.drop_last());
    }
}

/// Looking at fewer queues finds the same queue, if it finds one.
proof fn lemma_queue_of_stays<C>(
    queues: Seq<(Seq<char>, Seq<Job<C>>)>,
    identifier: Seq<char>,
    index: int,
)
    requires
        0 <= index <= queues.len(),
        queue_of(queues.take(index), identifier) == index,
        index < queues.len() ==> queues[index].0 == identifier,
    ensures
        queue_of(queues, identifier) == index,
    decreases queues.len(),
{
    if index == queues.len() {
        assert(queues.take(index) =~= queues);
    } else if index == queues.len() - 1 {
        assert(queues.take(index) =~= queues.drop_last());
    } else {
        let front = queues.drop_last();
        assert(front.take(index) =~= queues.take(index));
        lemma_queue_of_stays(front, identifier, index);
    }
}

/// An identifier without a queue differs from that of every queue.
proof fn lemma_queue_of_absent<C>(queues: Seq<(Seq<char>, Seq<Job<C>>)>, identifier: Seq<char>)
    requires
        queue_of(queues, identifier) == queues.len(),
    ensures
        forall|i: int| 0 <= i < queues.len() ==> (#[trigger] queues[i]).0 != identifier,
    decreases queues.len(),
{
    if queues.len() > 0 {
        let front = queues.drop_last();
        lemma_queue_of_bounds(front, identifier);
        lemma_queue_of_absent(front, identifier);
        assert forall|i: int| 0 <= i < queues.len() implies (#[trigger] queues[i]).0
            != identifier by {
            if i < queues.len() - 1 {
                assert(front[i] == queues[i]);
            }
        }
    }
}

proof fn lemma_queue_of_bounds<C>(queues: Seq<(Seq<char>, Seq<Job<C>>)>, identifier: Seq<char>)
    ensures
        0 <= queue_of(queues, identifier) <= queues.len(),
    decreases queues.len(),
{
    if queues.len() > 0 {
        lemma_queue_of_bounds(queues.drop_last(), identifier);
    }
}

/// Replacing one queue changes the count by the difference.
proof fn lemma_count_update<C>(
    queues: Seq<(Seq<char>, Seq<Job<C>>)>,
    index: int,
    queue: (Seq<char>, Seq<Job<C>>),
)
    requires
        0 <= index < queues.len(),
    ensures
        job_count(queues.update(index, queue)) == job_count(queues) - queues[index].1.len()
            + queue.1.len(),
    decreases queues.len(),
{
    let updated = queues.update(index, queue);
    if index == queues.len() - 1 {
        assert(updated.drop_last() =~= queues.drop_last());
    } else {
        lemma_count_update(queues.drop_last(), index, queue);
        assert(updated.drop_last() =~= queues.drop_last().update(index, queue));
    }
}

} // verus!
