//! The scheduler of a batch: the files that wait, the busy flag that lets
//! one run in at a time, and the counters of its progress.
//!
//! The scheduler is a state machine. Its caller hands the files of a run
//! out to workers and reports to it when a job begins, when one ends and
//! when all of them have ended.

use vstd::prelude::*;
use vstd::string::*;
use crate::text::texts;

verus! {

/// The scheduler of batches.
pub struct ThreadHandler {
    num_processing: usize,
    num_finished: usize,
    file_buffer: Vec<String>,
    destination: String,
    is_busy: bool,
    dispatched: usize,
    begun: usize,
    ended: usize,
}

/// The files and the destination of one run, as they were when it started.
#[derive(PartialEq, Eq, Debug)]
pub struct Batch {
    pub files: Vec<String>,
    pub destination: String,
}

/// A batch as plain values.
pub ghost struct BatchFields {
    pub files: Seq<Seq<char>>,
    pub destination: Seq<char>,
}

impl View for Batch {
    type V = BatchFields;

    open spec fn view(&self) -> BatchFields {
        BatchFields { files: texts(self.files@), destination: self.destination@ }
    }
}

/// The state of the scheduler as plain values.
pub ghost struct Scheduler {
    /// The jobs that have begun, over all runs.
    pub num_processing: nat,
    /// The jobs that have ended, well or not, over all runs.
    pub num_finished: nat,
    /// The files that wait for the next run.
    pub files: Seq<Seq<char>>,
    /// The destination of the next run.
    pub destination: Seq<char>,
    /// Whether a run is under way.
    pub is_busy: bool,
    /// The jobs of the latest run.
    pub dispatched: nat,
    /// Those of them that have begun.
    pub begun: nat,
    /// Those of them that have ended.
    pub ended: nat,
}

/// What can happen to the scheduler.
pub ghost enum Event {
    /// Files are added to those that wait.
    AddFiles(Seq<Seq<char>>),
    /// The destination is chosen.
    SetDestination(Seq<char>),
    /// A start is requested.
    Start,
    /// A worker begins a job of the run.
    JobStarted,
    /// A worker ends a job of the run, well or not.
    JobFinished,
    /// The workers have gone through the files of the run.
    BatchDone,
}

impl Scheduler {
    /// The state before anything happened.
    pub open spec fn initial() -> Scheduler {
        Scheduler {
            num_processing: 0,
            num_finished: 0,
            files: Seq::empty(),
            destination: Seq::empty(),
            is_busy: false,
            dispatched: 0,
            begun: 0,
            ended: 0,
        }
    }

    /// What holds of every state: no job ends before it begins and none
    /// begins that was not dispatched; while no run is under way every job
    /// of the latest run has ended; and the jobs of the run that have begun
    /// and not ended are among those that the counters tell apart.
    pub open spec fn valid(self) -> bool {
        &&& self.ended <= self.begun <= self.dispatched
        &&& !self.is_busy ==> self.ended == self.dispatched
        &&& self.num_processing - self.num_finished >= self.begun - self.ended
    }

    /// Whether a start request starts a run: only the busy flag decides.
    pub open spec fn starts(self) -> bool {
        !self.is_busy
    }

    /// The batch that a start request hands out, where it starts a run.
    pub open spec fn snapshot(self) -> BatchFields {
        BatchFields { files: self.files, destination: self.destination }
    }

    /// Whether the begin of a job is counted.
    pub open spec fn counts_start(self) -> bool {
        self.is_busy && self.begun < self.dispatched && self.num_processing < usize::MAX
    }

    /// Whether the end of a job is counted.
    pub open spec fn counts_finish(self) -> bool {
        self.is_busy && self.ended < self.begun && self.num_finished < usize::MAX
    }

    /// Whether the run is over: every job that was dispatched has ended.
    pub open spec fn run_complete(self) -> bool {
        self.is_busy && self.ended == self.dispatched
    }

    /// The state after an event. A start request while a run is under way
    /// changes nothing, and so does a report that does not fit the state.
    pub open spec fn step(self, event: Event) -> Scheduler {
        match event {
            Event::AddFiles(files) => Scheduler { files: self.files + files, ..self },
            Event::SetDestination(destination) => Scheduler { destination, ..self },
            Event::Start => if self.starts() {
                Scheduler { is_busy: true, dispatched: self.files.len(), begun: 0, ended: 0, ..self }
            } else {
                self
            },
            Event::JobStarted => if self.counts_start() {
                Scheduler {
                    num_processing: self.num_processing + 1,
                    begun: self.begun + 1,
                    ..self
                }
            } else {
                self
            },
            Event::JobFinished => if self.counts_finish() {
                Scheduler { num_finished: self.num_finished + 1, ended: self.ended + 1, ..self }
            } else {
                self
            },
            Event::BatchDone => if self.run_complete() {
                Scheduler { is_busy: false, ..self }
            } else {
                self
            },
        }
    }
}

impl Scheduler {
    /// The state after a series of events, the first of them first.
    pub open spec fn after(self, events: Seq<Event>) -> Scheduler
        decreases events.len(),
    {
        if events.len() == 0 {
            self
        } else {
            self.after(events.drop_last()).step(events.last())
        }
    }
}

impl View for ThreadHandler {
    type V = Scheduler;

    closed spec fn view(&self) -> Scheduler {
        Scheduler {
            num_processing: self.num_processing as nat,
            num_finished: self.num_finished as nat,
            files: texts(self.file_buffer@),
            destination: self.destination@,
            is_busy: self.is_busy,
            dispatched: self.dispatched as nat,
            begun: self.begun as nat,
            ended: self.ended as nat,
        }
    }
}

/// Copies a list of texts.
pub fn copy_texts(list: &Vec<String>) -> (copy: Vec<String>)
    ensures
        texts(copy@) == texts(list@),
{
    let mut copy: Vec<String> = Vec::new();
    let mut i: usize = 0;
    while i < list.len()
        invariant
            i <= list.len(),
            copy@.len() == i,
            forall|j: int| 0 <= j < i ==> copy@[j]@ == list@[j]@,
        decreases list.len() - i,
    {
        copy.push(list[i].clone());
        i = i + 1;
    }
    assert(texts(copy@) =~= texts(list@));
    copy
}

impl ThreadHandler {
    /// A scheduler with no files, no destination and no run under way.
    pub fn new() -> (handler: ThreadHandler)
        ensures
            handler@ == Scheduler::initial(),
            handler@.valid(),
    {
        let handler = ThreadHandler {
            num_processing: 0,
            num_finished: 0,
            file_buffer: Vec::new(),
            destination: String::new(),
            is_busy: false,
            dispatched: 0,
            begun: 0,
            ended: 0,
        };
        assert(handler@.files =~= Seq::empty());
        handler
    }

    /// The number of jobs that have begun.
    pub fn num_processing(&self) -> (n: usize)
        ensures
            n == self@.num_processing,
    {
        self.num_processing
    }

    /// The number of jobs that have ended.
    pub fn num_finished(&self) -> (n: usize)
        ensures
            n == self@.num_finished,
    {
        self.num_finished
    }

    /// Whether a run is under way.
    pub fn is_busy(&self) -> (busy: bool)
        ensures
            busy == self@.is_busy,
    {
        self.is_busy
    }

    /// The destination of the next run.
    pub fn destination(&self) -> (destination: &str)
        ensures
            destination@ == self@.destination,
    {
        self.destination.as_str()
    }

    /// The number of files that wait for the next run.
    pub fn pending(&self) -> (n: usize)
        ensures
            n == self@.files.len(),
    {
        self.file_buffer.len()
    }

    /// Chooses the destination of the next run. A run under way keeps the
    /// destination that it started with.
    pub fn set_destination(&mut self, destination: String)
        ensures
            final(self)@ == old(self)@.step(Event::SetDestination(destination@)),
    {
        self.destination = destination;
    }

    /// Adds files to those that wait for the next run. A run under way
    /// keeps the files that it started with.
    pub fn add_files(&mut self, files: Vec<String>)
        ensures
            final(self)@ == old(self)@.step(Event::AddFiles(texts(files@))),
    {
        let mut files = files;
        let ghost added = files@;
        self.file_buffer.append(&mut files);
        assert(texts(self.file_buffer@) =~= texts(old(self).file_buffer@) + texts(added));
    }

    /// Requests the start of a run. While no run is under way the request
    /// starts one and hands out its batch: the files that wait and the
    /// destination, as they are now. While a run is under way the request
    /// is dropped: nothing changes and nothing is handed out.
    pub fn execute_threads(&mut self) -> (batch: Option<Batch>)
        ensures
            final(self)@ == old(self)@.step(Event::Start),
            batch is Some == old(self)@.starts(),
            batch matches Some(b) ==> b@ == old(self)@.snapshot(),
    {
        if self.is_busy {
            return None;
        }
        let files = copy_texts(&self.file_buffer);
        let destination = self.destination.clone();
        self.is_busy = true;
        self.dispatched = files.len();
        self.begun = 0;
        self.ended = 0;
        Some(Batch { files, destination })
    }

    /// Reports that a worker begins a job of the run. It is counted, and
    /// `true` returned, while a run is under way that has jobs left to
    /// begin and the counter has room.
    pub fn job_started(&mut self) -> (counted: bool)
        ensures
            counted == old(self)@.counts_start(),
            final(self)@ == old(self)@.step(Event::JobStarted),
    {
        if self.is_busy && self.begun < self.dispatched && self.num_processing < usize::MAX {
            self.num_processing = self.num_processing + 1;
            self.begun = self.begun + 1;
            true
        } else {
            false
        }
    }

    /// Reports that a worker ends a job of the run, well or not. It is
    /// counted, and `true` returned, while a run is under way of which a
    /// job has begun and not ended and the counter has room.
    pub fn job_finished(&mut self) -> (counted: bool)
        ensures
            counted == old(self)@.counts_finish(),
            final(self)@ == old(self)@.step(Event::JobFinished),
    {
        if self.is_busy && self.ended < self.begun && self.num_finished < usize::MAX {
            self.num_finished = self.num_finished + 1;
            self.ended = self.ended + 1;
            true
        } else {
            false
        }
    }

    /// Reports that the workers have gone through the files of the run.
    /// The busy flag is cleared, and `true` is returned, where every job that was
    /// dispatched has ended.
    pub fn batch_done(&mut self) -> (cleared: bool)
        ensures
            cleared == old(self)@.run_complete(),
            final(self)@ == old(self)@.step(Event::BatchDone),
    {
        if self.is_busy && self.ended == self.dispatched {
            self.is_busy = false;
            true
        } else {
            false
        }
    }
}

/// Every event leads from a valid state to a valid state.
pub proof fn lemma_step_keeps_valid(state: Scheduler, event: Event)
    requires
        state.valid(),
    ensures
        state.step(event).valid(),
{
}

/// No event makes a counter smaller.
pub proof fn lemma_counters_never_decrease(state: Scheduler, event: Event)
    ensures
        state.step(event).num_processing >= state.num_processing,
        state.step(event).num_finished >= state.num_finished,
{
}

/// A start request while a run is under way is dropped: the state stays as
/// it is, with its files, its counters and the jobs of the run.
pub proof fn lemma_start_while_running_is_dropped(state: Scheduler)
    requires
        state.is_busy,
    ensures
        !state.starts(),
        state.step(Event::Start) == state,
{
}

/// A second start request that follows a first changes nothing.
pub proof fn lemma_second_start_changes_nothing(state: Scheduler)
    ensures
        state.step(Event::Start).step(Event::Start) == state.step(Event::Start),
{
}

/// Only the busy flag decides whether a start request starts a run, and a run
/// that starts takes the files and the destination as they are.
pub proof fn lemma_start_opens_run(state: Scheduler)
    requires
        !state.is_busy,
    ensures
        state.starts(),
        state.step(Event::Start).is_busy,
        state.step(Event::Start).dispatched == state.files.len(),
        state.snapshot().files == state.files,
        state.snapshot().destination == state.destination,
{
}

/// What is added or chosen while a run is under way does not reach the
/// jobs of the run.
pub proof fn lemma_run_is_immune(state: Scheduler, event: Event)
    requires
        event is AddFiles || event is SetDestination,
    ensures
        state.step(event).is_busy == state.is_busy,
        state.step(event).dispatched == state.dispatched,
        state.step(event).begun == state.begun,
        state.step(event).ended == state.ended,
        state.step(event).num_processing == state.num_processing,
        state.step(event).num_finished == state.num_finished,
{
}

/// The busy flag is cleared only after every job that was dispatched has
/// ended, and only the report that the batch is done clears it.
pub proof fn lemma_busy_until_all_jobs_ended(state: Scheduler, event: Event)
    requires
        state.valid(),
        state.is_busy,
        !state.step(event).is_busy,
    ensures
        event is BatchDone,
        state.ended == state.dispatched,
        state.begun == state.dispatched,
{
}

/// Whatever happens to a scheduler from its first state on, its state is
/// valid.
pub proof fn lemma_every_state_is_valid(events: Seq<Event>)
    ensures
        Scheduler::initial().after(events).valid(),
    decreases events.len(),
{
    if events.len() > 0 {
        lemma_every_state_is_valid(events.drop_last());
        lemma_step_keeps_valid(Scheduler::initial().after(events.drop_last()), events.last());
    }
}

/// Over any series of events the counters only grow: nothing resets them,
/// not the end of a run and not the start of the next.
pub proof fn lemma_counters_only_grow(state: Scheduler, events: Seq<Event>)
    ensures
        state.after(events).num_processing >= state.num_processing,
        state.after(events).num_finished >= state.num_finished,
    decreases events.len(),
{
    if events.len() > 0 {
        lemma_counters_only_grow(state, events.drop_last());
        lemma_counters_never_decrease(state.after(events.drop_last()), events.last());
    }
}

/// While a run is under way no series of start requests changes anything.
pub proof fn lemma_starts_while_running_are_dropped(state: Scheduler, requests: Seq<Event>)
    requires
        state.is_busy,
        forall|i: int| 0 <= i < requests.len() ==> requests[i] is Start,
    ensures
        state.after(requests) == state,
    decreases requests.len(),
{
    if requests.len() > 0 {
        assert forall|i: int| 0 <= i < requests.drop_last().len() implies requests.drop_last()[i]
            is Start by {
            assert(requests.drop_last()[i] == requests[i]);
        }
        lemma_starts_while_running_are_dropped(state, requests.drop_last());
        assert(requests.last() is Start);
    }
}

/// A job is counted as ended only after it was counted as begun.
pub proof fn lemma_finished_follows_started(state: Scheduler)
    requires
        state.valid(),
    ensures
        state.num_finished <= state.num_processing,
{
}

} // verus!
