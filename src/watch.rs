use vstd::prelude::*;

use crate::error::Error;

verus! {

/// Where the watch loop stands.
#[derive(Debug, Clone, Copy, PartialEq, Eq, Structural)]
pub enum Phase {
    /// Waiting for the next batch of write-completion events.
    Observing,
    /// One upload is in flight; its outcome is awaited.
    Uploading,
    /// The outcome of the last upload is being reported.
    Reporting,
}

/// What happened outside the loop since the last action.
#[derive(Debug)]
pub enum Event {
    /// The directory subscription delivered these file names, in arrival order.
    Batch(Vec<String>),
    /// The requested upload finished with this result.
    Uploaded(Result<String, Error>),
    /// The last outcome has been printed (and, on success, copied to the clipboard).
    Reported,
}

/// What the loop asks its driver to do next.
#[derive(Debug)]
pub enum Action {
    /// Block until the directory subscription delivers the next batch.
    ReadEvents,
    /// Upload the file at this path.
    Upload(String),
    /// Print this URL to standard output and copy it to the clipboard.
    Publish(String),
    /// Report this failure on standard error.
    LogFailure(Error),
}

/// The loop's state as the contracts see it.
pub struct LoopView {
    pub dir: Seq<char>,
    pub pending: Seq<Seq<char>>,
    pub phase: Phase,
}

/// An event as the contracts see it.
pub enum EventView {
    Batch(Seq<Seq<char>>),
    Uploaded(Result<Seq<char>, Error>),
    Reported,
}

/// An action as the contracts see it.
pub enum ActionView {
    ReadEvents,
    Upload(Seq<char>),
    Publish(Seq<char>),
    LogFailure(Error),
}

/// The texts of a list of names.
pub open spec fn names_view(v: Seq<String>) -> Seq<Seq<char>> {
    v.map_values(|s: String| s@)
}

impl View for Event {
    type V = EventView;

    open spec fn view(&self) -> EventView {
        match self {
            Event::Batch(names) => EventView::Batch(names_view(names@)),
            Event::Uploaded(Ok(u)) => EventView::Uploaded(Ok(u@)),
            Event::Uploaded(Err(e)) => EventView::Uploaded(Err(*e)),
            Event::Reported => EventView::Reported,
        }
    }
}

impl View for Action {
    type V = ActionView;

    open spec fn view(&self) -> ActionView {
        match self {
            Action::ReadEvents => ActionView::ReadEvents,
            Action::Upload(p) => ActionView::Upload(p@),
            Action::Publish(u) => ActionView::Publish(u@),
            Action::LogFailure(e) => ActionView::LogFailure(*e),
        }
    }
}

/// The full path of the file `name` inside the watched directory `dir`.
pub open spec fn event_path(dir: Seq<char>, name: Seq<char>) -> Seq<char> {
    dir + seq!['/'] + name
}

/// Whether the loop in state `s` takes `e`: a batch while observing, an upload's
/// result while uploading, the end of a report while reporting.
pub open spec fn takes(s: LoopView, e: EventView) -> bool {
    match e {
        EventView::Batch(_) => s.phase == Phase::Observing,
        EventView::Uploaded(_) => s.phase == Phase::Uploading,
        EventView::Reported => s.phase == Phase::Reporting,
    }
}

/// Start the next upload of `pending`, or go back to observing when none is left.
pub open spec fn advance(dir: Seq<char>, pending: Seq<Seq<char>>) -> (LoopView, ActionView) {
    if pending.len() == 0 {
        (LoopView { dir, pending, phase: Phase::Observing }, ActionView::ReadEvents)
    } else {
        (
            LoopView { dir, pending: pending.drop_first(), phase: Phase::Uploading },
            ActionView::Upload(event_path(dir, pending[0])),
        )
    }
}

/// The loop's transition function: the next state and the action it asks for.
///
/// A batch replaces the (exhausted) pending list and starts its first upload; an
/// upload's result is reported, a success published and a failure logged; after a
/// report the next pending file is uploaded. No event ends the loop.
pub open spec fn transition(s: LoopView, e: EventView) -> (LoopView, ActionView) {
    match e {
        EventView::Batch(names) => advance(s.dir, names),
        EventView::Uploaded(Ok(u)) => (
            LoopView { phase: Phase::Reporting, ..s },
            ActionView::Publish(u),
        ),
        EventView::Uploaded(Err(e)) => (
            LoopView { phase: Phase::Reporting, ..s },
            ActionView::LogFailure(e),
        ),
        EventView::Reported => advance(s.dir, s.pending),
    }
}

/// The paths the loop asks to upload, starting from state `s`, when each upload in
/// turn ends with the next of `outcomes` and is then reported.
pub open spec fn upload_rounds(s: LoopView, outcomes: Seq<Result<Seq<char>, Error>>) -> Seq<
    Seq<char>,
>
    decreases outcomes.len(),
{
    if outcomes.len() == 0 || s.phase != Phase::Uploading {
        Seq::empty()
    } else {
        let s1 = transition(s, EventView::Uploaded(outcomes[0])).0;
        let (s2, a2) = transition(s1, EventView::Reported);
        let rest = upload_rounds(s2, outcomes.drop_first());
        match a2 {
            ActionView::Upload(p) => seq![p] + rest,
            _ => rest,
        }
    }
}

/// The full paths of `names` inside `dir`, in the same order.
pub open spec fn paths_in(dir: Seq<char>, names: Seq<Seq<char>>) -> Seq<Seq<char>> {
    names.map_values(|n: Seq<char>| event_path(dir, n))
}

/// One write-completion event for `f` leads to exactly one upload, of the path
/// `dir/f`: whatever that upload's result, the loop then reports it and goes back
/// to observing without asking for another upload.
pub proof fn lemma_one_event_one_upload(
    s: LoopView,
    f: Seq<char>,
    outcome: Result<Seq<char>, Error>,
)
    requires
        s.phase == Phase::Observing,
    ensures
        ({
            let batch = EventView::Batch(seq![f]);
            let (s1, a1) = transition(s, batch);
            let (s2, a2) = transition(s1, EventView::Uploaded(outcome));
            let (s3, a3) = transition(s2, EventView::Reported);
            &&& takes(s, batch)
            &&& a1 == ActionView::Upload(event_path(s.dir, f))
            &&& takes(s1, EventView::Uploaded(outcome))
            &&& !(a2 is Upload)
            &&& takes(s2, EventView::Reported)
            &&& a3 == ActionView::ReadEvents
            &&& s3.phase == Phase::Observing
            &&& s3.dir == s.dir
        }),
{
    let s1 = transition(s, EventView::Batch(seq![f])).0;
    assert(s1.pending =~= Seq::<Seq<char>>::empty());
}

/// A failed upload does not stop the loop: the failure is logged (nothing is
/// published), and once it has been reported the loop uploads the next pending file,
/// or goes back to observing when none is left.
pub proof fn lemma_failure_keeps_loop_alive(s: LoopView, e: Error)
    requires
        s.phase == Phase::Uploading,
    ensures
        ({
            let (s1, a1) = transition(s, EventView::Uploaded(Err(e)));
            let (s2, a2) = transition(s1, EventView::Reported);
            &&& takes(s, EventView::Uploaded(Err(e)))
            &&& a1 == ActionView::LogFailure(e)
            &&& s1.pending == s.pending
            &&& takes(s1, EventView::Reported)
            &&& s.pending.len() > 0 ==> a2 == ActionView::Upload(event_path(s.dir, s.pending[0]))
            &&& s.pending.len() == 0 ==> a2 == ActionView::ReadEvents && s2.phase
                == Phase::Observing
        }),
{
}

/// No state of the loop is terminal: in every phase some event is taken.
pub proof fn lemma_no_terminal_state(s: LoopView)
    ensures
        exists|e: EventView| takes(s, e),
{
    match s.phase {
        Phase::Observing => assert(takes(s, EventView::Batch(Seq::empty()))),
        Phase::Uploading => assert(takes(s, EventView::Uploaded(Err(Error::ServerError)))),
        Phase::Reporting => assert(takes(s, EventView::Reported)),
    }
}

/// Uploads never overlap: while one is in flight the loop takes nothing but its
/// result, and that result never starts another upload.
pub proof fn lemma_uploads_never_overlap(s: LoopView, e: EventView)
    requires
        s.phase == Phase::Uploading,
        takes(s, e),
    ensures
        e is Uploaded,
        !(transition(s, e).1 is Upload),
        transition(s, e).0.phase == Phase::Reporting,
{
}

/// While uploading, each further round of result and report uploads the next
/// pending file, in order, whether the previous upload succeeded or failed.
pub proof fn lemma_rounds_follow_pending(s: LoopView, outcomes: Seq<Result<Seq<char>, Error>>)
    requires
        s.phase == Phase::Uploading,
        outcomes.len() <= s.pending.len(),
    ensures
        upload_rounds(s, outcomes) == paths_in(s.dir, s.pending.take(outcomes.len() as int)),
    decreases outcomes.len(),
{
    if outcomes.len() == 0 {
        assert(paths_in(s.dir, s.pending.take(0)) =~= Seq::<Seq<char>>::empty());
    } else {
        let s1 = transition(s, EventView::Uploaded(outcomes[0])).0;
        let s2 = transition(s1, EventView::Reported).0;
        lemma_rounds_follow_pending(s2, outcomes.drop_first());
        assert(s2.pending == s.pending.drop_first());
        assert(paths_in(s.dir, s.pending.take(outcomes.len() as int)) =~= seq![
            event_path(s.dir, s.pending[0]),
        ] + paths_in(s.dir, s.pending.drop_first().take(outcomes.len() as int - 1)));
    }
}

/// The files of one batch are uploaded one after another in the order they were
/// delivered: the batch starts the upload of its first file, and each round of
/// result and report starts the next, whatever the results.
pub proof fn lemma_batch_uploaded_in_order(
    s: LoopView,
    names: Seq<Seq<char>>,
    outcomes: Seq<Result<Seq<char>, Error>>,
)
    requires
        s.phase == Phase::Observing,
        names.len() > 0,
        outcomes.len() < names.len(),
    ensures
        ({
            let (s1, a1) = transition(s, EventView::Batch(names));
            &&& a1 == ActionView::Upload(event_path(s.dir, names[0]))
            &&& seq![event_path(s.dir, names[0])] + upload_rounds(s1, outcomes) == paths_in(
                s.dir,
                names.take(outcomes.len() as int + 1),
            )
        }),
{
    let s1 = transition(s, EventView::Batch(names)).0;
    lemma_rounds_follow_pending(s1, outcomes);
    assert(paths_in(s.dir, names.take(outcomes.len() as int + 1)) =~= seq![event_path(s.dir, names[0])]
        + paths_in(s.dir, names.drop_first().take(outcomes.len() as int)));
}

/// Joins the watched directory and a file name with one separator.
pub fn join_path(dir: &str, name: &str) -> (r: String)
    ensures
        r@ == event_path(dir@, name@),
{
    let mut p = dir.to_owned();
    p.append("/");
    p.append(name);
    proof {
        reveal_strlit("/");
    }
    p
}

/// The watch-and-upload loop, driven one event at a time.
///
/// The driver performs each action the loop returns and hands back the event that
/// resulted; the first action is always `ReadEvents`.
pub struct WatchLoop {
    dir: String,
    pending: Vec<String>,
    next: usize,
    phase: Phase,
}

impl View for WatchLoop {
    type V = LoopView;

    closed spec fn view(&self) -> LoopView {
        LoopView {
            dir: self.dir@,
            pending: names_view(self.pending@.subrange(self.next as int, self.pending@.len() as int)),
            phase: self.phase,
        }
    }
}

impl WatchLoop {
    /// The batch position never passes the end of the batch.
    pub closed spec fn wf(&self) -> bool {
        self.next <= self.pending@.len()
    }

    /// A loop watching `dir`, observing, with nothing pending.
    pub fn new(dir: String) -> (r: WatchLoop)
        ensures
            r.wf(),
            r@.dir == dir@,
            r@.pending.len() == 0,
            r@.phase == Phase::Observing,
    {
        let r = WatchLoop { dir, pending: Vec::new(), next: 0, phase: Phase::Observing };
        assert(r@.pending =~= Seq::<Seq<char>>::empty());
        r
    }

    /// The watched directory.
    pub fn dir(&self) -> (r: &str)
        ensures
            r@ == self@.dir,
    {
        self.dir.as_str()
    }

    /// Whether the loop, as it stands, takes `event` (see `step`).
    pub fn takes(&self, event: &Event) -> (r: bool)
        ensures
            r == takes(self@, event@),
    {
        match event {
            Event::Batch(_) => self.phase == Phase::Observing,
            Event::Uploaded(_) => self.phase == Phase::Uploading,
            Event::Reported => self.phase == Phase::Reporting,
        }
    }

    fn advance(&mut self) -> (r: Action)
        requires
            old(self).wf(),
        ensures
            final(self).wf(),
            (final(self)@, r@) == advance(old(self)@.dir, old(self)@.pending),
    {
        let ghost before = self@;
        if self.next < self.pending.len() {
            let path = join_path(self.dir.as_str(), self.pending[self.next].as_str());
            self.next = self.next + 1;
            self.phase = Phase::Uploading;
            assert(self@.pending =~= before.pending.drop_first());
            Action::Upload(path)
        } else {
            self.phase = Phase::Observing;
            assert(self@.pending =~= before.pending);
            Action::ReadEvents
        }
    }

    /// Feeds one event to the loop and returns the action it asks for next.
    pub fn step(&mut self, event: Event) -> (r: Action)
        requires
            old(self).wf(),
            takes(old(self)@, event@),
        ensures
            final(self).wf(),
            (final(self)@, r@) == transition(old(self)@, event@),
    {
        match event {
            Event::Batch(names) => {
                self.pending = names;
                self.next = 0;
                assert(self.pending@.subrange(0, self.pending@.len() as int) =~= self.pending@);
                self.advance()
            },
            Event::Uploaded(Ok(u)) => {
                self.phase = Phase::Reporting;
                Action::Publish(u)
            },
            Event::Uploaded(Err(e)) => {
                self.phase = Phase::Reporting;
                Action::LogFailure(e)
            },
            Event::Reported => self.advance(),
        }
    }
}

} // verus!
