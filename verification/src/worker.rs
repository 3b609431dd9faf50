use vstd::prelude::*;
use crate::capture::{encode_png, is_png_of, CaptureError};

verus! {

/// A capture request waiting for a frame: the earliest reading of the worker's clock at
/// which a frame may answer it, and where the answer goes.
pub struct PendingCapture<R> {
    pub not_before: u64,
    pub reply: R,
}

/// What the capture worker does next.
#[derive(Clone, Copy, Debug, PartialEq, Eq, Structural)]
pub enum WorkerStep {
    /// Nothing is pending: block until a request arrives (or stop when none can).
    WaitForRequest,
    /// The oldest request is not due yet: sleep for a poll interval.
    Sleep,
    /// The oldest request is due and no reader is open: try to open one.
    OpenReader,
    /// The oldest request is due and the reader is open: try to read a frame.
    ReadFrame,
}

/// The decisions of the capture worker: which requests wait, in arrival order, whether
/// a Spout reader is open, and the last reader failure reported in a row.
pub struct CaptureWorker<R> {
    pending: std::collections::VecDeque<PendingCapture<R>>,
    reader_open: bool,
    last_reader_error: Option<String>,
}

/// The state of a capture worker as mathematical values.
pub struct CaptureWorkerView<R> {
    pub pending: Seq<PendingCapture<R>>,
    pub reader_open: bool,
    pub last_reader_error: Option<Seq<char>>,
}

impl<R> CaptureWorkerView<R> {
    /// A request arrives: it waits behind every earlier one.
    pub open spec fn enqueued(self, request: PendingCapture<R>) -> Self {
        CaptureWorkerView { pending: self.pending.push(request), ..self }
    }

    /// The next step at clock reading `now`.
    pub open spec fn step(self, now: u64) -> WorkerStep {
        if self.pending.len() == 0 {
            WorkerStep::WaitForRequest
        } else if now < self.pending[0].not_before {
            WorkerStep::Sleep
        } else if !self.reader_open {
            WorkerStep::OpenReader
        } else {
            WorkerStep::ReadFrame
        }
    }

    /// A reader was opened: the failure streak ends.
    pub open spec fn opened(self) -> Self {
        CaptureWorkerView { reader_open: true, last_reader_error: None, ..self }
    }

    /// Opening a reader failed with `message`; the flag says whether to warn, which is
    /// when the message differs from the failure just before it.
    pub open spec fn open_failed(self, message: Seq<char>) -> (Self, bool) {
        (
            CaptureWorkerView { last_reader_error: Some(message), ..self },
            self.last_reader_error != Some(message),
        )
    }

    /// A frame read at clock reading `now`: when the oldest request is due and a reader
    /// is open, the frame answers that request, which leaves the queue; otherwise nothing
    /// is answered and nothing changes.
    pub open spec fn frame_read_at(self, now: u64) -> (Self, Option<PendingCapture<R>>) {
        if self.step(now) == WorkerStep::ReadFrame {
            (CaptureWorkerView { pending: self.pending.drop_first(), ..self }, Some(self.pending[0]))
        } else {
            (self, None)
        }
    }

    /// Reading failed: the reader is closed and will be opened again.
    pub open spec fn lost_reader(self) -> Self {
        CaptureWorkerView { reader_open: false, ..self }
    }
}

/// Where the answer to an answered request goes.
pub open spec fn reply_of<R>(answered: Option<PendingCapture<R>>) -> Option<R> {
    match answered {
        Some(request) => Some(request.reply),
        None => None,
    }
}

impl<R> View for CaptureWorker<R> {
    type V = CaptureWorkerView<R>;

    closed spec fn view(&self) -> CaptureWorkerView<R> {
        CaptureWorkerView {
            pending: self.pending@,
            reader_open: self.reader_open,
            last_reader_error: match self.last_reader_error {
                Some(message) => Some(message@),
                None => None,
            },
        }
    }
}

impl<R> CaptureWorker<R> {
    /// A worker with nothing pending, no reader and no failure.
    pub fn new() -> (worker: Self)
        ensures
            worker@ == (CaptureWorkerView::<R> {
                pending: Seq::empty(),
                reader_open: false,
                last_reader_error: None,
            }),
    {
        CaptureWorker {
            pending: std::collections::VecDeque::new(),
            reader_open: false,
            last_reader_error: None,
        }
    }

    /// Records a request that arrived.
    pub fn enqueue(&mut self, request: PendingCapture<R>)
        ensures
            final(self)@ == old(self)@.enqueued(request),
    {
        self.pending.push_back(request);
        proof {
            assert(self@.pending =~= old(self)@.pending.push(request));
        }
    }

    /// Whether no request is waiting.
    pub fn is_idle(&self) -> (idle: bool)
        ensures
            idle == (self@.pending.len() == 0),
    {
        self.pending.len() == 0
    }

    /// Decides the next step at clock reading `now`.
    pub fn next_step(&self, now: u64) -> (step: WorkerStep)
        ensures
            step == self@.step(now),
    {
        if self.pending.len() == 0 {
            WorkerStep::WaitForRequest
        } else if now < self.pending[0].not_before {
            WorkerStep::Sleep
        } else if !self.reader_open {
            WorkerStep::OpenReader
        } else {
            WorkerStep::ReadFrame
        }
    }

    /// Records that a reader was opened.
    pub fn reader_opened(&mut self)
        ensures
            final(self)@ == old(self)@.opened(),
    {
        self.reader_open = true;
        self.last_reader_error = None;
    }

    /// Records that opening a reader failed; returns whether to warn about it.
    pub fn reader_failed(&mut self, message: String) -> (warn: bool)
        ensures
            (final(self)@, warn) == old(self)@.open_failed(message@),
    {
        let warn = match &self.last_reader_error {
            Some(last) => !(*last == message),
            None => true,
        };
        self.last_reader_error = Some(message);
        warn
    }

    /// Takes the request that a frame read at clock reading `now` answers: the oldest one,
    /// when it is due and a reader is open; `None` otherwise.
    pub fn frame_read(&mut self, now: u64) -> (reply: Option<R>)
        ensures
            final(self)@ == old(self)@.frame_read_at(now).0,
            reply == reply_of(old(self)@.frame_read_at(now).1),
            reply is Some ==> old(self)@.pending.len() > 0 && old(self)@.pending[0].not_before
                <= now && old(self)@.reader_open,
    {
        if self.pending.len() == 0 || now < self.pending[0].not_before || !self.reader_open {
            return None;
        }
        match self.pending.pop_front() {
            Some(request) => {
                proof {
                    assert(self@.pending =~= old(self)@.pending.drop_first());
                }
                Some(request.reply)
            },
            None => None,
        }
    }

    /// Answers the request that a frame read at clock reading `now` answers, with that
    /// frame (a mapped staging texture) encoded as a PNG: the oldest request, when it is
    /// due and a reader is open; `None` otherwise, and then nothing changes.
    pub fn answer_with_frame(
        &mut self,
        now: u64,
        width: u32,
        height: u32,
        format: u32,
        pixels: &[u8],
    ) -> (answer: Option<(R, Result<Vec<u8>, CaptureError>)>)
        requires
            height > 0,
            width > 0 || pixels@.len() > 0,
        ensures
            final(self)@ == old(self)@.frame_read_at(now).0,
            old(self)@.frame_read_at(now).1 is None ==> answer is None,
            old(self)@.frame_read_at(now).1 matches Some(request) ==> (answer matches Some(
                (reply, png),
            ) && reply == request.reply && is_png_of(width, height, format, pixels@, png)),
    {
        if self.next_step(now) != WorkerStep::ReadFrame {
            return None;
        }
        let png = encode_png(width, height, format, pixels);
        match self.frame_read(now) {
            Some(reply) => Some((reply, png)),
            None => None,
        }
    }

    /// Records that reading from the reader failed and it was closed.
    pub fn reader_lost(&mut self)
        ensures
            final(self)@ == old(self)@.lost_reader(),
    {
        self.reader_open = false;
    }
}

/// Requests are answered in the order they arrived: a request that arrives while others
/// wait changes neither which one the next frame answers nor what is left after it,
/// except that it waits at the end.
pub proof fn law_answers_oldest_first<R>(
    worker: CaptureWorkerView<R>,
    request: PendingCapture<R>,
    now: u64,
)
    requires
        worker.pending.len() > 0,
    ensures
        worker.enqueued(request).frame_read_at(now).1 == worker.frame_read_at(now).1,
        worker.enqueued(request).frame_read_at(now).0 == worker.frame_read_at(now).0.enqueued(
            request,
        ),
{
    assert(worker.pending.push(request).drop_first() =~= worker.pending.drop_first().push(request));
}

/// A reader failure that repeats the one just before it is not warned about again, and
/// after a reader was opened the next failure is warned about.
pub proof fn law_failure_warned_once<R>(worker: CaptureWorkerView<R>, message: Seq<char>)
    ensures
        !worker.open_failed(message).0.open_failed(message).1,
        worker.opened().open_failed(message).1,
{
}

/// A frame is read only when the oldest request is due and a reader is open, and the
/// worker blocks for a new request only when none is pending.
pub proof fn law_reads_only_when_due<R>(worker: CaptureWorkerView<R>, now: u64)
    ensures
        worker.step(now) == WorkerStep::ReadFrame <==> (worker.pending.len() > 0
            && worker.pending[0].not_before <= now && worker.reader_open),
        worker.step(now) == WorkerStep::WaitForRequest <==> worker.pending.len() == 0,
{
}

/// Reader failures keep every pending request, in order.
pub proof fn law_failures_keep_requests<R>(worker: CaptureWorkerView<R>, message: Seq<char>)
    ensures
        worker.open_failed(message).0.pending == worker.pending,
        worker.lost_reader().pending == worker.pending,
{
}

/// One thing that happens to a capture worker: a request arrives, a reader is opened,
/// opening one fails with a message, the reader is lost, or a frame is read at a clock
/// reading.
pub enum WorkerEvent<R> {
    Arrive(PendingCapture<R>),
    Opened,
    OpenFailed(Seq<char>),
    Lost,
    Frame(u64),
}

/// The worker after one event, and the request answered by it with the clock reading
/// of the frame that answered it.
pub open spec fn after_event<R>(worker: CaptureWorkerView<R>, event: WorkerEvent<R>) -> (
    CaptureWorkerView<R>,
    Option<(PendingCapture<R>, u64)>,
) {
    match event {
        WorkerEvent::Arrive(request) => (worker.enqueued(request), None),
        WorkerEvent::Opened => (worker.opened(), None),
        WorkerEvent::OpenFailed(message) => (worker.open_failed(message).0, None),
        WorkerEvent::Lost => (worker.lost_reader(), None),
        WorkerEvent::Frame(now) => {
            let (next, answered) = worker.frame_read_at(now);
            match answered {
                Some(request) => (next, Some((request, now))),
                None => (next, None),
            }
        },
    }
}

/// The worker after a run of events, and every answer given on the way, in order.
pub open spec fn run<R>(worker: CaptureWorkerView<R>, events: Seq<WorkerEvent<R>>) -> (
    CaptureWorkerView<R>,
    Seq<(PendingCapture<R>, u64)>,
)
    decreases events.len(),
{
    if events.len() == 0 {
        (worker, Seq::empty())
    } else {
        let (before, answers) = run(worker, events.drop_last());
        let (after, answered) = after_event(before, events.last());
        match answered {
            Some(answer) => (after, answers.push(answer)),
            None => (after, answers),
        }
    }
}

/// The requests that arrive in a run of events, in order.
pub open spec fn arrivals<R>(events: Seq<WorkerEvent<R>>) -> Seq<PendingCapture<R>>
    decreases events.len(),
{
    if events.len() == 0 {
        Seq::empty()
    } else {
        match events.last() {
            WorkerEvent::Arrive(request) => arrivals(events.drop_last()).push(request),
            _ => arrivals(events.drop_last()),
        }
    }
}

/// How many frames are read in a run of events.
pub open spec fn frames_read<R>(events: Seq<WorkerEvent<R>>) -> nat
    decreases events.len(),
{
    if events.len() == 0 {
        0
    } else {
        match events.last() {
            WorkerEvent::Frame(_) => frames_read(events.drop_last()) + 1,
            _ => frames_read(events.drop_last()),
        }
    }
}

/// The answered requests of a run, without the clock readings.
pub open spec fn answered_requests<R>(answers: Seq<(PendingCapture<R>, u64)>) -> Seq<
    PendingCapture<R>,
> {
    answers.map_values(|answer: (PendingCapture<R>, u64)| answer.0)
}

/// Over any run of events, requests are answered in the order they arrived, each at most
/// once, and none is lost: the answered ones followed by those still waiting are exactly
/// those that waited at the start followed by those that arrived. Each answer comes from
/// a frame read when its request was due, and one frame answers at most one request.
pub proof fn law_requests_answered_in_order_when_due<R>(
    worker: CaptureWorkerView<R>,
    events: Seq<WorkerEvent<R>>,
)
    ensures
        answered_requests(run(worker, events).1) + run(worker, events).0.pending
            == worker.pending + arrivals(events),
        forall|i: int|
            0 <= i < run(worker, events).1.len() ==> (#[trigger] run(worker, events).1[i]).0.not_before
                <= run(worker, events).1[i].1,
        run(worker, events).1.len() <= frames_read(events),
    decreases events.len(),
{
    if events.len() > 0 {
        let earlier = events.drop_last();
        law_requests_answered_in_order_when_due(worker, earlier);
        let (before, answers) = run(worker, earlier);
        let (after, answered) = after_event(before, events.last());
        assert(answered_requests(answers) + before.pending == worker.pending + arrivals(earlier));
        match events.last() {
            WorkerEvent::Arrive(request) => {
                assert(answered_requests(answers) + after.pending =~= (answered_requests(answers)
                    + before.pending).push(request));
                assert(worker.pending + arrivals(events) =~= (worker.pending + arrivals(
                    earlier,
                )).push(request));
            },
            WorkerEvent::Frame(now) => {
                match answered {
                    Some(answer) => {
                        let all = answers.push(answer);
                        assert(answered_requests(all) =~= answered_requests(answers).push(
                            before.pending[0],
                        ));
                        assert(answered_requests(all) + after.pending =~= answered_requests(
                            answers,
                        ) + before.pending);
                        assert forall|i: int| 0 <= i < all.len() implies (#[trigger] all[i]).0.not_before
                            <= all[i].1 by {
                            if i < answers.len() {
                                assert(all[i] == answers[i]);
                            }
                        }
                    },
                    None => {},
                }
            },
            _ => {},
        }
    }
}

} // verus!
