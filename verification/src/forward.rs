//! Forwards a batch of updates to the serial driver.
//!
//! One device is opened for the whole batch. Each update in turn is encoded,
//! written out, and read back: the controller acknowledges a line by echoing
//! it. The first update that is refused, the first fault of the transport and
//! the first echo that differs end the batch. What was sent before stays
//! sent. A device that was opened is closed before the outcome is handed out.
//!
//! The [`Forwarder`] holds how far the batch has come. It is driven from
//! outside: [`Forwarder::start`] and [`Forwarder::step`] hand out the next
//! [`Action`], and `step` takes the transport's [`Reply`] to the request that
//! was handed out last.

use crate::bridge::{Update, LINE_LENGTH};
use crate::error::{io_failure, transaction_mismatch, Error, ErrorKind, ErrorView};
use crate::serial::{write_zero, Reply, Request, RequestView, SerialDevice, SerialDeviceView};
use vstd::pervasive::unreached;
use vstd::prelude::*;
use vstd::slice::slice_subrange;

verus! {

/// What the driver does next.
#[derive(Debug, PartialEq, Eq)]
pub enum Action {
    /// Make this call on the transport and hand its answer to
    /// [`Forwarder::step`].
    Perform(Request),
    /// The batch has ended with this outcome.
    Finish(Result<(), Error>),
}

/// An [`Action`] as a mathematical value.
pub enum ActionView {
    Perform(RequestView),
    Finish(Result<(), ErrorView>),
}

impl View for Action {
    type V = ActionView;

    open spec fn view(&self) -> ActionView {
        match *self {
            Action::Perform(request) => ActionView::Perform(request@),
            Action::Finish(Ok(_)) => ActionView::Finish(Ok(())),
            Action::Finish(Err(error)) => ActionView::Finish(Err(error@)),
        }
    }
}

/// The description of an echo that came back short.
pub open spec fn short_read() -> Seq<char> {
    "failed to fill whole buffer"@
}

/// Where a batch stands.
#[derive(Debug, Clone, Copy, PartialEq, Eq, Structural)]
pub enum Phase {
    /// Nothing has been asked of the transport.
    Idle,
    /// The device is being opened.
    Opening,
    /// A part of the line of the current update is being written.
    Writing,
    /// The echo of the line of the current update is being read.
    Reading,
    /// The outcome is decided and the device is being closed.
    Closing,
    /// The outcome has been handed out.
    Finished,
}

/// The forwarding of one batch.
pub struct Forwarder {
    /// The updates of the batch, in the order in which they are sent
    updates: Vec<Update>,
    /// The device, until it is given up
    device: Option<SerialDevice>,
    /// The number of updates that the controller has acknowledged
    done: usize,
    /// The number of bytes written of the line of the current update
    sent: usize,
    /// The line of the current update
    line: Vec<u8>,
    /// Where the batch stands
    phase: Phase,
    /// The failure that is handed out once the device is closed
    failure: Option<Error>,
    /// The failure that ended the batch
    reported: Ghost<Option<ErrorView>>,
}

/// A [`Forwarder`] as a mathematical value.
pub struct ForwarderView {
    /// The updates of the batch.
    pub updates: Seq<Update>,
    /// The device, until it is given up.
    pub device: Option<SerialDeviceView>,
    /// The number of updates that the controller has acknowledged. The
    /// update at this index is the current one.
    pub done: usize,
    /// The number of bytes that the transport has taken of the line of the
    /// current update.
    pub sent: usize,
    /// Where the batch stands.
    pub phase: Phase,
    /// The failure that ended the batch, if one did.
    pub failure: Option<ErrorView>,
}

impl ForwarderView {
    /// The line of the current update.
    pub open spec fn line(self) -> Seq<u8> {
        self.updates[self.done as int].wire_bytes()
    }

    /// The handle of the device.
    pub open spec fn fd(self) -> i64 {
        self.device->0.fd
    }

    /// Whether the batch has ended in a way that the rules allow: without a
    /// failure only when every update is acknowledged, with a refusal only of
    /// the current update and with nothing of its line written, with a
    /// mismatch only when the whole line of the current update is written.
    pub open spec fn settled(self) -> bool {
        match self.failure {
            None => self.done == self.updates.len() && self.sent == 0,
            Some(error) => match error.kind {
                ErrorKind::Validation(refused) => {
                    &&& self.done < self.updates.len()
                    &&& self.updates[self.done as int].refusal() == Some(refused)
                    &&& error == refused.error()
                    &&& self.sent == 0
                },
                ErrorKind::TransactionMismatch => {
                    &&& self.done < self.updates.len()
                    &&& self.sent == LINE_LENGTH
                    &&& error == transaction_mismatch()
                },
                ErrorKind::Io => true,
                ErrorKind::Protocol(_) => false,
            },
        }
    }

    /// What holds of every state that a batch goes through.
    pub open spec fn wf(self) -> bool {
        &&& self.done <= self.updates.len() <= usize::MAX
        &&& self.sent <= LINE_LENGTH
        &&& self.sent > 0 ==> self.done < self.updates.len() && self.updates[self.done as int].refusal()
            is None
        &&& match self.phase {
            Phase::Idle | Phase::Opening => {
                &&& self.device is Some
                &&& self.done == 0
                &&& self.sent == 0
                &&& self.failure is None
            },
            Phase::Writing => {
                &&& self.device is Some
                &&& self.done < self.updates.len()
                &&& self.updates[self.done as int].refusal() is None
                &&& self.sent < LINE_LENGTH
                &&& self.failure is None
            },
            Phase::Reading => {
                &&& self.device is Some
                &&& self.done < self.updates.len()
                &&& self.updates[self.done as int].refusal() is None
                &&& self.sent == LINE_LENGTH
                &&& self.failure is None
            },
            Phase::Closing => self.device is None && self.settled(),
            Phase::Finished => self.device is None && self.settled(),
        }
    }

    /// Whether `reply` answers the request that is pending, within what the
    /// transport may answer: no more bytes written than were handed to it.
    pub open spec fn expects(self, reply: Reply) -> bool {
        match self.phase {
            Phase::Idle => false,
            Phase::Opening => reply is Opened,
            Phase::Writing => reply matches Reply::Written(answer) && (answer matches Ok(count)
                ==> count <= LINE_LENGTH - self.sent),
            Phase::Reading => reply is Received,
            Phase::Closing => reply is Closed,
            Phase::Finished => false,
        }
    }

    /// The batch ends with `failure`: the device is given up and asked to be
    /// closed.
    pub open spec fn end(self, failure: Option<ErrorView>) -> (ForwarderView, ActionView) {
        (
            ForwarderView { phase: Phase::Closing, failure, device: None, ..self },
            ActionView::Perform(RequestView::Close { fd: self.fd() }),
        )
    }

    /// The batch turns to the update at `done`: when none is left the batch
    /// ends well, an update that is refused ends it with the refusal, and
    /// else its line is asked to be written.
    pub open spec fn turn(self) -> (ForwarderView, ActionView) {
        if self.done >= self.updates.len() {
            self.end(None)
        } else {
            match self.updates[self.done as int].refusal() {
                Some(refused) => self.end(Some(refused.error())),
                None => (
                    ForwarderView { phase: Phase::Writing, sent: 0, ..self },
                    ActionView::Perform(RequestView::Write { fd: self.fd(), data: self.line() }),
                ),
            }
        }
    }

    /// The first step: the device is asked to be opened.
    pub open spec fn first(self) -> (ForwarderView, ActionView) {
        (
            ForwarderView { phase: Phase::Opening, ..self },
            ActionView::Perform(
                RequestView::Open { path: self.device->0.path, baudrate: self.device->0.baudrate },
            ),
        )
    }

    /// The state after `reply` and the action that follows it.
    pub open spec fn next(self, reply: Reply) -> (ForwarderView, ActionView) {
        match (self.phase, reply) {
            (Phase::Opening, Reply::Opened(Ok(fd))) => ForwarderView {
                device: Some(SerialDeviceView { fd, ..self.device->0 }),
                ..self
            }.turn(),
            (Phase::Opening, Reply::Opened(Err(fault))) => (
                ForwarderView {
                    phase: Phase::Finished,
                    device: None,
                    failure: Some(io_failure(fault.text())),
                    ..self
                },
                ActionView::Finish(Err(io_failure(fault.text()))),
            ),
            (Phase::Writing, Reply::Written(Ok(count))) => if count == 0 {
                self.end(Some(io_failure(write_zero())))
            } else if self.sent + count < LINE_LENGTH {
                (
                    ForwarderView { sent: (self.sent + count) as usize, ..self },
                    ActionView::Perform(
                        RequestView::Write {
                            fd: self.fd(),
                            data: self.line().subrange(self.sent + count, LINE_LENGTH as int),
                        },
                    ),
                )
            } else {
                (
                    ForwarderView { phase: Phase::Reading, sent: LINE_LENGTH, ..self },
                    ActionView::Perform(RequestView::Read { fd: self.fd(), capacity: LINE_LENGTH }),
                )
            },
            (Phase::Writing, Reply::Written(Err(fault))) => self.end(
                Some(io_failure(fault.text())),
            ),
            (Phase::Reading, Reply::Received(Ok(data))) => if data@.len() < LINE_LENGTH {
                self.end(Some(io_failure(short_read())))
            } else if data@ == self.line() {
                ForwarderView { done: (self.done + 1) as usize, sent: 0, ..self }.turn()
            } else {
                self.end(Some(transaction_mismatch()))
            },
            (Phase::Reading, Reply::Received(Err(fault))) => self.end(
                Some(io_failure(fault.text())),
            ),
            (Phase::Closing, Reply::Closed(_)) => (
                ForwarderView { phase: Phase::Finished, ..self },
                ActionView::Finish(
                    match self.failure {
                        None => Ok(()),
                        Some(error) => Err(error),
                    },
                ),
            ),
            _ => arbitrary(),
        }
    }
}

/// The lines of the first `count` of `updates`, one after the other.
pub open spec fn lines(updates: Seq<Update>, count: nat) -> Seq<u8>
    decreases count,
{
    if count == 0 {
        Seq::empty()
    } else {
        lines(updates, (count - 1) as nat) + updates[count - 1].wire_bytes()
    }
}

/// The bytes that the transport takes when it answers `action` with `reply`:
/// of the data of a write, as many bytes as it says to have written.
pub open spec fn taken(action: ActionView, reply: Reply) -> Seq<u8> {
    match (action, reply) {
        (
            ActionView::Perform(RequestView::Write { fd, data }),
            Reply::Written(Ok(count)),
        ) => data.subrange(0, count as int),
        _ => Seq::empty(),
    }
}

impl ForwarderView {
    /// The bytes that stand for how far the batch has come: the lines of the
    /// acknowledged updates and the written part of the current line.
    pub open spec fn transmitted(self) -> Seq<u8> {
        lines(self.updates, self.done as nat) + if self.sent > 0 {
            self.line().subrange(0, self.sent as int)
        } else {
            Seq::empty()
        }
    }

    /// Whether the batch has ended.
    pub open spec fn ended(self) -> bool {
        self.phase == Phase::Closing || self.phase == Phase::Finished
    }

    /// Whether `action` is what is pending in this state as far as writing
    /// goes: while a line is being written, the write of the rest of the
    /// line, and no write at any other time.
    pub open spec fn awaits(self, action: ActionView) -> bool {
        if self.phase == Phase::Writing {
            action == ActionView::Perform(
                RequestView::Write {
                    fd: self.fd(),
                    data: self.line().subrange(self.sent as int, LINE_LENGTH as int),
                },
            )
        } else {
            !(action matches ActionView::Perform(RequestView::Write { .. }))
        }
    }

    /// The state of a batch that is started in this state and has had
    /// `replies`, and the action that is pending then.
    pub open spec fn progress(self, replies: Seq<Reply>) -> (ForwarderView, ActionView)
        decreases replies.len(),
    {
        if replies.len() == 0 {
            self.first()
        } else {
            self.progress(replies.drop_last()).0.next(replies.last())
        }
    }

    /// Whether each of `replies` answers the request that is pending where
    /// the reply arrives.
    pub open spec fn answered_by(self, replies: Seq<Reply>) -> bool
        decreases replies.len(),
    {
        replies.len() == 0 || (self.answered_by(replies.drop_last()) && self.progress(
            replies.drop_last(),
        ).0.expects(replies.last()))
    }

    /// The bytes that the transport has taken over `replies`, in order.
    pub open spec fn accepted(self, replies: Seq<Reply>) -> Seq<u8>
        decreases replies.len(),
    {
        if replies.len() == 0 {
            Seq::empty()
        } else {
            self.accepted(replies.drop_last()) + taken(
                self.progress(replies.drop_last()).1,
                replies.last(),
            )
        }
    }

    /// The handles that were asked to be closed over `replies`, in order.
    pub open spec fn closed(self, replies: Seq<Reply>) -> Seq<i64>
        decreases replies.len(),
    {
        if replies.len() == 0 {
            Seq::empty()
        } else {
            let before = self.closed(replies.drop_last());
            match self.progress(replies).1 {
                ActionView::Perform(RequestView::Close { fd }) => before.push(fd),
                _ => before,
            }
        }
    }

    /// A step keeps the batch well-formed and its updates as they are, hands
    /// out a write exactly for the rest of the line that is being written,
    /// and adds to what the batch has transmitted exactly what the transport
    /// took.
    pub proof fn lemma_next(self, action: ActionView, reply: Reply)
        requires
            self.wf(),
            self.awaits(action),
            self.expects(reply),
        ensures
            self.next(reply).0.wf(),
            self.next(reply).0.updates == self.updates,
            self.next(reply).0.awaits(self.next(reply).1),
            self.next(reply).0.transmitted() == self.transmitted() + taken(action, reply),
    {
        let after = self.next(reply).0;
        let line = self.line();
        assert(after.line().subrange(0, LINE_LENGTH as int) =~= after.line());
        assert(line.subrange(0, LINE_LENGTH as int) =~= line);
        if let (Phase::Writing, Reply::Written(Ok(count))) = (self.phase, reply) {
            assert(line.subrange(0, self.sent + count) =~= line.subrange(0, self.sent as int)
                + line.subrange(self.sent as int, self.sent + count));
            assert(taken(action, reply) =~= line.subrange(self.sent as int, self.sent + count));
        }
        assert(after.transmitted() =~= self.transmitted() + taken(action, reply));
    }

    /// What the transport takes in the course of a batch is, at every point,
    /// the lines of the acknowledged updates in their order and the written
    /// part of the current line: nothing is skipped, repeated or sent ahead.
    pub proof fn lemma_progress(self, replies: Seq<Reply>)
        requires
            self.wf(),
            self.phase == Phase::Idle,
            self.answered_by(replies),
        ensures
            self.progress(replies).0.wf(),
            self.progress(replies).0.phase != Phase::Idle,
            self.progress(replies).0.updates == self.updates,
            self.progress(replies).0.awaits(self.progress(replies).1),
            self.accepted(replies) == self.progress(replies).0.transmitted(),
        decreases replies.len(),
    {
        if replies.len() == 0 {
            assert(self.first().0.transmitted() =~= Seq::<u8>::empty());
        } else {
            let before = self.progress(replies.drop_last());
            self.lemma_progress(replies.drop_last());
            before.0.lemma_next(before.1, replies.last());
        }
    }

    /// Replies that answer a batch answer it up to any point.
    pub proof fn lemma_answered_by_prefix(self, replies: Seq<Reply>, later: Seq<Reply>)
        requires
            self.answered_by(replies + later),
        ensures
            self.answered_by(replies),
        decreases later.len(),
    {
        if later.len() == 0 {
            assert(replies + later =~= replies);
        } else {
            assert((replies + later).drop_last() =~= replies + later.drop_last());
            self.lemma_answered_by_prefix(replies, later.drop_last());
        }
    }

    /// Once a batch has ended, the transport takes nothing more, whatever it
    /// answers, no handle is asked to be closed, and the failure and the
    /// count of acknowledged updates stay as they are.
    pub proof fn lemma_ended_stays(self, replies: Seq<Reply>, later: Seq<Reply>)
        requires
            self.wf(),
            self.phase == Phase::Idle,
            self.answered_by(replies + later),
            self.progress(replies).0.ended(),
        ensures
            self.progress(replies + later).0.ended(),
            self.progress(replies + later).0.failure == self.progress(replies).0.failure,
            self.progress(replies + later).0.done == self.progress(replies).0.done,
            self.accepted(replies + later) == self.accepted(replies),
            self.closed(replies + later) == self.closed(replies),
        decreases later.len(),
    {
        if later.len() == 0 {
            assert(replies + later =~= replies);
        } else {
            let all = replies + later;
            assert(all.drop_last() =~= replies + later.drop_last());
            assert(all.last() == later.last());
            self.lemma_ended_stays(replies, later.drop_last());
            self.lemma_progress(all.drop_last());
            let before = self.progress(all.drop_last());
            assert(taken(before.1, all.last()) =~= Seq::<u8>::empty());
            assert(self.accepted(all) =~= self.accepted(replies));
        }
    }

    /// Batch abort. When a batch has ended with a failure, the transport has
    /// taken the lines of the updates before the failing one, in their
    /// order, then what was written of the failing update's own line, and
    /// nothing of the updates after it, whatever it answers later. An update
    /// that is refused has nothing of its line sent, and the failure is its
    /// refusal. An echo that differs fails the update whose whole line was
    /// sent last. The failure is the outcome that is handed out once the
    /// device is closed.
    pub proof fn lemma_batch_abort(self, replies: Seq<Reply>, later: Seq<Reply>)
        requires
            self.wf(),
            self.phase == Phase::Idle,
            self.answered_by(replies + later),
            self.progress(replies).0.failure is Some,
        ensures
            ({
                let end = self.progress(replies).0;
                let error = end.failure->0;
                let failing = end.done as int;
                &&& end.ended()
                &&& self.accepted(replies) == end.transmitted()
                &&& error.kind matches ErrorKind::Validation(refused) ==> {
                    &&& failing < self.updates.len()
                    &&& self.updates[failing].refusal() == Some(refused)
                    &&& error == refused.error()
                    &&& self.accepted(replies) == lines(self.updates, failing as nat)
                }
                &&& error.kind == ErrorKind::TransactionMismatch ==> {
                    &&& failing < self.updates.len()
                    &&& error == transaction_mismatch()
                    &&& self.accepted(replies) == lines(self.updates, (failing + 1) as nat)
                }
                &&& self.accepted(replies + later) == self.accepted(replies)
                &&& self.progress(replies + later).0.failure == Some(error)
                &&& end.phase == Phase::Closing ==> forall|reply: Reply| #[trigger]
                    end.expects(reply) ==> end.next(reply).1 == ActionView::Finish(Err(error))
            }),
    {
        let end = self.progress(replies).0;
        self.lemma_answered_by_prefix(replies, later);
        self.lemma_progress(replies);
        self.lemma_ended_stays(replies, later);
        let failing = end.done as int;
        if end.failure->0.kind == ErrorKind::TransactionMismatch {
            assert(end.line().subrange(0, LINE_LENGTH as int) =~= end.line());
            assert(end.transmitted() =~= lines(self.updates, (failing + 1) as nat));
        }
        if end.failure->0.kind is Validation {
            assert(end.transmitted() =~= lines(self.updates, failing as nat));
        }
    }

    /// A batch that has ended without a failure has had every update
    /// acknowledged: the transport has taken the lines of all updates, in
    /// their order, and the outcome that is handed out once the device is
    /// closed is success.
    pub proof fn lemma_batch_success(self, replies: Seq<Reply>)
        requires
            self.wf(),
            self.phase == Phase::Idle,
            self.answered_by(replies),
            self.progress(replies).0.ended(),
            self.progress(replies).0.failure is None,
        ensures
            ({
                let end = self.progress(replies).0;
                &&& end.done == self.updates.len()
                &&& self.accepted(replies) == lines(self.updates, self.updates.len())
                &&& end.phase == Phase::Closing ==> forall|reply: Reply| #[trigger]
                    end.expects(reply) ==> end.next(reply).1 == ActionView::Finish(Ok(()))
            }),
    {
        let end = self.progress(replies).0;
        self.lemma_progress(replies);
        assert(end.transmitted() =~= lines(self.updates, self.updates.len()));
    }

    /// A device is opened once: the first action asks to open it, and no
    /// action after a reply does.
    pub proof fn lemma_opened_once(self, replies: Seq<Reply>)
        requires
            self.wf(),
            self.phase == Phase::Idle,
            self.answered_by(replies),
        ensures
            self.progress(replies).1 matches ActionView::Perform(RequestView::Open { .. })
                <==> replies.len() == 0,
    {
        if replies.len() > 0 {
            self.lemma_progress(replies.drop_last());
        }
    }

    /// A device is closed once. No handle is asked to be closed while the
    /// device is in use or when it could not be opened. Once the batch has
    /// ended after the device was opened, exactly the handle that the
    /// transport gave has been asked to be closed, a single time.
    pub proof fn lemma_closed_once(self, replies: Seq<Reply>)
        requires
            self.wf(),
            self.phase == Phase::Idle,
            self.answered_by(replies),
        ensures
            ({
                let end = self.progress(replies).0;
                if replies.len() == 0 {
                    end.phase == Phase::Opening && self.closed(replies) == Seq::<i64>::empty()
                } else {
                    match replies[0] {
                        Reply::Opened(Ok(fd)) => if end.ended() {
                            self.closed(replies) == seq![fd]
                        } else {
                            &&& end.phase == Phase::Writing || end.phase == Phase::Reading
                            &&& end.device == Some(SerialDeviceView { fd, ..self.device->0 })
                            &&& self.closed(replies) == Seq::<i64>::empty()
                        },
                        _ => end.phase == Phase::Finished && self.closed(replies) == Seq::<
                            i64,
                        >::empty(),
                    }
                }
            }),
        decreases replies.len(),
    {
        if replies.len() > 0 {
            let earlier = replies.drop_last();
            self.lemma_closed_once(earlier);
            self.lemma_progress(earlier);
            if earlier.len() > 0 {
                assert(earlier[0] == replies[0]);
            }
        }
    }
}

impl View for Forwarder {
    type V = ForwarderView;

    closed spec fn view(&self) -> ForwarderView {
        ForwarderView {
            updates: self.updates@,
            device: match self.device {
                Some(device) => Some(device@),
                None => None,
            },
            done: self.done,
            sent: self.sent,
            phase: self.phase,
            failure: self.reported@,
        }
    }
}

/// A failure as a mathematical value.
pub open spec fn failure_view(failure: Option<Error>) -> Option<ErrorView> {
    match failure {
        Some(error) => Some(error@),
        None => None,
    }
}

/// Whether `a` and `b` hold the same bytes.
fn same_bytes(a: &Vec<u8>, b: &Vec<u8>) -> (same: bool)
    ensures
        same == (a@ == b@),
{
    if a.len() != b.len() {
        return false;
    }
    let mut i: usize = 0;
    while i < a.len()
        invariant
            i <= a@.len(),
            a@.len() == b@.len(),
            forall|j: int| 0 <= j < i ==> a@[j] == b@[j],
        decreases a@.len() - i,
    {
        if a[i] != b[i] {
            return false;
        }
        i = i + 1;
    }
    assert(a@ =~= b@);
    true
}

impl Forwarder {
    /// What holds of a forwarder between the calls of its methods.
    pub closed spec fn wf(&self) -> bool {
        &&& self@.wf()
        &&& (self.phase == Phase::Writing || self.phase == Phase::Reading) ==> self.line@
            == self@.line()
        &&& match self.failure {
            Some(error) => self.phase == Phase::Closing && self.reported@ == Some(error@),
            None => self.phase == Phase::Closing ==> self.reported@ is None,
        }
    }

    /// Prepares the forwarding of `updates` to `device`.
    pub fn new(device: SerialDevice, updates: Vec<Update>) -> (forwarder: Forwarder)
        ensures
            forwarder.wf(),
            forwarder@ == (ForwarderView {
                updates: updates@,
                device: Some(device@),
                done: 0,
                sent: 0,
                phase: Phase::Idle,
                failure: None,
            }),
    {
        assert(updates@.len() == updates.len());
        Forwarder {
            updates,
            device: Some(device),
            done: 0,
            sent: 0,
            line: Vec::new(),
            phase: Phase::Idle,
            failure: None,
            reported: Ghost(None),
        }
    }

    /// Where the batch stands.
    pub fn phase(&self) -> (phase: Phase)
        ensures
            phase == self@.phase,
    {
        self.phase
    }

    /// The number of updates that the controller has acknowledged.
    pub fn transacted(&self) -> (done: usize)
        ensures
            done == self@.done,
    {
        self.done
    }

    /// Whether `reply` answers the request that is pending; see
    /// [`ForwarderView::expects`].
    pub fn expects(&self, reply: &Reply) -> (expected: bool)
        requires
            self.wf(),
        ensures
            expected == self@.expects(*reply),
    {
        match self.phase {
            Phase::Idle => false,
            Phase::Opening => match reply {
                Reply::Opened(_) => true,
                _ => false,
            },
            Phase::Writing => match reply {
                Reply::Written(Ok(count)) => *count <= LINE_LENGTH - self.sent,
                Reply::Written(Err(_)) => true,
                _ => false,
            },
            Phase::Reading => match reply {
                Reply::Received(_) => true,
                _ => false,
            },
            Phase::Closing => match reply {
                Reply::Closed(_) => true,
                _ => false,
            },
            Phase::Finished => false,
        }
    }

    /// Ends the batch with `failure`.
    fn end(&mut self, failure: Option<Error>) -> (action: Action)
        requires
            old(self).device is Some,
            old(self).failure is None,
            old(self)@.end(failure_view(failure)).0.wf(),
        ensures
            final(self).wf(),
            (final(self)@, action@) == old(self)@.end(failure_view(failure)),
    {
        self.reported = Ghost(failure_view(failure));
        self.failure = failure;
        self.phase = Phase::Closing;
        let device = self.device.take().unwrap();
        Action::Perform(device.close())
    }

    /// Turns to the update at `done`.
    fn turn(&mut self) -> (action: Action)
        requires
            old(self).device is Some,
            old(self).failure is None,
            old(self).reported@ is None,
            old(self).done <= old(self).updates@.len(),
            old(self).sent == 0,
        ensures
            final(self).wf(),
            (final(self)@, action@) == old(self)@.turn(),
    {
        if self.done >= self.updates.len() {
            return self.end(None);
        }
        // Serialize and send the message
        let update = self.updates[self.done];
        match update.wire_line() {
            Ok(line) => {
                proof {
                    update.lemma_wire_bytes_encode_text();
                }
                let request = self.device.as_ref().unwrap().write(line.as_slice());
                self.line = line;
                self.phase = Phase::Writing;
                Action::Perform(request)
            },
            Err(error) => self.end(Some(error)),
        }
    }

    /// Hands out the first action: the device is to be opened.
    pub fn start(&mut self) -> (action: Action)
        requires
            old(self).wf(),
            old(self)@.phase == Phase::Idle,
        ensures
            final(self).wf(),
            (final(self)@, action@) == old(self)@.first(),
    {
        self.phase = Phase::Opening;
        Action::Perform(self.device.as_ref().unwrap().open())
    }

    /// Takes the transport's answer to the request that was handed out last
    /// and hands out the next action.
    pub fn step(&mut self, reply: Reply) -> (action: Action)
        requires
            old(self).wf(),
            old(self)@.expects(reply),
        ensures
            final(self).wf(),
            (final(self)@, action@) == old(self)@.next(reply),
    {
        match reply {
            Reply::Opened(answer) => {
                let mut device = self.device.take().unwrap();
                match device.opened(answer) {
                    Ok(_) => {
                        self.device = Some(device);
                        self.turn()
                    },
                    Err(error) => {
                        self.reported = Ghost(Some(error@));
                        self.phase = Phase::Finished;
                        Action::Finish(Err(error))
                    },
                }
            },
            Reply::Written(answer) => {
                // Go on until the whole line is written
                match SerialDevice::written(LINE_LENGTH - self.sent, answer) {
                    Ok(left) => {
                        self.sent = LINE_LENGTH - left;
                        let device = self.device.as_ref().unwrap();
                        if left > 0 {
                            let rest = slice_subrange(self.line.as_slice(), self.sent, LINE_LENGTH);
                            Action::Perform(device.write(rest))
                        } else {
                            // Await response
                            self.phase = Phase::Reading;
                            Action::Perform(device.read(LINE_LENGTH))
                        }
                    },
                    Err(error) => self.end(Some(error)),
                }
            },
            Reply::Received(answer) => {
                assert(self.phase == Phase::Reading);
                match SerialDevice::received(answer) {
                    Ok(response) => {
                        // Ensure that our response is equal to our request
                        if response.len() < LINE_LENGTH {
                            self.end(
                                Some(
                                    Error::with(
                                        ErrorKind::Io,
                                        "failed to fill whole buffer",
                                        "failed to fill whole buffer",
                                    ),
                                ),
                            )
                        } else if same_bytes(&response, &self.line) {
                            assert(self.done < self.updates.len());
                            self.done = self.done + 1;
                            self.sent = 0;
                            self.turn()
                        } else {
                            self.end(
                                Some(Error::new(ErrorKind::TransactionMismatch, "Transaction failed")),
                            )
                        }
                    },
                    Err(error) => self.end(Some(error)),
                }
            },
            Reply::Closed(_) => {
                self.phase = Phase::Finished;
                match self.failure.take() {
                    Some(error) => Action::Finish(Err(error)),
                    None => Action::Finish(Ok(())),
                }
            },
            Reply::Flushed(_) => unreached(),
        }
    }
}

} // verus!
