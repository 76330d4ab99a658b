//! The pseudo-terminal bridge: the state of the dedicated I/O loop that owns
//! one secure-shell channel.
//!
//! The loop alternately drains the command queue and services the channel.
//! Because the channel's write may accept only part of a buffer or none of
//! it, the loop keeps at most one *pending write* — a buffer and the offset
//! up to which the channel has accepted it — and never stages a new write
//! before the pending one has drained. The surrounding worker thread performs
//! the actual channel calls and feeds their outcomes back in; every decision,
//! and the bookkeeping that the channel receives each staged buffer exactly
//! once and in order, is made and proved here.

use vstd::prelude::*;

verus! {

/// A command for the I/O loop, consumed in the order enqueued.
#[derive(Debug)]
pub enum PtyCommand {
    /// Bytes for the remote shell.
    Write(Vec<u8>),
    /// A terminal-size change to apply to the pseudo-terminal.
    Resize { width: u32, height: u32 },
    /// Close the channel and end the loop.
    Close,
}

/// Specification counterpart of [`PtyCommand`].
pub enum PtyCommandS {
    Write(Seq<u8>),
    Resize { width: u32, height: u32 },
    Close,
}

impl View for PtyCommand {
    type V = PtyCommandS;

    open spec fn view(&self) -> PtyCommandS {
        match self {
            PtyCommand::Write(d) => PtyCommandS::Write(d@),
            PtyCommand::Resize { width, height } => PtyCommandS::Resize {
                width: *width,
                height: *height,
            },
            PtyCommand::Close => PtyCommandS::Close,
        }
    }
}

/// A write admitted to the loop but not yet fully accepted by the channel:
/// the buffer and the offset up to which it has been accepted.
#[derive(Debug)]
pub struct PendingWrite {
    pub data: Vec<u8>,
    pub offset: usize,
}

/// What the loop decided after looking at one command-queue poll.
#[derive(Debug)]
pub enum PollOutcome {
    /// A write was staged; stop draining and go flush it.
    Staged,
    /// Apply this size to the pseudo-terminal now, then keep draining.
    ResizeNow { width: u32, height: u32 },
    /// Close the channel and end the loop.
    CloseNow,
    /// The queue was empty; go service the channel.
    Idle,
}

/// The outcome of one channel write attempt, as the worker observed it.
#[derive(Debug)]
pub enum WriteOutcome {
    /// The channel accepted this many bytes of the unsent suffix.
    Accepted(usize),
    /// The channel could accept nothing right now; retry after a backoff.
    WouldBlock,
    /// The write failed for good.
    Failed,
}

/// The concatenation of a sequence of byte chunks, in order.
pub open spec fn concat_all(chunks: Seq<Seq<u8>>) -> Seq<u8>
    decreases chunks.len(),
{
    if chunks.len() == 0 {
        Seq::empty()
    } else {
        concat_all(chunks.drop_last()) + chunks.last()
    }
}

/// The state of one I/O loop.
pub struct PtyIoLoop {
    pending: Option<PendingWrite>,
    done: bool,
    staged: Ghost<Seq<Seq<u8>>>,
    emitted: Ghost<Seq<u8>>,
    forwarded: Ghost<Seq<Seq<u8>>>,
}

impl PtyIoLoop {
    /// The pending write: buffer contents and accepted offset.
    pub closed spec fn pending(&self) -> Option<(Seq<u8>, int)> {
        match self.pending {
            Some(pw) => Some((pw.data@, pw.offset as int)),
            None => None,
        }
    }

    /// Whether the loop has terminated. Once true, no further command is
    /// processed for this bridge instance.
    pub closed spec fn done(&self) -> bool {
        self.done
    }

    /// Every buffer staged from a `Write` command, in order.
    pub closed spec fn staged(&self) -> Seq<Seq<u8>> {
        self.staged@
    }

    /// Every byte the channel has accepted, in order.
    pub closed spec fn emitted(&self) -> Seq<u8> {
        self.emitted@
    }

    /// Every output chunk handed to the output queue, in order.
    pub closed spec fn forwarded(&self) -> Seq<Seq<u8>> {
        self.forwarded@
    }

    /// The loop's invariant: the bytes the channel has accepted are exactly
    /// the concatenation of the fully drained buffers, followed by the
    /// accepted prefix of the pending one.
    pub open spec fn wf(&self) -> bool {
        match self.pending() {
            None => self.emitted() == concat_all(self.staged()),
            Some((data, offset)) => {
                &&& self.staged().len() > 0
                &&& self.staged().last() == data
                &&& 0 <= offset < data.len()
                &&& self.emitted() == concat_all(self.staged().drop_last()) + data.take(offset)
            },
        }
    }

    /// A fresh loop: nothing staged, nothing accepted, nothing forwarded.
    pub fn new() -> (r: PtyIoLoop)
        ensures
            r.wf(),
            !r.done(),
            r.pending() is None,
            r.staged() == Seq::<Seq<u8>>::empty(),
            r.emitted() == Seq::<u8>::empty(),
            r.forwarded() == Seq::<Seq<u8>>::empty(),
    {
        let r = PtyIoLoop {
            pending: None,
            done: false,
            staged: Ghost(Seq::empty()),
            emitted: Ghost(Seq::empty()),
            forwarded: Ghost(Seq::empty()),
        };
        proof {
            assert(concat_all(r.staged()) =~= Seq::<u8>::empty());
        }
        r
    }

    /// Whether a write is pending; the worker flushes it before draining
    /// further commands.
    pub fn has_pending(&self) -> (r: bool)
        ensures
            r == (self.pending() is Some),
    {
        self.pending.is_some()
    }

    /// Whether the loop has terminated.
    pub fn is_done(&self) -> (r: bool)
        ensures
            r == self.done(),
    {
        self.done
    }

    /// The unsent suffix of the pending write, for the worker to offer to
    /// the channel.
    pub fn write_chunk(&self) -> (r: Vec<u8>)
        requires
            self.wf(),
            self.pending() is Some,
        ensures
            r@ == self.pending()->Some_0.0.skip(self.pending()->Some_0.1),
            r@.len() > 0,
    {
        let pw = match &self.pending {
            Some(pw) => pw,
            None => {
                proof {
                    assert(false);
                }
                unreached()
            },
        };
        let mut r: Vec<u8> = Vec::new();
        let mut i: usize = pw.offset;
        while i < pw.data.len()
            invariant
                pw.offset <= i <= pw.data@.len(),
                r@ == pw.data@.subrange(pw.offset as int, i as int),
            decreases pw.data@.len() - i,
        {
            r.push(pw.data[i]);
            i = i + 1;
        }
        proof {
            assert(r@ =~= pw.data@.skip(pw.offset as int));
        }
        r
    }

    /// Takes the result of one command-queue poll and decides what to do,
    /// exactly as the drain step of the loop does: a `Write` is staged (at
    /// most one per iteration), a `Resize` is applied immediately while
    /// draining continues, a `Close` terminates the loop.
    pub fn on_command(&mut self, cmd: Option<PtyCommand>) -> (r: PollOutcome)
        requires
            old(self).wf(),
            !old(self).done(),
            old(self).pending() is None,
        ensures
            final(self).wf(),
            final(self).emitted() == old(self).emitted(),
            final(self).forwarded() == old(self).forwarded(),
            match cmd {
                None => {
                    &&& r is Idle
                    &&& *final(self) == *old(self)
                },
                Some(c) => match c@ {
                    PtyCommandS::Write(d) => {
                        &&& r is Staged
                        &&& final(self).staged() == old(self).staged().push(d)
                        &&& !final(self).done()
                        &&& if d.len() > 0 {
                            final(self).pending() == Some((d, 0int))
                        } else {
                            final(self).pending() is None
                        }
                    },
                    PtyCommandS::Resize { width, height } => {
                        &&& r == PollOutcome::ResizeNow { width, height }
                        &&& *final(self) == *old(self)
                    },
                    PtyCommandS::Close => {
                        &&& r is CloseNow
                        &&& final(self).done()
                        &&& final(self).pending() is None
                        &&& final(self).staged() == old(self).staged()
                    },
                },
            },
    {
        match cmd {
            None => PollOutcome::Idle,
            Some(PtyCommand::Write(d)) => {
                proof {
                    let ghost st = self.staged@.push(d@);
                    assert(st.drop_last() =~= self.staged@);
                    assert(concat_all(st) == concat_all(self.staged@) + d@);
                    if d@.len() == 0 {
                        assert(concat_all(self.staged@) + d@ =~= concat_all(self.staged@));
                    } else {
                        assert(d@.take(0) =~= Seq::<u8>::empty());
                        assert(concat_all(st.drop_last()) + d@.take(0) =~= concat_all(
                            self.staged@,
                        ));
                    }
                }
                self.staged = Ghost(self.staged@.push(d@));
                if d.len() > 0 {
                    self.pending = Some(PendingWrite { data: d, offset: 0 });
                }
                PollOutcome::Staged
            },
            Some(PtyCommand::Resize { width, height }) => PollOutcome::ResizeNow {
                width,
                height,
            },
            Some(PtyCommand::Close) => {
                self.done = true;
                PollOutcome::CloseNow
            },
        }
    }

    /// The command-queue producers are gone; the loop closes the channel and
    /// terminates, as on an explicit `Close`.
    pub fn on_producers_gone(&mut self)
        requires
            old(self).wf(),
        ensures
            final(self).wf(),
            final(self).done(),
            final(self).pending() == old(self).pending(),
            final(self).staged() == old(self).staged(),
            final(self).emitted() == old(self).emitted(),
            final(self).forwarded() == old(self).forwarded(),
    {
        self.done = true;
    }

    /// Takes the outcome of one write attempt on the unsent suffix. Partial
    /// acceptance advances the offset and keeps the buffer — it is never
    /// dropped before it has drained completely; a would-block keeps buffer
    /// and offset untouched; a failure terminates the loop.
    pub fn on_write_result(&mut self, outcome: WriteOutcome)
        requires
            old(self).wf(),
            !old(self).done(),
            old(self).pending() is Some,
            outcome is Accepted ==> outcome->Accepted_0 <= old(self).pending()->Some_0.0.len()
                - old(self).pending()->Some_0.1,
        ensures
            final(self).wf(),
            final(self).staged() == old(self).staged(),
            final(self).forwarded() == old(self).forwarded(),
            match outcome {
                WriteOutcome::Accepted(n) => {
                    let (data, offset) = old(self).pending()->Some_0;
                    &&& !final(self).done()
                    &&& final(self).emitted() == old(self).emitted() + data.subrange(
                        offset,
                        offset + n,
                    )
                    &&& if offset + n == data.len() {
                        final(self).pending() is None
                    } else {
                        final(self).pending() == Some((data, offset + n))
                    }
                },
                WriteOutcome::WouldBlock => *final(self) == *old(self),
                WriteOutcome::Failed => {
                    &&& final(self).done()
                    &&& final(self).emitted() == old(self).emitted()
                    &&& final(self).pending() == old(self).pending()
                },
            },
    {
        match outcome {
            WriteOutcome::Accepted(n) => {
                let pw = match &self.pending {
                    Some(pw) => pw,
                    None => {
                        proof {
                            assert(false);
                        }
                        unreached()
                    },
                };
                let data = pw.data.clone();
                let offset = pw.offset;
                let next = offset + n;
                proof {
                    let d = data@;
                    assert(d.take(offset as int) + d.subrange(offset as int, next as int) =~= d.take(
                        next as int,
                    ));
                    assert(self.emitted@ + d.subrange(offset as int, next as int) =~= concat_all(
                        self.staged@.drop_last(),
                    ) + d.take(next as int));
                }
                self.emitted = Ghost(
                    self.emitted@ + data@.subrange(offset as int, next as int),
                );
                if next == data.len() {
                    self.pending = None;
                    proof {
                        assert(data@.take(data@.len() as int) =~= data@);
                        assert(self.staged@ =~= self.staged@.drop_last().push(data@));
                        assert(concat_all(self.staged@) == concat_all(self.staged@.drop_last())
                            + data@);
                    }
                } else {
                    self.pending = Some(PendingWrite { data, offset: next });
                }
            },
            WriteOutcome::WouldBlock => {},
            WriteOutcome::Failed => {
                self.done = true;
            },
        }
    }

    /// Bytes arrived from the channel: they are forwarded to the output
    /// queue unmodified, in order.
    pub fn on_read_data(&mut self, data: &Vec<u8>)
        requires
            old(self).wf(),
            !old(self).done(),
        ensures
            final(self).wf(),
            final(self).forwarded() == old(self).forwarded().push(data@),
            final(self).staged() == old(self).staged(),
            final(self).emitted() == old(self).emitted(),
            final(self).pending() == old(self).pending(),
            !final(self).done(),
    {
        self.forwarded = Ghost(self.forwarded@.push(data@));
    }

    /// The channel reported end of file: the remote shell closed; the loop
    /// terminates.
    pub fn on_read_eof(&mut self)
        requires
            old(self).wf(),
        ensures
            final(self).wf(),
            final(self).done(),
            final(self).staged() == old(self).staged(),
            final(self).emitted() == old(self).emitted(),
            final(self).forwarded() == old(self).forwarded(),
            final(self).pending() == old(self).pending(),
    {
        self.done = true;
    }

    /// A read failed for good: the loop terminates.
    pub fn on_read_error(&mut self)
        requires
            old(self).wf(),
        ensures
            final(self).wf(),
            final(self).done(),
            final(self).staged() == old(self).staged(),
            final(self).emitted() == old(self).emitted(),
            final(self).forwarded() == old(self).forwarded(),
            final(self).pending() == old(self).pending(),
    {
        self.done = true;
    }

    /// The output queue's receiving end is gone: the loop terminates.
    pub fn on_forward_failed(&mut self)
        requires
            old(self).wf(),
        ensures
            final(self).wf(),
            final(self).done(),
            final(self).staged() == old(self).staged(),
            final(self).emitted() == old(self).emitted(),
            final(self).forwarded() == old(self).forwarded(),
            final(self).pending() == old(self).pending(),
    {
        self.done = true;
    }

    /// Ends the loop. Closing is idempotent: on a loop that has already
    /// terminated it changes nothing and raises no error.
    pub fn close(&mut self)
        requires
            old(self).wf(),
        ensures
            final(self).wf(),
            final(self).done(),
            final(self).staged() == old(self).staged(),
            final(self).emitted() == old(self).emitted(),
            final(self).forwarded() == old(self).forwarded(),
            final(self).pending() == old(self).pending(),
            old(self).done() ==> *final(self) == *old(self),
    {
        self.done = true;
    }

    /// Every staged buffer reaches the channel exactly once and in order:
    /// whenever no write is pending, the bytes the channel has accepted are
    /// exactly the concatenation of all staged buffers — nothing dropped,
    /// nothing duplicated, nothing reordered.
    pub proof fn lemma_writes_delivered(&self)
        requires
            self.wf(),
            self.pending() is None,
        ensures
            self.emitted() == concat_all(self.staged()),
    {
    }

    /// At every moment the channel has accepted a prefix of the staged
    /// bytes: mid-flush, the accepted bytes are the drained buffers followed
    /// by the accepted part of the pending one, still in order.
    pub proof fn lemma_no_reorder(&self)
        requires
            self.wf(),
        ensures
            self.emitted() == concat_all(self.staged()).take(self.emitted().len() as int),
    {
        match self.pending() {
            None => {
                assert(self.emitted() =~= concat_all(self.staged()).take(
                    self.emitted().len() as int,
                ));
            },
            Some((data, offset)) => {
                let pre = concat_all(self.staged().drop_last());
                assert(concat_all(self.staged()) == concat_all(self.staged().drop_last())
                    + self.staged().last());
                assert(self.emitted() =~= (pre + data).take(self.emitted().len() as int));
            },
        }
    }
}

} // verus!
