use std::collections::VecDeque;

use vstd::prelude::*;

use crate::error::{clone_io_error, disconnected_message, ErrorKind, IoError};
use crate::protocol::{Command, Event};

verus! {

broadcast use vstd::std_specs::vecdeque::group_vec_dequeue_axioms;

/// The answer to a read request of a given size.
#[derive(Debug)]
pub enum ReadStep {
    /// Exactly the requested bytes, taken from the front of the buffer.
    Ready(Vec<u8>),
    /// The sticky error, copied.
    Failed(IoError),
    /// Not enough bytes are buffered: wait for the next event.
    Pending,
}

/// The caller-side state of an open device: bytes taken out of the event
/// stream but not yet handed to a reader, and the sticky terminal error.
pub struct Adapter {
    pub buffer: VecDeque<u8>,
    pub error: Option<IoError>,
    /// Every byte of every `Data` event taken in, in arrival order.
    pub received: Ghost<Seq<u8>>,
    /// Every byte handed to a reader, in order.
    pub delivered: Ghost<Seq<u8>>,
}

impl Adapter {
    /// No byte is lost, duplicated or reordered between the event stream
    /// and the reader: what was delivered, followed by what is buffered, is
    /// exactly what was received.
    pub open spec fn wf(&self) -> bool {
        self.received@ == self.delivered@ + self.buffer@
    }

    /// Outcome of `accept_event`: data is appended to the buffer; an error
    /// becomes the sticky error unless one is already latched, and the
    /// latched error is returned.
    pub open spec fn event_step(pre: Adapter, ev: Event, post: Adapter, r: Result<(), IoError>) -> bool {
        match ev {
            Event::Data(bytes) => {
                &&& post.buffer@ == pre.buffer@ + bytes@
                &&& post.received@ == pre.received@ + bytes@
                &&& post.delivered == pre.delivered
                &&& post.error == pre.error
                &&& r is Ok
            },
            Event::Error(e) => {
                &&& post.buffer == pre.buffer
                &&& post.received == pre.received
                &&& post.delivered == pre.delivered
                &&& post.error == (if pre.error is Some { pre.error } else { Some(e) })
                &&& r matches Err(re) && re.same_as(&post.error->0)
            },
        }
    }

    /// Outcome of `channel_closed`: a disconnection error is latched unless
    /// an error already is, and the latched error is returned.
    pub open spec fn closed_step(pre: Adapter, post: Adapter, r: IoError) -> bool {
        &&& post.buffer == pre.buffer
        &&& post.received == pre.received
        &&& post.delivered == pre.delivered
        &&& match pre.error {
            Some(e) => post.error == pre.error,
            None => post.error matches Some(e) && e.kind == ErrorKind::Other && e.message@
                == disconnected_message(),
        }
        &&& post.error is Some
        &&& r.same_as(&post.error->0)
    }

    /// Outcome of `poll_read` for `want` bytes.
    pub open spec fn read_step(pre: Adapter, want: usize, post: Adapter, r: ReadStep) -> bool {
        match pre.error {
            Some(e) => post == pre && (r matches ReadStep::Failed(re) && re.same_as(&e)),
            None => if pre.buffer@.len() >= want {
                &&& r matches ReadStep::Ready(bytes)
                &&& bytes@ == pre.buffer@.take(want as int)
                &&& post.buffer@ == pre.buffer@.skip(want as int)
                &&& post.delivered@ == pre.delivered@ + bytes@
                &&& post.received == pre.received
                &&& post.error == pre.error
            } else {
                post == pre && r is Pending
            },
        }
    }

    /// Outcome of `poll_write`: the command that carries a copy of `data`,
    /// or the sticky error.
    pub open spec fn write_step(pre: Adapter, data: Seq<u8>, r: Result<Command, IoError>) -> bool {
        match pre.error {
            Some(e) => r matches Err(re) && re.same_as(&e),
            None => r matches Ok(Command::Send(bytes)) && bytes@ == data,
        }
    }

    /// Outcome of `poll_flush`: the `Flush` command, or the sticky error.
    pub open spec fn flush_step(pre: Adapter, r: Result<Command, IoError>) -> bool {
        match pre.error {
            Some(e) => r matches Err(re) && re.same_as(&e),
            None => r matches Ok(Command::Flush),
        }
    }

    /// An adapter with nothing buffered and no error.
    pub fn new() -> (r: Adapter)
        ensures
            r.wf(),
            r.buffer@ == Seq::<u8>::empty(),
            r.error is None,
            r.received@ == Seq::<u8>::empty(),
            r.delivered@ == Seq::<u8>::empty(),
    {
        Adapter {
            buffer: VecDeque::new(),
            error: None,
            received: Ghost(Seq::empty()),
            delivered: Ghost(Seq::empty()),
        }
    }

    /// The number of buffered bytes.
    pub fn buffered(&self) -> (r: usize)
        ensures
            r == self.buffer@.len(),
    {
        self.buffer.len()
    }

    /// A copy of the sticky error, if one is latched.
    pub fn sticky_error(&self) -> (r: Option<IoError>)
        ensures
            match self.error {
                Some(e) => r matches Some(re) && re.same_as(&e),
                None => r is None,
            },
    {
        match &self.error {
            Some(e) => Some(clone_io_error(e)),
            None => None,
        }
    }

    /// Takes one event from the worker.
    pub fn accept_event(&mut self, ev: Event) -> (r: Result<(), IoError>)
        requires
            old(self).wf(),
        ensures
            final(self).wf(),
            Self::event_step(*old(self), ev, *final(self), r),
    {
        match ev {
            Event::Data(bytes) => {
                let ghost start = self.buffer@;
                let mut i: usize = 0;
                while i < bytes.len()
                    invariant
                        i <= bytes@.len(),
                        self.buffer@ == start + bytes@.take(i as int),
                        self.error == old(self).error,
                        self.received == old(self).received,
                        self.delivered == old(self).delivered,
                    decreases bytes.len() - i,
                {
                    self.buffer.push_back(bytes[i]);
                    i = i + 1;
                    assert(self.buffer@ =~= start + bytes@.take(i as int));
                }
                assert(bytes@.take(i as int) =~= bytes@);
                self.received = Ghost(self.received@ + bytes@);
                assert(self.received@ =~= self.delivered@ + self.buffer@);
                Ok(())
            },
            Event::Error(e) => {
                if self.error.is_none() {
                    self.error = Some(e);
                }
                match &self.error {
                    Some(latched) => Err(clone_io_error(latched)),
                    None => Err(clone_io_error(&IoError::disconnected())),
                }
            },
        }
    }

    /// Records that the event channel has closed: the worker is gone.
    pub fn channel_closed(&mut self) -> (r: IoError)
        requires
            old(self).wf(),
        ensures
            final(self).wf(),
            Self::closed_step(*old(self), *final(self), r),
    {
        if self.error.is_none() {
            self.error = Some(IoError::disconnected());
        }
        match &self.error {
            Some(latched) => clone_io_error(latched),
            None => IoError::disconnected(),
        }
    }

    /// Answers a read of exactly `want` bytes: the sticky error if one is
    /// latched, else the first `want` buffered bytes if there are that
    /// many, else nothing yet (and nothing is taken).
    pub fn poll_read(&mut self, want: usize) -> (r: ReadStep)
        requires
            old(self).wf(),
        ensures
            final(self).wf(),
            Self::read_step(*old(self), want, *final(self), r),
    {
        if let Some(e) = &self.error {
            return ReadStep::Failed(clone_io_error(e));
        }
        if self.buffer.len() < want {
            return ReadStep::Pending;
        }
        let ghost start = self.buffer@;
        let mut out: Vec<u8> = Vec::new();
        while out.len() < want
            invariant
                out@.len() <= want <= start.len(),
                out@ == start.take(out@.len() as int),
                self.buffer@ == start.skip(out@.len() as int),
                self.error == old(self).error,
                self.received == old(self).received,
                self.delivered == old(self).delivered,
            decreases want - out@.len(),
        {
            let b = self.buffer.pop_front();
            match b {
                Some(x) => {
                    out.push(x);
                },
                None => {
                    assert(false);
                },
            }
            assert(out@ =~= start.take(out@.len() as int));
            assert(self.buffer@ =~= start.skip(out@.len() as int));
        }
        self.delivered = Ghost(self.delivered@ + out@);
        assert(start =~= start.take(want as int) + start.skip(want as int));
        assert(self.received@ =~= self.delivered@ + self.buffer@);
        ReadStep::Ready(out)
    }

    /// The `Send` command for a write of `data`, or the sticky error.
    pub fn poll_write(&self, data: &[u8]) -> (r: Result<Command, IoError>)
        ensures
            Self::write_step(*self, data@, r),
    {
        if let Some(e) = &self.error {
            return Err(clone_io_error(e));
        }
        let mut copy: Vec<u8> = Vec::new();
        let mut i: usize = 0;
        while i < data.len()
            invariant
                i <= data@.len(),
                copy@ == data@.take(i as int),
            decreases data.len() - i,
        {
            copy.push(data[i]);
            i = i + 1;
            assert(copy@ =~= data@.take(i as int));
        }
        assert(data@.take(i as int) =~= data@);
        Ok(Command::Send(copy))
    }

    /// The `Flush` command, or the sticky error.
    pub fn poll_flush(&self) -> (r: Result<Command, IoError>)
        ensures
            Self::flush_step(*self, r),
    {
        match &self.error {
            Some(e) => Err(clone_io_error(e)),
            None => Ok(Command::Flush),
        }
    }
}

/// What has been delivered to readers is always a prefix of what arrived
/// in `Data` events, and a read hands out exactly the next bytes of that
/// stream: none is dropped, duplicated or reordered.
pub proof fn lemma_reads_follow_arrival_order(pre: Adapter, want: usize, post: Adapter, r: ReadStep)
    requires
        pre.wf(),
        Adapter::read_step(pre, want, post, r),
    ensures
        post.wf(),
        post.delivered@ == post.received@.take(post.delivered@.len() as int),
        r matches ReadStep::Ready(bytes) ==> bytes@ == pre.received@.subrange(
            pre.delivered@.len() as int,
            pre.delivered@.len() + want,
        ),
{
    if let ReadStep::Ready(bytes) = r {
        assert(pre.buffer@ =~= pre.buffer@.take(want as int) + pre.buffer@.skip(want as int));
        assert(post.received@ =~= post.delivered@ + post.buffer@);
        assert(bytes@ =~= pre.received@.subrange(
            pre.delivered@.len() as int,
            pre.delivered@.len() + want,
        ));
    }
    assert(post.delivered@ =~= post.received@.take(post.delivered@.len() as int));
}

/// Bytes taken in by events are appended to the stream, in order.
pub proof fn lemma_events_append_in_order(pre: Adapter, ev: Event, post: Adapter, r: Result<(), IoError>)
    requires
        pre.wf(),
        Adapter::event_step(pre, ev, post, r),
    ensures
        post.wf(),
        ev matches Event::Data(bytes) ==> post.received@ == pre.received@ + bytes@,
{
    if let Event::Data(bytes) = ev {
        assert(post.received@ =~= post.delivered@ + post.buffer@);
    }
}

/// Once an error is latched, by an error event or by the channel
/// closing, a read and then a write both fail with an error of that same
/// kind and message, as does a flush, and the adapter is left as it was.
pub proof fn lemma_error_is_sticky(
    a0: Adapter,
    a1: Adapter,
    a2: Adapter,
    want: usize,
    data: Seq<u8>,
    rr: ReadStep,
    rw: Result<Command, IoError>,
    rf: Result<Command, IoError>,
)
    requires
        a0.wf(),
        a0.error is Some,
        Adapter::read_step(a0, want, a1, rr),
        Adapter::write_step(a1, data, rw),
        Adapter::flush_step(a1, rf),
    ensures
        a1 == a0,
        rr matches ReadStep::Failed(e) && e.same_as(&a0.error->0),
        rw matches Err(e) && e.same_as(&a0.error->0),
        rf matches Err(e) && e.same_as(&a0.error->0),
{
}

/// An error event latches an error whenever none was set, and keeps the
/// earlier one otherwise; a closed channel does the same.
pub proof fn lemma_errors_latch(
    pre: Adapter,
    e: IoError,
    post: Adapter,
    r: Result<(), IoError>,
)
    requires
        Adapter::event_step(pre, Event::Error(e), post, r),
    ensures
        post.error is Some,
        pre.error is None ==> post.error->0 == e,
        pre.error is Some ==> post.error == pre.error,
{
}

} // verus!
