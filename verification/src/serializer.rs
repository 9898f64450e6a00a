//! The send serializer: a FIFO queue of outbound payloads, each paired with
//! a single-use completion ticket, drained one entry at a time so that at
//! most one write is ever outstanding against the send characteristic.
//!
//! The queue and the drain decisions live here; the radio layer performs the
//! produced [`WriteCommand`]s and reports each outcome back through
//! [`write_completion`].

use vstd::prelude::*;

verus! {

/// Why a send failed.
#[derive(Clone, Copy, Debug, PartialEq, Eq)]
pub enum IoFailure {
    /// The underlying characteristic write returned an error.
    WriteFailed,
    /// The send characteristic supports neither write mode.
    Unwritable,
    /// The queue was closed before the payload could be handed off.
    QueueClosed,
    /// The serializer was torn down before it answered.
    WorkerGone,
}

/// The send-path error surfaced to `enqueue` callers.
#[derive(Clone, Copy, Debug, PartialEq, Eq)]
pub enum SendError {
    Io(IoFailure),
}

/// How a payload is written to the send characteristic.
#[derive(Clone, Copy, Debug, PartialEq, Eq)]
pub enum WriteMode {
    /// A write with response, preferred when supported.
    Acknowledged,
    /// A write without response, the fallback.
    Unacknowledged,
}

/// One write for the radio layer to perform.
#[derive(Debug)]
pub struct WriteCommand {
    pub payload: Vec<u8>,
    pub mode: WriteMode,
}

/// One queued send: the payload and the caller's completion ticket.
#[derive(Debug)]
pub struct SendEntry {
    pub payload: Vec<u8>,
    pub ticket: u64,
}

/// The serializer's queue: pending entries in hand-off order, a closed flag,
/// and the next fresh ticket.
pub struct SendQueue {
    pub entries: Vec<SendEntry>,
    pub closed: bool,
    pub next_ticket: u64,
}

/// The write mode chosen for the characteristic's capabilities: an
/// acknowledged write when supported, else a write without response, else
/// the send fails.
pub open spec fn planned_mode(can_write: bool, can_write_no_response: bool) -> Result<
    WriteMode,
    SendError,
> {
    if can_write {
        Ok(WriteMode::Acknowledged)
    } else if can_write_no_response {
        Ok(WriteMode::Unacknowledged)
    } else {
        Err(SendError::Io(IoFailure::Unwritable))
    }
}

/// The completion produced for ticket `ticket` and payload `payload` under
/// the given capabilities: the planned write carrying that payload, or the
/// unwritable error.
pub open spec fn transmission_matches(
    item: (u64, Result<WriteCommand, SendError>),
    ticket: u64,
    payload: Seq<u8>,
    can_write: bool,
    can_write_no_response: bool,
) -> bool {
    &&& item.0 == ticket
    &&& match planned_mode(can_write, can_write_no_response) {
        Ok(mode) => item.1 matches Ok(cmd) && cmd.payload@ == payload && cmd.mode == mode,
        Err(e) => item.1 matches Err(e2) && e2 == e,
    }
}

/// Picks the write mode for the send characteristic's capabilities.
pub fn plan_write(can_write: bool, can_write_no_response: bool) -> (r: Result<
    WriteMode,
    SendError,
>)
    ensures
        r == planned_mode(can_write, can_write_no_response),
{
    if can_write {
        Ok(WriteMode::Acknowledged)
    } else if can_write_no_response {
        Ok(WriteMode::Unacknowledged)
    } else {
        Err(SendError::Io(IoFailure::Unwritable))
    }
}

/// Turns the outcome the radio layer reports for one write into the
/// completion sent back to the waiting caller.
pub fn write_completion(write_ok: bool) -> (r: Result<(), SendError>)
    ensures
        r == (if write_ok {
            Ok::<(), SendError>(())
        } else {
            Err(SendError::Io(IoFailure::WriteFailed))
        }),
{
    if write_ok {
        Ok(())
    } else {
        Err(SendError::Io(IoFailure::WriteFailed))
    }
}

impl SendQueue {
    /// A fresh, open, empty queue.
    pub fn new() -> (q: SendQueue)
        ensures
            !q.closed,
            q.entries@.len() == 0,
            q.next_ticket == 0,
    {
        SendQueue { entries: Vec::new(), closed: false, next_ticket: 0 }
    }

    /// Hands a payload off to the serializer: appended at the back of the
    /// queue under a fresh ticket, or refused when the queue is closed.
    ///
    /// Entries are serviced in exactly this hand-off order, each exactly
    /// once, however many callers enqueue.
    pub fn enqueue(&mut self, payload: Vec<u8>) -> (r: Result<u64, SendError>)
        requires
            old(self).next_ticket < u64::MAX,
        ensures
            old(self).closed ==> {
                &&& r == Err::<u64, SendError>(SendError::Io(IoFailure::QueueClosed))
                &&& final(self).entries@ == old(self).entries@
                &&& final(self).closed
                &&& final(self).next_ticket == old(self).next_ticket
            },
            !old(self).closed ==> {
                &&& r == Ok::<u64, SendError>(old(self).next_ticket)
                &&& final(self).entries@.len() == old(self).entries@.len() + 1
                &&& final(self).entries@.drop_last() == old(self).entries@
                &&& final(self).entries@.last().ticket == old(self).next_ticket
                &&& final(self).entries@.last().payload@ == payload@
                &&& final(self).next_ticket == old(self).next_ticket + 1
                &&& !final(self).closed
            },
    {
        if self.closed {
            return Err(SendError::Io(IoFailure::QueueClosed));
        }
        let ticket = self.next_ticket;
        self.next_ticket = self.next_ticket + 1;
        self.entries.push(SendEntry { payload, ticket });
        proof {
            assert(self.entries@.drop_last() =~= old(self).entries@);
        }
        Ok(ticket)
    }

    /// Tears the queue down: later hand-offs are refused; entries already
    /// queued stay to be drained.
    pub fn close(&mut self)
        ensures
            final(self).closed,
            final(self).entries@ == old(self).entries@,
            final(self).next_ticket == old(self).next_ticket,
    {
        self.closed = true;
    }

    /// Takes the oldest pending entry, if any.
    pub fn dequeue(&mut self) -> (r: Option<SendEntry>)
        ensures
            old(self).entries@.len() == 0 ==> {
                &&& r is None
                &&& final(self).entries@ == old(self).entries@
            },
            old(self).entries@.len() > 0 ==> {
                &&& r == Some(old(self).entries@[0])
                &&& final(self).entries@ == old(self).entries@.skip(1)
            },
            final(self).closed == old(self).closed,
            final(self).next_ticket == old(self).next_ticket,
    {
        if self.entries.len() == 0 {
            return None;
        }
        let entry = self.entries.remove(0);
        proof {
            assert(self.entries@ =~= old(self).entries@.skip(1));
        }
        Some(entry)
    }

    /// The worker's step: takes the oldest entry and plans its write.
    ///
    /// Returns the entry's ticket with either the write to perform or the
    /// error to complete it with; `None` when the queue is drained.
    pub fn next_transmission(&mut self, can_write: bool, can_write_no_response: bool) -> (r:
        Option<(u64, Result<WriteCommand, SendError>)>)
        ensures
            old(self).entries@.len() == 0 ==> {
                &&& r is None
                &&& final(self).entries@ == old(self).entries@
            },
            old(self).entries@.len() > 0 ==> {
                &&& r matches Some(item) && transmission_matches(
                    item,
                    old(self).entries@[0].ticket,
                    old(self).entries@[0].payload@,
                    can_write,
                    can_write_no_response,
                )
                &&& final(self).entries@ == old(self).entries@.skip(1)
            },
            final(self).closed == old(self).closed,
            final(self).next_ticket == old(self).next_ticket,
    {
        match self.dequeue() {
            None => None,
            Some(entry) => {
                let outcome = match plan_write(can_write, can_write_no_response) {
                    Ok(mode) => Ok(WriteCommand { payload: entry.payload, mode }),
                    Err(e) => Err(e),
                };
                Some((entry.ticket, outcome))
            },
        }
    }

    /// Drains the whole queue: exactly one completion per pending entry, in
    /// hand-off order, each carrying that entry's own payload.
    pub fn service_all(&mut self, can_write: bool, can_write_no_response: bool) -> (completions:
        Vec<(u64, Result<WriteCommand, SendError>)>)
        ensures
            completions@.len() == old(self).entries@.len(),
            forall|k: int|
                0 <= k < completions@.len() ==> transmission_matches(
                    #[trigger] completions@[k],
                    old(self).entries@[k].ticket,
                    old(self).entries@[k].payload@,
                    can_write,
                    can_write_no_response,
                ),
            final(self).entries@.len() == 0,
            final(self).closed == old(self).closed,
            final(self).next_ticket == old(self).next_ticket,
    {
        let mut completions: Vec<(u64, Result<WriteCommand, SendError>)> = Vec::new();
        proof {
            assert(self.entries@ =~= old(self).entries@.skip(0));
        }
        loop
            invariant
                completions@.len() <= old(self).entries@.len(),
                self.entries@ == old(self).entries@.skip(completions@.len() as int),
                forall|k: int|
                    0 <= k < completions@.len() ==> transmission_matches(
                        #[trigger] completions@[k],
                        old(self).entries@[k].ticket,
                        old(self).entries@[k].payload@,
                        can_write,
                        can_write_no_response,
                    ),
                self.closed == old(self).closed,
                self.next_ticket == old(self).next_ticket,
            ensures
                completions@.len() == old(self).entries@.len(),
                self.entries@.len() == 0,
                forall|k: int|
                    0 <= k < completions@.len() ==> transmission_matches(
                        #[trigger] completions@[k],
                        old(self).entries@[k].ticket,
                        old(self).entries@[k].payload@,
                        can_write,
                        can_write_no_response,
                    ),
                self.closed == old(self).closed,
                self.next_ticket == old(self).next_ticket,
            decreases self.entries@.len(),
        {
            let ghost done = completions@.len() as int;
            let ghost pre = self.entries@;
            match self.next_transmission(can_write, can_write_no_response) {
                None => {
                    proof {
                        assert(old(self).entries@.skip(done).len() == 0);
                    }
                    break ;
                },
                Some(item) => {
                    proof {
                        assert(pre[0] == old(self).entries@[done]);
                    }
                    completions.push(item);
                    proof {
                        assert(self.entries@ =~= old(self).entries@.skip(
                            completions@.len() as int,
                        ));
                    }
                },
            }
        }
        completions
    }
}

} // verus!
