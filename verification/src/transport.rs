//! The byte-stream abstraction under the protocol engine.
//!
//! A transport is a blocking, deadline-bounded byte link with no framing
//! knowledge. Its observable behaviour is modelled by spec-level views: the
//! sequence of replies that future reads will hand back, the concatenation of
//! all bytes written so far, the configured read deadline, the pauses taken,
//! and whether the link is reliable (cannot fail). The session's contracts
//! are stated over these views, so everything the engine does is pinned down
//! as a function of what the device answers; on a reliable link every outcome
//! is forced.
//!
//! Two implementations exist: [`ScriptedTransport`] here, a verified in-memory
//! link that replays a fixed script (one entry per read), and a real serial
//! link outside the verified library.

use vstd::prelude::*;

verus! {

/// Read/write deadline during the discovery phase, in milliseconds; a freshly
/// opened link carries it.
pub const DISCOVERY_DEADLINE_MS: u64 = 2000;

/// Read/write deadline during the flashing phase, in milliseconds.
pub const FLASH_DEADLINE_MS: u64 = 5000;

/// Unconditional pause after the reboot request, letting the device restart.
pub const SETTLE_MS: u64 = 3000;

/// Failure of the underlying link itself (as opposed to a well-delivered but
/// unexpected reply, which the session classifies).
#[derive(Debug)]
pub struct TransportError;

/// `s` cut down to at most `max` bytes.
pub open spec fn crop(s: Seq<u8>, max: int) -> Seq<u8> {
    if s.len() <= max {
        s
    } else {
        s.take(max)
    }
}

/// What a read asking for `max` bytes returns: the next pending reply, capped
/// at `max`; an exhausted reply queue reads as empty (a timeout).
pub open spec fn head_reply(replies: Seq<Seq<u8>>, max: int) -> Seq<u8> {
    if replies.len() == 0 {
        Seq::empty()
    } else {
        crop(replies[0], max)
    }
}

/// The pending replies after one read: one consumed, or still none.
pub open spec fn rest_replies(replies: Seq<Seq<u8>>) -> Seq<Seq<u8>> {
    if replies.len() == 0 {
        replies
    } else {
        replies.drop_first()
    }
}

/// The pending replies after `n` reads.
pub open spec fn drop_replies(replies: Seq<Seq<u8>>, n: nat) -> Seq<Seq<u8>>
    decreases n,
{
    if n == 0 {
        replies
    } else {
        rest_replies(drop_replies(replies, (n - 1) as nat))
    }
}

/// A blocking byte link with bounded-time reads.
///
/// The spec functions are the model the session's contracts are stated over.
/// Every method says how it moves the model; a method of a reliable link must
/// succeed, and on an unreliable one, on which inputs the link fails is the
/// one thing the model leaves open. The defaults describe a link about which
/// nothing is known; a verified implementation overrides them with its real
/// state.
pub trait Transport: Sized {
    /// The replies that future reads will return, in order.
    open spec fn replies(&self) -> Seq<Seq<u8>> {
        Seq::empty()
    }

    /// Every byte written so far, in order.
    open spec fn written(&self) -> Seq<u8> {
        Seq::empty()
    }

    /// Whether this link cannot fail. A physical link keeps the default
    /// `false`; the in-memory link is reliable, which forces each method's
    /// success case.
    open spec fn reliable(&self) -> bool {
        false
    }

    /// The deadline applied to reads, in milliseconds.
    open spec fn deadline_ms(&self) -> u64 {
        0
    }

    /// The pauses taken so far, each in milliseconds, in order.
    open spec fn pauses(&self) -> Seq<u64> {
        Seq::empty()
    }

    /// Blocks until data arrives or the active deadline elapses; returns 0 to
    /// `max` bytes. An empty result is not itself an error. A read writes
    /// nothing, changes no deadline and takes no pause, however it ends.
    fn read_up_to(&mut self, max: usize) -> (r: Result<Vec<u8>, TransportError>)
        ensures
            final(self).written() == old(self).written(),
            final(self).reliable() == old(self).reliable(),
            final(self).deadline_ms() == old(self).deadline_ms(),
            final(self).pauses() == old(self).pauses(),
            old(self).reliable() ==> r matches Ok(_),
            r matches Ok(v) ==> {
                &&& v@ == head_reply(old(self).replies(), max as int)
                &&& final(self).replies() == rest_replies(old(self).replies())
            },
    ;

    /// Blocks until every byte of `data` is accepted by the link, or fails
    /// (possibly after a partial write).
    fn write_all(&mut self, data: &[u8]) -> (r: Result<(), TransportError>)
        ensures
            final(self).reliable() == old(self).reliable(),
            final(self).deadline_ms() == old(self).deadline_ms(),
            final(self).pauses() == old(self).pauses(),
            old(self).reliable() ==> r matches Ok(_),
            r matches Ok(_) ==> {
                &&& final(self).written() == old(self).written() + data@
                &&& final(self).replies() == old(self).replies()
            },
    ;

    /// Changes the deadline applied to subsequent reads, for the rest of the
    /// session. Exchanges no bytes and takes no pause.
    fn set_deadline_ms(&mut self, ms: u64) -> (r: Result<(), TransportError>)
        ensures
            final(self).written() == old(self).written(),
            final(self).replies() == old(self).replies(),
            final(self).reliable() == old(self).reliable(),
            final(self).pauses() == old(self).pauses(),
            old(self).reliable() ==> r matches Ok(_),
            r matches Ok(_) ==> final(self).deadline_ms() == ms,
    ;

    /// Unconditional pause (the post-reboot settle); exchanges no bytes.
    fn pause_ms(&mut self, ms: u64)
        ensures
            final(self).written() == old(self).written(),
            final(self).replies() == old(self).replies(),
            final(self).reliable() == old(self).reliable(),
            final(self).deadline_ms() == old(self).deadline_ms(),
            final(self).pauses() == old(self).pauses().push(ms),
    ;
}

/// An in-memory transport that replays a script: each read consumes the next
/// scripted reply, each write is appended to a log. It never fails, never
/// blocks, and is the test double for a device on the other end of the link.
pub struct ScriptedTransport {
    script: Vec<Vec<u8>>,
    log: Vec<u8>,
    deadline: u64,
    pauses: Ghost<Seq<u64>>,
}

impl ScriptedTransport {
    /// A transport that will answer successive reads with `script`, in order,
    /// carrying the discovery deadline a freshly opened link has.
    pub fn new(script: Vec<Vec<u8>>) -> (r: ScriptedTransport)
        ensures
            r.replies() == script.deep_view(),
            r.written() == Seq::<u8>::empty(),
            r.reliable(),
            r.deadline_ms() == DISCOVERY_DEADLINE_MS,
            r.pauses() == Seq::<u64>::empty(),
    {
        ScriptedTransport {
            script,
            log: Vec::new(),
            deadline: DISCOVERY_DEADLINE_MS,
            pauses: Ghost(Seq::empty()),
        }
    }

    /// The bytes written so far, for inspection after a run.
    pub fn written_log(&self) -> (r: &Vec<u8>)
        ensures
            r@ == self.written(),
    {
        &self.log
    }

    /// How many scripted replies have not been consumed yet.
    pub fn pending_replies(&self) -> (r: usize)
        ensures
            r == self.replies().len(),
    {
        self.script.len()
    }

    /// The deadline currently applied to reads, in milliseconds.
    pub fn current_deadline_ms(&self) -> (r: u64)
        ensures
            r == self.deadline_ms(),
    {
        self.deadline
    }
}

impl Transport for ScriptedTransport {
    closed spec fn replies(&self) -> Seq<Seq<u8>> {
        self.script.deep_view()
    }

    closed spec fn written(&self) -> Seq<u8> {
        self.log@
    }

    closed spec fn reliable(&self) -> bool {
        true
    }

    closed spec fn deadline_ms(&self) -> u64 {
        self.deadline
    }

    closed spec fn pauses(&self) -> Seq<u64> {
        self.pauses@
    }

    fn read_up_to(&mut self, max: usize) -> (r: Result<Vec<u8>, TransportError>) {
        if self.script.len() == 0 {
            let v: Vec<u8> = Vec::new();
            Ok(v)
        } else {
            let mut v = self.script.remove(0);
            proof {
                assert(self.script.deep_view() =~= rest_replies(old(self).replies()));
                assert(v@ == old(self).replies()[0]);
            }
            if v.len() > max {
                v.truncate(max);
                proof {
                    assert(v@ =~= crop(old(self).replies()[0], max as int));
                }
            }
            Ok(v)
        }
    }

    fn write_all(&mut self, data: &[u8]) -> (r: Result<(), TransportError>) {
        let mut i: usize = 0;
        while i < data.len()
            invariant
                i <= data@.len(),
                self.log@ == old(self).log@ + data@.take(i as int),
                self.script == old(self).script,
                self.deadline == old(self).deadline,
                self.pauses@ == old(self).pauses@,
            decreases data@.len() - i,
        {
            self.log.push(data[i]);
            proof {
                assert(old(self).log@ + data@.take(i as int) + seq![data@[i as int]] =~= old(
                    self,
                ).log@ + data@.take(i + 1));
            }
            i = i + 1;
        }
        proof {
            assert(data@.take(data@.len() as int) =~= data@);
        }
        Ok(())
    }

    fn set_deadline_ms(&mut self, ms: u64) -> (r: Result<(), TransportError>) {
        self.deadline = ms;
        Ok(())
    }

    fn pause_ms(&mut self, ms: u64) {
        proof {
            self.pauses@ = self.pauses@.push(ms);
        }
    }
}

} // verus!
