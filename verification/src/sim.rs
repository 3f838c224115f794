//! A scripted transport: a bench double for the physical bus that replays a
//! fixed list of replies and records every frame it was asked to send.

use vstd::prelude::*;
use crate::engine::Transport;

verus! {

/// Error of a scripted exchange past the end of the script.
#[derive(Clone, Copy, Debug, PartialEq, Eq, Structural)]
pub struct ScriptExhausted;

/// A transport that answers the `i`-th exchange with `replies[i]` and keeps
/// the sent frames in `sent`, in order. Once the replies run out, every
/// further exchange fails without touching the log.
pub struct ScriptedTransport {
    /// The replies still to be handed out, indexed by exchange number.
    pub replies: Vec<u16>,
    /// Every frame sent so far, in order.
    pub sent: Vec<u16>,
}

/// The reply the script holds for exchange `i`, or zero past its end.
pub open spec fn spec_scripted_reply(replies: Seq<u16>, i: int) -> u16 {
    if 0 <= i < replies.len() {
        replies[i]
    } else {
        0
    }
}

impl ScriptedTransport {
    /// A fresh transport that will answer with `replies`, nothing sent yet.
    pub fn new(replies: Vec<u16>) -> (r: Self)
        ensures
            r.replies == replies,
            r.sent@ == Seq::<u16>::empty(),
            r.exchange_log() == Seq::<(u16, u16)>::empty(),
            r.scripted_replies() == replies@,
    {
        let r = ScriptedTransport { replies, sent: Vec::new() };
        proof {
            assert(r.exchange_log() =~= Seq::<(u16, u16)>::empty());
            assert(r.scripted_replies() =~= r.replies@);
        }
        r
    }

    /// How many exchanges have been performed.
    pub fn exchange_count(&self) -> (r: usize)
        ensures
            r == self.sent@.len(),
    {
        self.sent.len()
    }
}

impl Transport for ScriptedTransport {
    type BusError = ScriptExhausted;

    /// One `(sent, received)` pair per exchange performed so far.
    open spec fn exchange_log(&self) -> Seq<(u16, u16)> {
        Seq::new(self.sent@.len(), |i: int| (self.sent@[i], spec_scripted_reply(self.replies@, i)))
    }

    /// Exactly the replies not yet handed out are promised, in order.
    open spec fn scripted_replies(&self) -> Seq<u16> {
        if self.sent@.len() <= self.replies@.len() {
            self.replies@.skip(self.sent@.len() as int)
        } else {
            Seq::empty()
        }
    }

    fn exchange(&mut self, tx: u16) -> (r: Result<u16, ScriptExhausted>) {
        if self.sent.len() < self.replies.len() {
            let idx: usize = self.sent.len();
            let rx: u16 = self.replies[idx];
            self.sent.push(tx);
            proof {
                assert(self.exchange_log() =~= old(self).exchange_log().push((tx, rx)));
                assert(old(self).scripted_replies()[0] == rx);
                assert(self.scripted_replies() =~= old(self).scripted_replies().skip(1));
            }
            Ok(rx)
        } else {
            Err(ScriptExhausted)
        }
    }
}

} // verus!
