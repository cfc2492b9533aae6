//! The queue of bytes waiting to be written to the pty, and how far the
//! write of the current chunk has come.
use std::collections::VecDeque;

use vstd::prelude::*;
use vstd::seq_lib::lemma_flatten_concat;

verus! {

/// Messages that may be sent to the event loop.
#[derive(Debug, Clone)]
pub enum Msg {
    /// Data that should be written to the pty
    Input(Vec<u8>),
}

/// A chunk of bytes being written, and how many of them are written.
pub struct Writing {
    source: Vec<u8>,
    written: usize,
}

impl Writing {
    pub closed spec fn spec_source(&self) -> Seq<u8> {
        self.source@
    }

    pub closed spec fn spec_written(&self) -> nat {
        self.written as nat
    }

    /// Start writing `c`: nothing of it is written yet.
    pub fn new(c: Vec<u8>) -> (r: Writing)
        ensures
            r.spec_source() == c@,
            r.spec_written() == 0,
    {
        Writing { source: c, written: 0 }
    }

    /// Record that `n` more bytes were written.
    pub fn advance(&mut self, n: usize)
        requires
            old(self).spec_written() + n <= usize::MAX,
        ensures
            final(self).spec_source() == old(self).spec_source(),
            final(self).spec_written() == old(self).spec_written() + n,
    {
        self.written = self.written + n;
    }

    /// The bytes not yet written.
    pub fn remaining_bytes(&self) -> (r: &[u8])
        requires
            self.spec_written() <= self.spec_source().len(),
        ensures
            r@ == self.spec_source().subrange(self.spec_written() as int, self.spec_source().len() as int),
    {
        vstd::slice::slice_subrange(self.source.as_slice(), self.written, self.source.len())
    }

    /// Whether every byte is written.
    pub fn finished(&self) -> (r: bool)
        ensures
            r == (self.spec_written() >= self.spec_source().len()),
    {
        self.written >= self.source.len()
    }
}

/// What waits to be written to the pty.
pub struct State {
    write_list: VecDeque<Vec<u8>>,
    writing: Option<Writing>,
}

impl State {
    /// The chunks queued after the current one, as byte sequences.
    pub closed spec fn spec_queue(&self) -> Seq<Seq<u8>> {
        self.write_list@.map_values(|c: Vec<u8>| c@)
    }

    /// The chunk being written, if any.
    pub closed spec fn spec_current(&self) -> Option<(Seq<u8>, nat)> {
        match self.writing {
            Some(w) => Some((w.spec_source(), w.spec_written())),
            None => None,
        }
    }

    /// Nothing to write.
    pub fn new() -> (r: State)
        ensures
            r.spec_queue().len() == 0,
            r.spec_current() is None,
    {
        State { write_list: VecDeque::new(), writing: None }
    }

    /// Queue bytes to be written after all that is queued.
    pub fn push_input(&mut self, input: Vec<u8>)
        ensures
            final(self).spec_queue() == old(self).spec_queue().push(input@),
            final(self).spec_current() == old(self).spec_current(),
            final(self).spec_pending() == old(self).spec_pending() + input@,
    {
        let ghost q = self.write_list@;
        self.write_list.push_back(input);
        assert(self.write_list@.map_values(|c: Vec<u8>| c@) == q.map_values(|c: Vec<u8>| c@).push(
            input@,
        ));
        proof {
            q.map_values(|c: Vec<u8>| c@).lemma_flatten_push(input@);
        }
    }

    /// When no chunk is being written, start on the next queued one.
    pub fn ensure_next(&mut self)
        ensures
            old(self).spec_current() is Some ==> final(self).spec_current() == old(self).spec_current()
                && final(self).spec_queue() == old(self).spec_queue(),
            old(self).spec_current() is None && old(self).spec_queue().len() > 0 ==> final(self).spec_current() == Some((old(self).spec_queue()[0], 0nat)) && final(self).spec_queue()
                == old(self).spec_queue().drop_first(),
            old(self).spec_current() is None && old(self).spec_queue().len() == 0 ==> final(self).spec_current() is None && final(self).spec_queue().len() == 0,
            final(self).spec_pending() == old(self).spec_pending(),
            old(self).current_ok() ==> final(self).current_ok(),
    {
        let ghost q = self.spec_queue();
        if self.writing.is_none() {
            self.goto_next();
            proof {
                if q.len() > 0 {
                    assert(q == seq![q[0]] + q.drop_first());
                    lemma_flatten_concat(seq![q[0]], q.drop_first());
                    assert(seq![q[0]].flatten() == q[0]) by {
                        reveal_with_fuel(Seq::flatten, 2);
                        assert(seq![q[0]].drop_first() == Seq::<Seq<u8>>::empty());
                    }
                    assert(unwritten(q[0], 0) == q[0]);
                }
            }
        }
    }

    /// Drop the current chunk and start on the next queued one, if any.
    pub fn goto_next(&mut self)
        ensures
            old(self).spec_queue().len() > 0 ==> final(self).spec_current() == Some((old(self).spec_queue()[0], 0nat)) && final(self).spec_queue() == old(self).spec_queue().drop_first(),
            old(self).spec_queue().len() == 0 ==> final(self).spec_current() is None && final(self).spec_queue().len() == 0,
    {
        let ghost q = self.write_list@;
        self.writing = match self.write_list.pop_front() {
            Some(c) => Some(Writing::new(c)),
            None => None,
        };
        proof {
            if q.len() > 0 {
                assert(self.write_list@.map_values(|c: Vec<u8>| c@) == q.map_values(
                    |c: Vec<u8>| c@,
                ).drop_first());
            }
        }
    }

    /// Take the chunk being written, leaving none.
    pub fn take_current(&mut self) -> (r: Option<Writing>)
        ensures
            final(self).spec_current() is None,
            final(self).spec_queue() == old(self).spec_queue(),
            r is None <==> old(self).spec_current() is None,
            r matches Some(w) ==> old(self).spec_current() == Some((w.spec_source(), w.spec_written())),
    {
        self.writing.take()
    }

    /// Whether anything waits to be written.
    pub fn needs_write(&self) -> (r: bool)
        ensures
            r == (self.spec_current() is Some || self.spec_queue().len() > 0),
    {
        self.writing.is_some() || self.write_list.len() > 0
    }

    /// Make `new` the chunk being written.
    pub fn set_current(&mut self, new: Option<Writing>)
        ensures
            final(self).spec_queue() == old(self).spec_queue(),
            new is None ==> final(self).spec_current() is None,
            new matches Some(w) ==> final(self).spec_current() == Some((w.spec_source(), w.spec_written())),
    {
        self.writing = new;
    }
}

/// What a write to the pty reported.
#[derive(Debug, Clone, Copy, PartialEq, Eq, Structural)]
pub enum WriteOutcome {
    /// This many bytes were written.
    Wrote(usize),
    /// The pty would block.
    WouldBlock,
}

/// The bytes still to be written of a chunk, with `written` of its `source`
/// bytes written.
pub open spec fn unwritten(source: Seq<u8>, written: nat) -> Seq<u8> {
    if written <= source.len() {
        source.subrange(written as int, source.len() as int)
    } else {
        Seq::empty()
    }
}

impl State {
    /// Every byte still to be written, in order: the rest of the chunk
    /// being written, then the queued chunks.
    pub open spec fn spec_pending(&self) -> Seq<u8> {
        let current = match self.spec_current() {
            Some((source, written)) => unwritten(source, written),
            None => Seq::empty(),
        };
        current + self.spec_queue().flatten()
    }

    /// The chunk being written has not been written past its end.
    pub open spec fn current_ok(&self) -> bool {
        self.spec_current() matches Some((source, written)) ==> written <= source.len()
    }

    /// The bytes to hand to the pty next: the rest of the chunk being
    /// written; `None` when no chunk is being written.
    pub fn current_bytes(&self) -> (r: Option<&[u8]>)
        requires
            self.current_ok(),
        ensures
            self.spec_current() is None <==> r is None,
            self.spec_current() matches Some((source, written)) ==> (r matches Some(b) && b@
                == unwritten(source, written)),
    {
        match &self.writing {
            Some(w) => Some(w.remaining_bytes()),
            None => None,
        }
    }

    /// Records what the write of the current chunk's remaining bytes gave,
    /// and tells whether to keep writing: after some bytes were written,
    /// the chunk moves on by that many, and a finished chunk gives way to
    /// the next queued one; a write of no bytes, or one that would block,
    /// leaves everything as it was and ends the writing for now.
    pub fn record_write(&mut self, outcome: WriteOutcome) -> (r: bool)
        requires
            old(self).current_ok(),
            old(self).spec_current() matches Some((source, written)) ==> (outcome matches WriteOutcome::Wrote(
                n,
            ) ==> written + n <= source.len()),
        ensures
            final(self).current_ok(),
            r == (old(self).spec_current() is Some && (outcome matches WriteOutcome::Wrote(n) && n > 0)),
            r ==> (outcome matches WriteOutcome::Wrote(n) && final(self).spec_pending() == old(
                self,
            ).spec_pending().skip(n as int)),
            !r ==> final(self).spec_pending() == old(self).spec_pending(),
            !r ==> final(self).spec_current() == old(self).spec_current() && final(self).spec_queue()
                == old(self).spec_queue(),
    {
        let ghost before = self.spec_pending();
        let ghost q = self.spec_queue();
        match self.writing.take() {
            Some(mut w) => match outcome {
                WriteOutcome::Wrote(n) => {
                    if n == 0 {
                        self.writing = Some(w);
                        return false;
                    }
                    let ghost src = w.spec_source();
                    let ghost w0 = w.spec_written();
                    let source_len = w.source.len();
                    assert(w0 + n <= source_len as int);
                    w.advance(n);
                    if w.finished() {
                        self.writing = Some(w);
                        self.goto_next();
                        proof {
                            assert(unwritten(src, w0).skip(n as int) == Seq::<u8>::empty());
                            if q.len() > 0 {
                                assert(q == seq![q[0]] + q.drop_first());
                                lemma_flatten_concat(seq![q[0]], q.drop_first());
                                assert(seq![q[0]].flatten() == q[0]) by {
                                    reveal_with_fuel(Seq::flatten, 2);
                                    assert(seq![q[0]].drop_first() == Seq::<Seq<u8>>::empty());
                                }
                                assert(unwritten(q[0], 0) == q[0]);
                            }
                        }
                        assert(self.spec_pending() == before.skip(n as int));
                    } else {
                        self.writing = Some(w);
                        assert(unwritten(src, (w0 + n) as nat) == unwritten(src, w0).skip(n as int));
                        assert(self.spec_pending() == before.skip(n as int));
                    }
                    true
                },
                WriteOutcome::WouldBlock => {
                    self.writing = Some(w);
                    false
                },
            },
            None => false,
        }
    }
}

impl Default for State {
    fn default() -> (r: State)
        ensures
            r.spec_queue().len() == 0,
            r.spec_current() is None,
    {
        State::new()
    }
}

} // verus!
