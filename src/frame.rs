use vstd::prelude::*;
use crate::report::Opcode;
use crate::settings::EndpointRole;
use crate::trace::{occurrences, lemma_occurrences_push, lemma_occurrences_absent};

verus! {

/// A call that the frame-send protocol asks the caller to make on the
/// backend's frame helpers, or `Done` when nothing is left to do.
#[derive(Clone, Copy, Debug, PartialEq, Eq, Structural)]
pub enum FrameStep {
    /// Create a frame handle with this opcode.
    Create(Opcode),
    /// Append the payload chunk with this index to the handle.
    Append(usize),
    /// Hand the assembled frame to the backend for transmission.
    Transmit,
    /// Release the frame handle.
    Destroy,
    Done,
}

/// How a send ended.
#[derive(Clone, Copy, Debug, PartialEq, Eq, Structural)]
pub enum SendOutcome {
    Sent,
    NotCreated,
    AppendRejected,
    TransmitFailed,
}

/// One outgoing message being built and sent through a frame handle. The
/// caller performs each step that `step` hands out and reports whether the
/// backend call succeeded; the handle is destroyed exactly once whenever it
/// was created, and only after the last call that uses it.
pub struct FrameSend {
    opcode: Opcode,
    chunks: Vec<Vec<u8>>,
    pending: FrameStep,
    created: bool,
    outcome: Option<SendOutcome>,
    calls: Ghost<Seq<FrameStep>>,
}

impl FrameSend {
    pub closed spec fn spec_opcode(&self) -> Opcode {
        self.opcode
    }

    pub closed spec fn spec_chunks(&self) -> Seq<Vec<u8>> {
        self.chunks@
    }

    /// The step the caller is to perform next.
    pub closed spec fn spec_pending(&self) -> FrameStep {
        self.pending
    }

    /// Whether the frame handle was created.
    pub closed spec fn spec_created(&self) -> bool {
        self.created
    }

    pub closed spec fn spec_outcome(&self) -> Option<SendOutcome> {
        self.outcome
    }

    /// Every backend call handed out so far, in order.
    pub closed spec fn calls(&self) -> Seq<FrameStep> {
        self.calls@
    }

    pub open spec fn finished(&self) -> bool {
        self.spec_pending() == FrameStep::Done
    }

    pub closed spec fn wf(&self) -> bool {
        &&& self.calls@.len() >= 1
        &&& self.calls@[0] == FrameStep::Create(self.opcode)
        &&& self.pending != FrameStep::Done ==> self.calls@.last() == self.pending
        &&& self.pending matches FrameStep::Append(i) ==> i < self.chunks@.len()
        &&& forall|k: int|
            1 <= k < self.calls@.len() ==> !(#[trigger] self.calls@[k] is Create)
        &&& (self.pending is Create || self.pending is Append || self.pending is Transmit)
            ==> occurrences(self.calls@, FrameStep::Destroy) == 0 && self.outcome is None
        &&& self.pending is Destroy ==> occurrences(self.calls@, FrameStep::Destroy) == 1
            && self.created && self.outcome is Some
        &&& self.pending is Done ==> self.outcome is Some && occurrences(
            self.calls@,
            FrameStep::Destroy,
        ) == if self.created {
            1nat
        } else {
            0nat
        } && (self.created ==> self.calls@.last() == FrameStep::Destroy)
        &&& self.pending is Create ==> !self.created
        &&& !(self.pending is Create) ==> (self.created <==> self.outcome
            != Some(SendOutcome::NotCreated))
        &&& (self.pending is Create || self.pending is Append) ==> occurrences(
            self.calls@,
            FrameStep::Transmit,
        ) == 0
        &&& !(self.pending is Create || self.pending is Append) ==> occurrences(
            self.calls@,
            FrameStep::Transmit,
        ) <= 1
        &&& self.outcome == Some(SendOutcome::Sent) ==> occurrences(
            self.calls@,
            FrameStep::Transmit,
        ) == 1
    }

    /// A send of `chunks`, in order, as one frame of `opcode`. The first step
    /// is to create the handle.
    pub fn new(opcode: Opcode, chunks: Vec<Vec<u8>>) -> (f: FrameSend)
        ensures
            f.wf(),
            f.spec_opcode() == opcode,
            f.spec_chunks() == chunks@,
            f.spec_pending() == FrameStep::Create(opcode),
            f.calls() == seq![FrameStep::Create(opcode)],
            !f.spec_created(),
            f.spec_outcome() is None,
    {
        let f = FrameSend {
            opcode,
            chunks,
            pending: FrameStep::Create(opcode),
            created: false,
            outcome: None,
            calls: Ghost(Seq::<FrameStep>::empty().push(FrameStep::Create(opcode))),
        };
        proof {
            lemma_occurrences_absent(f.calls@, FrameStep::Destroy);
            lemma_occurrences_absent(f.calls@, FrameStep::Transmit);
            assert(f.calls@ =~= seq![FrameStep::Create(opcode)]);
        }
        f
    }

    /// The step to perform now.
    pub fn pending(&self) -> (s: FrameStep)
        ensures
            s == self.spec_pending(),
    {
        self.pending
    }

    /// The payload chunk with index `i`.
    pub fn chunk(&self, i: usize) -> (c: &Vec<u8>)
        requires
            i < self.spec_chunks().len(),
        ensures
            *c == self.spec_chunks()[i as int],
    {
        &self.chunks[i]
    }

    pub fn outcome(&self) -> (o: Option<SendOutcome>)
        ensures
            o == self.spec_outcome(),
    {
        self.outcome
    }

    /// The step that follows the pending one, given whether the backend
    /// call succeeded: a creation failure ends the send with nothing to
    /// release; a rejected chunk or a failed transmission goes straight to
    /// destroying the handle; the handle is destroyed after transmission
    /// either way.
    pub open spec fn next_step(pending: FrameStep, ok: bool, n_chunks: nat) -> FrameStep {
        match pending {
            FrameStep::Create(_) => if !ok {
                FrameStep::Done
            } else if n_chunks == 0 {
                FrameStep::Transmit
            } else {
                FrameStep::Append(0)
            },
            FrameStep::Append(i) => if !ok {
                FrameStep::Destroy
            } else if i + 1 < n_chunks {
                FrameStep::Append((i + 1) as usize)
            } else {
                FrameStep::Transmit
            },
            FrameStep::Transmit => FrameStep::Destroy,
            FrameStep::Destroy => FrameStep::Done,
            FrameStep::Done => FrameStep::Done,
        }
    }

    /// Reports the result of the pending call and returns the next step.
    pub fn step(&mut self, ok: bool) -> (s: FrameStep)
        requires
            old(self).wf(),
        ensures
            final(self).wf(),
            s == final(self).spec_pending(),
            s == Self::next_step(old(self).spec_pending(), ok, old(self).spec_chunks().len()),
            final(self).spec_opcode() == old(self).spec_opcode(),
            final(self).spec_chunks() == old(self).spec_chunks(),
            final(self).calls() == if s == FrameStep::Done {
                old(self).calls()
            } else {
                old(self).calls().push(s)
            },
            final(self).spec_outcome() == match old(self).spec_pending() {
                FrameStep::Create(_) => if ok {
                    None
                } else {
                    Some(SendOutcome::NotCreated)
                },
                FrameStep::Append(_) => if ok {
                    None
                } else {
                    Some(SendOutcome::AppendRejected)
                },
                FrameStep::Transmit => if ok {
                    Some(SendOutcome::Sent)
                } else {
                    Some(SendOutcome::TransmitFailed)
                },
                _ => old(self).spec_outcome(),
            },
    {
        let n = self.chunks.len();
        let next = match self.pending {
            FrameStep::Create(_) => {
                if !ok {
                    self.outcome = Some(SendOutcome::NotCreated);
                    FrameStep::Done
                } else {
                    self.created = true;
                    if n == 0 {
                        FrameStep::Transmit
                    } else {
                        FrameStep::Append(0)
                    }
                }
            },
            FrameStep::Append(i) => {
                if !ok {
                    self.outcome = Some(SendOutcome::AppendRejected);
                    FrameStep::Destroy
                } else if i + 1 < n {
                    FrameStep::Append(i + 1)
                } else {
                    FrameStep::Transmit
                }
            },
            FrameStep::Transmit => {
                self.outcome = Some(
                    if ok {
                        SendOutcome::Sent
                    } else {
                        SendOutcome::TransmitFailed
                    },
                );
                FrameStep::Destroy
            },
            FrameStep::Destroy => FrameStep::Done,
            FrameStep::Done => FrameStep::Done,
        };
        proof {
            let old_calls = self.calls@;
            if next != FrameStep::Done {
                lemma_occurrences_push(old_calls, next, FrameStep::Destroy);
                lemma_occurrences_push(old_calls, next, FrameStep::Transmit);
                assert(old_calls.push(next).last() == next);
                assert forall|k: int| 1 <= k < old_calls.push(next).len() implies !(
                #[trigger] old_calls.push(next)[k] is Create) by {
                    if k < old_calls.len() {
                        assert(old_calls.push(next)[k] == old_calls[k]);
                    }
                }
            }
        }
        if next != FrameStep::Done {
            self.calls = Ghost(self.calls@.push(next));
        }
        self.pending = next;
        next
    }

    /// A finished send destroyed its handle exactly once if it created one,
    /// as the last call, and never otherwise; this holds whether an append
    /// or the transmission failed. The frame was handed over for
    /// transmission at most once, and exactly once where it was sent.
    pub proof fn lemma_destroyed_exactly_once(&self)
        requires
            self.wf(),
            self.finished(),
        ensures
            occurrences(self.calls(), FrameStep::Destroy) == if self.spec_created() {
                1nat
            } else {
                0nat
            },
            self.spec_created() ==> self.calls().last() == FrameStep::Destroy,
            self.spec_created() <==> self.spec_outcome() != Some(SendOutcome::NotCreated),
            occurrences(self.calls(), FrameStep::Transmit) <= 1,
            self.spec_outcome() == Some(SendOutcome::Sent) ==> occurrences(
                self.calls(),
                FrameStep::Transmit,
            ) == 1,
    {
    }
}

/// The greeting a freshly opened connection gets: a client sends one text
/// frame `hello world!` where the backend offers frame helpers; a server, or
/// a backend without them, sends nothing.
pub fn greeting(role: EndpointRole, frames_available: bool) -> (g: Option<FrameSend>)
    ensures
        (role == EndpointRole::Client && frames_available) <==> g is Some,
        g matches Some(f) ==> f.wf() && f.spec_opcode() == Opcode::Text && f.spec_chunks().len()
            == 1 && f.spec_chunks()[0]@ == seq![104u8, 101, 108, 108, 111, 32, 119, 111, 114, 108, 100, 33]
            && f.spec_pending() == FrameStep::Create(Opcode::Text) && f.calls() == seq![
            FrameStep::Create(Opcode::Text),
        ],
{
    match role {
        EndpointRole::Client => {
            if frames_available {
                let payload: Vec<u8> = vec![104u8, 101, 108, 108, 111, 32, 119, 111, 114, 108, 100, 33];
                let mut chunks: Vec<Vec<u8>> = Vec::new();
                chunks.push(payload);
                Some(FrameSend::new(Opcode::Text, chunks))
            } else {
                None
            }
        },
        EndpointRole::Server => None,
    }
}

} // verus!
