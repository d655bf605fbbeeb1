//! The call gate to the host.
//!
//! The host is reached through one narrow interface: a synchronous call
//! carrying a 16-bit selector and the encoded arguments, answered by a
//! status code and an encoded result. The trait keeps a ghost log of the
//! calls it has answered, so that callers can state exactly what they
//! handed across the boundary, and each host states its own promise about
//! the answers it gives through [`Host::answers`]. A stub host that
//! always answers with one configured status and payload is provided for
//! exercising the layers above without a real ledger behind them.

use vstd::prelude::*;

verus! {

/// One host call as it crossed the boundary: what was sent and what came
/// back.
pub ghost struct CallRecord {
    pub selector: u16,
    pub input: Seq<u8>,
    pub status: u32,
    pub output: Seq<u8>,
}

/// The host call primitive: `call(selector, input) -> (status, output)`.
///
/// The ghost log says what was asked and what was answered, newest last.
/// What the answer is, each host promises for itself through
/// [`Host::answers`]: a host that promises nothing defines it as `true`,
/// and every caller must then cope with any status code and any payload.
pub trait Host {
    /// The calls answered so far, in order.
    spec fn log(&self) -> Seq<CallRecord>;

    /// This host's own promise about its answers: in the state before a
    /// call, would it answer `(status, output)` to `(selector, input)`?
    spec fn answers(&self, selector: u16, input: Seq<u8>, status: u32, output: Seq<u8>) -> bool;

    /// One synchronous call to the host.
    fn call(&mut self, selector: u16, input: Vec<u8>) -> (reply: (u32, Vec<u8>))
        ensures
            final(self).log() == old(self).log().push(
                CallRecord { selector, input: input@, status: reply.0, output: reply.1@ },
            ),
            old(self).answers(selector, input@, reply.0, reply.1@),
    ;
}

/// The host's own promise, applied to one logged call: the host in the
/// state before that call would have answered it exactly so.
pub open spec fn host_answered<H: Host>(pre: H, rec: CallRecord) -> bool {
    pre.answers(rec.selector, rec.input, rec.status, rec.output)
}

/// One request as a stub host received it, kept for inspection.
#[derive(Clone, PartialEq, Eq, Debug)]
pub struct RecordedCall {
    pub selector: u16,
    pub input: Vec<u8>,
}

/// A host that answers every call with one configured status code and
/// payload, recording each request. It stands in for the ledger when the
/// layers above are exercised on their own.
pub struct StubHost {
    /// The status code every call is answered with.
    pub status: u32,
    /// The payload every call is answered with.
    pub output: Vec<u8>,
    /// Every request received, in order.
    pub calls: Vec<RecordedCall>,
    /// The ghost mirror of the answered calls.
    pub history: Ghost<Seq<CallRecord>>,
}

impl StubHost {
    /// A stub that will answer every call with `status` and `output`.
    pub fn new(status: u32, output: Vec<u8>) -> (h: StubHost)
        ensures
            h.log() == Seq::<CallRecord>::empty(),
            h.status == status,
            h.output == output,
            h.calls@ == Seq::<RecordedCall>::empty(),
    {
        StubHost { status, output, calls: Vec::new(), history: Ghost(Seq::empty()) }
    }
}

/// Copies a byte vector element by element.
fn clone_bytes(v: &Vec<u8>) -> (r: Vec<u8>)
    ensures
        r@ == v@,
{
    let mut out: Vec<u8> = Vec::new();
    let mut i: usize = 0;
    while i < v.len()
        invariant
            i <= v@.len(),
            out@ == v@.subrange(0, i as int),
        decreases v@.len() - i,
    {
        out.push(v[i]);
        i = i + 1;
        proof {
            assert(out@ =~= v@.subrange(0, i as int));
        }
    }
    proof {
        assert(out@ =~= v@);
    }
    out
}

impl Host for StubHost {
    open spec fn log(&self) -> Seq<CallRecord> {
        self.history@
    }

    /// The stub's promise: every call is answered with the configured
    /// status code and payload, whatever was asked.
    open spec fn answers(&self, selector: u16, input: Seq<u8>, status: u32, output: Seq<u8>) -> bool {
        status == self.status && output == self.output@
    }

    fn call(&mut self, selector: u16, input: Vec<u8>) -> (reply: (u32, Vec<u8>))
        ensures
            reply.0 == old(self).status,
            reply.1@ == old(self).output@,
            final(self).status == old(self).status,
            final(self).output@ == old(self).output@,
            final(self).calls@.len() == old(self).calls@.len() + 1,
            final(self).calls@.drop_last() == old(self).calls@,
            final(self).calls@.last().selector == selector,
            final(self).calls@.last().input@ == input@,
    {
        let ghost rec = CallRecord {
            selector,
            input: input@,
            status: self.status,
            output: self.output@,
        };
        let out = clone_bytes(&self.output);
        self.calls.push(RecordedCall { selector, input });
        self.history = Ghost(self.history@.push(rec));
        proof {
            assert(self.calls@.drop_last() =~= old(self).calls@);
        }
        (self.status, out)
    }
}

} // verus!
