use vstd::prelude::*;

verus! {

/// The serial line's speed in bits per second.
pub const BAUD_RATE: u32 = 115_200;

/// The greeting sent once after start-up.
pub open spec fn spec_greeting() -> Seq<u8> {
    seq![72u8, 101, 108, 108, 111, 32, 87, 111, 114, 108, 100, 32, 13, 10]
}

/// The greeting's bytes: `"Hello World \r\n"`.
pub fn greeting() -> (msg: Vec<u8>)
    ensures
        msg@ == spec_greeting(),
{
    let msg: Vec<u8> = vec![72u8, 101, 108, 108, 111, 32, 87, 111, 114, 108, 100, 32, 13, 10];
    assert(msg@ =~= spec_greeting());
    msg
}

/// How many bytes have gone out after one write attempt, when `sent` of `len`
/// had gone out before: an accepted write moves on by one byte, a refused one
/// (the transmitter busy, or a line error) leaves the byte to be tried again.
pub open spec fn step_sent(sent: nat, len: nat, accepted: bool) -> nat {
    if accepted && sent < len {
        sent + 1
    } else {
        sent
    }
}

/// How many bytes have gone out after the write attempts `accepted`, in order.
pub open spec fn sent_after(sent: nat, len: nat, accepted: Seq<bool>) -> nat
    decreases accepted.len(),
{
    if accepted.len() == 0 {
        sent
    } else {
        sent_after(step_sent(sent, len, accepted[0]), len, accepted.drop_first())
    }
}

/// The bytes that the line takes, in order, during the write attempts `accepted`.
pub open spec fn delivered(message: Seq<u8>, sent: nat, accepted: Seq<bool>) -> Seq<u8>
    decreases accepted.len(),
{
    if accepted.len() == 0 {
        Seq::empty()
    } else {
        let first: Seq<u8> = if accepted[0] && sent < message.len() {
            seq![message[sent as int]]
        } else {
            Seq::empty()
        };
        first + delivered(message, step_sent(sent, message.len(), accepted[0]), accepted.drop_first())
    }
}

/// Number of accepted attempts.
pub open spec fn count_accepted(accepted: Seq<bool>) -> nat
    decreases accepted.len(),
{
    if accepted.len() == 0 {
        0
    } else {
        (if accepted[0] { 1nat } else { 0nat }) + count_accepted(accepted.drop_first())
    }
}

pub open spec fn min_nat(a: nat, b: nat) -> nat {
    if a <= b { a } else { b }
}

/// Sends a message byte by byte over a line that may refuse a byte; a
/// refused byte is offered again until the line takes it.
pub struct Transmitter {
    message: Vec<u8>,
    sent: usize,
}

impl Transmitter {
    #[verifier::type_invariant]
    spec fn inv(self) -> bool {
        self.sent <= self.message.len()
    }

    /// The whole message.
    pub closed spec fn message(self) -> Seq<u8> {
        self.message@
    }

    /// How many bytes of the message the line has taken.
    pub closed spec fn sent(self) -> nat {
        self.sent as nat
    }

    /// A transmitter for `message` that has sent nothing yet.
    pub fn new(message: Vec<u8>) -> (t: Transmitter)
        ensures
            t.message() == message@,
            t.sent() == 0,
    {
        Transmitter { message, sent: 0 }
    }

    /// The byte to offer next, or `None` once the whole message has gone out.
    pub fn next_byte(&self) -> (b: Option<u8>)
        ensures
            self.sent() < self.message().len() ==> b == Some(self.message()[self.sent() as int]),
            self.sent() >= self.message().len() ==> b is None,
    {
        proof { use_type_invariant(self); }
        if self.sent < self.message.len() {
            Some(self.message[self.sent])
        } else {
            None
        }
    }

    /// Records the outcome of offering `next_byte` to the line.
    pub fn on_write(&mut self, accepted: bool)
        ensures
            final(self).message() == old(self).message(),
            final(self).sent() == step_sent(old(self).sent(), old(self).message().len(), accepted),
            final(self).sent() <= final(self).message().len(),
    {
        proof { use_type_invariant(&*self); }
        if accepted && self.sent < self.message.len() {
            self.sent = self.sent + 1;
        }
    }

    /// Whether the whole message has gone out.
    pub fn is_done(&self) -> (done: bool)
        ensures
            done <==> self.sent() == self.message().len(),
            self.sent() <= self.message().len(),
    {
        proof { use_type_invariant(self); }
        self.sent == self.message.len()
    }

    /// The part of the message that has gone out.
    pub fn sent_bytes(&self) -> (s: &[u8])
        ensures
            s@ == self.message().subrange(0, self.sent() as int),
    {
        proof { use_type_invariant(self); }
        vstd::slice::slice_subrange(self.message.as_slice(), 0, self.sent)
    }
}

/// After any run of write attempts the sender has moved on by exactly the
/// number of accepted attempts, never past the end of the message.
pub proof fn lemma_sent_after(sent: nat, len: nat, accepted: Seq<bool>)
    requires
        sent <= len,
    ensures
        sent_after(sent, len, accepted) == min_nat(len, sent + count_accepted(accepted)),
    decreases accepted.len(),
{
    if accepted.len() > 0 {
        lemma_sent_after(step_sent(sent, len, accepted[0]), len, accepted.drop_first());
    }
}

/// The line takes the message's bytes in order, each exactly once: what it
/// takes during a run of write attempts is the stretch of the message
/// between the positions before and after the run.
pub proof fn lemma_delivered_in_order(message: Seq<u8>, sent: nat, accepted: Seq<bool>)
    requires
        sent <= message.len(),
    ensures
        delivered(message, sent, accepted)
            == message.subrange(sent as int, sent_after(sent, message.len(), accepted) as int),
    decreases accepted.len(),
{
    if accepted.len() > 0 {
        let next = step_sent(sent, message.len(), accepted[0]);
        lemma_delivered_in_order(message, next, accepted.drop_first());
        lemma_sent_after(next, message.len(), accepted.drop_first());
        let rest_end = sent_after(next, message.len(), accepted.drop_first());
        if accepted[0] && sent < message.len() {
            assert(seq![message[sent as int]] + message.subrange(next as int, rest_end as int)
                =~= message.subrange(sent as int, rest_end as int));
        } else {
            assert(Seq::<u8>::empty() + message.subrange(next as int, rest_end as int)
                =~= message.subrange(sent as int, rest_end as int));
        }
    } else {
        assert(message.subrange(sent as int, sent as int) =~= Seq::<u8>::empty());
    }
}

/// Once the line has accepted as many writes as the message has bytes, the
/// whole message has gone out, and nothing more is sent afterwards.
pub proof fn lemma_done_after_enough(message: Seq<u8>, accepted: Seq<bool>)
    requires
        count_accepted(accepted) >= message.len(),
    ensures
        sent_after(0, message.len(), accepted) == message.len(),
        delivered(message, 0, accepted) == message,
{
    lemma_sent_after(0, message.len(), accepted);
    lemma_delivered_in_order(message, 0, accepted);
    assert(message.subrange(0, message.len() as int) =~= message);
}

} // verus!
