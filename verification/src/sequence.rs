use vstd::prelude::*;
use vstd::std_specs::convert::FromSpecImpl;
use crate::text::{decimal, u64_to_decimal, join3};

verus! {

/// A counter that hands out successive numbers, starting at zero.
///
/// The counter wraps around after `u64::MAX`, as an atomic `fetch_add` does.
pub struct AtomicSequence {
    next_number: u64,
}

impl AtomicSequence {
    /// The number that the next call of `next` returns.
    pub closed spec fn peek(&self) -> u64 {
        self.next_number
    }

    /// A fresh sequence whose first number is zero.
    pub fn new() -> (sequence: Self)
        ensures
            sequence.peek() == 0,
    {
        AtomicSequence { next_number: 0 }
    }

    /// Returns the current number and advances the sequence by one.
    pub fn next(&mut self) -> (number: u64)
        ensures
            number == old(self).peek(),
            final(self).peek() == (if old(self).peek() == u64::MAX {
                0
            } else {
                (old(self).peek() + 1) as u64
            }),
    {
        let number = self.next_number;
        self.next_number = self.next_number.wrapping_add(1);
        number
    }
}

/// The number a sequence that starts at `start` hands out after `calls` calls of
/// `next`: counting on from `start` and wrapping around after `u64::MAX`.
pub open spec fn number_after(start: u64, calls: nat) -> u64 {
    ((start + calls) % 0x1_0000_0000_0000_0000) as u64
}

/// One call of `next` advances the sequence from the number after `calls` calls to
/// the number after `calls + 1` calls: so the `k`-th call on a sequence that
/// started at `start` returns `number_after(start, k)`.
pub proof fn lemma_next_counts_on(start: u64, calls: nat)
    ensures
        (if number_after(start, calls) == u64::MAX { 0 } else { (number_after(start, calls) + 1) as u64 })
            == number_after(start, calls + 1),
{
    let m: int = 0x1_0000_0000_0000_0000;
    vstd::arithmetic::div_mod::lemma_add_mod_noop(start + calls, 1, m);
    vstd::arithmetic::div_mod::lemma_mod_bound(start + calls, m);
    vstd::arithmetic::div_mod::lemma_small_mod(1, m as nat);
    if (start + calls) % m == m - 1 {
        vstd::arithmetic::div_mod::lemma_mod_self_0(m);
    } else {
        vstd::arithmetic::div_mod::lemma_small_mod(((start + calls) % m + 1) as nat, m as nat);
    }
}

/// A sequence never hands out a number twice within `2^64` calls.
pub proof fn lemma_numbers_do_not_repeat(start: u64, i: nat, j: nat)
    requires
        i < j < 0x1_0000_0000_0000_0000,
    ensures
        number_after(start, i) != number_after(start, j),
{
    let m: int = 0x1_0000_0000_0000_0000;
    vstd::arithmetic::div_mod::lemma_mod_bound(start + i, m);
    vstd::arithmetic::div_mod::lemma_mod_bound(start + j, m);
    if (start + i) % m == (start + j) % m {
        vstd::arithmetic::div_mod::lemma_fundamental_div_mod(start + i, m);
        vstd::arithmetic::div_mod::lemma_fundamental_div_mod(start + j, m);
        let qi = (start + i) / m;
        let qj = (start + j) / m;
        assert(m * (qj - qi) == j - i) by (nonlinear_arith)
            requires
                start + i == m * qi + (start + i) % m,
                start + j == m * qj + (start + j) % m,
                (start + i) % m == (start + j) % m;
        assert(false) by (nonlinear_arith)
            requires
                m * (qj - qi) == j - i,
                0 < j - i < m,
                m > 0;
    }
}

impl Default for AtomicSequence {
    fn default() -> (sequence: Self)
        ensures
            sequence.peek() == 0,
    {
        AtomicSequence::new()
    }
}

/// The identity of a client within a room.
#[derive(Clone, Copy, Debug, PartialEq, Eq, Hash, Structural)]
pub struct ClientId {
    pub id: u64,
}

impl From<u64> for ClientId {
    fn from(id: u64) -> (client_id: Self) {
        ClientId { id }
    }
}

impl FromSpecImpl<u64> for ClientId {
    open spec fn obeys_from_spec() -> bool {
        true
    }

    open spec fn from_spec(id: u64) -> Self {
        ClientId { id }
    }
}

impl From<ClientId> for u64 {
    fn from(client_id: ClientId) -> (id: u64) {
        client_id.id
    }
}

impl FromSpecImpl<ClientId> for u64 {
    open spec fn obeys_from_spec() -> bool {
        true
    }

    open spec fn from_spec(client_id: ClientId) -> u64 {
        client_id.id
    }
}

/// The text by which a client id is shown: `ClientId(<decimal id>)`.
pub open spec fn client_id_text(id: u64) -> Seq<char> {
    seq!['C', 'l', 'i', 'e', 'n', 't', 'I', 'd', '('] + decimal(id as nat) + seq![')']
}

impl ClientId {
    /// Formats the id as `ClientId(<decimal id>)`.
    pub fn to_display_string(&self) -> (text: String)
        ensures
            text@ == client_id_text(self.id),
    {
        let digits = u64_to_decimal(self.id);
        proof {
            reveal_strlit("ClientId(");
            reveal_strlit(")");
        }
        join3("ClientId(", digits.as_str(), ")")
    }
}

/// Hands out the ids of newly connected clients, one after the other.
pub struct ClientIdSequence {
    sequence: AtomicSequence,
}

impl ClientIdSequence {
    /// The id that the next call of `next` returns.
    pub closed spec fn peek(&self) -> u64 {
        self.sequence.peek()
    }

    /// A fresh sequence whose first id is zero.
    pub fn new() -> (sequence: Self)
        ensures
            sequence.peek() == 0,
    {
        ClientIdSequence { sequence: AtomicSequence::new() }
    }

    /// Returns the next client id and advances the sequence.
    pub fn next(&mut self) -> (client_id: ClientId)
        ensures
            client_id.id == old(self).peek(),
            final(self).peek() == (if old(self).peek() == u64::MAX {
                0
            } else {
                (old(self).peek() + 1) as u64
            }),
    {
        let number = self.sequence.next();
        ClientId::from(number)
    }
}

impl Default for ClientIdSequence {
    fn default() -> (sequence: Self)
        ensures
            sequence.peek() == 0,
    {
        ClientIdSequence::new()
    }
}

} // verus!
