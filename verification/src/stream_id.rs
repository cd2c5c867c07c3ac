use vstd::prelude::*;
use crate::error::SmuxError;

verus! {

/// The counter after one allocation: two more while ids remain; once they
/// have run out it stays where it is, so every later allocation fails too.
pub open spec fn next_counter(n: u32) -> u32 {
    if allocation_succeeds(n) {
        (n + 2) as u32
    } else {
        n
    }
}

/// An allocation from counter `n` succeeds, returning `n`, exactly when `n`
/// leaves room for two more ids below `u32::MAX`.
pub open spec fn allocation_succeeds(n: u32) -> bool {
    n <= u32::MAX - 2
}

/// The counter after `i` allocations starting from `n`.
pub open spec fn counter_after(n: u32, i: nat) -> u32
    decreases i,
{
    if i == 0 {
        n
    } else {
        next_counter(counter_after(n, (i - 1) as nat))
    }
}

/// Parity of the ids a side opens: odd for a client, even for a server.
pub open spec fn own_parity(is_client: bool) -> u32 {
    if is_client { 1 } else { 0 }
}

/// Whether a side accepts `id` as one of its own: non-zero with its parity.
pub open spec fn own_id_ok(is_client: bool, id: u32) -> bool {
    id != 0 && id % 2 == own_parity(is_client)
}

/// Whether a side accepts `id` as opened by its peer: non-zero with the
/// other side's parity.
pub open spec fn peer_id_ok(is_client: bool, id: u32) -> bool {
    id != 0 && id % 2 != own_parity(is_client)
}

/// A counter a side may hold: never 0, and of the side's parity until the
/// ids have run out.
pub open spec fn counter_ok(is_client: bool, n: u32) -> bool {
    n != 0 && (n % 2 == own_parity(is_client) || !allocation_succeeds(n))
}

/// The message of the error on counter overflow.
pub open spec fn overflow_message() -> Seq<char> {
    "Stream ID overflow - session should be restarted"@
}

/// Allocates the ids of the streams one side opens: odd ids from 1 for a
/// client, even ids from 2 for a server, until they run out.
#[derive(Debug)]
pub struct StreamIdGenerator {
    next_id: u32,
    is_client: bool,
}

impl StreamIdGenerator {
    #[verifier::type_invariant]
    spec fn inv(self) -> bool {
        counter_ok(self.is_client, self.next_id)
    }

    /// The id the next allocation returns, if ids remain.
    pub closed spec fn counter(&self) -> u32 {
        self.next_id
    }

    /// Whether the generator allocates for the client side.
    pub closed spec fn client_side(&self) -> bool {
        self.is_client
    }

    /// A generator for one side, starting at 1 for a client and 2 for a server.
    pub fn new(is_client: bool) -> (g: StreamIdGenerator)
        ensures
            g.client_side() == is_client,
            g.counter() == (if is_client { 1u32 } else { 2u32 }),
    {
        let initial_id: u32 = if is_client { 1 } else { 2 };
        StreamIdGenerator { next_id: initial_id, is_client }
    }

    /// Moves the counter to `next_id`, as storing into the counter does; the
    /// value must be one the side may hold. Moving it back lets ids that
    /// were handed out be handed out again (as `reset` does), so the ids of
    /// one generator are unique only between such moves.
    pub fn set_next_id(&mut self, next_id: u32)
        requires
            counter_ok(old(self).client_side(), next_id),
        ensures
            final(self).counter() == next_id,
            final(self).client_side() == old(self).client_side(),
    {
        self.next_id = next_id;
    }

    /// Allocates the next id. While ids remain it returns the counter and
    /// moves it on by two; once they have run out it fails and leaves the
    /// counter where it is, so every later call fails too. Every id
    /// returned is a valid id of the side.
    pub fn next(&mut self) -> (r: Result<u32, SmuxError>)
        ensures
            final(self).counter() == next_counter(old(self).counter()),
            final(self).client_side() == old(self).client_side(),
            allocation_succeeds(old(self).counter()) ==> r == Ok::<u32, SmuxError>(old(self).counter()),
            !allocation_succeeds(old(self).counter()) ==> (r matches Err(e)
                && e matches SmuxError::ProtocolViolation(m) && m@ == overflow_message()
                && !allocation_succeeds(final(self).counter())),
            r matches Ok(id) ==> own_id_ok(old(self).client_side(), id),
    {
        proof {
            use_type_invariant(&*self);
        }
        let next_id = self.next_id;
        if next_id > u32::MAX - 2 {
            return Err(
                SmuxError::ProtocolViolation(
                    "Stream ID overflow - session should be restarted".to_owned(),
                ),
            );
        }
        self.next_id = next_id + 2;
        Ok(next_id)
    }

    /// Accepts an id opened by the peer: non-zero, with the peer's parity.
    pub fn validate_peer_stream_id(&self, stream_id: u32) -> (r: Result<(), SmuxError>)
        ensures
            peer_id_ok(self.client_side(), stream_id) ==> r is Ok,
            !peer_id_ok(self.client_side(), stream_id) ==> (r matches Err(e)
                && e == SmuxError::InvalidStreamId(stream_id)),
    {
        if stream_id == 0 {
            return Err(SmuxError::InvalidStreamId(stream_id));
        }
        let expected_parity: u32 = if self.is_client { 0 } else { 1 };
        let actual_parity = stream_id % 2;
        if actual_parity != expected_parity {
            return Err(SmuxError::InvalidStreamId(stream_id));
        }
        Ok(())
    }

    /// Accepts an id as one of this side's own: non-zero, with its parity.
    pub fn validate_own_stream_id(&self, stream_id: u32) -> (r: Result<(), SmuxError>)
        ensures
            own_id_ok(self.client_side(), stream_id) ==> r is Ok,
            !own_id_ok(self.client_side(), stream_id) ==> (r matches Err(e)
                && e == SmuxError::InvalidStreamId(stream_id)),
    {
        if stream_id == 0 {
            return Err(SmuxError::InvalidStreamId(stream_id));
        }
        let expected_parity: u32 = if self.is_client { 1 } else { 0 };
        let actual_parity = stream_id % 2;
        if actual_parity != expected_parity {
            return Err(SmuxError::InvalidStreamId(stream_id));
        }
        Ok(())
    }

    /// Whether the id was opened by a client (odd).
    pub fn is_client_initiated(&self, stream_id: u32) -> (r: bool)
        ensures
            r == (stream_id % 2 == 1),
    {
        stream_id % 2 == 1
    }

    /// Whether the id was opened by a server (even).
    pub fn is_server_initiated(&self, stream_id: u32) -> (r: bool)
        ensures
            r == (stream_id % 2 == 0),
    {
        stream_id % 2 == 0
    }

    /// Starts the counter over at the side's first id.
    pub fn reset(&mut self)
        ensures
            final(self).client_side() == old(self).client_side(),
            final(self).counter() == (if old(self).client_side() { 1u32 } else { 2u32 }),
    {
        let initial_id: u32 = if self.is_client { 1 } else { 2 };
        self.next_id = initial_id;
    }
}

/// Allocation keeps a side's counter one the side may hold, so every id
/// handed out is a valid id of the side.
pub proof fn lemma_allocation_keeps_counter_ok(is_client: bool, n: u32)
    requires
        counter_ok(is_client, n),
    ensures
        counter_ok(is_client, next_counter(n)),
        allocation_succeeds(n) ==> own_id_ok(is_client, n) && !peer_id_ok(is_client, n),
{
}

/// Once the ids have run out they stay run out: every later allocation
/// fails and the counter no longer moves.
pub proof fn lemma_exhaustion_is_final(n: u32, i: nat)
    requires
        !allocation_succeeds(n),
    ensures
        counter_after(n, i) == n,
    decreases i,
{
    if i > 0 {
        lemma_exhaustion_is_final(n, (i - 1) as nat);
    }
}

/// A side never accepts as a peer's an id it would accept as its own, and a
/// client and a server never own the same id.
pub proof fn lemma_own_and_peer_disjoint(is_client: bool, id: u32)
    ensures
        !(own_id_ok(is_client, id) && peer_id_ok(is_client, id)),
        !(own_id_ok(true, id) && own_id_ok(false, id)),
        own_id_ok(is_client, id) <==> peer_id_ok(!is_client, id),
{
}

/// While allocations keep succeeding, the i-th one returns the start plus
/// 2i, so the ids of a run of successful allocations are strictly
/// increasing and never repeat.
pub proof fn lemma_successful_ids_increase(n: u32, k: nat)
    requires
        forall|i: nat| i < k ==> allocation_succeeds(#[trigger] counter_after(n, i)),
    ensures
        forall|i: nat| i < k ==> counter_after(n, i) == n + 2 * i,
        forall|i: nat, j: nat| i < j < k ==> counter_after(n, i) < counter_after(n, j),
    decreases k,
{
    if k > 0 {
        lemma_successful_ids_increase(n, (k - 1) as nat);
        let last = (k - 1) as nat;
        assert(allocation_succeeds(counter_after(n, last)));
        if last > 0 {
            assert(allocation_succeeds(counter_after(n, (last - 1) as nat)));
            assert(counter_after(n, last) == next_counter(counter_after(n, (last - 1) as nat)));
        }
        assert forall|i: nat| i < k implies counter_after(n, i) == n + 2 * i by {
            if i < last {
            } else {
                if i > 0 {
                    assert(allocation_succeeds(counter_after(n, (i - 1) as nat)));
                }
            }
        }
    }
}

/// The counter never moves back under allocation.
proof fn lemma_counter_never_decreases(n: u32, i: nat, j: nat)
    requires
        i <= j,
    ensures
        counter_after(n, i) <= counter_after(n, j),
    decreases j,
{
    if i < j {
        lemma_counter_never_decreases(n, i, (j - 1) as nat);
    }
}

/// No id is handed out twice: of the allocations made one after another
/// from counter `n`, any two that succeed give different ids, and once one
/// fails every later one fails too.
pub proof fn lemma_ids_never_repeat(n: u32, i: nat, j: nat)
    requires
        i < j,
    ensures
        allocation_succeeds(counter_after(n, i)) && allocation_succeeds(counter_after(n, j))
            ==> counter_after(n, i) != counter_after(n, j),
        !allocation_succeeds(counter_after(n, i)) ==> !allocation_succeeds(counter_after(n, j)),
{
    lemma_counter_never_decreases(n, i, j);
    if allocation_succeeds(counter_after(n, j)) {
        assert forall|k: nat| k < j + 1 implies allocation_succeeds(#[trigger] counter_after(n, k)) by {
            lemma_counter_never_decreases(n, k, j);
        }
        lemma_successful_ids_increase(n, j + 1);
    }
}

} // verus!
