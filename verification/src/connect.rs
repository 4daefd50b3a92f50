//! The connect of a block: four writes in a fixed order, each begun only when
//! the one before it has succeeded.

use crate::store::{StoreResult, WriteRequest, WriteRequestView};
use crate::{BitcoindCacheError, BitcoindCacheResult};
use vstd::prelude::*;

verus! {

/// How many writes a connect makes.
pub const CONNECT_WRITES: usize = 4;

/// A connect in progress: its writes, and how many of them the store has
/// acknowledged. At least one is still to be made.
#[derive(Debug)]
pub struct Connect {
    writes: Vec<WriteRequest>,
    acknowledged: usize,
}

/// What follows the store's answer to a write of a connect.
#[derive(Debug)]
pub enum ConnectStep {
    /// The write succeeded and was not the last: the next is due.
    Next(Connect),
    /// The connect is over: all writes succeeded, or one failed and those
    /// after it are never made.
    Finished(BitcoindCacheResult<()>),
}

/// What the answer to a write means when `acknowledged` writes succeeded
/// before it: the end of the connect, or nothing yet. A failure ends it at
/// once, as the connect's failure. The success of the last write ends it in
/// success.
pub open spec fn connect_step(acknowledged: nat, outcome: StoreResult<()>) -> Option<
    BitcoindCacheResult<()>,
> {
    match outcome {
        Err(e) => Some(Err(BitcoindCacheError::Store(e))),
        Ok(_) => if acknowledged + 1 >= CONNECT_WRITES {
            Some(Ok(()))
        } else {
            None
        },
    }
}

/// How a connect ends, and with how many writes delivered, when
/// `acknowledged` writes have succeeded and the writes from then on are
/// answered by `outcomes[acknowledged]`, `outcomes[acknowledged + 1]` and so
/// on.
pub open spec fn connect_run(outcomes: Seq<StoreResult<()>>, acknowledged: nat) -> (
    BitcoindCacheResult<()>,
    nat,
)
    decreases CONNECT_WRITES - acknowledged,
{
    match connect_step(acknowledged, outcomes[acknowledged as int]) {
        Some(result) => (
            result,
            if result is Ok {
                acknowledged + 1
            } else {
                acknowledged
            },
        ),
        None => connect_run(outcomes, acknowledged + 1),
    }
}

impl Connect {
    #[verifier::type_invariant]
    spec fn owes_a_write(self) -> bool {
        self.writes@.len() == CONNECT_WRITES && self.acknowledged < CONNECT_WRITES
    }

    /// The writes of this connect, in their order.
    pub closed spec fn writes(&self) -> Seq<WriteRequestView> {
        Seq::new(self.writes@.len(), |i: int| self.writes@[i]@)
    }

    /// How many writes the store has acknowledged.
    pub closed spec fn acknowledged(&self) -> nat {
        self.acknowledged as nat
    }

    /// A connect of which nothing is written yet.
    pub fn new(
        block_write: WriteRequest,
        header_write: WriteRequest,
        hash_write: WriteRequest,
        height_write: WriteRequest,
    ) -> (connect: Connect)
        ensures
            connect.acknowledged() == 0,
            connect.writes() == seq![block_write@, header_write@, hash_write@, height_write@],
    {
        let mut writes: Vec<WriteRequest> = Vec::new();
        writes.push(block_write);
        writes.push(header_write);
        writes.push(hash_write);
        writes.push(height_write);
        let connect = Connect { writes, acknowledged: 0 };
        assert(connect.writes() =~= seq![block_write@, header_write@, hash_write@, height_write@]);
        connect
    }

    /// The write that is due: the first that the store has not acknowledged.
    pub fn request(&self) -> (request: &WriteRequest)
        ensures
            self.writes().len() == CONNECT_WRITES,
            self.acknowledged() < CONNECT_WRITES,
            request@ == self.writes()[self.acknowledged() as int],
    {
        proof {
            use_type_invariant(self);
        }
        &self.writes[self.acknowledged]
    }

    /// Takes the store's answer to the write that was due, and says what
    /// follows.
    pub fn advance(self, outcome: StoreResult<()>) -> (step: ConnectStep)
        ensures
            self.acknowledged() < CONNECT_WRITES,
            match connect_step(self.acknowledged(), outcome) {
                Some(result) => step matches ConnectStep::Finished(r) && r == result,
                None => step matches ConnectStep::Next(next) && next.writes() == self.writes()
                    && next.acknowledged() == self.acknowledged() + 1,
            },
    {
        proof {
            use_type_invariant(&self);
        }
        match outcome {
            Err(e) => ConnectStep::Finished(Err(BitcoindCacheError::Store(e))),
            Ok(_) => if self.acknowledged + 1 >= CONNECT_WRITES {
                ConnectStep::Finished(Ok(()))
            } else {
                ConnectStep::Next(Connect { writes: self.writes, acknowledged: self.acknowledged + 1 })
            },
        }
    }
}

/// A connect ends in success exactly when the store acknowledges all four
/// writes, and then all four were delivered.
pub proof fn lemma_connect_succeeds(outcomes: Seq<StoreResult<()>>)
    requires
        outcomes.len() == CONNECT_WRITES,
        forall|i: int| 0 <= i < CONNECT_WRITES ==> (#[trigger] outcomes[i]) is Ok,
    ensures
        connect_run(outcomes, 0) == (Ok::<(), BitcoindCacheError>(()), CONNECT_WRITES as nat),
{
    reveal_with_fuel(connect_run, 5);
    assert(outcomes[0] is Ok);
    assert(outcomes[1] is Ok);
    assert(outcomes[2] is Ok);
    assert(outcomes[3] is Ok);
}

/// A connect ends with the first write that fails, in that write's failure:
/// the writes before it were delivered, and it and those after it were not.
pub proof fn lemma_connect_stops_at_failure(outcomes: Seq<StoreResult<()>>, acknowledged: nat, k: nat)
    requires
        acknowledged <= k < CONNECT_WRITES,
        k < outcomes.len(),
        forall|i: int| acknowledged <= i < k ==> (#[trigger] outcomes[i]) is Ok,
        outcomes[k as int] is Err,
    ensures
        connect_run(outcomes, acknowledged) == (
            Err::<(), BitcoindCacheError>(BitcoindCacheError::Store(outcomes[k as int]->Err_0)),
            k,
        ),
    decreases k - acknowledged,
{
    if acknowledged < k {
        assert(outcomes[acknowledged as int] is Ok);
        lemma_connect_stops_at_failure(outcomes, acknowledged + 1, k);
    }
}

} // verus!
