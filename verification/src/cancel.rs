use crate::error::OpError;
use vstd::prelude::*;

verus! {

/// Identifies one pending operation. The caller that issues an operation
/// chooses its identifier and uses it again when the operation completes.
pub type OpId = u64;

/// The outcome of one step of the race between an operation and a token.
#[derive(Debug, PartialEq, Eq)]
pub enum Race<T> {
    /// The token was revoked before the operation finished.
    Canceled,
    /// The operation finished first, with its natural result.
    Ready(T),
    /// Neither happened yet: the operation is parked on the token.
    Pending,
}

/// What revocation brings to each of `ops`: the failure `Canceled`.
pub open spec fn canceled_all(ops: Seq<OpId>) -> Seq<(OpId, OpError)> {
    Seq::new(ops.len(), |i: int| (ops[i], OpError::Canceled))
}

/// The part of `ops` from position `from` on.
pub open spec fn tail(ops: Seq<OpId>, from: int) -> Seq<OpId> {
    if 0 <= from <= ops.len() {
        ops.subrange(from, ops.len() as int)
    } else {
        Seq::empty()
    }
}

/// The mathematical state of a cancellation token: the revocable flag and
/// the operations parked on it, in the order in which they parked.
pub struct TokenModel {
    pub canceled: bool,
    pub waiters: Seq<OpId>,
}

impl TokenModel {
    /// No operation is parked twice, and none is parked on a revoked token.
    pub open spec fn wf(self) -> bool {
        &&& self.waiters.no_duplicates()
        &&& self.canceled ==> self.waiters.len() == 0
    }

    /// A token that has not been revoked and has no waiters.
    pub open spec fn fresh() -> TokenModel {
        TokenModel { canceled: false, waiters: Seq::empty() }
    }

    /// The token after revocation: every waiter has been released.
    pub open spec fn cancel(self) -> TokenModel {
        TokenModel { canceled: true, waiters: Seq::empty() }
    }

    /// The token with `op` among its waiters.
    pub open spec fn park(self, op: OpId) -> TokenModel {
        if self.waiters.contains(op) {
            self
        } else {
            TokenModel { canceled: self.canceled, waiters: self.waiters.push(op) }
        }
    }

    /// The token without `op` among its waiters.
    pub open spec fn unpark(self, op: OpId) -> TokenModel {
        TokenModel { canceled: self.canceled, waiters: self.waiters.remove_value(op) }
    }

    /// One step of the race of `op` against the token. `natural` is the
    /// operation's own result if it has one by now.
    pub open spec fn race<T>(self, op: OpId, natural: Option<T>) -> (TokenModel, Race<T>) {
        if self.canceled {
            (self, Race::Canceled)
        } else {
            match natural {
                Some(value) => (self.unpark(op), Race::Ready(value)),
                None => (self.park(op), Race::Pending),
            }
        }
    }
}

/// A revocable signal that pending operations can wait on.
pub struct CancelToken {
    canceled: bool,
    waiters: Vec<OpId>,
}

impl View for CancelToken {
    type V = TokenModel;

    closed spec fn view(&self) -> TokenModel {
        TokenModel { canceled: self.canceled, waiters: self.waiters@ }
    }
}

/// The first position of `op` in `ops`, if it occurs there.
fn position(ops: &Vec<OpId>, op: OpId) -> (found: Option<usize>)
    ensures
        match found {
            Some(i) => i < ops@.len() && ops@[i as int] == op && ops@.index_of_first(op) == Some(
                i as int,
            ),
            None => !ops@.contains(op) && ops@.index_of_first(op).is_none(),
        },
{
    proof {
        ops@.index_of_first_ensures(op);
    }
    let mut i: usize = 0;
    while i < ops.len()
        invariant
            i <= ops.len(),
            forall|j: int| 0 <= j < i ==> ops@[j] != op,
            match ops@.index_of_first(op) {
                Some(index) => {
                    &&& 0 <= index < ops@.len()
                    &&& ops@[index] == op
                    &&& forall|j: int| 0 <= j < index < ops@.len() ==> ops@[j] != op
                },
                None => !ops@.contains(op),
            },
        decreases ops.len() - i,
    {
        if ops[i] == op {
            return Some(i);
        }
        i += 1;
    }
    None
}

/// Appends to `out` the failure of each operation of `ops` from position
/// `from` on.
pub(crate) fn cancel_each(ops: &Vec<OpId>, from: usize, out: &mut Vec<(OpId, OpError)>)
    ensures
        final(out)@ == old(out)@ + canceled_all(tail(ops@, from as int)),
{
    if from > ops.len() {
        return ;
    }
    let mut i: usize = from;
    while i < ops.len()
        invariant
            from <= i <= ops@.len(),
            out@ == old(out)@ + canceled_all(ops@.subrange(from as int, i as int)),
        decreases ops.len() - i,
    {
        out.push((ops[i], OpError::Canceled));
        i += 1;
    }
}

impl CancelToken {
    /// A token that has not been revoked.
    pub fn new() -> (token: CancelToken)
        ensures
            token@ == TokenModel::fresh(),
            token@.wf(),
    {
        CancelToken { canceled: false, waiters: Vec::new() }
    }

    /// Whether the token has been revoked.
    pub fn is_canceled(&self) -> (canceled: bool)
        ensures
            canceled == self@.canceled,
    {
        self.canceled
    }

    /// Whether `op` is parked on this token.
    pub fn is_waiting(&self, op: OpId) -> (waiting: bool)
        ensures
            waiting == self@.waiters.contains(op),
    {
        position(&self.waiters, op).is_some()
    }

    /// Revokes the token and hands back the operations that were parked on
    /// it; each of them resolves as canceled.
    pub fn cancel(&mut self) -> (woken: Vec<OpId>)
        ensures
            final(self)@ == old(self)@.cancel(),
            final(self)@.wf(),
            woken@ == old(self)@.waiters,
    {
        let mut woken: Vec<OpId> = Vec::new();
        std::mem::swap(&mut self.waiters, &mut woken);
        self.canceled = true;
        woken
    }

    /// Takes one step of the race of `op` against this token.
    pub fn race<T>(&mut self, op: OpId, natural: Option<T>) -> (raced: Race<T>)
        ensures
            (final(self)@, raced) == old(self)@.race(op, natural),
            old(self)@.wf() ==> final(self)@.wf(),
    {
        proof {
            if self@.wf() {
                lemma_token_steps_keep_wf(self@, op, natural);
            }
        }
        if self.canceled {
            return Race::Canceled;
        }
        let at = position(&self.waiters, op);
        match natural {
            Some(value) => {
                if let Some(i) = at {
                    self.waiters.remove(i);
                }
                Race::Ready(value)
            },
            None => {
                if at.is_none() {
                    self.waiters.push(op);
                }
                Race::Pending
            },
        }
    }
}

/// Every step keeps a token well formed: revoking it, and a step of a race
/// whatever its outcome. An operation that has won its race is no longer
/// parked, and one that waits on a live token is.
pub proof fn lemma_token_steps_keep_wf<T>(token: TokenModel, op: OpId, natural: Option<T>)
    requires
        token.wf(),
    ensures
        TokenModel::fresh().wf(),
        token.cancel().wf(),
        token.race(op, natural).0.wf(),
        natural is Some ==> !token.race(op, natural).0.waiters.contains(op),
        natural is None && !token.canceled ==> token.race(op, natural).0.waiters.contains(op),
{
    token.waiters.index_of_first_ensures(op);
    if token.waiters.contains(op) {
        let i = token.waiters.index_of_first(op).unwrap();
        let rest = token.waiters.remove(i);
        assert forall|a: int, b: int| 0 <= a < rest.len() && 0 <= b < rest.len() && a != b implies
            rest[a] != rest[b] by {
            let a0 = if a < i { a } else { a + 1 };
            let b0 = if b < i { b } else { b + 1 };
            assert(rest[a] == token.waiters[a0]);
            assert(rest[b] == token.waiters[b0]);
        }
        assert forall|a: int| 0 <= a < rest.len() implies rest[a] != op by {
            let a0 = if a < i { a } else { a + 1 };
            assert(rest[a] == token.waiters[a0]);
        }
    } else {
        let more = token.waiters.push(op);
        assert(more[more.len() - 1] == op);
    }
}

/// A revoked token stays revoked: no step of a race clears the flag, and
/// every race against a revoked token is lost at once.
pub proof fn lemma_revocation_is_final<T>(token: TokenModel, op: OpId, natural: Option<T>)
    ensures
        token.cancel().canceled,
        token.cancel().cancel() == token.cancel(),
        token.canceled ==> token.race(op, natural) == (token, Race::<T>::Canceled),
        token.race(op, natural).0.canceled == token.canceled,
{
}

/// On a token that has not been revoked, the operation's own result wins
/// exactly when it is there.
pub proof fn lemma_live_race_follows_operation<T>(token: TokenModel, op: OpId, natural: Option<T>)
    requires
        !token.canceled,
    ensures
        match natural {
            Some(value) => token.race(op, natural).1 == Race::Ready(value),
            None => token.race(op, natural).1 == Race::<T>::Pending,
        },
{
}

} // verus!
