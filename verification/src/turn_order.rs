//! Round-robin scheduling of the participants.

use vstd::prelude::*;
use crate::monster::UnitReference;

verus! {

/// Why a fight could not be set up.
#[derive(Debug, Clone, Copy, PartialEq, Eq, Structural)]
pub enum SetupError {
    /// A turn order needs at least one participant.
    EmptyTurnOrder,
}

/// `s` with its first `k` elements moved to the back, in order.
pub open spec fn rotate_left<T>(s: Seq<T>, k: int) -> Seq<T>
    recommends
        0 <= k <= s.len(),
{
    s.subrange(k, s.len() as int) + s.subrange(0, k)
}

/// The rotation reached from `s` by `k` single advances.
pub open spec fn after_advances<T>(s: Seq<T>, k: nat) -> Seq<T>
    decreases k,
{
    if k == 0 {
        s
    } else {
        rotate_left(after_advances(s, (k - 1) as nat), 1)
    }
}

/// The participants of a fight in the order in which they act. Its view is
/// that order, starting with whoever acts now. It is never empty, and nobody
/// ever leaves it.
#[derive(Debug)]
pub struct TurnOrder {
    list: Vec<UnitReference>,
    head: usize,
}

impl View for TurnOrder {
    type V = Seq<UnitReference>;

    closed spec fn view(&self) -> Seq<UnitReference> {
        rotate_left(self.list@, self.head as int)
    }
}

impl TurnOrder {
    #[verifier::type_invariant]
    spec fn inv(&self) -> bool {
        self.head < self.list@.len()
    }

    /// Takes the participants in the order given; an empty list is refused.
    pub fn new(list: Vec<UnitReference>) -> (made: Result<Self, SetupError>)
        ensures
            list@.len() == 0 <==> made is Err,
            made matches Err(e) ==> e == SetupError::EmptyTurnOrder,
            made matches Ok(order) ==> order@ == list@,
    {
        if list.len() == 0 {
            return Err(SetupError::EmptyTurnOrder);
        }
        let order = TurnOrder { list, head: 0 };
        assert(order@ =~= list@);
        Ok(order)
    }

    /// Hands the turn to the next participant; whoever just acted goes last.
    pub fn advance(&mut self)
        ensures
            final(self)@ == rotate_left(old(self)@, 1),
            final(self)@.len() == old(self)@.len(),
    {
        proof {
            use_type_invariant(&*self);
        }
        let len = self.list.len();
        let next: usize = if self.head + 1 == len {
            0
        } else {
            self.head + 1
        };
        assert(rotate_left(self.list@, next as int) =~= rotate_left(
            rotate_left(self.list@, self.head as int),
            1,
        ));
        self.head = next;
    }

    /// Whose turn it is.
    pub fn current(&self) -> (unit: UnitReference)
        ensures
            self@.len() > 0,
            unit == self@[0],
    {
        proof {
            use_type_invariant(self);
        }
        self.list[self.head]
    }

    /// How many participants take turns.
    pub fn len(&self) -> (n: usize)
        ensures
            n == self@.len(),
            n > 0,
    {
        proof {
            use_type_invariant(self);
        }
        self.list.len()
    }
}

/// Advancing `k` times is one rotation by `k` modulo the number of
/// participants, so the participant then at the head is the one that stood at
/// position `k mod len` in the beginning.
pub proof fn lemma_after_advances<T>(s: Seq<T>, k: nat)
    requires
        s.len() > 0,
    ensures
        after_advances(s, k) == rotate_left(s, (k % s.len()) as int),
        after_advances(s, k).len() == s.len(),
        after_advances(s, k)[0] == s[(k % s.len()) as int],
    decreases k,
{
    let n = s.len();
    if k == 0 {
        assert(0nat % n == 0) by {
            vstd::arithmetic::div_mod::lemma_small_mod(0, n);
        }
        assert(rotate_left(s, 0) =~= s);
    } else {
        let j = (k - 1) as nat;
        lemma_after_advances(s, j);
        let a = (j % n) as int;
        let b = (k % n) as int;
        assert(b == if a + 1 == n { 0 } else { a + 1 }) by {
            let q = j as int / n as int;
            vstd::arithmetic::div_mod::lemma_fundamental_div_mod(j as int, n as int);
            vstd::arithmetic::div_mod::lemma_mod_bound(j as int, n as int);
            if a + 1 == n {
                assert(k as int == (q + 1) * n + 0) by (nonlinear_arith)
                    requires
                        j as int == n * q + a,
                        a + 1 == n,
                        k as int == j as int + 1,
                ;
                vstd::arithmetic::div_mod::lemma_fundamental_div_mod_converse(
                    k as int,
                    n as int,
                    q + 1,
                    0,
                );
            } else {
                assert(k as int == q * n + (a + 1)) by (nonlinear_arith)
                    requires
                        j as int == n * q + a,
                        k as int == j as int + 1,
                ;
                vstd::arithmetic::div_mod::lemma_fundamental_div_mod_converse(
                    k as int,
                    n as int,
                    q,
                    a + 1,
                );
            }
        }
        assert(rotate_left(rotate_left(s, a), 1) =~= rotate_left(s, b));
        assert(rotate_left(s, b)[0] == s[b]);
    }
}

/// After as many advances as there are participants, the order is what it was.
pub proof fn lemma_full_cycle<T>(s: Seq<T>)
    requires
        s.len() > 0,
    ensures
        after_advances(s, s.len()) == s,
{
    lemma_after_advances(s, s.len());
    assert(s.len() % s.len() == 0) by {
        vstd::arithmetic::div_mod::lemma_mod_self_0(s.len() as int);
    }
    assert(rotate_left(s, 0) =~= s);
}

} // verus!
