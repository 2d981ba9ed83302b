//! The cascade over an ordered chain of tiers: the first tier is asked
//! first, the last one is authoritative. A tier that has no answer lets the
//! lookup fall through to the next; a value found further down is written
//! back into every tier that missed, nearest to the source first.
//!
//! The cascade decides; it does not perform lookups. Whoever drives it asks
//! it what is pending, does that, and reports back.

use vstd::prelude::*;

verus! {

/// What the driver of a cascade has to do next.
#[derive(Clone, Copy, Debug, PartialEq, Eq, Structural)]
pub enum Pending {
    /// Ask the tier at this place for the key.
    Query(usize),
    /// Write the value that was found into the tier at this place.
    Store(usize),
    /// Nothing: the lookup has ended.
    Done,
}

/// One lookup through a chain of tiers.
#[derive(Debug, PartialEq, Eq)]
pub enum Cascade<V, E> {
    /// The tier at `tier`, of `tiers` in all, is being asked.
    Querying { tier: usize, tiers: usize },
    /// `value` was found below `tier` and is being written into it.
    Storing { tier: usize, value: V },
    /// The lookup has ended with `result`.
    Finished { result: Result<V, E> },
}

/// The state in which a lookup through `tiers` tiers begins.
pub open spec fn begun<V, E>(tiers: usize) -> Cascade<V, E> {
    Cascade::Querying { tier: 0, tiers }
}

/// The state after the tier that was asked replied. A value ends the
/// descent: it is the result, once it has been written into the tiers
/// above, if there are any. A tier without an answer, whatever the reason,
/// passes the question on; the last tier's failure is the lookup's failure.
pub open spec fn answered<V, E>(state: Cascade<V, E>, reply: Result<V, E>) -> Cascade<V, E> {
    match state {
        Cascade::Querying { tier, tiers } => match reply {
            Ok(value) => if tier == 0 {
                Cascade::Finished { result: Ok(value) }
            } else {
                Cascade::Storing { tier: (tier - 1) as usize, value }
            },
            Err(error) => if tier + 1 < tiers {
                Cascade::Querying { tier: (tier + 1) as usize, tiers }
            } else {
                Cascade::Finished { result: Err(error) }
            },
        },
        _ => state,
    }
}

/// The state after the pending write was done.
pub open spec fn stored<V, E>(state: Cascade<V, E>) -> Cascade<V, E> {
    match state {
        Cascade::Storing { tier, value } => if tier == 0 {
            Cascade::Finished { result: Ok(value) }
        } else {
            Cascade::Storing { tier: (tier - 1) as usize, value }
        },
        _ => state,
    }
}

/// What is pending in a state.
pub open spec fn pending_of<V, E>(state: Cascade<V, E>) -> Pending {
    match state {
        Cascade::Querying { tier, tiers } => Pending::Query(tier),
        Cascade::Storing { tier, value } => Pending::Store(tier),
        Cascade::Finished { result } => Pending::Done,
    }
}

impl<V, E> Cascade<V, E> {
    /// Begins a lookup through `tiers` tiers; `None` for an empty chain.
    pub fn start(tiers: usize) -> (state: Option<Self>)
        ensures
            state == (if tiers == 0 {
                None
            } else {
                Some(begun::<V, E>(tiers))
            }),
    {
        if tiers == 0 {
            None
        } else {
            Some(Cascade::Querying { tier: 0, tiers })
        }
    }

    /// What the driver has to do next.
    pub fn pending(&self) -> (todo: Pending)
        ensures
            todo == pending_of(*self),
    {
        match self {
            Cascade::Querying { tier, tiers } => Pending::Query(*tier),
            Cascade::Storing { tier, value } => Pending::Store(*tier),
            Cascade::Finished { result } => Pending::Done,
        }
    }

    /// The value to write, while a write is pending.
    pub fn value_to_store(&self) -> (value: Option<&V>)
        ensures
            match *self {
                Cascade::Storing { tier, value: found } => value == Some(&found),
                _ => value is None,
            },
    {
        match self {
            Cascade::Storing { tier, value } => Some(value),
            _ => None,
        }
    }

    /// Takes the reply of the tier that was asked. A reply that nothing
    /// asked for changes nothing.
    pub fn on_reply(self, reply: Result<V, E>) -> (next: Self)
        ensures
            next == answered(self, reply),
    {
        match self {
            Cascade::Querying { tier, tiers } => match reply {
                Ok(value) => if tier == 0 {
                    Cascade::Finished { result: Ok(value) }
                } else {
                    Cascade::Storing { tier: tier - 1, value }
                },
                Err(error) => if tier < tiers && tiers - tier > 1 {
                    Cascade::Querying { tier: tier + 1, tiers }
                } else {
                    Cascade::Finished { result: Err(error) }
                },
            },
            other => other,
        }
    }

    /// Takes note that the pending write was done, whether or not the tier
    /// kept the value.
    pub fn on_stored(self) -> (next: Self)
        ensures
            next == stored(self),
    {
        match self {
            Cascade::Storing { tier, value } => if tier == 0 {
                Cascade::Finished { result: Ok(value) }
            } else {
                Cascade::Storing { tier: tier - 1, value }
            },
            other => other,
        }
    }

    /// The lookup's result, once it has ended.
    pub fn into_result(self) -> (result: Option<Result<V, E>>)
        ensures
            match self {
                Cascade::Finished { result: ended } => result == Some(ended),
                _ => result is None,
            },
    {
        match self {
            Cascade::Finished { result } => Some(result),
            _ => None,
        }
    }
}

/// The answers of a chain of tiers for one key: what each tier would reply
/// if it were asked now.
pub type Chain<V, E> = Seq<Result<V, E>>;

/// How far a state is from the end of its lookup.
pub open spec fn distance<V, E>(state: Cascade<V, E>) -> nat {
    match state {
        Cascade::Querying { tier, tiers } => if tier < tiers {
            (tier + 2 + 2 * (tiers - tier)) as nat
        } else {
            (tier + 2) as nat
        },
        Cascade::Storing { tier, value } => (tier + 1) as nat,
        Cascade::Finished { result } => 0,
    }
}

/// A lookup driven to its end against `chain`: each query is answered by the
/// chain, each write replaces the answer of the tier written to. Yields the
/// last state, the chain as the lookup leaves it, and what was done, in
/// order. A state that points outside the chain is left as it is.
pub open spec fn run<V, E>(state: Cascade<V, E>, chain: Chain<V, E>) -> (
    Cascade<V, E>,
    Chain<V, E>,
    Seq<Pending>,
)
    decreases distance(state),
{
    match state {
        Cascade::Querying { tier, tiers } => if tier < chain.len() {
            let (end, left, done) = run(answered(state, chain[tier as int]), chain);
            (end, left, seq![Pending::Query(tier)] + done)
        } else {
            (state, chain, Seq::empty())
        },
        Cascade::Storing { tier, value } => if tier < chain.len() {
            let (end, left, done) = run(stored(state), chain.update(tier as int, Ok(value)));
            (end, left, seq![Pending::Store(tier)] + done)
        } else {
            (state, chain, Seq::empty())
        },
        Cascade::Finished { result } => (state, chain, Seq::empty()),
    }
}

/// The queries of a descent from the tier `from` down to the tier `to`.
pub open spec fn descent(from: int, to: int) -> Seq<Pending> {
    Seq::new((to - from + 1) as nat, |i: int| Pending::Query((from + i) as usize))
}

/// The writes of an ascent from the tier `from` up to the first tier.
pub open spec fn ascent(from: int) -> Seq<Pending> {
    Seq::new((from + 1) as nat, |i: int| Pending::Store((from - i) as usize))
}

/// `chain` with the answer of every tier above `below` replaced by `value`.
pub open spec fn healed<V, E>(chain: Chain<V, E>, below: int, value: V) -> Chain<V, E> {
    Seq::new(
        chain.len(),
        |i: int|
            if i < below {
                Ok(value)
            } else {
                chain[i]
            },
    )
}

/// An ascent writes the value into its tier and every tier above it, nearest
/// to the source first, and ends with the value.
pub proof fn lemma_ascent<V, E>(tier: usize, value: V, chain: Chain<V, E>)
    requires
        tier < chain.len(),
    ensures
        run(Cascade::<V, E>::Storing { tier, value }, chain) == (
            Cascade::<V, E>::Finished { result: Ok(value) },
            healed(chain, tier + 1, value),
            ascent(tier as int),
        ),
    decreases tier,
{
    let state = Cascade::<V, E>::Storing { tier, value };
    let written = chain.update(tier as int, Ok(value));
    if tier == 0 {
        assert(run(stored(state), written).2 =~= Seq::<Pending>::empty());
        assert(written =~= healed(chain, 1, value));
        assert(seq![Pending::Store(tier)] + Seq::<Pending>::empty() =~= ascent(0));
    } else {
        lemma_ascent::<V, E>((tier - 1) as usize, value, written);
        assert(healed(written, tier as int, value) =~= healed(chain, tier + 1, value));
        assert(seq![Pending::Store(tier)] + ascent(tier - 1) =~= ascent(tier as int));
    }
}

/// Self-healing. Where the tiers from `from` on have no answer until the tier
/// `hit` answers with `value`, a lookup that stands at `from` asks exactly
/// the tiers from `from` to `hit`, in order, then writes `value` into the
/// tiers above `hit`, from the nearest up to the first, and ends with
/// `value`. The tiers behind `hit` are neither asked nor written.
pub proof fn lemma_descent<V, E>(from: usize, hit: usize, value: V, chain: Chain<V, E>)
    requires
        from <= hit < chain.len(),
        chain.len() <= usize::MAX,
        chain[hit as int] == Ok::<V, E>(value),
        forall|i: int| from <= i < hit ==> (#[trigger] chain[i]) is Err,
    ensures
        run(Cascade::<V, E>::Querying { tier: from, tiers: chain.len() as usize }, chain) == (
            Cascade::<V, E>::Finished { result: Ok(value) },
            healed(chain, hit as int, value),
            descent(from as int, hit as int) + (if hit == 0 {
                Seq::<Pending>::empty()
            } else {
                ascent(hit - 1)
            }),
        ),
    decreases hit - from,
{
    let tiers = chain.len() as usize;
    let state = Cascade::<V, E>::Querying { tier: from, tiers };
    if from == hit {
        assert(descent(from as int, hit as int) =~= seq![Pending::Query(from)]);
        if hit == 0 {
            assert(run(answered(state, chain[0]), chain).2 =~= Seq::<Pending>::empty());
            assert(healed(chain, 0, value) =~= chain);
        } else {
            lemma_ascent::<V, E>((hit - 1) as usize, value, chain);
        }
    } else {
        assert(chain[from as int] is Err);
        lemma_descent::<V, E>((from + 1) as usize, hit, value, chain);
        assert(seq![Pending::Query(from)] + descent(from + 1, hit as int) =~= descent(
            from as int,
            hit as int,
        ));
        assert(seq![Pending::Query(from)] + (descent(from + 1, hit as int) + ascent(hit - 1))
            =~= descent(from as int, hit as int) + ascent(hit - 1));
    }
}

/// Cascade self-heal. In a chain whose first answer is `value`, at the tier
/// `hit`, a lookup returns `value`, leaves `value` in every tier above `hit`
/// and every other tier as it was, and touches no tier behind `hit`.
pub proof fn lemma_self_heal<V, E>(hit: usize, value: V, chain: Chain<V, E>)
    requires
        hit < chain.len(),
        chain.len() <= usize::MAX,
        chain[hit as int] == Ok::<V, E>(value),
        forall|i: int| 0 <= i < hit ==> (#[trigger] chain[i]) is Err,
    ensures
        ({
            let (end, left, done) = run(begun::<V, E>(chain.len() as usize), chain);
            &&& end == Cascade::<V, E>::Finished { result: Ok(value) }
            &&& left.len() == chain.len()
            &&& forall|i: int| 0 <= i < hit ==> left[i] == Ok::<V, E>(value)
            &&& forall|i: int| hit <= i < chain.len() ==> left[i] == chain[i]
            &&& forall|i: int|
                0 <= i < done.len() ==> match #[trigger] done[i] {
                    Pending::Query(tier) => tier <= hit,
                    Pending::Store(tier) => tier < hit,
                    Pending::Done => false,
                }
        }),
{
    lemma_descent::<V, E>(0, hit, value, chain);
}

/// After a lookup has healed the chain, the same lookup again is answered by
/// the first tier alone: nothing else is asked, nothing is written.
pub proof fn lemma_repeat_hits_first_tier<V, E>(hit: usize, value: V, chain: Chain<V, E>)
    requires
        hit < chain.len(),
        chain.len() <= usize::MAX,
        chain[hit as int] == Ok::<V, E>(value),
        forall|i: int| 0 <= i < hit ==> (#[trigger] chain[i]) is Err,
    ensures
        ({
            let healed_chain = run(begun::<V, E>(chain.len() as usize), chain).1;
            run(begun::<V, E>(chain.len() as usize), healed_chain) == (
                Cascade::<V, E>::Finished { result: Ok(value) },
                healed_chain,
                seq![Pending::Query(0)],
            )
        }),
{
    lemma_descent::<V, E>(0, hit, value, chain);
    let healed_chain = healed(chain, hit as int, value);
    lemma_descent::<V, E>(0, 0, value, healed_chain);
    assert(healed(healed_chain, 0, value) =~= healed_chain);
    assert(descent(0, 0) + Seq::<Pending>::empty() =~= seq![Pending::Query(0)]);
}

/// Where no tier from `from` on has an answer, a lookup that stands at
/// `from` asks each of them in order, writes nothing, and fails with the
/// last tier's error.
pub proof fn lemma_all_fail_from<V, E>(from: usize, chain: Chain<V, E>)
    requires
        from < chain.len(),
        chain.len() <= usize::MAX,
        forall|i: int| from <= i < chain.len() ==> (#[trigger] chain[i]) is Err,
    ensures
        run(Cascade::<V, E>::Querying { tier: from, tiers: chain.len() as usize }, chain) == (
            Cascade::<V, E>::Finished { result: chain[chain.len() - 1] },
            chain,
            descent(from as int, chain.len() - 1),
        ),
    decreases chain.len() - from,
{
    let tiers = chain.len() as usize;
    let state = Cascade::<V, E>::Querying { tier: from, tiers };
    assert(chain[from as int] is Err);
    if from + 1 < chain.len() {
        lemma_all_fail_from::<V, E>((from + 1) as usize, chain);
        assert(seq![Pending::Query(from)] + descent(from + 1, chain.len() - 1) =~= descent(
            from as int,
            chain.len() - 1,
        ));
    } else {
        assert(run(answered(state, chain[from as int]), chain).2 =~= Seq::<Pending>::empty());
        assert(seq![Pending::Query(from)] + Seq::<Pending>::empty() =~= descent(
            from as int,
            chain.len() - 1,
        ));
    }
}

/// Authoritative failure propagates. Where no tier has an answer, the lookup
/// returns the error of the last tier and writes into no tier.
pub proof fn lemma_authoritative_failure<V, E>(chain: Chain<V, E>)
    requires
        0 < chain.len() <= usize::MAX,
        forall|i: int| 0 <= i < chain.len() ==> (#[trigger] chain[i]) is Err,
    ensures
        ({
            let (end, left, done) = run(begun::<V, E>(chain.len() as usize), chain);
            &&& end == Cascade::<V, E>::Finished { result: chain[chain.len() - 1] }
            &&& left == chain
            &&& forall|i: int| 0 <= i < done.len() ==> (#[trigger] done[i]) is Query
        }),
{
    lemma_all_fail_from::<V, E>(0, chain);
}

} // verus!
