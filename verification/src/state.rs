//! The shared render state: a single slot holding the most recently rendered
//! HTML and a strictly increasing generation counter.
//!
//! There is no queue of past values: a subscriber that polls observes only the
//! latest value (last-value-wins). A ghost log of every published value lets
//! contracts say exactly which value belongs to which generation, and lets a
//! subscriber's observation history be checked against what was published.

use vstd::prelude::*;

verus! {

/// Single-slot holder of the current HTML plus its generation.
///
/// The generation is `0` exactly as long as nothing has been published; after
/// that the slot holds the value of the highest generation seen.
pub struct RenderState {
    html: Option<String>,
    generation: u64,
    history: Ghost<Seq<Seq<char>>>,
}

impl RenderState {
    #[verifier::type_invariant]
    spec fn wf(&self) -> bool {
        &&& self.generation as nat == self.history@.len()
        &&& (self.generation == 0 <==> self.html is None)
        &&& (self.generation > 0 ==> (self.html matches Some(h) && h@ == self.history@.last()))
    }

    /// The number of values published so far.
    pub closed spec fn spec_generation(&self) -> u64 {
        self.generation
    }

    /// Every value ever published, in order; the value of generation `g`
    /// stands at index `g - 1`.
    pub closed spec fn history(&self) -> Seq<Seq<char>> {
        self.history@
    }

    /// The current value, absent until the first publication.
    pub closed spec fn current(&self) -> Option<Seq<char>> {
        match self.html {
            Some(h) => Some(h@),
            None => None,
        }
    }

    /// An empty state: no value yet, generation zero.
    pub fn new() -> (state: RenderState)
        ensures
            state.spec_generation() == 0,
            state.current() is None,
            state.history() == Seq::<Seq<char>>::empty(),
    {
        RenderState { html: None, generation: 0, history: Ghost(Seq::empty()) }
    }

    /// Stores `html` as the new current value and increments the generation.
    ///
    /// The previous value is gone: observers that missed it can only see the
    /// new one (last-value-wins).
    pub fn replace(&mut self, html: String)
        requires
            old(self).spec_generation() < u64::MAX,
        ensures
            final(self).spec_generation() == old(self).spec_generation() + 1,
            final(self).current() == Some(html@),
            final(self).history() == old(self).history().push(html@),
    {
        proof {
            use_type_invariant(&*self);
        }
        let new_history = Ghost(self.history@.push(html@));
        let new_generation = self.generation + 1;
        *self = RenderState { html: Some(html), generation: new_generation, history: new_history };
    }

    /// The current value (cloned) together with its generation, without
    /// blocking.
    pub fn snapshot(&self) -> (snap: (Option<String>, u64))
        ensures
            snap.1 == self.spec_generation(),
            snap.1 as nat == self.history().len(),
            snap.0 is Some <==> snap.1 > 0,
            match snap.0 {
                Some(h) => self.current() == Some(h@) && h@ == self.history().last(),
                None => self.current() is None,
            },
    {
        proof {
            use_type_invariant(self);
        }
        let current: Option<String> = match &self.html {
            Some(h) => Some(h.clone()),
            None => None,
        };
        (current, self.generation)
    }

    /// The generation alone.
    pub fn generation(&self) -> (g: u64)
        ensures
            g == self.spec_generation(),
            g as nat == self.history().len(),
            g > 0 <==> self.current() is Some,
            g > 0 ==> self.current() == Some(self.history().last()),
    {
        proof {
            use_type_invariant(self);
        }
        self.generation
    }

    /// Whether a value newer than `after` has been published. A waiting
    /// observer suspends exactly as long as this is false.
    pub fn has_changed(&self, after: u64) -> (changed: bool)
        ensures
            changed == (self.spec_generation() > after),
    {
        self.generation > after
    }
}

/// One subscriber's view of the render state: the highest generation it has
/// seen, and (as ghost history) every value it observed, with the generation
/// at which it observed it.
pub struct Subscriber {
    last_seen: u64,
    observed: Ghost<Seq<(u64, Seq<char>)>>,
}

impl Subscriber {
    /// The highest generation this subscriber has observed; `0` before the
    /// first observation.
    pub closed spec fn spec_last_seen(&self) -> u64 {
        self.last_seen
    }

    /// Every observation made, in order: generation and value.
    pub closed spec fn observations(&self) -> Seq<(u64, Seq<char>)> {
        self.observed@
    }

    /// The subscriber's record is genuine against the publish log `log`: its
    /// observations were made at strictly increasing generations that exist in
    /// the log, each saw exactly the value published at its generation, and
    /// none lies beyond the subscriber's own high-water mark.
    pub open spec fn observes(&self, log: Seq<Seq<char>>) -> bool {
        &&& self.spec_last_seen() as nat <= log.len()
        &&& forall|i: int|
            0 <= i < self.observations().len() ==> 1 <= (#[trigger] self.observations()[i]).0
                <= self.spec_last_seen()
        &&& forall|i: int, j: int|
            0 <= i < j < self.observations().len() ==> self.observations()[i].0
                < self.observations()[j].0
        &&& forall|i: int|
            0 <= i < self.observations().len() ==> (#[trigger] self.observations()[i]).1 == log[(
            self.observations()[i].0 - 1) as int]
    }

    /// A fresh subscriber: nothing seen yet, so whatever was published before
    /// it connected is still news to it.
    pub fn new() -> (sub: Subscriber)
        ensures
            sub.spec_last_seen() == 0,
            sub.observations() == Seq::<(u64, Seq<char>)>::empty(),
            forall|log: Seq<Seq<char>>| sub.observes(log),
    {
        Subscriber { last_seen: 0, observed: Ghost(Seq::empty()) }
    }

    /// Reads the render state once. Returns the current value exactly when it
    /// is newer than anything this subscriber has seen; the subscriber then
    /// jumps straight to the latest generation, skipping any intermediate
    /// ones it missed.
    pub fn poll(&mut self, state: &RenderState) -> (update: Option<String>)
        ensures
            final(self).spec_last_seen() >= old(self).spec_last_seen(),
            update is Some <==> state.spec_generation() > old(self).spec_last_seen(),
            update matches Some(h) ==> {
                &&& state.current() == Some(h@)
                &&& state.spec_generation() >= 1
                &&& h@ == state.history()[state.spec_generation() - 1]
                &&& final(self).spec_last_seen() == state.spec_generation()
                &&& final(self).observations() == old(self).observations().push(
                    (state.spec_generation(), h@),
                )
            },
            update is None ==> final(self).spec_last_seen() == old(self).spec_last_seen()
                && final(self).observations() == old(self).observations(),
            old(self).observes(state.history()) ==> final(self).observes(state.history()),
    {
        let (current, generation) = state.snapshot();
        if generation > self.last_seen {
            match current {
                Some(h) => {
                    let new_observed = Ghost(self.observed@.push((generation, h@)));
                    *self = Subscriber { last_seen: generation, observed: new_observed };
                    Some(h)
                },
                None => {
                    // the state's generation is positive, so a value is present
                    assert(false);
                    None
                },
            }
        } else {
            None
        }
    }
}

/// A subscriber's observed values form a possibly-skipping subsequence of the
/// published values: observed generations grow strictly (never out of order,
/// never twice), and each observed value is exactly the value that was
/// published at its generation.
pub proof fn lemma_observations_are_a_skipping_subsequence(sub: Subscriber, log: Seq<Seq<char>>)
    requires
        sub.observes(log),
    ensures
        forall|i: int, j: int|
            0 <= i < j < sub.observations().len() ==> sub.observations()[i].0
                < sub.observations()[j].0,
        forall|i: int|
            0 <= i < sub.observations().len() ==> 1 <= (#[trigger] sub.observations()[i]).0 as nat
                <= log.len() && sub.observations()[i].1 == log[(sub.observations()[i].0 - 1) as int],
{
}

/// Publishing one more value disturbs no subscriber's record: observations
/// that were genuine against the old log stay genuine against the longer one.
pub proof fn lemma_publish_preserves_observation(
    sub: Subscriber,
    log: Seq<Seq<char>>,
    value: Seq<char>,
)
    requires
        sub.observes(log),
    ensures
        sub.observes(log.push(value)),
{
    assert forall|i: int| 0 <= i < sub.observations().len() implies (
    #[trigger] sub.observations()[i]).1 == log.push(value)[(sub.observations()[i].0 - 1) as int] by {
        assert(sub.observations()[i].0 - 1 < log.len());
        assert(sub.observations()[i].1 == log[(sub.observations()[i].0 - 1) as int]);
    }
}

/// A subscriber that is up to date has, as its last observation, exactly the
/// latest published value: whatever it skipped while it was slow, it
/// converged on the newest state.
pub proof fn lemma_converged_subscriber_saw_latest(sub: Subscriber, log: Seq<Seq<char>>)
    requires
        sub.observes(log),
        sub.observations().len() > 0,
        sub.observations().last().0 as nat == log.len(),
    ensures
        sub.observations().last().1 == log.last(),
{
    let n = sub.observations().len() - 1;
    assert(sub.observations()[n].1 == log[(sub.observations()[n].0 - 1) as int]);
}

} // verus!
