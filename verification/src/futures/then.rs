//! Chaining of one computation's output into a second computation.
//!
//! The protocol is a two-phase state transition: drive the first stage to
//! completion, hand its output through a one-shot continuation that builds
//! the second stage, then drive the second stage. The driving itself
//! (polling, waking) is left to the caller; the state and its single legal
//! transition live here.

use vstd::prelude::*;

verus! {

/// The current stage of a two-stage computation, holding that stage's value.
pub enum Phase<F, F2> {
    /// The first stage is still running.
    F1(F),
    /// The hand-off has happened; the second stage is running.
    F2(F2),
}

/// A two-stage computation: a first stage `F`, and a one-shot continuation
/// `M` that maps the first stage's output into the second stage `F2`.
///
/// The continuation is consumed exactly once, by [`Then::complete_first`];
/// afterwards only the second stage remains to be driven.
pub struct Then<F, M, F2> {
    /// Which stage is running, and its value.
    pub phase: Phase<F, F2>,
    /// The continuation for the hand-off; `None` once consumed.
    pub map: Option<M>,
}

/// Chains a continuation onto a first stage: the returned protocol starts in
/// the first phase, with the continuation still to be consumed.
pub fn then<F, M, F2>(f: F, map: M) -> (r: Then<F, M, F2>)
    ensures
        (r.phase matches Phase::F1(g) && g == f),
        r.map == Some(map),
{
    Then { phase: Phase::F1(f), map: Some(map) }
}

impl<F, M, F2> Then<F, M, F2> {
    /// True until the hand-off: the first stage is running and the
    /// continuation is still available.
    pub open spec fn in_first(&self) -> bool {
        self.phase is F1 && self.map is Some
    }

    /// The hand-off: the first stage finished with `out`, the continuation
    /// is consumed — exactly once — and its result becomes the second stage.
    pub fn complete_first<T>(&mut self, out: T) where M: FnOnce(T) -> F2
        requires
            old(self).in_first(),
            call_requires(old(self).map->Some_0, (out,)),
        ensures
            final(self).map is None,
            (final(self).phase matches Phase::F2(s) && call_ensures(
                old(self).map->Some_0,
                (out,),
                s,
            )),
    {
        let taken = self.map.take();
        match taken {
            Some(map) => {
                let second = map(out);
                self.phase = Phase::F2(second);
            },
            None => {
                proof {
                    assert(false);
                }
            },
        }
    }
}

} // verus!
