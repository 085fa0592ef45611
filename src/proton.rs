use crate::particle::Particle;
use std::time::Duration;
use vstd::prelude::*;

verus! {

/// Subatomic, nucleon particle with a positive electric charge of +1 e.
pub struct Proton {
    /// Interval between the Big Bang and this particle's existence.
    time: Duration,
}

impl Proton {
    /// The proton that `new` builds from `time`.
    pub closed spec fn spec_new(time: Duration) -> Proton {
        Proton { time }
    }

    /// Instantiates a proton; any duration, the zero one included, is kept
    /// as it is.
    pub fn new(time: Duration) -> (r: Self)
        ensures
            r == Proton::spec_new(time),
            r.time_spec() == time,
    {
        Proton { time }
    }
}

impl<'a> Particle<'a> for Proton {
    open spec fn symbol_spec() -> Seq<char> {
        seq!['p']
    }

    closed spec fn time_spec(&self) -> Duration {
        self.time
    }

    fn symbol() -> (r: &'a str) {
        proof {
            reveal_strlit("p");
        }
        "p"
    }

    fn time(&self) -> (r: Duration) {
        self.time
    }
}

/// A proton's time is exactly the duration it was built with, for every
/// duration.
pub proof fn lemma_new_then_time(d: Duration)
    ensures
        Proton::spec_new(d).time_spec() == d,
{
}

/// The symbol of a proton is always "p": it is fixed by the type, so no
/// instance and no call can change it.
pub proof fn lemma_symbol_is_p()
    ensures
        <Proton as Particle<'static>>::symbol_spec() == seq!['p'],
{
}

/// Two protons built from two durations each keep their own: neither sees
/// the other's duration, and different durations give different protons.
pub proof fn lemma_independent_times(d1: Duration, d2: Duration)
    ensures
        Proton::spec_new(d1).time_spec() == d1,
        Proton::spec_new(d2).time_spec() == d2,
        d1 != d2 ==> Proton::spec_new(d1) != Proton::spec_new(d2),
{
}

} // verus!
