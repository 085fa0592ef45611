use std::time::Duration;
use vstd::prelude::*;

verus! {

/// "Particle" is a general term which has distinct meanings in the various
/// fields of science; here it is a size-varied object which has a location in
/// both space and time and holds a combination of chemical and physical
/// properties.
///
/// The symbol belongs to the type, not to an instance: `symbol_spec` takes no
/// receiver, so no two instances (and no two calls) can disagree on it.
pub trait Particle<'a> {
    /// The standardized symbol of this kind of particle.
    spec fn symbol_spec() -> Seq<char>;

    /// The interval between the Big Bang and this particle's existence.
    spec fn time_spec(&self) -> Duration;

    /// The IUPAP SUNAMCO standardized symbol for this particle: a Greek
    /// representation where one exists, else a Latin-alphabet one.
    fn symbol() -> (r: &'a str)
        ensures
            r@ == Self::symbol_spec(),
            r@.len() > 0,
    ;

    /// Interval between the Big Bang and this particle's existence.
    fn time(&self) -> (r: Duration)
        ensures
            r == self.time_spec(),
    ;
}

} // verus!
