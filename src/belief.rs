//! What is believed about an object's periodicity: unknown until a search or a
//! caller decides it, then periodic (with a period held beside it) or aperiodic.
use vstd::prelude::*;

verus! {

#[derive(Clone, Copy, Debug, PartialEq, Eq, Structural)]
pub enum Periodicity {
    Unknown,
    Aperiodic,
    Periodic,
}

impl Periodicity {
    /// The belief that a light curve's `is_periodic` field records.
    pub open spec fn of_flag(flag: Option<bool>) -> Periodicity {
        match flag {
            None => Periodicity::Unknown,
            Some(false) => Periodicity::Aperiodic,
            Some(true) => Periodicity::Periodic,
        }
    }

    /// The `is_periodic` field that records this belief.
    pub open spec fn flag(self) -> Option<bool> {
        match self {
            Periodicity::Unknown => None,
            Periodicity::Aperiodic => Some(false),
            Periodicity::Periodic => Some(true),
        }
    }

    /// The belief after a period search: a detection makes the object periodic;
    /// no detection makes an unknown object aperiodic and leaves a periodic one
    /// as it was.
    pub open spec fn after_search_spec(self, detected: bool) -> Periodicity {
        if detected {
            Periodicity::Periodic
        } else if self == Periodicity::Periodic {
            Periodicity::Periodic
        } else {
            Periodicity::Aperiodic
        }
    }

    pub fn from_flag(flag: Option<bool>) -> (r: Periodicity)
        ensures
            r == Periodicity::of_flag(flag),
    {
        match flag {
            None => Periodicity::Unknown,
            Some(false) => Periodicity::Aperiodic,
            Some(true) => Periodicity::Periodic,
        }
    }

    pub fn to_flag(self) -> (r: Option<bool>)
        ensures
            r == self.flag(),
    {
        match self {
            Periodicity::Unknown => None,
            Periodicity::Aperiodic => Some(false),
            Periodicity::Periodic => Some(true),
        }
    }

    pub fn after_search(self, detected: bool) -> (r: Periodicity)
        ensures
            r == self.after_search_spec(detected),
    {
        if detected {
            Periodicity::Periodic
        } else {
            match self {
                Periodicity::Periodic => Periodicity::Periodic,
                _ => Periodicity::Aperiodic,
            }
        }
    }

    /// The `is_periodic` field after a period is set (`true`) or cleared
    /// (`false`): `Some(true)` with a period, absent without one.
    pub fn flag_after_set_period(has_period: bool) -> (r: Option<bool>)
        ensures
            r == (if has_period { Some(true) } else { None::<bool> }),
    {
        if has_period {
            Some(true)
        } else {
            None
        }
    }
}

/// Recording a belief in the `is_periodic` field and reading it back gives the
/// same belief, and every field value records exactly one belief.
pub proof fn lemma_flag_round_trip(p: Periodicity, flag: Option<bool>)
    ensures
        Periodicity::of_flag(p.flag()) == p,
        Periodicity::of_flag(flag).flag() == flag,
{
}

/// A period search never leads back to the unknown belief, whatever the
/// belief before it and whatever the search found.
pub proof fn lemma_search_never_unknown(p: Periodicity, detected: bool)
    ensures
        p.after_search_spec(detected) != Periodicity::Unknown,
{
}

} // verus!
