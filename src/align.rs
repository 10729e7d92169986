use vstd::prelude::*;

verus! {

/// An alignment requirement in bytes; `Align0` means that nothing is required yet.
#[derive(Copy, Clone, Debug, Default, PartialEq, Eq, Structural, PartialOrd, Ord)]
pub enum Align {
    #[default]
    Align0,
    Align1,
    Align2,
    Align4,
    Align8,
    Align16,
}

impl Align {
    /// The number of bytes this alignment stands for.
    pub open spec fn spec_value(self) -> nat {
        match self {
            Align::Align0 => 0,
            Align::Align1 => 1,
            Align::Align2 => 2,
            Align::Align4 => 4,
            Align::Align8 => 8,
            Align::Align16 => 16,
        }
    }

    /// The larger of two alignments.
    pub open spec fn join(self, rhs: Align) -> Align {
        if self.spec_value() >= rhs.spec_value() {
            self
        } else {
            rhs
        }
    }

    pub fn value(self) -> (r: usize)
        ensures
            r == self.spec_value(),
    {
        match self {
            Align::Align0 => 0,
            Align::Align1 => 1,
            Align::Align2 => 2,
            Align::Align4 => 4,
            Align::Align8 => 8,
            Align::Align16 => 16,
        }
    }

    /// Combines two requirements into the stronger one.
    pub fn with(self, rhs: Self) -> (r: Self)
        ensures
            r == self.join(rhs),
    {
        if self.value() >= rhs.value() {
            self
        } else {
            rhs
        }
    }

    /// Strengthens this requirement in place by `rhs`.
    pub fn append(&mut self, rhs: Self)
        ensures
            *final(self) == old(self).join(rhs),
    {
        *self = self.with(rhs);
    }
}

} // verus!
