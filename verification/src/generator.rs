use vstd::prelude::*;

verus! {

/// Number of entries in the generator table; one per `GenParam` variant.
pub const GEN_COUNT: usize = 13;

/// Largest magnitude a single generator component (baseline, modulation
/// accumulator, or NRPN override) may take, so that the additive
/// combination of the three always fits comfortably in an `i64`.
pub const GEN_VAL_MAX: i64 = 1_000_000_000;

/// The fixed enumeration of synthesis parameters that a voice's generator
/// table is addressed by.
#[derive(Clone, Copy, PartialEq, Eq, Structural, Debug)]
pub enum GenParam {
    Attenuation,
    Pan,
    CoarseTune,
    FineTune,
    FilterCutoff,
    FilterQ,
    VolEnvDelay,
    VolEnvAttack,
    VolEnvHold,
    VolEnvDecay,
    VolEnvSustain,
    VolEnvRelease,
    ExclusiveClass,
}

impl GenParam {
    /// Position of this parameter in the generator table.
    pub open spec fn index_spec(self) -> int {
        match self {
            GenParam::Attenuation => 0,
            GenParam::Pan => 1,
            GenParam::CoarseTune => 2,
            GenParam::FineTune => 3,
            GenParam::FilterCutoff => 4,
            GenParam::FilterQ => 5,
            GenParam::VolEnvDelay => 6,
            GenParam::VolEnvAttack => 7,
            GenParam::VolEnvHold => 8,
            GenParam::VolEnvDecay => 9,
            GenParam::VolEnvSustain => 10,
            GenParam::VolEnvRelease => 11,
            GenParam::ExclusiveClass => 12,
        }
    }

    pub fn index(self) -> (r: usize)
        ensures
            r == self.index_spec(),
            r < GEN_COUNT,
    {
        match self {
            GenParam::Attenuation => 0,
            GenParam::Pan => 1,
            GenParam::CoarseTune => 2,
            GenParam::FineTune => 3,
            GenParam::FilterCutoff => 4,
            GenParam::FilterQ => 5,
            GenParam::VolEnvDelay => 6,
            GenParam::VolEnvAttack => 7,
            GenParam::VolEnvHold => 8,
            GenParam::VolEnvDecay => 9,
            GenParam::VolEnvSustain => 10,
            GenParam::VolEnvRelease => 11,
            GenParam::ExclusiveClass => 12,
        }
    }
}

/// One generator table entry: a baseline value, a transient modulation
/// accumulator, and a non-registered-parameter override. The effective
/// value of the parameter is the sum of the three.
#[derive(Clone, Copy, PartialEq, Eq, Structural, Debug)]
pub struct GenEntry {
    pub val: i64,
    pub mod_amount: i64,
    pub nrpn: i64,
}

impl GenEntry {
    /// The effective value of the parameter: baseline plus transient
    /// modulation plus NRPN override.
    pub open spec fn total_spec(self) -> int {
        self.val + self.mod_amount + self.nrpn
    }

    /// All three components lie within `GEN_VAL_MAX`, so sums never
    /// overflow.
    pub open spec fn bounded(self) -> bool {
        &&& -GEN_VAL_MAX <= self.val <= GEN_VAL_MAX
        &&& -GEN_VAL_MAX <= self.mod_amount <= GEN_VAL_MAX
        &&& -GEN_VAL_MAX <= self.nrpn <= GEN_VAL_MAX
    }

    pub fn total(self) -> (r: i64)
        requires
            self.bounded(),
        ensures
            r == self.total_spec(),
    {
        self.val + self.mod_amount + self.nrpn
    }
}

} // verus!
