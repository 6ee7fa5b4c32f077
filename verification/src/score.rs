//! The result of a scoring run.

use vstd::prelude::*;
use crate::decimal::Decimal;
use crate::profiles::IndustryProfile;
use crate::text::same_text;

verus! {

/// Certification tiers, from lowest to highest.
#[derive(Clone, Copy, Debug, PartialEq, Eq, Structural)]
pub enum Certification {
    /// No certification.
    Uncertified,
    /// Basic verification passed.
    Verified,
    /// Meets all certification requirements.
    Certified,
    /// Top-tier performance and efficiency. Reserved: no score leads here.
    Elite,
    /// Cutting-edge optimizations. Reserved: no score leads here.
    Pioneer,
    /// Exceptional energy efficiency. Reserved: no score leads here.
    Sustainable,
}

/// The overall score from which a project is certified, in billionths.
pub const CERTIFIED_FROM: u128 = 85_000_000_000;

/// The overall score from which a project is verified, in billionths.
pub const VERIFIED_FROM: u128 = 70_000_000_000;

/// The tier that an overall score of `overall` billionths earns.
pub open spec fn tier_of(overall: nat) -> Certification {
    if overall >= CERTIFIED_FROM {
        Certification::Certified
    } else if overall >= VERIFIED_FROM {
        Certification::Verified
    } else {
        Certification::Uncertified
    }
}

impl Certification {
    /// The place of the tier in the order of tiers, from zero.
    pub open spec fn rank_of(self) -> nat {
        match self {
            Certification::Uncertified => 0,
            Certification::Verified => 1,
            Certification::Certified => 2,
            Certification::Elite => 3,
            Certification::Pioneer => 4,
            Certification::Sustainable => 5,
        }
    }

    /// The place of the tier in the order of tiers, from zero.
    pub fn rank(&self) -> (r: u8)
        ensures
            r == self.rank_of(),
    {
        match self {
            Certification::Uncertified => 0,
            Certification::Verified => 1,
            Certification::Certified => 2,
            Certification::Elite => 3,
            Certification::Pioneer => 4,
            Certification::Sustainable => 5,
        }
    }

    /// The tier that the overall score earns: certified from 85, verified
    /// from 70, none below.
    pub fn for_score(overall: Decimal) -> (c: Certification)
        ensures
            c == tier_of(overall@),
    {
        if overall.nanos >= CERTIFIED_FROM {
            Certification::Certified
        } else if overall.nanos >= VERIFIED_FROM {
            Certification::Verified
        } else {
            Certification::Uncertified
        }
    }
}

/// A higher overall score never earns a lower tier, and no score earns one
/// of the reserved tiers.
pub proof fn lemma_tier_monotone(a: nat, b: nat)
    requires
        a <= b,
    ensures
        tier_of(a).rank_of() <= tier_of(b).rank_of(),
        tier_of(a).rank_of() <= 2,
{
}

/// A point in time: seconds since the start of 1970 in UTC, and the
/// nanoseconds into that second.
#[derive(Clone, Copy, Debug, PartialEq, Eq, Structural)]
pub struct Timestamp {
    /// Whole seconds since 1970-01-01T00:00:00Z.
    pub seconds: i64,
    /// Nanoseconds since the last second boundary.
    pub nanos: u32,
}

/// The environment in which measurements were taken.
#[derive(Clone, Debug, PartialEq, Eq)]
pub struct Environment {
    /// Operating system.
    pub os: String,
    /// CPU model.
    pub cpu: String,
    /// Total memory in GB.
    pub memory_gb: Decimal,
    /// Version of the compiler.
    pub rust_version: String,
}

/// Summary of the measurements behind a score.
#[derive(Clone, Debug, PartialEq, Eq)]
pub struct MeasurementSummary {
    /// Length of the measurement period, in seconds.
    pub duration_secs: u64,
    /// Number of iterations measured.
    pub iterations: u64,
    /// Where the measurements were taken.
    pub environment: Environment,
}

/// What a score is about.
#[derive(Clone, Debug, PartialEq, Eq)]
pub struct ScoreMetadata {
    /// Name of the project.
    pub project_name: String,
    /// Version of the project.
    pub version: String,
    /// Profile used for scoring.
    pub profile: IndustryProfile,
    /// Summary of the measurements.
    pub measurements: MeasurementSummary,
}

/// A complete assessment of one project.
#[derive(Clone, Debug, PartialEq, Eq)]
pub struct CrabScore {
    /// Overall score.
    pub overall: Decimal,
    /// Performance score, between 0 and 100.
    pub performance: Decimal,
    /// Energy score, between 0 and 100.
    pub energy: Decimal,
    /// Cost score, between 0 and 100.
    pub cost: Decimal,
    /// Bonus points that are part of the overall score.
    pub bonuses: Decimal,
    /// Certification tier.
    pub certification: Certification,
    /// When the score was calculated.
    pub timestamp: Timestamp,
    /// What the score is about.
    pub metadata: ScoreMetadata,
}

impl ScoreMetadata {
    /// Nothing is known but the profile: the names are empty and the
    /// measurement summary is all zero.
    pub open spec fn is_blank(&self) -> bool {
        &&& self.project_name@.len() == 0
        &&& self.version@.len() == 0
        &&& self.measurements.duration_secs == 0
        &&& self.measurements.iterations == 0
        &&& self.measurements.environment.os@.len() == 0
        &&& self.measurements.environment.cpu@.len() == 0
        &&& self.measurements.environment.memory_gb@ == 0
        &&& self.measurements.environment.rust_version@.len() == 0
    }

    /// The metadata of a score under `profile` of which nothing else is
    /// known.
    pub fn blank(profile: IndustryProfile) -> (m: Self)
        ensures
            m.profile == profile,
            m.is_blank(),
    {
        ScoreMetadata {
            project_name: String::new(),
            version: String::new(),
            profile,
            measurements: MeasurementSummary {
                duration_secs: 0,
                iterations: 0,
                environment: Environment {
                    os: String::new(),
                    cpu: String::new(),
                    memory_gb: Decimal::zero(),
                    rust_version: String::new(),
                },
            },
        }
    }
}

impl CrabScore {
    /// The tier is the one that the overall score earns.
    pub open spec fn consistent(&self) -> bool {
        self.certification == tier_of(self.overall@)
    }
}


/// The tag under which a tier is reported.
pub open spec fn tag_of(c: Certification) -> Seq<char> {
    match c {
        Certification::Uncertified => "None"@,
        Certification::Verified => "Verified"@,
        Certification::Certified => "Certified"@,
        Certification::Elite => "Elite"@,
        Certification::Pioneer => "Pioneer"@,
        Certification::Sustainable => "Sustainable"@,
    }
}

impl Certification {
    /// The tag under which the tier is reported.
    pub fn name(&self) -> (s: &'static str)
        ensures
            s@ == tag_of(*self),
    {
        match self {
            Certification::Uncertified => "None",
            Certification::Verified => "Verified",
            Certification::Certified => "Certified",
            Certification::Elite => "Elite",
            Certification::Pioneer => "Pioneer",
            Certification::Sustainable => "Sustainable",
        }
    }
}

impl CrabScore {
    /// A copy of the score.
    pub fn duplicate(&self) -> (copy: Self)
        ensures
            copy == *self,
    {
        CrabScore {
            overall: self.overall,
            performance: self.performance,
            energy: self.energy,
            cost: self.cost,
            bonuses: self.bonuses,
            certification: self.certification,
            timestamp: self.timestamp,
            metadata: ScoreMetadata {
                project_name: self.metadata.project_name.clone(),
                version: self.metadata.version.clone(),
                profile: self.metadata.profile,
                measurements: MeasurementSummary {
                    duration_secs: self.metadata.measurements.duration_secs,
                    iterations: self.metadata.measurements.iterations,
                    environment: Environment {
                        os: self.metadata.measurements.environment.os.clone(),
                        cpu: self.metadata.measurements.environment.cpu.clone(),
                        memory_gb: self.metadata.measurements.environment.memory_gb,
                        rust_version: self.metadata.measurements.environment.rust_version.clone(),
                    },
                },
            },
        }
    }
}


/// The tier that is reported under `tag`, if there is one.
pub open spec fn tier_tagged(tag: Seq<char>) -> Option<Certification> {
    if tag == "None"@ {
        Some(Certification::Uncertified)
    } else if tag == "Verified"@ {
        Some(Certification::Verified)
    } else if tag == "Certified"@ {
        Some(Certification::Certified)
    } else if tag == "Elite"@ {
        Some(Certification::Elite)
    } else if tag == "Pioneer"@ {
        Some(Certification::Pioneer)
    } else if tag == "Sustainable"@ {
        Some(Certification::Sustainable)
    } else {
        None
    }
}

impl Certification {
    /// The tier that is reported under `tag`, if there is one.
    pub fn from_name(tag: &str) -> (r: Option<Certification>)
        ensures
            r == tier_tagged(tag@),
    {
        if same_text(tag, "None") {
            Some(Certification::Uncertified)
        } else if same_text(tag, "Verified") {
            Some(Certification::Verified)
        } else if same_text(tag, "Certified") {
            Some(Certification::Certified)
        } else if same_text(tag, "Elite") {
            Some(Certification::Elite)
        } else if same_text(tag, "Pioneer") {
            Some(Certification::Pioneer)
        } else if same_text(tag, "Sustainable") {
            Some(Certification::Sustainable)
        } else {
            None
        }
    }
}

/// A tier read back from its tag is the same tier.
pub proof fn lemma_tag_round_trip(c: Certification)
    ensures
        tier_tagged(tag_of(c)) == Some(c),
{
    reveal_strlit("None");
    reveal_strlit("Verified");
    reveal_strlit("Certified");
    reveal_strlit("Elite");
    reveal_strlit("Pioneer");
    reveal_strlit("Sustainable");
    assert("None"@.len() == 4);
    assert("Verified"@.len() == 8);
    assert("Certified"@.len() == 9);
    assert("Elite"@.len() == 5);
    assert("Pioneer"@.len() == 7);
    assert("Sustainable"@.len() == 11);
}

} // verus!
