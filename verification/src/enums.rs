//! The enumerated settings of the search engine and their raw numbers.
//!
//! Every setting has one raw number, the one the engine uses. Decoding a raw
//! number that stands for no setting yields `None`: it is never replaced by a
//! default.

use vstd::prelude::*;

verus! {

/// Index-building strategy of the search engine.
#[derive(Clone, Copy, Debug, PartialEq, Eq, Structural)]
pub enum Algorithm {
    /// Exhaustive scan.
    Linear,
    /// Randomized kd-trees.
    KDTree,
    /// Hierarchical k-means tree.
    KMeans,
    /// Kd-trees and k-means tree together.
    Composite,
    /// One kd-tree, suited to low dimensions.
    KDTreeSingle,
    /// Hierarchical clustering.
    Hierarchical,
    /// Locality-sensitive hashing.
    Lsh,
    /// An index stored earlier.
    Saved,
    /// Chosen by the engine from the data.
    Autotuned,
}

impl Algorithm {
    /// The raw number of this setting.
    pub open spec fn raw(self) -> u32 {
        match self {
            Algorithm::Linear => 0u32,
            Algorithm::KDTree => 1u32,
            Algorithm::KMeans => 2u32,
            Algorithm::Composite => 3u32,
            Algorithm::KDTreeSingle => 4u32,
            Algorithm::Hierarchical => 5u32,
            Algorithm::Lsh => 6u32,
            Algorithm::Saved => 254u32,
            Algorithm::Autotuned => 255u32,
        }
    }

    /// The setting that a raw number decodes to.
    pub open spec fn decode(v: u32) -> Option<Algorithm> {
        if v == 0u32 {
            Some(Algorithm::Linear)
        } else if v == 1u32 {
            Some(Algorithm::KDTree)
        } else if v == 2u32 {
            Some(Algorithm::KMeans)
        } else if v == 3u32 {
            Some(Algorithm::Composite)
        } else if v == 4u32 {
            Some(Algorithm::KDTreeSingle)
        } else if v == 5u32 {
            Some(Algorithm::Hierarchical)
        } else if v == 6u32 {
            Some(Algorithm::Lsh)
        } else if v == 254u32 {
            Some(Algorithm::Saved)
        } else if v == 255u32 {
            Some(Algorithm::Autotuned)
        } else {
            None
        }
    }

    /// Decodes a raw number; `None` if it stands for no setting.
    pub fn from_raw(v: u32) -> (r: Option<Algorithm>)
        ensures
            r == Algorithm::decode(v),
    {
        match v {
            0u32 => Some(Algorithm::Linear),
            1u32 => Some(Algorithm::KDTree),
            2u32 => Some(Algorithm::KMeans),
            3u32 => Some(Algorithm::Composite),
            4u32 => Some(Algorithm::KDTreeSingle),
            5u32 => Some(Algorithm::Hierarchical),
            6u32 => Some(Algorithm::Lsh),
            254u32 => Some(Algorithm::Saved),
            255u32 => Some(Algorithm::Autotuned),
            _ => None,
        }
    }

    /// Encodes this setting as its raw number.
    pub fn as_raw(&self) -> (r: u32)
        ensures
            r == self.raw(),
    {
        match *self {
            Algorithm::Linear => 0u32,
            Algorithm::KDTree => 1u32,
            Algorithm::KMeans => 2u32,
            Algorithm::Composite => 3u32,
            Algorithm::KDTreeSingle => 4u32,
            Algorithm::Hierarchical => 5u32,
            Algorithm::Lsh => 6u32,
            Algorithm::Saved => 254u32,
            Algorithm::Autotuned => 255u32,
        }
    }

    /// A raw number decodes to a setting exactly when some setting has that
    /// number, and the decoded setting encodes back to the same number.
    pub proof fn lemma_decode_raw(v: u32)
        ensures
            Algorithm::decode(v) matches Some(e) ==> e.raw() == v,
            Algorithm::decode(v) is None ==> forall|e: Algorithm| e.raw() != v,
    {
    }

    /// Encoding then decoding gives the setting back.
    pub proof fn lemma_raw_decode(e: Algorithm)
        ensures
            Algorithm::decode(e.raw()) == Some(e),
    {
    }

    /// Whether an engine of this strategy keeps the data set itself, so that
    /// it can fetch a point by its position. The strategies that only hand
    /// the points on to other indexes do not.
    pub open spec fn serves_positions(self) -> bool {
        match self {
            Algorithm::Linear => true,
            Algorithm::KDTree => true,
            Algorithm::KMeans => true,
            Algorithm::KDTreeSingle => true,
            Algorithm::Hierarchical => true,
            Algorithm::Lsh => true,
            Algorithm::Composite => false,
            Algorithm::Saved => false,
            Algorithm::Autotuned => false,
        }
    }
}

/// How the initial cluster centers of a k-means tree are picked.
#[derive(Clone, Copy, Debug, PartialEq, Eq, Structural)]
pub enum CentersInit {
    /// Uniformly at random.
    Random,
    /// Gonzales' farthest-point rule.
    Gonzales,
    /// The k-means++ rule.
    KMeansPP,
}

impl CentersInit {
    /// The raw number of this setting.
    pub open spec fn raw(self) -> u32 {
        match self {
            CentersInit::Random => 0u32,
            CentersInit::Gonzales => 1u32,
            CentersInit::KMeansPP => 2u32,
        }
    }

    /// The setting that a raw number decodes to.
    pub open spec fn decode(v: u32) -> Option<CentersInit> {
        if v == 0u32 {
            Some(CentersInit::Random)
        } else if v == 1u32 {
            Some(CentersInit::Gonzales)
        } else if v == 2u32 {
            Some(CentersInit::KMeansPP)
        } else {
            None
        }
    }

    /// Decodes a raw number; `None` if it stands for no setting.
    pub fn from_raw(v: u32) -> (r: Option<CentersInit>)
        ensures
            r == CentersInit::decode(v),
    {
        match v {
            0u32 => Some(CentersInit::Random),
            1u32 => Some(CentersInit::Gonzales),
            2u32 => Some(CentersInit::KMeansPP),
            _ => None,
        }
    }

    /// Encodes this setting as its raw number.
    pub fn as_raw(&self) -> (r: u32)
        ensures
            r == self.raw(),
    {
        match *self {
            CentersInit::Random => 0u32,
            CentersInit::Gonzales => 1u32,
            CentersInit::KMeansPP => 2u32,
        }
    }

    /// A raw number decodes to a setting exactly when some setting has that
    /// number, and the decoded setting encodes back to the same number.
    pub proof fn lemma_decode_raw(v: u32)
        ensures
            CentersInit::decode(v) matches Some(e) ==> e.raw() == v,
            CentersInit::decode(v) is None ==> forall|e: CentersInit| e.raw() != v,
    {
    }

    /// Encoding then decoding gives the setting back.
    pub proof fn lemma_raw_decode(e: CentersInit)
        ensures
            CentersInit::decode(e.raw()) == Some(e),
    {
    }
}

/// Verbosity of the engine's own logging.
#[derive(Clone, Copy, Debug, PartialEq, Eq, Structural)]
pub enum LogLevel {
    /// Nothing is logged.
    Off,
    /// Fatal errors only.
    Fatal,
    /// Errors.
    Error,
    /// Warnings.
    Warn,
    /// Informational messages.
    Info,
    /// Everything.
    Debug,
}

impl LogLevel {
    /// The raw number of this setting.
    pub open spec fn raw(self) -> u32 {
        match self {
            LogLevel::Off => 0u32,
            LogLevel::Fatal => 1u32,
            LogLevel::Error => 2u32,
            LogLevel::Warn => 3u32,
            LogLevel::Info => 4u32,
            LogLevel::Debug => 5u32,
        }
    }

    /// The setting that a raw number decodes to.
    pub open spec fn decode(v: u32) -> Option<LogLevel> {
        if v == 0u32 {
            Some(LogLevel::Off)
        } else if v == 1u32 {
            Some(LogLevel::Fatal)
        } else if v == 2u32 {
            Some(LogLevel::Error)
        } else if v == 3u32 {
            Some(LogLevel::Warn)
        } else if v == 4u32 {
            Some(LogLevel::Info)
        } else if v == 5u32 {
            Some(LogLevel::Debug)
        } else {
            None
        }
    }

    /// Decodes a raw number; `None` if it stands for no setting.
    pub fn from_raw(v: u32) -> (r: Option<LogLevel>)
        ensures
            r == LogLevel::decode(v),
    {
        match v {
            0u32 => Some(LogLevel::Off),
            1u32 => Some(LogLevel::Fatal),
            2u32 => Some(LogLevel::Error),
            3u32 => Some(LogLevel::Warn),
            4u32 => Some(LogLevel::Info),
            5u32 => Some(LogLevel::Debug),
            _ => None,
        }
    }

    /// Encodes this setting as its raw number.
    pub fn as_raw(&self) -> (r: u32)
        ensures
            r == self.raw(),
    {
        match *self {
            LogLevel::Off => 0u32,
            LogLevel::Fatal => 1u32,
            LogLevel::Error => 2u32,
            LogLevel::Warn => 3u32,
            LogLevel::Info => 4u32,
            LogLevel::Debug => 5u32,
        }
    }

    /// A raw number decodes to a setting exactly when some setting has that
    /// number, and the decoded setting encodes back to the same number.
    pub proof fn lemma_decode_raw(v: u32)
        ensures
            LogLevel::decode(v) matches Some(e) ==> e.raw() == v,
            LogLevel::decode(v) is None ==> forall|e: LogLevel| e.raw() != v,
    {
    }

    /// Encoding then decoding gives the setting back.
    pub proof fn lemma_raw_decode(e: LogLevel)
        ensures
            LogLevel::decode(e.raw()) == Some(e),
    {
    }
}

/// Distance metric between two points.
#[derive(Clone, Copy, Debug, PartialEq, Eq, Structural)]
pub enum DistanceType {
    /// Squared Euclidean distance.
    Euclidean,
    /// Another name of `Euclidean`.
    L2,
    /// Sum of absolute differences.
    Manhattan,
    /// Another name of `Manhattan`.
    L1,
    /// Minkowski distance of a chosen order.
    Minkowski,
    /// Largest absolute difference.
    Max,
    /// Histogram intersection.
    HistIntersect,
    /// Hellinger distance.
    Hellinger,
    /// Chi-square distance.
    ChiSquare,
    /// Kullback-Leibler divergence.
    KullbackLeibler,
    /// Hamming distance.
    Hamming,
    /// Hamming distance by table lookup.
    HammingLut,
    /// Hamming distance by population count.
    HammingPopcnt,
    /// Squared Euclidean distance, computed plainly.
    L2Simple,
}

impl DistanceType {
    /// The raw number of this setting.
    pub open spec fn raw(self) -> u32 {
        match self {
            DistanceType::Euclidean => 1u32,
            DistanceType::L2 => 1u32,
            DistanceType::Manhattan => 2u32,
            DistanceType::L1 => 2u32,
            DistanceType::Minkowski => 3u32,
            DistanceType::Max => 4u32,
            DistanceType::HistIntersect => 5u32,
            DistanceType::Hellinger => 6u32,
            DistanceType::ChiSquare => 7u32,
            DistanceType::KullbackLeibler => 8u32,
            DistanceType::Hamming => 9u32,
            DistanceType::HammingLut => 10u32,
            DistanceType::HammingPopcnt => 11u32,
            DistanceType::L2Simple => 12u32,
        }
    }

    /// The setting that a raw number decodes to, the first-listed name where two
    /// names share a number.
    pub open spec fn decode(v: u32) -> Option<DistanceType> {
        if v == 1u32 {
            Some(DistanceType::Euclidean)
        } else if v == 2u32 {
            Some(DistanceType::Manhattan)
        } else if v == 3u32 {
            Some(DistanceType::Minkowski)
        } else if v == 4u32 {
            Some(DistanceType::Max)
        } else if v == 5u32 {
            Some(DistanceType::HistIntersect)
        } else if v == 6u32 {
            Some(DistanceType::Hellinger)
        } else if v == 7u32 {
            Some(DistanceType::ChiSquare)
        } else if v == 8u32 {
            Some(DistanceType::KullbackLeibler)
        } else if v == 9u32 {
            Some(DistanceType::Hamming)
        } else if v == 10u32 {
            Some(DistanceType::HammingLut)
        } else if v == 11u32 {
            Some(DistanceType::HammingPopcnt)
        } else if v == 12u32 {
            Some(DistanceType::L2Simple)
        } else {
            None
        }
    }

    /// Decodes a raw number; `None` if it stands for no setting.
    pub fn from_raw(v: u32) -> (r: Option<DistanceType>)
        ensures
            r == DistanceType::decode(v),
    {
        match v {
            1u32 => Some(DistanceType::Euclidean),
            2u32 => Some(DistanceType::Manhattan),
            3u32 => Some(DistanceType::Minkowski),
            4u32 => Some(DistanceType::Max),
            5u32 => Some(DistanceType::HistIntersect),
            6u32 => Some(DistanceType::Hellinger),
            7u32 => Some(DistanceType::ChiSquare),
            8u32 => Some(DistanceType::KullbackLeibler),
            9u32 => Some(DistanceType::Hamming),
            10u32 => Some(DistanceType::HammingLut),
            11u32 => Some(DistanceType::HammingPopcnt),
            12u32 => Some(DistanceType::L2Simple),
            _ => None,
        }
    }

    /// Encodes this setting as its raw number.
    pub fn as_raw(&self) -> (r: u32)
        ensures
            r == self.raw(),
    {
        match *self {
            DistanceType::Euclidean => 1u32,
            DistanceType::L2 => 1u32,
            DistanceType::Manhattan => 2u32,
            DistanceType::L1 => 2u32,
            DistanceType::Minkowski => 3u32,
            DistanceType::Max => 4u32,
            DistanceType::HistIntersect => 5u32,
            DistanceType::Hellinger => 6u32,
            DistanceType::ChiSquare => 7u32,
            DistanceType::KullbackLeibler => 8u32,
            DistanceType::Hamming => 9u32,
            DistanceType::HammingLut => 10u32,
            DistanceType::HammingPopcnt => 11u32,
            DistanceType::L2Simple => 12u32,
        }
    }

    /// A raw number decodes to a setting exactly when some setting has that
    /// number, and the decoded setting encodes back to the same number.
    pub proof fn lemma_decode_raw(v: u32)
        ensures
            DistanceType::decode(v) matches Some(e) ==> e.raw() == v,
            DistanceType::decode(v) is None ==> forall|e: DistanceType| e.raw() != v,
    {
    }

    /// Encoding then decoding never fails and keeps the raw number; it keeps
    /// the setting itself unless the setting is a second name of another.
    pub proof fn lemma_raw_decode(e: DistanceType)
        ensures
            DistanceType::decode(e.raw()) matches Some(d) && d.raw() == e.raw(),
            e != DistanceType::L2 && e != DistanceType::L1 ==> DistanceType::decode(e.raw()) == Some(e),
    {
    }
}

/// Budget of leaf checks that one search may spend.
#[derive(Clone, Copy, Debug, PartialEq, Eq, Structural)]
pub enum Checks {
    /// No limit: the search is exhaustive.
    Unlimited,
    /// The budget found by autotuning.
    Autotuned,
    /// This many checks.
    Exact(i32),
}

/// Raw number that stands for an unlimited budget.
pub const CHECKS_UNLIMITED: i32 = -1;

/// Raw number that stands for the autotuned budget.
pub const CHECKS_AUTOTUNED: i32 = -2;

impl Checks {
    /// The raw number of this budget.
    pub open spec fn raw(self) -> i32 {
        match self {
            Checks::Unlimited => CHECKS_UNLIMITED,
            Checks::Autotuned => CHECKS_AUTOTUNED,
            Checks::Exact(v) => v,
        }
    }

    /// The budget that a raw number decodes to: the two reserved numbers
    /// decode to their variants, every other number to itself.
    pub open spec fn decode(v: i32) -> Checks {
        if v == CHECKS_UNLIMITED {
            Checks::Unlimited
        } else if v == CHECKS_AUTOTUNED {
            Checks::Autotuned
        } else {
            Checks::Exact(v)
        }
    }

    /// Decodes a raw number. Every number decodes.
    pub fn from_raw(v: i32) -> (r: Checks)
        ensures
            r == Checks::decode(v),
    {
        if v == CHECKS_UNLIMITED {
            Checks::Unlimited
        } else if v == CHECKS_AUTOTUNED {
            Checks::Autotuned
        } else {
            Checks::Exact(v)
        }
    }

    /// Encodes this budget as its raw number.
    pub fn as_raw(self) -> (r: i32)
        ensures
            r == self.raw(),
    {
        match self {
            Checks::Unlimited => CHECKS_UNLIMITED,
            Checks::Autotuned => CHECKS_AUTOTUNED,
            Checks::Exact(v) => v,
        }
    }

    /// Decoding then encoding gives the raw number back.
    pub proof fn lemma_decode_raw(v: i32)
        ensures
            Checks::decode(v).raw() == v,
    {
    }

    /// Encoding then decoding gives the budget back, unless it is an exact
    /// count that collides with a reserved number.
    pub proof fn lemma_raw_decode(c: Checks)
        requires
            c != Checks::Exact(CHECKS_UNLIMITED),
            c != Checks::Exact(CHECKS_AUTOTUNED),
        ensures
            Checks::decode(c.raw()) == c,
    {
    }
}

} // verus!
