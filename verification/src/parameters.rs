//! The configuration of an index and the engine's raw record of it.
//!
//! Real-valued settings are carried as the bit patterns of single-precision
//! numbers: this layer hands them through and never computes with them.

use crate::enums::{Algorithm, CentersInit, Checks, LogLevel};
use vstd::prelude::*;

verus! {

/// Bits of the single-precision number 2: the rebuild threshold of an index
/// unless another is chosen.
pub const DEFAULT_REBUILD_THRESHOLD: u32 = 0x4000_0000;

/// Configuration of an index.
#[derive(Debug, Clone, Copy, PartialEq, Eq, Structural)]
pub struct Parameters {
    /// Strategy by which the index is built.
    pub algorithm: Algorithm,
    /// Leaf checks that one search may spend.
    pub checks: Checks,
    /// Slack of an approximate search, as single-precision bits.
    pub eps: u32,
    /// Whether a radius search returns its results sorted.
    pub sorted: i32,
    /// Cap on the neighbors a radius search returns; negative for none.
    pub max_neighbors: i32,
    /// Cores that a search may use; zero lets the engine choose.
    pub cores: i32,
    /// Number of randomized kd-trees.
    pub trees: i32,
    /// Largest number of points in one tree leaf.
    pub leaf_max_size: i32,
    /// Branching factor of the k-means tree.
    pub branching: i32,
    /// Most iterations of one k-means clustering.
    pub iterations: i32,
    /// How the first cluster centers are picked.
    pub centers_init: CentersInit,
    /// Cluster boundary index, as single-precision bits.
    pub cb_index: u32,
    /// Precision that autotuning aims for, as single-precision bits.
    pub target_precision: u32,
    /// Weight of build time in autotuning, as single-precision bits.
    pub build_weight: u32,
    /// Weight of memory in autotuning, as single-precision bits.
    pub memory_weight: u32,
    /// Share of the points that autotuning samples, as single-precision bits.
    pub sample_fraction: u32,
    /// Number of hash tables.
    pub table_number: u32,
    /// Length of a hash key.
    pub key_size: u32,
    /// Levels of multi-probe hashing; zero for plain hashing.
    pub multi_probe_level: u32,
    /// Verbosity of the engine's logging.
    pub log_level: LogLevel,
    /// Seed of the engine's random choices.
    pub random_seed: i64,
    /// Ratio of added points to the points of the build beyond which the
    /// engine rebuilds its structure, as single-precision bits.
    pub rebuild_threshold: u32,
}

/// The engine's record of a configuration: every setting as a raw number.
#[derive(Debug, Clone, Copy, PartialEq, Eq, Structural)]
pub struct RawParameters {
    pub algorithm: u32,
    pub checks: i32,
    pub eps: u32,
    pub sorted: i32,
    pub max_neighbors: i32,
    pub cores: i32,
    pub trees: i32,
    pub leaf_max_size: i32,
    pub branching: i32,
    pub iterations: i32,
    pub centers_init: u32,
    pub cb_index: u32,
    pub target_precision: u32,
    pub build_weight: u32,
    pub memory_weight: u32,
    pub sample_fraction: u32,
    pub table_number: u32,
    pub key_size: u32,
    pub multi_probe_level: u32,
    pub log_level: u32,
    pub random_seed: i64,
}

/// The decimal digits of a number, as std formats it.
pub uninterp spec fn decimal_text(value: u32) -> Seq<char>;

/// Text of the error for a raw number `value` that stands for no setting of
/// the kind `what`.
pub open spec fn illegal_value_text(what: Seq<char>, value: u32) -> Seq<char> {
    "Illegal "@ + what + " enum value: "@ + decimal_text(value)
}

/// Formats the error for a raw number that stands for no setting, with
/// `format!` of std: the fixed words around `what`, then `value` as std
/// displays a `u32`. The contract spells the words out and only names the
/// digits.
#[verifier::external_body]
fn illegal_value_message(what: &str, value: u32) -> (m: String)
    ensures
        m@ == "Illegal "@ + what@ + " enum value: "@ + decimal_text(value),
{
    format!("Illegal {} enum value: {}", what, value)
}

impl RawParameters {
    /// Whether every enumerated field holds the raw number of a setting.
    pub open spec fn well_formed(self) -> bool {
        &&& Algorithm::decode(self.algorithm) is Some
        &&& CentersInit::decode(self.centers_init) is Some
        &&& LogLevel::decode(self.log_level) is Some
    }

    /// The configuration that this record decodes to. It is meant for
    /// well-formed records.
    pub open spec fn decoded(self) -> Parameters
        recommends
            self.well_formed(),
    {
        Parameters {
            algorithm: Algorithm::decode(self.algorithm).unwrap(),
            checks: Checks::decode(self.checks),
            eps: self.eps,
            sorted: self.sorted,
            max_neighbors: self.max_neighbors,
            cores: self.cores,
            trees: self.trees,
            leaf_max_size: self.leaf_max_size,
            branching: self.branching,
            iterations: self.iterations,
            centers_init: CentersInit::decode(self.centers_init).unwrap(),
            cb_index: self.cb_index,
            target_precision: self.target_precision,
            build_weight: self.build_weight,
            memory_weight: self.memory_weight,
            sample_fraction: self.sample_fraction,
            table_number: self.table_number,
            key_size: self.key_size,
            multi_probe_level: self.multi_probe_level,
            log_level: LogLevel::decode(self.log_level).unwrap(),
            random_seed: self.random_seed,
            rebuild_threshold: DEFAULT_REBUILD_THRESHOLD,
        }
    }

    /// The error text for a record that is not well-formed: it names the
    /// first of algorithm, centers initialisation and log level that holds no
    /// setting's number.
    pub open spec fn decode_error(self) -> Seq<char>
        recommends
            !self.well_formed(),
    {
        if Algorithm::decode(self.algorithm) is None {
            illegal_value_text("algorithm"@, self.algorithm)
        } else if CentersInit::decode(self.centers_init) is None {
            illegal_value_text("centers init"@, self.centers_init)
        } else {
            illegal_value_text("log level"@, self.log_level)
        }
    }
}

impl Parameters {
    /// The raw record of this configuration. The rebuild threshold has no
    /// place in it.
    pub open spec fn raw(self) -> RawParameters {
        RawParameters {
            algorithm: self.algorithm.raw(),
            checks: self.checks.raw(),
            eps: self.eps,
            sorted: self.sorted,
            max_neighbors: self.max_neighbors,
            cores: self.cores,
            trees: self.trees,
            leaf_max_size: self.leaf_max_size,
            branching: self.branching,
            iterations: self.iterations,
            centers_init: self.centers_init.raw(),
            cb_index: self.cb_index,
            target_precision: self.target_precision,
            build_weight: self.build_weight,
            memory_weight: self.memory_weight,
            sample_fraction: self.sample_fraction,
            table_number: self.table_number,
            key_size: self.key_size,
            multi_probe_level: self.multi_probe_level,
            log_level: self.log_level.raw(),
            random_seed: self.random_seed,
        }
    }

    /// Decodes the engine's record. A record with an enumerated field out of
    /// its domain is refused with an error text; nothing is substituted. The
    /// rebuild threshold of the result is the default.
    pub fn from_raw(v: RawParameters) -> (r: Result<Parameters, String>)
        ensures
            v.well_formed() ==> r == Ok::<Parameters, String>(v.decoded()),
            !v.well_formed() ==> r is Err && r->Err_0@ == v.decode_error(),
    {
        let algorithm = match Algorithm::from_raw(v.algorithm) {
            Some(a) => a,
            None => {
                return Err(illegal_value_message("algorithm", v.algorithm));
            },
        };
        let centers_init = match CentersInit::from_raw(v.centers_init) {
            Some(c) => c,
            None => {
                return Err(illegal_value_message("centers init", v.centers_init));
            },
        };
        let log_level = match LogLevel::from_raw(v.log_level) {
            Some(l) => l,
            None => {
                return Err(illegal_value_message("log level", v.log_level));
            },
        };
        Ok(
            Parameters {
                algorithm,
                checks: Checks::from_raw(v.checks),
                eps: v.eps,
                sorted: v.sorted,
                max_neighbors: v.max_neighbors,
                cores: v.cores,
                trees: v.trees,
                leaf_max_size: v.leaf_max_size,
                branching: v.branching,
                iterations: v.iterations,
                cb_index: v.cb_index,
                target_precision: v.target_precision,
                build_weight: v.build_weight,
                memory_weight: v.memory_weight,
                sample_fraction: v.sample_fraction,
                table_number: v.table_number,
                key_size: v.key_size,
                multi_probe_level: v.multi_probe_level,
                random_seed: v.random_seed,
                centers_init,
                log_level,
                rebuild_threshold: DEFAULT_REBUILD_THRESHOLD,
            },
        )
    }

    /// Encodes this configuration as the engine's record.
    pub fn to_raw(&self) -> (r: RawParameters)
        ensures
            r == self.raw(),
    {
        RawParameters {
            algorithm: self.algorithm.as_raw(),
            checks: self.checks.as_raw(),
            eps: self.eps,
            sorted: self.sorted,
            max_neighbors: self.max_neighbors,
            cores: self.cores,
            trees: self.trees,
            leaf_max_size: self.leaf_max_size,
            branching: self.branching,
            iterations: self.iterations,
            centers_init: self.centers_init.as_raw(),
            cb_index: self.cb_index,
            target_precision: self.target_precision,
            build_weight: self.build_weight,
            memory_weight: self.memory_weight,
            sample_fraction: self.sample_fraction,
            table_number: self.table_number,
            key_size: self.key_size,
            multi_probe_level: self.multi_probe_level,
            log_level: self.log_level.as_raw(),
            random_seed: self.random_seed,
        }
    }

    /// The record of a configuration is well-formed and decodes to a
    /// configuration with the same record.
    pub proof fn lemma_raw_well_formed(p: Parameters)
        ensures
            p.raw().well_formed(),
            p.raw().decoded().raw() == p.raw(),
    {
    }

    /// Encoding then decoding gives the configuration back, provided its
    /// check budget is no exact count that collides with a reserved number
    /// and its rebuild threshold is the default.
    pub proof fn lemma_raw_decoded(p: Parameters)
        requires
            p.checks != Checks::Exact(crate::enums::CHECKS_UNLIMITED),
            p.checks != Checks::Exact(crate::enums::CHECKS_AUTOTUNED),
            p.rebuild_threshold == DEFAULT_REBUILD_THRESHOLD,
        ensures
            p.raw().decoded() == p,
    {
    }

    /// Decoding a well-formed record then encoding gives the record back.
    pub proof fn lemma_decoded_raw(v: RawParameters)
        requires
            v.well_formed(),
        ensures
            v.decoded().raw() == v,
    {
    }
}

impl From<Parameters> for RawParameters {
    /// The engine's record of a configuration.
    fn from(p: Parameters) -> (r: RawParameters) {
        p.to_raw()
    }
}

impl vstd::std_specs::convert::FromSpecImpl<Parameters> for RawParameters {
    open spec fn obeys_from_spec() -> bool {
        true
    }

    open spec fn from_spec(p: Parameters) -> RawParameters {
        p.raw()
    }
}

impl<'a> From<&'a Parameters> for RawParameters {
    /// The engine's record of a configuration.
    fn from(p: &'a Parameters) -> (r: RawParameters) {
        p.to_raw()
    }
}

impl<'a> vstd::std_specs::convert::FromSpecImpl<&'a Parameters> for RawParameters {
    open spec fn obeys_from_spec() -> bool {
        true
    }

    open spec fn from_spec(p: &'a Parameters) -> RawParameters {
        p.raw()
    }
}

impl Default for Parameters {
    /// The engine's default configuration: four randomized kd-trees, 32
    /// checks per search, no logging.
    fn default() -> (p: Parameters)
        ensures
            p == (Parameters {
                algorithm: Algorithm::KDTree,
                checks: Checks::Exact(32),
                eps: 0,
                sorted: 0,
                max_neighbors: -1i32,
                cores: 0,
                trees: 4,
                leaf_max_size: 4,
                branching: 32,
                iterations: 11,
                centers_init: CentersInit::Random,
                cb_index: 0x3E4C_CCCD,
                target_precision: 0x3F66_6666,
                build_weight: 0x3C23_D70A,
                memory_weight: 0,
                sample_fraction: 0x3DCC_CCCD,
                table_number: 0,
                key_size: 0,
                multi_probe_level: 0,
                log_level: LogLevel::Off,
                random_seed: 0,
                rebuild_threshold: DEFAULT_REBUILD_THRESHOLD,
            }),
    {
        Parameters {
            algorithm: Algorithm::KDTree,
            checks: Checks::Exact(32),
            eps: 0,
            sorted: 0,
            max_neighbors: -1,
            cores: 0,
            trees: 4,
            leaf_max_size: 4,
            branching: 32,
            iterations: 11,
            centers_init: CentersInit::Random,
            cb_index: 0x3E4C_CCCD,
            target_precision: 0x3F66_6666,
            build_weight: 0x3C23_D70A,
            memory_weight: 0,
            sample_fraction: 0x3DCC_CCCD,
            table_number: 0,
            key_size: 0,
            multi_probe_level: 0,
            log_level: LogLevel::Off,
            random_seed: 0,
            rebuild_threshold: DEFAULT_REBUILD_THRESHOLD,
        }
    }
}

} // verus!
