use flann::points::{collect_neighbors, flatten, flatten_arrays};
use flann::{
    Algorithm, CentersInit, Checks, DistanceType, FlannError, LogLevel, Neighbor, Parameters,
    RawParameters,
};

#[test]
fn algorithm_raw_numbers() {
    let all = [
        (Algorithm::Linear, 0),
        (Algorithm::KDTree, 1),
        (Algorithm::KMeans, 2),
        (Algorithm::Composite, 3),
        (Algorithm::KDTreeSingle, 4),
        (Algorithm::Hierarchical, 5),
        (Algorithm::Lsh, 6),
        (Algorithm::Saved, 254),
        (Algorithm::Autotuned, 255),
    ];
    for (setting, raw) in all {
        assert_eq!(setting.as_raw(), raw);
        assert_eq!(Algorithm::from_raw(raw), Some(setting));
    }
    assert_eq!(Algorithm::from_raw(7), None);
    assert_eq!(Algorithm::from_raw(253), None);
    assert_eq!(Algorithm::from_raw(256), None);
    assert_eq!(Algorithm::from_raw(u32::MAX), None);
}

#[test]
fn centers_init_raw_numbers() {
    let all = [(CentersInit::Random, 0), (CentersInit::Gonzales, 1), (CentersInit::KMeansPP, 2)];
    for (setting, raw) in all {
        assert_eq!(setting.as_raw(), raw);
        assert_eq!(CentersInit::from_raw(raw), Some(setting));
    }
    assert_eq!(CentersInit::from_raw(3), None);
}

#[test]
fn log_level_raw_numbers() {
    let all = [
        (LogLevel::Off, 0),
        (LogLevel::Fatal, 1),
        (LogLevel::Error, 2),
        (LogLevel::Warn, 3),
        (LogLevel::Info, 4),
        (LogLevel::Debug, 5),
    ];
    for (setting, raw) in all {
        assert_eq!(setting.as_raw(), raw);
        assert_eq!(LogLevel::from_raw(raw), Some(setting));
    }
    assert_eq!(LogLevel::from_raw(6), None);
}

#[test]
fn distance_type_raw_numbers() {
    let all = [
        (DistanceType::Euclidean, 1),
        (DistanceType::Manhattan, 2),
        (DistanceType::Minkowski, 3),
        (DistanceType::Max, 4),
        (DistanceType::HistIntersect, 5),
        (DistanceType::Hellinger, 6),
        (DistanceType::ChiSquare, 7),
        (DistanceType::KullbackLeibler, 8),
        (DistanceType::Hamming, 9),
        (DistanceType::HammingLut, 10),
        (DistanceType::HammingPopcnt, 11),
        (DistanceType::L2Simple, 12),
    ];
    for (setting, raw) in all {
        assert_eq!(setting.as_raw(), raw);
        assert_eq!(DistanceType::from_raw(raw), Some(setting));
    }
    assert_eq!(DistanceType::L2.as_raw(), 1);
    assert_eq!(DistanceType::L1.as_raw(), 2);
    assert_eq!(DistanceType::from_raw(DistanceType::L2.as_raw()), Some(DistanceType::Euclidean));
    assert_eq!(DistanceType::from_raw(DistanceType::L1.as_raw()), Some(DistanceType::Manhattan));
    assert_eq!(DistanceType::from_raw(0), None);
    assert_eq!(DistanceType::from_raw(13), None);
}

#[test]
fn checks_raw_numbers() {
    assert_eq!(Checks::from_raw(-1), Checks::Unlimited);
    assert_eq!(Checks::from_raw(-2), Checks::Autotuned);
    assert_eq!(Checks::from_raw(32), Checks::Exact(32));
    assert_eq!(Checks::from_raw(0), Checks::Exact(0));
    assert_eq!(Checks::from_raw(-3), Checks::Exact(-3));
    assert_eq!(Checks::Unlimited.as_raw(), -1);
    assert_eq!(Checks::Autotuned.as_raw(), -2);
    assert_eq!(Checks::Exact(128).as_raw(), 128);
    for v in [i32::MIN, -3, -2, -1, 0, 1, 32, i32::MAX] {
        assert_eq!(Checks::from_raw(v).as_raw(), v);
    }
}

#[test]
fn default_parameters() {
    let p = Parameters::default();
    assert_eq!(p.algorithm, Algorithm::KDTree);
    assert_eq!(p.checks, Checks::Exact(32));
    assert_eq!(f32::from_bits(p.eps), 0.0);
    assert_eq!(p.sorted, 0);
    assert_eq!(p.max_neighbors, -1);
    assert_eq!(p.cores, 0);
    assert_eq!(p.trees, 4);
    assert_eq!(p.leaf_max_size, 4);
    assert_eq!(p.branching, 32);
    assert_eq!(p.iterations, 11);
    assert_eq!(p.centers_init, CentersInit::Random);
    assert_eq!(f32::from_bits(p.cb_index), 0.2);
    assert_eq!(f32::from_bits(p.target_precision), 0.9);
    assert_eq!(f32::from_bits(p.build_weight), 0.01);
    assert_eq!(f32::from_bits(p.memory_weight), 0.0);
    assert_eq!(f32::from_bits(p.sample_fraction), 0.1);
    assert_eq!(p.table_number, 0);
    assert_eq!(p.key_size, 0);
    assert_eq!(p.multi_probe_level, 0);
    assert_eq!(p.log_level, LogLevel::Off);
    assert_eq!(p.random_seed, 0);
    assert_eq!(f32::from_bits(p.rebuild_threshold), 2.0);
    assert_eq!(f32::from_bits(flann::parameters::DEFAULT_REBUILD_THRESHOLD), 2.0);
}

fn sample_raw() -> RawParameters {
    RawParameters {
        algorithm: 2,
        checks: -2,
        eps: 0.5f32.to_bits(),
        sorted: 1,
        max_neighbors: 17,
        cores: 3,
        trees: 8,
        leaf_max_size: 5,
        branching: 16,
        iterations: 7,
        centers_init: 2,
        cb_index: 0.4f32.to_bits(),
        target_precision: 0.8f32.to_bits(),
        build_weight: 0.02f32.to_bits(),
        memory_weight: 0.3f32.to_bits(),
        sample_fraction: 0.25f32.to_bits(),
        table_number: 12,
        key_size: 20,
        multi_probe_level: 2,
        log_level: 4,
        random_seed: -99,
    }
}

#[test]
fn parameters_decode_and_encode() {
    let raw = sample_raw();
    let p = Parameters::from_raw(raw).unwrap();
    assert_eq!(p.algorithm, Algorithm::KMeans);
    assert_eq!(p.checks, Checks::Autotuned);
    assert_eq!(f32::from_bits(p.eps), 0.5);
    assert_eq!(p.sorted, 1);
    assert_eq!(p.max_neighbors, 17);
    assert_eq!(p.cores, 3);
    assert_eq!(p.trees, 8);
    assert_eq!(p.leaf_max_size, 5);
    assert_eq!(p.branching, 16);
    assert_eq!(p.iterations, 7);
    assert_eq!(p.centers_init, CentersInit::KMeansPP);
    assert_eq!(f32::from_bits(p.cb_index), 0.4);
    assert_eq!(f32::from_bits(p.target_precision), 0.8);
    assert_eq!(f32::from_bits(p.build_weight), 0.02);
    assert_eq!(f32::from_bits(p.memory_weight), 0.3);
    assert_eq!(f32::from_bits(p.sample_fraction), 0.25);
    assert_eq!(p.table_number, 12);
    assert_eq!(p.key_size, 20);
    assert_eq!(p.multi_probe_level, 2);
    assert_eq!(p.log_level, LogLevel::Info);
    assert_eq!(p.random_seed, -99);
    assert_eq!(f32::from_bits(p.rebuild_threshold), 2.0);
    assert_eq!(p.to_raw(), raw);
    assert_eq!(Parameters::from_raw(Parameters::default().to_raw()), Ok(Parameters::default()));
}

#[test]
fn parameters_out_of_domain_are_refused() {
    let mut raw = sample_raw();
    raw.algorithm = 77;
    raw.centers_init = 9;
    raw.log_level = 6;
    assert_eq!(
        Parameters::from_raw(raw),
        Err(String::from("Illegal algorithm enum value: 77"))
    );
    raw.algorithm = 255;
    assert_eq!(
        Parameters::from_raw(raw),
        Err(String::from("Illegal centers init enum value: 9"))
    );
    raw.centers_init = 0;
    assert_eq!(
        Parameters::from_raw(raw),
        Err(String::from("Illegal log level enum value: 6"))
    );
    raw.log_level = 5;
    assert!(Parameters::from_raw(raw).is_ok());
}

#[test]
fn flatten_lays_points_row_by_row() {
    assert_eq!(
        flatten(2, &vec![vec![1, 2], vec![3, 4], vec![5, 6]]),
        Ok(vec![1, 2, 3, 4, 5, 6])
    );
    assert_eq!(flatten(2, &Vec::<Vec<u8>>::new()), Ok(vec![]));
    assert_eq!(flatten(0, &vec![Vec::<u8>::new(); 3]), Ok(vec![]));
    assert_eq!(
        flatten(2, &vec![vec![1, 2], vec![3], vec![]]),
        Err(FlannError::InvalidPointDimensionality { expected: 2, got: 1 })
    );
    assert_eq!(
        flatten(1, &vec![vec![1, 2, 3]]),
        Err(FlannError::InvalidPointDimensionality { expected: 1, got: 3 })
    );
    assert_eq!(flatten_arrays(&vec![[1, 2, 3], [4, 5, 6]]), vec![1, 2, 3, 4, 5, 6]);
    assert_eq!(flatten_arrays(&Vec::<[u8; 3]>::new()), Vec::<u8>::new());
}

fn pairs(found: Vec<Neighbor<u16>>) -> Vec<(usize, u16)> {
    found.into_iter().map(|n| (n.index, n.distance_squared)).collect()
}

#[test]
fn collect_neighbors_reads_windows() {
    let indices = vec![4, -1, 7, 0, -1, 2];
    let distances: Vec<u16> = vec![10, 11, 12, 13, 14, 15];
    assert_eq!(
        pairs(collect_neighbors(&indices, &distances, 0, 6)),
        vec![(4, 10), (7, 12), (0, 13), (2, 15)]
    );
    assert_eq!(pairs(collect_neighbors(&indices, &distances, 0, 2)), vec![(4, 10)]);
    assert_eq!(pairs(collect_neighbors(&indices, &distances, 2, 2)), vec![(7, 12), (0, 13)]);
    assert_eq!(pairs(collect_neighbors(&indices, &distances, 4, 2)), vec![(2, 15)]);
    assert_eq!(pairs(collect_neighbors(&indices, &distances, 4, 100)), vec![(2, 15)]);
    assert_eq!(pairs(collect_neighbors(&indices, &distances, 6, 2)), vec![]);
    assert_eq!(pairs(collect_neighbors(&indices, &distances, usize::MAX, usize::MAX)), vec![]);
    assert_eq!(pairs(collect_neighbors(&indices, &distances, 0, 0)), vec![]);
    let short: Vec<u16> = vec![1, 2, 3];
    assert_eq!(pairs(collect_neighbors(&indices, &short, 0, 6)), vec![(4, 1), (7, 3)]);
    assert_eq!(pairs(collect_neighbors(&vec![5], &distances, 0, 6)), vec![(5, 10)]);
}

#[test]
fn parameters_convert_into_the_raw_record() {
    let mut p = Parameters::default();
    p.algorithm = Algorithm::Autotuned;
    p.checks = Checks::Unlimited;
    p.log_level = LogLevel::Debug;
    p.centers_init = CentersInit::Gonzales;
    let by_reference: RawParameters = (&p).into();
    let by_value: RawParameters = p.into();
    assert_eq!(by_reference, by_value);
    assert_eq!(by_value, p.to_raw());
    assert_eq!(by_value.algorithm, 255);
    assert_eq!(by_value.checks, -1);
    assert_eq!(by_value.log_level, 5);
    assert_eq!(by_value.centers_init, 1);
    assert_eq!(by_value.trees, 4);
}
