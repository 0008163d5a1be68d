use orchestrator::benchmark::{BenchmarkParameters, BenchmarkParametersGenerator, LoadType};
use orchestrator::faults::FaultsType;
use orchestrator::measurement::{Measurement, MeasurementsCollection};
use orchestrator::mysticeti::MysticetiBenchmarkType;
use orchestrator::settings::Settings;

#[test]
fn set_lower_bound() {
    let settings = Settings::new_for_test();
    let nodes = 4;
    let load = LoadType::Search { starting_load: 100, max_iterations: 10 };
    let mut generator = BenchmarkParametersGenerator::<MysticetiBenchmarkType>::new(nodes, load);
    let parameters = generator.next().unwrap();

    let collection = MeasurementsCollection::new(&settings, parameters);
    generator.register_result(collection);

    let next_parameters = generator.next();
    assert!(next_parameters.is_some());
    assert_eq!(next_parameters.unwrap().load, 200);

    assert!(generator.lower_bound_result.is_some());
    assert_eq!(generator.lower_bound_result.unwrap().transaction_load(), 100);
    assert!(generator.upper_bound_result.is_none());
}

#[test]
fn set_upper_bound() {
    let settings = Settings::new_for_test();
    let nodes = 4;
    let load = LoadType::Search { starting_load: 100, max_iterations: 10 };
    let mut generator = BenchmarkParametersGenerator::<MysticetiBenchmarkType>::new(nodes, load);
    let first_parameters = generator.next().unwrap();

    // Register a first result (zero latency). This sets the lower bound.
    let collection = MeasurementsCollection::new(&settings, first_parameters);
    generator.register_result(collection);
    let second_parameters = generator.next().unwrap();

    // Register a second result (with positive latency). This sets the upper bound.
    let mut collection = MeasurementsCollection::new(&settings, second_parameters);
    let (label, measurement) = Measurement::new_for_test();
    collection.add(1, label, measurement);
    generator.register_result(collection);

    // Ensure the next load is between the upper and the lower bound.
    let third_parameters = generator.next();
    assert!(third_parameters.is_some());
    assert_eq!(third_parameters.unwrap().load, 150);

    assert!(generator.lower_bound_result.is_some());
    assert_eq!(generator.lower_bound_result.unwrap().transaction_load(), 100);
    assert!(generator.upper_bound_result.is_some());
    assert_eq!(generator.upper_bound_result.unwrap().transaction_load(), 200);
}

#[test]
fn max_iterations() {
    let settings = Settings::new_for_test();
    let nodes = 4;
    let load = LoadType::Search { starting_load: 100, max_iterations: 0 };
    let mut generator = BenchmarkParametersGenerator::<MysticetiBenchmarkType>::new(nodes, load);
    let parameters = generator.next().unwrap();

    let collection = MeasurementsCollection::new(&settings, parameters);
    generator.register_result(collection);

    let next_parameters = generator.next();
    assert!(next_parameters.is_none());
}

#[test]
fn search_probe_sequence() {
    // Starting load 100: the first probe is 100; a zero-latency result
    // doubles it to 200; a result at 200 that trips the capacity check
    // bisects to 150.
    let settings = Settings::new_for_test();
    let load = LoadType::Search { starting_load: 100, max_iterations: 10 };
    let mut generator = BenchmarkParametersGenerator::<MysticetiBenchmarkType>::new(4, load);
    assert_eq!(generator.next().unwrap().load, 100);

    let first = MeasurementsCollection::new(&settings, generator.next().unwrap());
    generator.register_result(first);
    assert_eq!(generator.next().unwrap().load, 200);

    let mut second = MeasurementsCollection::new(&settings, generator.next().unwrap());
    let (label, measurement) = Measurement::new_for_test();
    second.add(1, label, measurement);
    generator.register_result(second);
    assert_eq!(generator.next().unwrap().load, 150);
}

#[test]
fn fixed_mode_emits_loads_in_order() {
    let settings = Settings::new_for_test();
    let load = LoadType::Fixed(vec![100, 200, 500]);
    let mut generator = BenchmarkParametersGenerator::<MysticetiBenchmarkType>::new(4, load);

    for expected in [100usize, 200, 500] {
        let parameters = generator.next().unwrap();
        assert_eq!(parameters.load, expected);
        let collection = MeasurementsCollection::new(&settings, parameters);
        generator.register_result(collection);
    }
    assert!(generator.next().is_none());
}

#[test]
fn fixed_mode_empty_list_yields_zero_runs() {
    let load = LoadType::Fixed(Vec::new());
    let generator = BenchmarkParametersGenerator::<MysticetiBenchmarkType>::new(4, load);
    assert!(generator.next().is_none());
}

#[test]
fn generator_builders_set_fields() {
    let load = LoadType::Search { starting_load: 50, max_iterations: 3 };
    let generator = BenchmarkParametersGenerator::<MysticetiBenchmarkType>::new(4, load)
        .with_benchmark_type(MysticetiBenchmarkType::new(1024))
        .with_faults(FaultsType::Permanent { faults: 1 })
        .with_custom_duration(60);
    let parameters = generator.next().unwrap();
    assert_eq!(parameters.nodes, 4);
    assert_eq!(parameters.load, 50);
    assert_eq!(parameters.duration_secs, 60);
    assert_eq!(parameters.faults, FaultsType::Permanent { faults: 1 });
}

#[test]
fn out_of_capacity_on_low_throughput() {
    // A run whose measured throughput stays under two thirds of the
    // offered load is out of capacity even at low latency.
    let settings = Settings::new_for_test();
    let parameters = BenchmarkParameters::new(
        MysticetiBenchmarkType::new(512),
        4,
        FaultsType::Permanent { faults: 0 },
        1000,
        60,
    );
    let mut last = MeasurementsCollection::new(&settings, parameters);
    let mut new = MeasurementsCollection::new(&settings, parameters);
    // Throughput 300 tx/s over 10 s at offered load 1000: under 2/3.
    last.add(0, "default".to_string(), Measurement::new(10, 3000, 3000, 3000, Vec::new()));
    new.add(0, "default".to_string(), Measurement::new(10, 3000, 3000, 3000, Vec::new()));
    assert!(BenchmarkParametersGenerator::out_of_capacity(&last, &new));
}
