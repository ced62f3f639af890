use kurobako_problems::deepobs::{Budget, DeepobsProblemRecipe, TestProblem};
use kurobako_problems::domain::{ParamKind, ParamValue, UNITS_PER_ONE};
use kurobako_problems::error::Error;
use kurobako_problems::registry::ProblemCache;
use kurobako_problems::sigopt::Name;

fn recipe(epochs: Vec<u64>) -> DeepobsProblemRecipe {
    DeepobsProblemRecipe {
        problem: TestProblem::Svhn_3c3d,
        data_dir: "/data".to_string(),
        epochs,
    }
}

fn s(v: &[&str]) -> Vec<String> {
    v.iter().map(|x| x.to_string()).collect()
}

#[test]
fn test_problem_display_works() {
    assert_eq!(TestProblem::Svhn_3c3d.to_string(), "svhn_3c3d");
}

#[test]
fn test_problem_names_are_lower_case() {
    assert_eq!(TestProblem::Cifar10_3c3d.to_string(), "cifar10_3c3d");
    assert_eq!(TestProblem::Two_d_rosenbrock.to_string(), "two_d_rosenbrock");
    assert_eq!(TestProblem::Imagenet_inception_v3.to_string(), "imagenet_inception_v3");
}

#[test]
fn sigopt_name_selects_function() {
    assert_eq!(Name::Ackley.to_test_function(), "Ackley");
    assert_eq!(Name::McCourt28.to_test_function(), "McCourt28");
    assert_eq!(Name::Problem03.to_test_function(), "Problem03");
}

#[test]
fn params_domain_layout() {
    let d = recipe(vec![100]).params_domain().unwrap();
    assert_eq!(d.len(), 21);
    assert_eq!(d[0].name, "optimizer");
    match &d[0].kind {
        ParamKind::Categorical { choices } => {
            assert_eq!(choices.len(), 8);
            assert_eq!(choices[2], "adam");
        }
        _ => panic!("the first parameter is categorical"),
    }
    assert_eq!(d[1].name, "learning_rate");
    match &d[1].kind {
        ParamKind::Continuous { low, high, log_scale } => {
            assert_eq!(*low, 1_000);
            assert_eq!(*high, UNITS_PER_ONE);
            assert!(*log_scale);
        }
        _ => panic!("learning_rate is continuous"),
    }
    assert_eq!(d[7].name, "adam.beta1");
    match &d[7].kind {
        ParamKind::Conditional { parent, required, .. } => {
            assert_eq!(parent, "optimizer");
            assert_eq!(required, "adam");
        }
        _ => panic!("adam.beta1 is conditional"),
    }
}

#[test]
fn create_problem_rejects_bad_schedules() {
    assert_eq!(recipe(vec![]).create_problem().err(), Some(Error::EmptySchedule));
    assert_eq!(recipe(vec![10, 0]).create_problem().err(), Some(Error::ZeroCheckpoint));
    assert_eq!(recipe(vec![0]).create_problem().err(), Some(Error::ZeroCheckpoint));
    assert_eq!(recipe(vec![50, 10]).create_problem().err(), Some(Error::UnorderedSchedule));
    assert!(recipe(vec![10, 50, 100]).create_problem().is_ok());
    assert!(recipe(vec![100]).create_problem().is_ok());
}

#[test]
fn specification_of_problem() {
    let p = recipe(vec![10, 50, 100]).create_problem().unwrap();
    let spec = p.specification();
    assert_eq!(spec.name, "deepobs/svhn_3c3d");
    assert!(spec.version.is_none());
    assert_eq!(spec.params_domain.len(), 21);
    assert_eq!(spec.values_domain, vec![(0, UNITS_PER_ONE)]);
    assert_eq!(spec.evaluation_expense, 100);
    assert!(spec.concurrent);
}

fn adam_config() -> Vec<ParamValue> {
    let mut v = vec![
        ParamValue::Categorical(2),
        ParamValue::Continuous("0.001".to_string()),
        ParamValue::Continuous("0.0005".to_string()),
        ParamValue::Discrete(128),
    ];
    // adadelta.rho, adadelta.epsilon, adagrad.initial_accumulator_value
    for _ in 0..3 {
        v.push(ParamValue::Conditional(None));
    }
    v.push(ParamValue::Conditional(Some(Box::new(ParamValue::Continuous("0.5".to_string())))));
    v.push(ParamValue::Conditional(Some(Box::new(ParamValue::Continuous("0.999".to_string())))));
    v.push(ParamValue::Conditional(Some(Box::new(ParamValue::Continuous("1e-8".to_string())))));
    // momentum.momentum carries a value although its branch is not taken
    v.push(ParamValue::Conditional(Some(Box::new(ParamValue::Continuous("0.9".to_string())))));
    for _ in 11..21 {
        v.push(ParamValue::Conditional(None));
    }
    v
}

#[test]
fn prepare_builds_invocation() {
    let p = recipe(vec![10, 50, 100]).create_problem().unwrap();
    let mut e = p.create_evaluator(&mut ProblemCache::new(), 7).unwrap();
    let budget = Budget { amount: 30, consumption: 0 };
    let inv = e.prepare(&adam_config(), &budget, &"/tmp/out".to_string()).unwrap();
    assert_eq!(inv.epochs, 50);
    assert_eq!(inv.args[0..4], s(&["adam", "svhn_3c3d", "--data_dir", "/data"])[..]);
    assert_eq!(inv.args[4..7], s(&["--output_dir", "/tmp/out", "--random_seed"])[..]);
    assert_eq!(inv.args[7], "7");
    assert_eq!(
        inv.args[8..],
        s(&[
            "--num_epochs", "50", "--learning_rate", "0.001", "--weight_decay", "0.0005",
            "--batch_size", "128", "--beta1", "0.5", "--beta2", "0.999", "--epsilon", "1e-8",
        ])[..]
    );
}

#[test]
fn prepare_rejects_unresolved_mode() {
    let p = recipe(vec![10]).create_problem().unwrap();
    let mut e = p.create_evaluator(&mut ProblemCache::new(), 7).unwrap();
    let budget = Budget { amount: 1, consumption: 0 };
    let out = "/tmp/out".to_string();
    let bad_index = vec![ParamValue::Categorical(8)];
    assert_eq!(e.prepare(&bad_index, &budget, &out).err(), Some(Error::UnresolvedMode));
    let not_categorical = vec![ParamValue::Discrete(0)];
    assert_eq!(e.prepare(&not_categorical, &budget, &out).err(), Some(Error::UnresolvedMode));
    assert_eq!(e.prepare(&vec![], &budget, &out).err(), Some(Error::UnresolvedMode));
}

#[test]
fn repeated_calls_never_grow_fidelity() {
    let p = recipe(vec![10, 50, 100]).create_problem().unwrap();
    let mut e = p.create_evaluator(&mut ProblemCache::new(), 7).unwrap();
    let out = "/tmp/out".to_string();
    let mut picked = Vec::new();
    for amount in [60, 40, 5] {
        let budget = Budget { amount, consumption: 0 };
        picked.push(e.prepare(&adam_config(), &budget, &out).unwrap().epochs);
    }
    assert_eq!(picked, vec![100, 100, 100]);
    // 10 and 50 were discarded by the first call and do not come back
    let budget = Budget { amount: 1, consumption: 0 };
    assert_eq!(e.prepare(&adam_config(), &budget, &out).unwrap().epochs, 100);
}

#[test]
fn complete_sets_consumption() {
    let p = recipe(vec![10, 50, 100]).create_problem().unwrap();
    let mut e = p.create_evaluator(&mut ProblemCache::new(), 7).unwrap();
    let mut budget = Budget { amount: 40, consumption: 0 };
    let inv = e.prepare(&adam_config(), &budget, &"/o".to_string()).unwrap();
    assert_eq!(e.complete(&inv, false, &mut budget), Err(Error::ProcessFailed));
    assert_eq!(budget.consumption, 0);
    assert_eq!(e.complete(&inv, true, &mut budget), Ok(()));
    assert_eq!(budget, Budget { amount: 40, consumption: 50 });
}

#[test]
fn categorical_values_are_emitted_by_choice_name() {
    let p = recipe(vec![10]).create_problem().unwrap();
    let mut e = p.create_evaluator(&mut ProblemCache::new(), 1).unwrap();
    let mut v = vec![
        ParamValue::Categorical(4),
        ParamValue::Continuous("0.1".to_string()),
        ParamValue::Continuous("0.2".to_string()),
        ParamValue::Discrete(8),
    ];
    for _ in 4..10 {
        v.push(ParamValue::Conditional(None));
    }
    v.push(ParamValue::Conditional(Some(Box::new(ParamValue::Continuous("0.9".to_string())))));
    v.push(ParamValue::Conditional(Some(Box::new(ParamValue::Categorical(1)))));
    for _ in 12..21 {
        v.push(ParamValue::Conditional(None));
    }
    let budget = Budget { amount: 1, consumption: 0 };
    let inv = e.prepare(&v, &budget, &"/o".to_string()).unwrap();
    assert_eq!(inv.args[0], "momentum");
    assert_eq!(
        inv.args[10..],
        s(&[
            "--learning_rate", "0.1", "--weight_decay", "0.2", "--batch_size", "8", "--momentum",
            "0.9", "--use_nesterov", "true",
        ])[..]
    );
    v[11] = ParamValue::Conditional(Some(Box::new(ParamValue::Categorical(2))));
    assert_eq!(e.prepare(&v, &budget, &"/o".to_string()).err(), Some(Error::MalformedValue));
}

#[test]
fn evaluators_share_the_problem_process() {
    let p = recipe(vec![10, 50]).create_problem().unwrap();
    let other = DeepobsProblemRecipe {
        problem: TestProblem::Mnist_mlp,
        data_dir: "/data".to_string(),
        epochs: vec![10, 50],
    }
    .create_problem()
    .unwrap();
    let sig = p.signature();
    assert_eq!(sig, s(&["svhn_3c3d", "--data-dir", "/data", "--epochs", "10", "--epochs", "50"]));
    let mut cache = ProblemCache::new();
    let e1 = p.create_evaluator(&mut cache, 1).unwrap();
    let e2 = p.create_evaluator(&mut cache, 2).unwrap();
    let e3 = other.create_evaluator(&mut cache, 3).unwrap();
    assert!(e1.acquired().spawned);
    assert!(!e2.acquired().spawned);
    assert_eq!(e1.acquired().process, e2.acquired().process);
    assert!(e3.acquired().spawned);
    assert_ne!(e3.acquired().process, e1.acquired().process);
    let old = e1.acquired().process;
    e1.close(&mut cache);
    e2.close(&mut cache);
    let e4 = p.create_evaluator(&mut cache, 4).unwrap();
    assert!(e4.acquired().spawned);
    assert_ne!(e4.acquired().process, old);
}
