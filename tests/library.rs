use kurobako_problems::deepobs::optimizers;
use kurobako_problems::domain::{
    boolean, choices, integer, log_uniform, uniform, ParamDomain, ParamKind, ParamValue,
};
use kurobako_problems::error::Error;
use kurobako_problems::invocation::{build_args, config_flags, resolve_mode, value_arg};
use kurobako_problems::registry::ProblemCache;
use kurobako_problems::scan::{is_result_file, last_accuracy, DirEntry, ResultScan, ScanAction};
use kurobako_problems::schedule::{reversed, select_fidelity, validate_schedule};
use kurobako_problems::text::{i64_text, split_name, u64_text};

fn s(v: &[&str]) -> Vec<String> {
    v.iter().map(|x| x.to_string()).collect()
}

fn pick(schedule: &[u64], budget: u64) -> u64 {
    let mut c = reversed(&schedule.to_vec());
    select_fidelity(&mut c, budget)
}

#[test]
fn selection_is_clamped_ceiling() {
    assert_eq!(pick(&[10, 50, 100], 30), 50);
    assert_eq!(pick(&[10, 50, 100], 40), 50);
    assert_eq!(pick(&[10, 50, 100], 50), 50);
    assert_eq!(pick(&[10, 50, 100], 200), 100);
    assert_eq!(pick(&[10, 50, 100], 0), 10);
    assert_eq!(pick(&[7], 1), 7);
    assert_eq!(pick(&[7], 1000), 7);
}

#[test]
fn selection_discards_smaller_candidates() {
    let mut c = reversed(&vec![10, 50, 100]);
    assert_eq!(c, vec![100, 50, 10]);
    assert_eq!(select_fidelity(&mut c, 30), 50);
    assert_eq!(c, vec![100, 50]);
    assert_eq!(select_fidelity(&mut c, 20), 50);
    assert_eq!(c, vec![100, 50]);
    assert_eq!(select_fidelity(&mut c, 500), 100);
    assert_eq!(c, vec![100]);
    assert_eq!(select_fidelity(&mut c, 1), 100);
}

#[test]
fn schedule_validation() {
    assert_eq!(validate_schedule(&vec![]), Err(Error::EmptySchedule));
    assert_eq!(validate_schedule(&vec![1, 0]), Err(Error::ZeroCheckpoint));
    assert_eq!(validate_schedule(&vec![5, 3]), Err(Error::UnorderedSchedule));
    assert_eq!(validate_schedule(&vec![3, 3, 5]), Ok(()));
}

#[test]
fn decimal_text() {
    assert_eq!(u64_text(0), "0");
    assert_eq!(u64_text(1234567890), "1234567890");
    assert_eq!(u64_text(u64::MAX), u64::MAX.to_string());
    assert_eq!(i64_text(-42), "-42");
    assert_eq!(i64_text(i64::MIN), i64::MIN.to_string());
    assert_eq!(i64_text(7), "7");
}

#[test]
fn names_split_at_first_dot() {
    assert_eq!(split_name("adam.beta1"), (Some("adam".to_string()), "beta1".to_string()));
    assert_eq!(split_name("a.b.c"), (Some("a".to_string()), "b.c".to_string()));
    assert_eq!(split_name("learning_rate"), (None, "learning_rate".to_string()));
}

#[test]
fn domain_constructors_validate() {
    assert_eq!(uniform("x", 5, 5).err(), Some(Error::InvalidBounds));
    assert!(uniform("x", 0, 5).is_ok());
    assert_eq!(log_uniform("x", 0, 5).err(), Some(Error::NonPositiveLogBound));
    assert_eq!(log_uniform("x", 6, 5).err(), Some(Error::InvalidBounds));
    assert!(log_uniform("x", 1, 5).is_ok());
    assert_eq!(integer("n", 3, 1).err(), Some(Error::InvalidBounds));
    assert_eq!(choices("c", &vec![]).err(), Some(Error::EmptyChoices));
    assert_eq!(choices("c", &s(&["a", "b", "a"])).err(), Some(Error::DuplicateChoice));
    assert!(choices("c", &s(&["a", "b"])).is_ok());
    match boolean("flag").kind {
        ParamKind::Categorical { choices } => assert_eq!(choices, s(&["false", "true"])),
        _ => panic!("a boolean is categorical"),
    }
    let w = kurobako_problems::domain::when("mode", "adam", uniform("adam.beta1", 1, 10).unwrap());
    assert_eq!(w.name, "adam.beta1");
    assert!(matches!(w.kind, ParamKind::Conditional { .. }));
}

fn domain_for_filtering() -> Vec<ParamDomain> {
    vec![
        choices("optimizer", &optimizers()).unwrap(),
        kurobako_problems::domain::when("optimizer", "adam", uniform("adam.beta1", 1, 10).unwrap()),
        kurobako_problems::domain::when("optimizer", "momentum", uniform("momentum.momentum", 1, 10).unwrap()),
    ]
}

#[test]
fn conditional_parameters_are_filtered_by_mode() {
    let d = domain_for_filtering();
    let values = vec![
        ParamValue::Categorical(2),
        ParamValue::Continuous("0.5".to_string()),
        ParamValue::Continuous("0.9".to_string()),
    ];
    let mode = resolve_mode(&d, &values).unwrap();
    assert_eq!(mode, "adam");
    assert_eq!(config_flags(&mode, &d, &values).unwrap(), s(&["--beta1", "0.5"]));
    let values = vec![
        ParamValue::Categorical(4),
        ParamValue::Conditional(None),
        ParamValue::Conditional(Some(Box::new(ParamValue::Continuous("0.9".to_string())))),
    ];
    let mode = resolve_mode(&d, &values).unwrap();
    assert_eq!(mode, "momentum");
    assert_eq!(config_flags(&mode, &d, &values).unwrap(), s(&["--momentum", "0.9"]));
}

#[test]
fn value_texts() {
    let int_kind = ParamKind::Discrete { low: -5, high: 5 };
    assert_eq!(value_arg(&int_kind, &ParamValue::Discrete(-3)), Some("-3".to_string()));
    let flag = boolean("flag").kind;
    assert_eq!(value_arg(&flag, &ParamValue::Categorical(1)), Some("true".to_string()));
    assert_eq!(value_arg(&flag, &ParamValue::Categorical(2)), None);
    assert_eq!(value_arg(&flag, &ParamValue::Conditional(None)), None);
    let guarded = kurobako_problems::domain::when("m", "x", boolean("flag")).kind;
    let nested = ParamValue::Conditional(Some(Box::new(ParamValue::Categorical(0))));
    assert_eq!(value_arg(&guarded, &nested), Some("false".to_string()));
    let nested = ParamValue::Conditional(Some(Box::new(ParamValue::Discrete(12))));
    assert_eq!(value_arg(&guarded, &nested), Some("12".to_string()));
}

#[test]
fn active_categorical_parameters_get_flags() {
    let d = vec![
        choices("optimizer", &optimizers()).unwrap(),
        kurobako_problems::domain::when("optimizer", "momentum", boolean("momentum.use_nesterov")),
        boolean("shuffle"),
    ];
    let values = vec![
        ParamValue::Categorical(4),
        ParamValue::Conditional(Some(Box::new(ParamValue::Categorical(1)))),
        ParamValue::Categorical(0),
    ];
    let mode = resolve_mode(&d, &values).unwrap();
    assert_eq!(
        config_flags(&mode, &d, &values).unwrap(),
        s(&["--use_nesterov", "true", "--shuffle", "false"])
    );
    let bad = vec![ParamValue::Categorical(4), ParamValue::Conditional(None), ParamValue::Categorical(9)];
    assert_eq!(config_flags(&mode, &d, &bad), Err(Error::MalformedValue));
}

#[test]
fn fixed_arguments_come_first() {
    let args = build_args(
        &"adam".to_string(),
        &"mnist_mlp".to_string(),
        &"/d".to_string(),
        &"/o".to_string(),
        42,
        7,
        s(&["--beta1", "0.5"]),
    );
    assert_eq!(
        args,
        s(&[
            "adam", "mnist_mlp", "--data_dir", "/d", "--output_dir", "/o", "--random_seed", "42",
            "--num_epochs", "7", "--beta1", "0.5",
        ])
    );
}

fn entry(dir: &str, name: &str, is_dir: bool) -> DirEntry {
    DirEntry { path: format!("{}/{}", dir, name), name: name.to_string(), is_dir }
}

#[test]
fn scan_decisions() {
    assert!(is_result_file("result.json"));
    assert!(!is_result_file(".json"));
    assert!(!is_result_file("result.jsonl"));
    // an empty directory listed before the result file: the scan backs up
    let mut scan = ResultScan::new(
        "/root".to_string(),
        vec![entry("/root", "log.txt", false), entry("/root", "empty", true), entry("/root", "r.json", false)],
    );
    assert_eq!(scan.next(), Ok(ScanAction::Descend("/root/empty".to_string())));
    scan.enter(vec![]);
    assert_eq!(scan.next(), Ok(ScanAction::Parse("/root/r.json".to_string())));
    // nothing anywhere: the error names the root
    let mut scan = ResultScan::new("/root".to_string(), vec![entry("/root", "a", true)]);
    assert_eq!(scan.next(), Ok(ScanAction::Descend("/root/a".to_string())));
    scan.enter(vec![entry("/root/a", "b", true)]);
    assert_eq!(scan.next(), Ok(ScanAction::Descend("/root/a/b".to_string())));
    scan.enter(vec![]);
    assert_eq!(scan.next(), Err(Error::NoResult("/root".to_string())));
    let mut scan = ResultScan::new("/scratch".to_string(), vec![]);
    assert_eq!(scan.next(), Err(Error::NoResult("/scratch".to_string())));
}

#[test]
fn score_is_last_accuracy() {
    assert_eq!(last_accuracy(&vec![0.1f64, 0.4, 0.87]), Ok(0.87));
    let empty: Vec<f64> = vec![];
    assert_eq!(last_accuracy(&empty), Err(Error::EmptyAccuracies));
}

#[test]
fn registry_shares_live_processes() {
    let mut reg = ProblemCache::new();
    let sig = s(&["hpo", "--dataset", "a"]);
    let other = s(&["hpo", "--dataset", "b"]);
    let a1 = reg.acquire(&sig).unwrap();
    assert!(a1.spawned);
    let a2 = reg.acquire(&sig).unwrap();
    assert!(!a2.spawned);
    assert_eq!(a2.process, a1.process);
    let b = reg.acquire(&other).unwrap();
    assert!(b.spawned);
    assert_ne!(b.process, a1.process);
    reg.release(a1.process);
    let a3 = reg.acquire(&sig).unwrap();
    assert!(!a3.spawned);
    assert_eq!(a3.process, a1.process);
    reg.release(a1.process);
    reg.release(a1.process);
    let a4 = reg.acquire(&sig).unwrap();
    assert!(a4.spawned);
    assert_ne!(a4.process, a1.process);
    assert_ne!(a4.process, b.process);
}

#[test]
fn registry_serializes_calls_per_process() {
    let mut reg = ProblemCache::new();
    let a = reg.acquire(&s(&["x"])).unwrap();
    let b = reg.acquire(&s(&["y"])).unwrap();
    assert!(reg.begin_call(a.process));
    assert!(!reg.begin_call(a.process));
    assert!(reg.begin_call(b.process));
    reg.end_call(a.process);
    assert!(reg.begin_call(a.process));
    reg.end_call(a.process);
    reg.end_call(b.process);
}

/// A directory tree in memory: the listing of each directory and the text of each file.
struct Tree {
    dirs: std::collections::HashMap<String, Vec<DirEntry>>,
    files: std::collections::HashMap<String, String>,
}

fn extract(tree: &Tree, root: &str) -> Result<f64, Error> {
    let mut scan = ResultScan::new(root.to_string(), tree.dirs[root].clone());
    loop {
        match scan.next()? {
            ScanAction::Parse(path) => {
                let value: serde_json::Value = serde_json::from_str(&tree.files[&path]).unwrap();
                let accuracies: Vec<f64> = value["test_accuracies"]
                    .as_array()
                    .unwrap()
                    .iter()
                    .map(|v| v.as_f64().unwrap())
                    .collect();
                return last_accuracy(&accuracies);
            }
            ScanAction::Descend(path) => scan.enter(tree.dirs[&path].clone()),
        }
    }
}

fn tree_with_result(text: &str) -> Tree {
    let mut dirs = std::collections::HashMap::new();
    dirs.insert("/s".to_string(), vec![DirEntry { path: "/s/a".to_string(), name: "a".to_string(), is_dir: true }]);
    dirs.insert(
        "/s/a".to_string(),
        vec![
            DirEntry { path: "/s/a/log.txt".to_string(), name: "log.txt".to_string(), is_dir: false },
            DirEntry { path: "/s/a/b".to_string(), name: "b".to_string(), is_dir: true },
        ],
    );
    dirs.insert(
        "/s/a/b".to_string(),
        vec![DirEntry { path: "/s/a/b/result.json".to_string(), name: "result.json".to_string(), is_dir: false }],
    );
    let mut files = std::collections::HashMap::new();
    files.insert("/s/a/b/result.json".to_string(), text.to_string());
    Tree { dirs, files }
}

#[test]
fn result_extraction_from_nested_tree() {
    let tree = tree_with_result(r#"{"test_accuracies":[0.1,0.4,0.87]}"#);
    assert_eq!(extract(&tree, "/s"), Ok(0.87));
    let tree = tree_with_result(r#"{"test_accuracies":[]}"#);
    assert_eq!(extract(&tree, "/s"), Err(Error::EmptyAccuracies));
    let mut empty = Tree { dirs: std::collections::HashMap::new(), files: std::collections::HashMap::new() };
    empty.dirs.insert("/scratch".to_string(), vec![]);
    assert_eq!(extract(&empty, "/scratch"), Err(Error::NoResult("/scratch".to_string())));

    // an empty subtree listed first, the result in a later sibling
    let mut tree = tree_with_result(r#"{"test_accuracies":[0.5]}"#);
    tree.dirs.get_mut("/s").unwrap().insert(
        0,
        DirEntry { path: "/s/e".to_string(), name: "e".to_string(), is_dir: true },
    );
    tree.dirs.insert("/s/e".to_string(), vec![]);
    assert_eq!(extract(&tree, "/s"), Ok(0.5));

    // nested directories without a result: the error names the root
    let mut bare = Tree { dirs: std::collections::HashMap::new(), files: std::collections::HashMap::new() };
    bare.dirs.insert("/d".to_string(), vec![DirEntry { path: "/d/a".to_string(), name: "a".to_string(), is_dir: true }]);
    bare.dirs.insert("/d/a".to_string(), vec![DirEntry { path: "/d/a/b".to_string(), name: "b".to_string(), is_dir: true }]);
    bare.dirs.insert("/d/a/b".to_string(), vec![]);
    assert_eq!(extract(&bare, "/d"), Err(Error::NoResult("/d".to_string())));
}
