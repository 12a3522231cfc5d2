//! End-to-end scenarios: the orchestrator driven against an in-memory
//! filesystem.

use std::collections::BTreeMap;

use scaffold::engine::{
    Action, GenerationResult, Outcome, ScaffoldError, ScaffoldRequest, ScaffoldRun,
};
use scaffold::manifest::{all_entries, EntryKind};
use scaffold::templates::template_content;

#[derive(Clone, PartialEq, Eq, Debug)]
enum Node {
    Dir,
    File(String),
}

/// Run the generator against `fs`.  `fail_on` simulates an I/O failure on
/// one target path.  Creation fails closed if a path appears mid-run.
fn run_generator(
    fs: &mut BTreeMap<String, Node>,
    name: &str,
    fail_on: Option<&str>,
) -> GenerationResult {
    let exists = fs.contains_key(name);
    let mut run = ScaffoldRun::start(name, exists);
    loop {
        let action = match run.pending() {
            None => break,
            Some(a) => a,
        };
        let ok = match action {
            Action::MakeDir { path } => {
                if Some(path.as_str()) == fail_on || fs.contains_key(&path) {
                    false
                } else {
                    fs.insert(path, Node::Dir);
                    true
                }
            }
            Action::PutFile { path, content } => {
                if Some(path.as_str()) == fail_on || fs.contains_key(&path) {
                    false
                } else {
                    fs.insert(path, Node::File(content));
                    true
                }
            }
            Action::RemovePath { path, .. } => {
                fs.remove(&path);
                true
            }
        };
        run.record(ok);
    }
    run.outcome().expect("a finished run reports an outcome")
}

fn expected_paths(name: &str) -> Vec<String> {
    let rel = [
        "",
        "/src",
        "/Cargo.toml",
        "/src/main.rs",
        "/src/lib.rs",
        "/src/common",
        "/src/common/mod.rs",
        "/src/common/types.rs",
        "/src/common/validation.rs",
        "/src/routes",
        "/src/routes/mod.rs",
        "/src/process",
        "/src/process/mod.rs",
        "/src/process/processing.rs",
        "/src/services",
        "/src/services/lambda.rs",
        "/Makefile",
    ];
    rel.iter().map(|r| format!("{name}{r}")).collect()
}

#[test]
fn init_demo_creates_exactly_the_manifest_tree() {
    let mut fs: BTreeMap<String, Node> = BTreeMap::new();
    let result = run_generator(&mut fs, "demo", None);
    assert!(matches!(result.outcome, Outcome::Success));

    let expected = expected_paths("demo");
    assert_eq!(result.created_paths, expected);

    let mut actual: Vec<String> = fs.keys().cloned().collect();
    let mut wanted = expected.clone();
    actual.sort();
    wanted.sort();
    assert_eq!(actual, wanted);
}

#[test]
fn init_demo_substitutes_the_token_everywhere() {
    let mut fs: BTreeMap<String, Node> = BTreeMap::new();
    let result = run_generator(&mut fs, "demo", None);
    assert!(matches!(result.outcome, Outcome::Success));

    let cargo = match fs.get("demo/Cargo.toml").unwrap() {
        Node::File(c) => c.clone(),
        Node::Dir => panic!("demo/Cargo.toml must be a file"),
    };
    assert!(cargo.contains("name = \"demo\""));
    assert!(cargo.contains("name = \"demo_lambda\""));

    for (path, node) in fs.iter() {
        if let Node::File(content) = node {
            assert!(
                !content.contains("{{project-name}}"),
                "token left in {path}"
            );
        }
    }
}

#[test]
fn unsubstituted_outputs_are_byte_identical_to_their_templates() {
    let mut fs: BTreeMap<String, Node> = BTreeMap::new();
    let result = run_generator(&mut fs, "demo", None);
    assert!(matches!(result.outcome, Outcome::Success));

    for entry in all_entries() {
        if entry.kind != EntryKind::File {
            continue;
        }
        let rel = entry.output_segments.join("/");
        let out = format!("demo/{rel}");
        let content = match fs.get(&out).unwrap() {
            Node::File(c) => c.clone(),
            Node::Dir => panic!("{out} must be a file"),
        };
        let template = template_content(&entry.template_rel_path).unwrap();
        if entry.substitute {
            assert!(template.contains("{{project-name}}"));
            assert!(!content.contains("{{project-name}}"));
        } else {
            assert!(!template.contains("{{project-name}}"));
            assert_eq!(content, template, "{out} must equal its template");
        }
    }
}

#[test]
fn directories_are_created_before_their_contents() {
    let mut fs: BTreeMap<String, Node> = BTreeMap::new();
    let result = run_generator(&mut fs, "demo", None);
    assert!(matches!(result.outcome, Outcome::Success));
    let created = &result.created_paths;
    for (i, path) in created.iter().enumerate() {
        if let Some(pos) = path.rfind('/') {
            let parent = &path[..pos];
            let before = &created[..i];
            assert!(
                before.iter().any(|p| p == parent),
                "parent of {path} created too late"
            );
        }
    }
}

#[test]
fn existing_target_is_rejected_with_zero_writes() {
    let mut fs: BTreeMap<String, Node> = BTreeMap::new();
    fs.insert("demo".to_string(), Node::File("occupied".to_string()));
    let snapshot = fs.clone();
    let result = run_generator(&mut fs, "demo", None);
    match result.outcome {
        Outcome::Failure(ScaffoldError::Validation(_)) => {}
        _ => panic!("an occupied target must be a validation failure"),
    }
    assert_eq!(fs, snapshot, "a rejected run must not touch the filesystem");
    assert!(result.created_paths.is_empty());
}

#[test]
fn invalid_names_are_rejected_with_zero_writes() {
    for bad in ["", "a/b", "a\\b", "/demo"] {
        let mut fs: BTreeMap<String, Node> = BTreeMap::new();
        let snapshot = fs.clone();
        let result = run_generator(&mut fs, bad, None);
        match result.outcome {
            Outcome::Failure(ScaffoldError::Validation(_)) => {}
            _ => panic!("name {bad:?} must be rejected"),
        }
        assert_eq!(fs, snapshot);
    }
}

#[test]
fn mid_run_io_failure_rolls_everything_back() {
    let mut fs: BTreeMap<String, Node> = BTreeMap::new();
    fs.insert("bystander".to_string(), Node::File("keep me".to_string()));
    let snapshot = fs.clone();
    let result = run_generator(&mut fs, "demo", Some("demo/src/common/types.rs"));
    match result.outcome {
        Outcome::Failure(ScaffoldError::Io(msg)) => {
            assert!(msg.contains("demo/src/common/types.rs"));
        }
        _ => panic!("a forced write failure must surface as an I/O failure"),
    }
    assert_eq!(fs, snapshot, "an aborted run must restore the filesystem");
}

#[test]
fn failure_on_the_first_action_leaves_nothing_behind() {
    let mut fs: BTreeMap<String, Node> = BTreeMap::new();
    let snapshot = fs.clone();
    let result = run_generator(&mut fs, "demo", Some("demo"));
    assert!(matches!(result.outcome, Outcome::Failure(ScaffoldError::Io(_))));
    assert_eq!(fs, snapshot);
}

#[test]
fn failure_on_the_last_action_rolls_the_whole_tree_back() {
    let mut fs: BTreeMap<String, Node> = BTreeMap::new();
    let snapshot = fs.clone();
    let result = run_generator(&mut fs, "demo", Some("demo/Makefile"));
    assert!(matches!(result.outcome, Outcome::Failure(ScaffoldError::Io(_))));
    assert_eq!(fs, snapshot);
}

#[test]
fn running_twice_fails_the_second_time_and_keeps_the_first_tree() {
    let mut fs: BTreeMap<String, Node> = BTreeMap::new();
    let first = run_generator(&mut fs, "demo", None);
    assert!(matches!(first.outcome, Outcome::Success));
    let snapshot = fs.clone();

    let second = run_generator(&mut fs, "demo", None);
    match second.outcome {
        Outcome::Failure(ScaffoldError::Validation(_)) => {}
        _ => panic!("the second run must fail validation"),
    }
    assert_eq!(fs, snapshot, "the first tree must be untouched");
    assert_eq!(fs.len(), snapshot.len());
}

#[test]
fn distinct_names_generate_distinct_trees() {
    let mut fs: BTreeMap<String, Node> = BTreeMap::new();
    assert!(matches!(
        run_generator(&mut fs, "alpha", None).outcome,
        Outcome::Success
    ));
    assert!(matches!(
        run_generator(&mut fs, "beta", None).outcome,
        Outcome::Success
    ));
    assert_eq!(fs.len(), 34);
    let alpha_main = match fs.get("alpha/src/main.rs").unwrap() {
        Node::File(c) => c.clone(),
        Node::Dir => panic!(),
    };
    assert!(alpha_main.contains("use alpha::routes::create_router;"));
}

#[test]
fn a_name_containing_the_token_is_stamped_once_and_never_rescanned() {
    // Replacement text is never re-scanned, so such a name terminates and
    // lands verbatim — at the price that the token text reappears in the
    // output.  This is the input class the token-freedom law excludes.
    let name = "x{{project-name}}y";
    let mut fs: BTreeMap<String, Node> = BTreeMap::new();
    let result = run_generator(&mut fs, name, None);
    assert!(matches!(result.outcome, Outcome::Success));
    let cargo = match fs.get(&format!("{name}/Cargo.toml")).unwrap() {
        Node::File(c) => c.clone(),
        Node::Dir => panic!(),
    };
    assert!(cargo.contains("name = \"x{{project-name}}y\""));
}

#[test]
fn scaffold_request_validates_the_name_shape() {
    assert!(ScaffoldRequest::new("demo").is_ok());
    assert_eq!(ScaffoldRequest::new("demo").unwrap().project_name, "demo");
    for bad in ["", "a/b", "a\\b"] {
        match ScaffoldRequest::new(bad) {
            Err(ScaffoldError::Validation(_)) => {}
            _ => panic!("name {bad:?} must be rejected"),
        }
    }
}

#[test]
fn plan_paths_are_distinct() {
    let mut fs: BTreeMap<String, Node> = BTreeMap::new();
    let result = run_generator(&mut fs, "demo", None);
    let mut paths = result.created_paths.clone();
    paths.sort();
    paths.dedup();
    assert_eq!(paths.len(), result.created_paths.len());
}
