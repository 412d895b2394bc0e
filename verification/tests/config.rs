use otel_worker::config::{
    create_failure, find_otel_worker_dir, find_otel_worker_dir_next, initialize_otel_worker_dir,
    InitializePlan, SearchStep, DATABASE_FILENAME, WORKING_DIRECTORY_NAME,
};

fn search(present: &[bool]) -> SearchStep {
    let mut step = find_otel_worker_dir(Some(present.len()));
    while let SearchStep::Look(level) = step {
        step = find_otel_worker_dir_next(present.len(), level, present[level]);
    }
    step
}

#[test]
fn the_names_are_the_documented_ones() {
    assert_eq!(WORKING_DIRECTORY_NAME, ".otel-worker");
    assert_eq!(DATABASE_FILENAME, "data.db");
}

#[test]
fn the_nearest_directory_is_found() {
    assert_eq!(search(&[true, true]), SearchStep::Found(0));
    assert_eq!(search(&[false, false, true, true]), SearchStep::Found(2));
    assert_eq!(search(&[false, true]), SearchStep::Found(1));
}

#[test]
fn where_no_directory_has_one_none_is_found() {
    assert_eq!(search(&[false, false, false]), SearchStep::NotFound);
    assert_eq!(search(&[false]), SearchStep::NotFound);
    assert_eq!(search(&[]), SearchStep::NotFound);
}

#[test]
fn without_a_current_directory_none_is_found() {
    assert_eq!(find_otel_worker_dir(None), SearchStep::NotFound);
}

#[test]
fn the_search_starts_in_the_current_directory_and_goes_up() {
    assert_eq!(find_otel_worker_dir(Some(2)), SearchStep::Look(0));
    assert_eq!(find_otel_worker_dir_next(2, 0, false), SearchStep::Look(1));
    assert_eq!(find_otel_worker_dir_next(2, 1, false), SearchStep::NotFound);
}

#[test]
fn a_directory_that_is_asked_for_comes_first() {
    for found in [Some("b"), None] {
        let plan = initialize_otel_worker_dir(Some("a"), found);
        assert!(matches!(plan, InitializePlan::Create("a")));
    }
}

#[test]
fn a_directory_that_was_found_is_used_as_it_is() {
    assert!(matches!(initialize_otel_worker_dir(None, Some("b")), InitializePlan::Use("b")));
}

#[test]
fn without_either_one_is_created_in_the_current_directory() {
    let plan = initialize_otel_worker_dir::<&str>(None, None);
    assert!(matches!(plan, InitializePlan::CreateInCurrentDirectory));
}

#[test]
fn a_second_initialization_uses_what_the_first_came_to() {
    let paths = ["/a/b/.otel-worker", "/a/.otel-worker", "/.otel-worker"];
    for mut present in [[false, false, false], [false, true, true], [true, false, false]] {
        let mut directories = Vec::new();
        for _ in 0..2 {
            let found = match search(&present) {
                SearchStep::Found(level) => Some(paths[level]),
                _ => None,
            };
            match initialize_otel_worker_dir(None, found) {
                InitializePlan::Use(path) => directories.push(path),
                InitializePlan::CreateInCurrentDirectory => {
                    assert!(directories.is_empty());
                    present[0] = true;
                    directories.push(paths[0]);
                }
                other => panic!("{other:?}"),
            }
        }
        assert_eq!(directories[0], directories[1]);
    }
}

#[test]
fn a_failure_to_create_names_the_directory() {
    assert_eq!(
        create_failure("\"/tmp/.otel-worker\""),
        "Failed to create otel-worker working directory: \"/tmp/.otel-worker\""
    );
}
