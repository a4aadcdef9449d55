use cmakr::config::Config;
use cmakr::error::Error;
use cmakr::parse::parse;
use cmakr::plan::{build_steps, carry_out, settle, target_dir, Course, Outcome, Step};

fn strings(items: &[&str]) -> Vec<String> {
    items.iter().map(|s| s.to_string()).collect()
}

fn scenario_config() -> Config {
    parse("[target.debug]\nargs = [\"-DCMAKE_BUILD_TYPE=Debug\"]\nbuild = \"make\"\n").unwrap()
}

fn count(steps: &[Step], wanted: fn(&Step) -> bool) -> usize {
    steps.iter().filter(|step| wanted(step)).count()
}

fn is_generate(step: &Step) -> bool {
    matches!(step, Step::Generate { .. })
}

fn is_build(step: &Step) -> bool {
    matches!(step, Step::Build { .. })
}

#[test]
fn target_dir_is_build_path_then_name() {
    let config = scenario_config();
    assert_eq!(target_dir(&config, "debug"), strings(&["build", "debug"]));
    let config = parse("build-path = \"out/dir\"\n[target.x]\nargs = []\nbuild = \"make\"\n").unwrap();
    assert_eq!(target_dir(&config, "x"), strings(&["out/dir", "x"]));
}

#[test]
fn scenario_fresh_tree_generates_then_builds() {
    let config = scenario_config();
    let steps = build_steps(&config, "debug", false).unwrap();
    assert_eq!(
        steps,
        vec![
            Step::CreateDir { dir: strings(&["build", "debug"]) },
            Step::EnterDir { dir: strings(&["build", "debug"]) },
            Step::Generate {
                program: "cmake".to_string(),
                args: strings(&["../..", "-DCMAKE_BUILD_TYPE=Debug"]),
            },
            Step::Build { program: "make".to_string() },
        ]
    );
}

#[test]
fn generated_tree_only_builds() {
    let config = scenario_config();
    let steps = build_steps(&config, "debug", true).unwrap();
    assert_eq!(
        steps,
        vec![
            Step::EnterDir { dir: strings(&["build", "debug"]) },
            Step::Build { program: "make".to_string() },
        ]
    );
}

#[test]
fn generator_receives_the_args_in_order() {
    let config =
        parse("[target.t]\nargs = [\"-c\", \"-a\", \"-b\", \"-a\"]\nbuild = \"ninja\"\n").unwrap();
    let steps = build_steps(&config, "t", false).unwrap();
    assert_eq!(
        steps[2],
        Step::Generate {
            program: "cmake".to_string(),
            args: strings(&["../..", "-c", "-a", "-b", "-a"]),
        }
    );
    assert_eq!(steps[3], Step::Build { program: "ninja".to_string() });
}

#[test]
fn scenario_undeclared_target_plans_nothing() {
    let config = scenario_config();
    assert_eq!(
        build_steps(&config, "release", false),
        Err(Error::UnknownTarget("release".to_string()))
    );
    assert_eq!(
        build_steps(&config, "release", true),
        Err(Error::UnknownTarget("release".to_string()))
    );
}

#[test]
fn two_builds_in_a_row_generate_once_and_build_twice() {
    let config = scenario_config();
    let first = build_steps(&config, "debug", false).unwrap();
    let created = first.contains(&Step::CreateDir { dir: target_dir(&config, "debug") });
    assert!(created);
    let second = build_steps(&config, "debug", created).unwrap();
    assert_eq!(count(&first, is_generate) + count(&second, is_generate), 1);
    assert_eq!(count(&first, is_build), 1);
    assert_eq!(count(&second, is_build), 1);
}

#[test]
fn builds_of_a_generated_tree_never_generate() {
    let config = scenario_config();
    let first = build_steps(&config, "debug", true).unwrap();
    let second = build_steps(&config, "debug", true).unwrap();
    assert_eq!(count(&first, is_generate) + count(&second, is_generate), 0);
    assert_eq!(count(&first, is_build), 1);
    assert_eq!(count(&second, is_build), 1);
}

#[test]
fn completed_steps_let_the_build_go_on() {
    let dir = Step::CreateDir { dir: strings(&["build", "debug"]) };
    assert_eq!(settle(&dir, &Outcome::Completed), Ok(()));
    let enter = Step::EnterDir { dir: strings(&["build", "debug"]) };
    assert_eq!(settle(&enter, &Outcome::Completed), Ok(()));
}

#[test]
fn a_step_that_could_not_be_done_is_an_io_failure() {
    let dir = Step::CreateDir { dir: strings(&["build", "debug"]) };
    assert_eq!(
        settle(&dir, &Outcome::Failed("permission denied".to_string())),
        Err(Error::Io("permission denied".to_string()))
    );
    let build = Step::Build { program: "make".to_string() };
    assert_eq!(
        settle(&build, &Outcome::Failed("no such file".to_string())),
        Err(Error::Io("no such file".to_string()))
    );
    let generate = Step::Generate { program: "cmake".to_string(), args: vec![] };
    assert_eq!(
        settle(&generate, &Outcome::Failed("no such file".to_string())),
        Err(Error::Io("no such file".to_string()))
    );
}

#[test]
fn a_generator_that_fails_ends_the_build() {
    let generate = Step::Generate { program: "cmake".to_string(), args: strings(&["../.."]) };
    assert_eq!(settle(&generate, &Outcome::Exited { success: true }), Ok(()));
    assert_eq!(
        settle(&generate, &Outcome::Exited { success: false }),
        Err(Error::Io("The generator did not succeed".to_string()))
    );
}

#[test]
fn how_the_build_command_ended_is_not_looked_at() {
    let build = Step::Build { program: "make".to_string() };
    assert_eq!(settle(&build, &Outcome::Exited { success: true }), Ok(()));
    assert_eq!(settle(&build, &Outcome::Exited { success: false }), Ok(()));
}

fn ended_well() -> Outcome {
    Outcome::Exited { success: true }
}

#[test]
fn a_build_without_failure_carries_out_every_step() {
    let steps = build_steps(&scenario_config(), "debug", false).unwrap();
    let outcomes = vec![Outcome::Completed, Outcome::Completed, ended_well(), ended_well()];
    assert_eq!(carry_out(&steps, &outcomes), Course { performed: 4, failure: None });
}

#[test]
fn a_build_ends_at_the_first_step_that_fails() {
    let steps = build_steps(&scenario_config(), "debug", false).unwrap();
    let outcomes = vec![
        Outcome::Completed,
        Outcome::Failed("cannot enter".to_string()),
        Outcome::Failed("later".to_string()),
        ended_well(),
    ];
    assert_eq!(
        carry_out(&steps, &outcomes),
        Course { performed: 2, failure: Some(Error::Io("cannot enter".to_string())) }
    );
    let outcomes = vec![Outcome::Failed("read-only".to_string())];
    assert_eq!(
        carry_out(&steps, &outcomes),
        Course { performed: 1, failure: Some(Error::Io("read-only".to_string())) }
    );
}

#[test]
fn a_failed_generator_keeps_the_build_command_from_running() {
    let steps = build_steps(&scenario_config(), "debug", false).unwrap();
    let outcomes = vec![
        Outcome::Completed,
        Outcome::Completed,
        Outcome::Exited { success: false },
        ended_well(),
    ];
    assert_eq!(
        carry_out(&steps, &outcomes),
        Course {
            performed: 3,
            failure: Some(Error::Io("The generator did not succeed".to_string())),
        }
    );
}

#[test]
fn a_failed_build_command_does_not_fail_the_build() {
    let steps = build_steps(&scenario_config(), "debug", true).unwrap();
    let outcomes = vec![Outcome::Completed, Outcome::Exited { success: false }];
    assert_eq!(carry_out(&steps, &outcomes), Course { performed: 2, failure: None });
}

#[test]
fn steps_without_an_outcome_are_not_carried_out() {
    let steps = build_steps(&scenario_config(), "debug", false).unwrap();
    assert_eq!(carry_out(&steps, &vec![]), Course { performed: 0, failure: None });
    assert_eq!(
        carry_out(&steps, &vec![Outcome::Completed, Outcome::Completed]),
        Course { performed: 2, failure: None }
    );
    assert_eq!(carry_out(&vec![], &vec![ended_well()]), Course { performed: 0, failure: None });
}
