//! The build of one target, as a list of steps for the caller to perform.
//!
//! A target is built in a directory of its own, `<build-path>/<target>`.
//! The generator runs only when that directory does not exist yet; the
//! target's build command runs on every build.

use crate::config::{Config, ConfigModel, TargetModel};
use crate::error::{Error, Failure};
use crate::text::{copy_all, views};
use vstd::prelude::*;

verus! {

/// One thing for the caller to do. Directories are given by their
/// components, relative to the directory of the marker file.
#[derive(Debug, PartialEq, Eq)]
pub enum Step {
    /// Create the directory, with any parent that is missing.
    CreateDir { dir: Vec<String> },
    /// Make the directory the working directory of what follows.
    EnterDir { dir: Vec<String> },
    /// Run the generator with these arguments; it has to succeed.
    Generate { program: String, args: Vec<String> },
    /// Run the build command without arguments.
    Build { program: String },
}

/// The mathematical content of a [`Step`].
pub ghost enum StepModel {
    CreateDir { dir: Seq<Seq<char>> },
    EnterDir { dir: Seq<Seq<char>> },
    Generate { program: Seq<char>, args: Seq<Seq<char>> },
    Build { program: Seq<char> },
}

impl View for Step {
    type V = StepModel;

    open spec fn view(&self) -> StepModel {
        match self {
            Step::CreateDir { dir } => StepModel::CreateDir { dir: views(dir@) },
            Step::EnterDir { dir } => StepModel::EnterDir { dir: views(dir@) },
            Step::Generate { program, args } => StepModel::Generate {
                program: program@,
                args: views(args@),
            },
            Step::Build { program } => StepModel::Build { program: program@ },
        }
    }
}

/// The steps of a list, each as its content.
pub open spec fn step_models(steps: Seq<Step>) -> Seq<StepModel> {
    Seq::new(steps.len(), |i: int| steps[i]@)
}

/// The program that generates the build files.
pub open spec fn generator() -> Seq<char> {
    "cmake"@
}

/// How the generator is pointed at the project root from inside a target's
/// build directory: two levels up.
pub open spec fn root_pointer() -> Seq<char> {
    "../.."@
}

/// The build directory of the target `name`.
pub open spec fn target_dir_of(config: ConfigModel, name: Seq<char>) -> Seq<Seq<char>> {
    seq![config.build_path, name]
}

/// What the generator is called with: the root pointer, then the target's
/// own arguments in their order.
pub open spec fn generator_args(target: TargetModel) -> Seq<Seq<char>> {
    seq![root_pointer()] + target.args
}

/// The steps that build `target` under `name`, given whether its build
/// directory exists already.
pub open spec fn steps_of(
    config: ConfigModel,
    name: Seq<char>,
    target: TargetModel,
    already_generated: bool,
) -> Seq<StepModel> {
    let dir = target_dir_of(config, name);
    if already_generated {
        seq![StepModel::EnterDir { dir }, StepModel::Build { program: target.build_command }]
    } else {
        seq![
            StepModel::CreateDir { dir },
            StepModel::EnterDir { dir },
            StepModel::Generate { program: generator(), args: generator_args(target) },
            StepModel::Build { program: target.build_command },
        ]
    }
}

/// The build directory of the target `name`, by its components.
pub fn target_dir(config: &Config, name: &str) -> (dir: Vec<String>)
    ensures
        views(dir@) == target_dir_of(config@, name@),
{
    let mut dir: Vec<String> = Vec::new();
    dir.push(config.build_path.clone());
    dir.push(name.to_owned());
    proof {
        assert(views(dir@) =~= target_dir_of(config@, name@));
    }
    dir
}

/// Plans the build of the target `name`.
///
/// An undeclared name is an [`Error::UnknownTarget`] and plans nothing.
/// Otherwise the plan is [`steps_of`] the target, where `already_generated`
/// says whether the target's build directory exists.
pub fn build_steps(config: &Config, name: &str, already_generated: bool) -> (planned: Result<
    Vec<Step>,
    Error,
>)
    ensures
        match planned {
            Ok(steps) => config@.targets.dom().contains(name@) && step_models(steps@) == steps_of(
                config@,
                name@,
                config@.targets[name@],
                already_generated,
            ),
            Err(error) => !config@.targets.dom().contains(name@) && error@
                == Failure::UnknownTarget(name@),
        },
{
    let target = match config.targets.get(name) {
        Some(target) => target,
        None => {
            return Err(Error::UnknownTarget(name.to_owned()));
        },
    };
    let mut steps: Vec<Step> = Vec::new();
    if !already_generated {
        steps.push(Step::CreateDir { dir: target_dir(config, name) });
    }
    steps.push(Step::EnterDir { dir: target_dir(config, name) });
    if !already_generated {
        let mut args: Vec<String> = Vec::new();
        args.push("../..".to_owned());
        let mut own = copy_all(&target.args);
        args.append(&mut own);
        proof {
            assert(views(args@) =~= generator_args(target@));
        }
        steps.push(Step::Generate { program: "cmake".to_owned(), args });
    }
    steps.push(Step::Build { program: target.build_command.clone() });
    proof {
        assert(step_models(steps@) =~= steps_of(
            config@,
            name@,
            config@.targets[name@],
            already_generated,
        ));
    }
    Ok(steps)
}

/// How performing a step ended.
#[derive(Debug, PartialEq, Eq)]
pub enum Outcome {
    /// A directory step was carried out.
    Completed,
    /// A process ran to its end, successfully or not.
    Exited { success: bool },
    /// The step could not be carried out: the directory could not be
    /// created or entered, or the process could not be started.
    Failed(String),
}

/// What is reported when the generator ends unsuccessfully.
pub open spec fn generator_failure() -> Seq<char> {
    "The generator did not succeed"@
}

/// The failure that an outcome of a step amounts to, if any: a step that
/// could not be carried out, or a generator that ended unsuccessfully. How a
/// build command ended is not looked at.
pub open spec fn failure_of(step: StepModel, outcome: Outcome) -> Option<Failure> {
    match outcome {
        Outcome::Completed => None,
        Outcome::Exited { success } => if step is Generate && !success {
            Some(Failure::Io(generator_failure()))
        } else {
            None
        },
        Outcome::Failed(reason) => Some(Failure::Io(reason@)),
    }
}

/// Judges how a step ended: `Ok` lets the build go on, an error ends it.
pub fn settle(step: &Step, outcome: &Outcome) -> (settled: Result<(), Error>)
    ensures
        match failure_of(step@, *outcome) {
            None => settled is Ok,
            Some(failure) => settled matches Err(error) && error@ == failure,
        },
{
    match outcome {
        Outcome::Completed => Ok(()),
        Outcome::Exited { success } => match step {
            Step::Generate { .. } => if *success {
                Ok(())
            } else {
                Err(Error::Io("The generator did not succeed".to_owned()))
            },
            _ => Ok(()),
        },
        Outcome::Failed(reason) => Err(Error::Io(reason.clone())),
    }
}

/// How far a build got and how it ended.
#[derive(Debug, PartialEq, Eq)]
pub struct Course {
    /// How many steps were carried out, a failing one included.
    pub performed: usize,
    /// The failure that ended the build, if one did.
    pub failure: Option<Error>,
}

/// Goes through a plan. `outcomes` says for each step, in the plan's order,
/// how it ends when it is carried out. A step is carried out only after all
/// steps before it have ended without failure, so the first step that fails
/// is the last one carried out, and its failure is that of the build. A step
/// for which no outcome is given is not carried out, nor is any after it.
pub fn carry_out(steps: &Vec<Step>, outcomes: &Vec<Outcome>) -> (course: Course)
    ensures
        course.performed <= steps@.len(),
        course.performed <= outcomes@.len(),
        match course.failure {
            Some(error) => course.performed > 0 && failure_of(
                steps@[course.performed - 1]@,
                outcomes@[course.performed - 1],
            ) == Some(error@) && forall|j: int|
                0 <= j < course.performed - 1 ==> failure_of(
                    (#[trigger] steps@[j])@,
                    outcomes@[j],
                ) is None,
            None => (course.performed == steps@.len() || course.performed == outcomes@.len())
                && forall|j: int|
                0 <= j < course.performed ==> failure_of((#[trigger] steps@[j])@, outcomes@[j])
                    is None,
        },
{
    let mut at: usize = 0;
    while at < steps.len() && at < outcomes.len()
        invariant
            at <= steps@.len(),
            at <= outcomes@.len(),
            forall|j: int|
                0 <= j < at ==> failure_of((#[trigger] steps@[j])@, outcomes@[j]) is None,
        decreases steps@.len() - at,
    {
        match settle(&steps[at], &outcomes[at]) {
            Ok(_) => {
                at += 1;
            },
            Err(error) => {
                return Course { performed: at + 1, failure: Some(error) };
            },
        }
    }
    Course { performed: at, failure: None }
}

/// How many of the steps run the generator.
pub open spec fn generations(steps: Seq<StepModel>) -> nat
    decreases steps.len(),
{
    if steps.len() == 0 {
        0
    } else {
        generations(steps.drop_last()) + if steps.last() is Generate {
            1nat
        } else {
            0nat
        }
    }
}

/// How many of the steps run a build command.
pub open spec fn builds(steps: Seq<StepModel>) -> nat
    decreases steps.len(),
{
    if steps.len() == 0 {
        0
    } else {
        builds(steps.drop_last()) + if steps.last() is Build {
            1nat
        } else {
            0nat
        }
    }
}

/// Whether `dir` exists once all of `steps` have been carried out.
pub open spec fn exists_after(existed: bool, steps: Seq<StepModel>, dir: Seq<Seq<char>>) -> bool {
    existed || steps.contains(StepModel::CreateDir { dir })
}

/// Every plan runs the build command exactly once, and the generator once
/// where the build directory is missing and not at all where it exists.
pub proof fn lemma_plan_counts(
    config: ConfigModel,
    name: Seq<char>,
    target: TargetModel,
    already_generated: bool,
)
    ensures
        builds(steps_of(config, name, target, already_generated)) == 1,
        generations(steps_of(config, name, target, already_generated)) == if already_generated {
            0nat
        } else {
            1nat
        },
{
    let steps = steps_of(config, name, target, already_generated);
    if already_generated {
        let one = steps.drop_last();
        assert(one.drop_last().len() == 0);
        assert(builds(one.drop_last()) == 0 && generations(one.drop_last()) == 0);
        assert(builds(one) == 0 && generations(one) == 0);
    } else {
        let three = steps.drop_last();
        let two = three.drop_last();
        let one = two.drop_last();
        assert(one.drop_last().len() == 0);
        assert(builds(one.drop_last()) == 0 && generations(one.drop_last()) == 0);
        assert(builds(one) == 0 && generations(one) == 0);
        assert(builds(two) == 0 && generations(two) == 0);
        assert(builds(three) == 0 && generations(three) == 1);
    }
}

/// Two builds of one target in a row, the first of them carried out to its
/// end: the build directory exists after the first, so the generator runs at
/// most once over both, while the build command runs in each.
pub proof fn lemma_generate_once_build_always(
    config: ConfigModel,
    name: Seq<char>,
    target: TargetModel,
    existed: bool,
)
    ensures
        ({
            let dir = target_dir_of(config, name);
            let first = steps_of(config, name, target, existed);
            let second = steps_of(config, name, target, exists_after(existed, first, dir));
            &&& exists_after(existed, first, dir)
            &&& generations(first) + generations(second) <= 1
            &&& generations(second) == 0
            &&& builds(first) == 1
            &&& builds(second) == 1
        }),
{
    let dir = target_dir_of(config, name);
    let first = steps_of(config, name, target, existed);
    if !existed {
        assert(first[0] == StepModel::CreateDir { dir });
    }
    lemma_plan_counts(config, name, target, existed);
    lemma_plan_counts(config, name, target, true);
}

} // verus!
