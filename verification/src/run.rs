//! Running a binary out of a target's build directory.
//!
//! The binary is handed over to in one of two ways: the launcher's own
//! process image is replaced by it, or it is spawned as a child whose end
//! the launcher waits for and whose failure is the launcher's own. Either
//! way it runs in the directory the launcher was invoked from and receives
//! the trailing arguments.

use crate::cli::RunRequest;
use crate::config::{Config, ConfigModel};
use crate::error::{Error, Failure};
use crate::plan::{target_dir, target_dir_of, Outcome};
use crate::resolve::resolve_binary;
use crate::text::{copy_all, views};
use vstd::prelude::*;

verus! {

/// How control is handed to the binary.
#[derive(Debug, Clone, Copy, PartialEq, Eq)]
pub enum Policy {
    /// The binary takes the place of the launcher's process image.
    Replace,
    /// The binary runs as a child and the launcher waits for its end.
    Spawn,
}

/// A binary to run. The directory it runs in is kept as the caller holds
/// it, in whatever form `D` a path has there: it is passed through and
/// never looked into.
#[derive(Debug, PartialEq, Eq)]
pub struct Launch<D> {
    /// The binary's path by its components, relative to the directory of the
    /// marker file.
    pub binary: Vec<String>,
    /// The arguments the binary receives, in order.
    pub args: Vec<String>,
    /// The directory the binary runs in.
    pub working_dir: D,
}

/// The mathematical content of a [`Launch`].
pub ghost struct LaunchModel<D> {
    pub binary: Seq<Seq<char>>,
    pub args: Seq<Seq<char>>,
    pub working_dir: D,
}

impl<D> View for Launch<D> {
    type V = LaunchModel<D>;

    open spec fn view(&self) -> LaunchModel<D> {
        LaunchModel {
            binary: views(self.binary@),
            args: views(self.args@),
            working_dir: self.working_dir,
        }
    }
}

/// The run of the binary `bin_name` of the target `target_name`: the binary
/// lies in the target's build directory, receives `trailing` and runs in
/// `invocation_dir`.
pub open spec fn launch_of<D>(
    config: ConfigModel,
    target_name: Seq<char>,
    bin_name: Seq<char>,
    trailing: Seq<Seq<char>>,
    invocation_dir: D,
) -> LaunchModel<D> {
    LaunchModel {
        binary: target_dir_of(config, target_name).push(bin_name),
        args: trailing,
        working_dir: invocation_dir,
    }
}

/// Describes the run of the binary `bin_name` of the target `target_name`:
/// the binary lies in the target's build directory, receives `trailing` and
/// runs in `invocation_dir`.
pub fn launch<D>(
    config: &Config,
    target_name: &str,
    bin_name: &str,
    trailing: &Vec<String>,
    invocation_dir: D,
) -> (launch: Launch<D>)
    ensures
        launch@ == launch_of(config@, target_name@, bin_name@, views(trailing@), invocation_dir),
{
    let mut binary = target_dir(config, target_name);
    binary.push(bin_name.to_owned());
    proof {
        assert(views(binary@) =~= target_dir_of(config@, target_name@).push(bin_name@));
    }
    Launch { binary, args: copy_all(trailing), working_dir: invocation_dir }
}

/// Describes the run that a command line asks for once the target
/// `target_name` has been built: of the binary it names, else of the
/// configured default binary. Where neither names a binary the run is an
/// [`Error::NoBinarySpecified`].
pub fn launch_for<D>(
    config: &Config,
    target_name: &str,
    run: &RunRequest,
    invocation_dir: D,
) -> (planned: Result<Launch<D>, Error>)
    ensures
        match run@.binary {
            Some(name) => planned matches Ok(launch) && launch@ == launch_of(
                config@,
                target_name@,
                name,
                run@.args,
                invocation_dir,
            ),
            None => if config@.default_bin.len() == 0 {
                planned matches Err(error) && error@ == Failure::NoBinarySpecified
            } else {
                planned matches Ok(launch) && launch@ == launch_of(
                    config@,
                    target_name@,
                    config@.default_bin,
                    run@.args,
                    invocation_dir,
                )
            },
        },
{
    let requested: Option<&str> = match &run.binary {
        Some(name) => Some(name.as_str()),
        None => None,
    };
    match resolve_binary(config, requested) {
        Ok(name) => Ok(launch(config, target_name, name.as_str(), &run.args, invocation_dir)),
        Err(error) => Err(error),
    }
}

/// Decides whether the binary may be handed to: before a process image is
/// replaced the binary has to exist, and a missing one is an
/// [`Error::BinaryNotFound`] with its path; a child is spawned unseen.
pub fn check_binary<D>(policy: Policy, launch: &Launch<D>, binary_exists: bool) -> (checked: Result<
    (),
    Error,
>)
    ensures
        match checked {
            Ok(_) => !(policy is Replace) || binary_exists,
            Err(error) => policy is Replace && !binary_exists && error@ == Failure::BinaryNotFound(
                launch@.binary,
            ),
        },
{
    match policy {
        Policy::Replace => if binary_exists {
            Ok(())
        } else {
            Err(Error::BinaryNotFound(copy_all(&launch.binary)))
        },
        Policy::Spawn => Ok(()),
    }
}

/// What is reported when a spawned binary ends unsuccessfully.
pub open spec fn binary_failure() -> Seq<char> {
    "The binary did not succeed"@
}

/// The failure that the end of a hand-over amounts to, if any. A replaced
/// process image never reports back, so any report under that policy means
/// that the replacement did not take effect. A child's failure is passed
/// on: one that could not be started is a failure with its reason, and so
/// is one that ran and ended unsuccessfully.
pub open spec fn conclusion(policy: Policy, outcome: Outcome) -> Option<Failure> {
    match policy {
        Policy::Replace => Some(Failure::ExternalProcessFailure),
        Policy::Spawn => match outcome {
            Outcome::Completed => None,
            Outcome::Exited { success } => if success {
                None
            } else {
                Some(Failure::Io(binary_failure()))
            },
            Outcome::Failed(reason) => Some(Failure::Io(reason@)),
        },
    }
}

/// Judges how the hand-over to the binary ended.
pub fn conclude(policy: Policy, outcome: &Outcome) -> (concluded: Result<(), Error>)
    ensures
        match conclusion(policy, *outcome) {
            None => concluded is Ok,
            Some(failure) => concluded matches Err(error) && error@ == failure,
        },
{
    match policy {
        Policy::Replace => Err(Error::ExternalProcessFailure),
        Policy::Spawn => match outcome {
            Outcome::Completed => Ok(()),
            Outcome::Exited { success } => if *success {
                Ok(())
            } else {
                Err(Error::Io("The binary did not succeed".to_owned()))
            },
            Outcome::Failed(reason) => Err(Error::Io(reason.clone())),
        },
    }
}

} // verus!
