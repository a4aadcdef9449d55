//! Choosing the target and the binary of an invocation.

use crate::config::{Config, Target};
use crate::error::{Error, Failure};
use vstd::prelude::*;

verus! {

/// The characters of a name that may have been left out.
spec fn name_of(requested: Option<&str>) -> Option<Seq<char>> {
    match requested {
        Some(name) => Some(name@),
        None => None,
    }
}

/// The name an invocation goes by: the requested one, else the configured
/// default unless that is empty.
spec fn choice(requested: Option<Seq<char>>, default: Seq<char>) -> Option<Seq<char>> {
    match requested {
        Some(name) => Some(name),
        None => if default.len() > 0 {
            Some(default)
        } else {
            None
        },
    }
}

/// Picks the requested name, else the default unless that is empty.
fn choose_name(requested: Option<&str>, default: &String) -> (chosen: Option<String>)
    ensures
        match chosen {
            Some(name) => choice(name_of(requested), default@) == Some(name@),
            None => choice(name_of(requested), default@) is None,
        },
{
    match requested {
        Some(name) => Some(name.to_owned()),
        None => if default.as_str().is_empty() {
            None
        } else {
            Some(default.clone())
        },
    }
}

/// Resolves the target of an invocation.
///
/// A requested name is looked up as it is; without one the configured
/// default target is looked up, unless it is empty. The result is the
/// declared target together with the name it was found under.
pub fn resolve<'a>(config: &'a Config, requested: Option<&str>) -> (resolved: Result<
    (&'a Target, String),
    Error,
>)
    ensures
        match requested {
            Some(name) => if config@.targets.dom().contains(name@) {
                resolved matches Ok((target, found)) && found@ == name@ && target@
                    == config@.targets[name@]
            } else {
                resolved matches Err(error) && error@ == Failure::UnknownTarget(name@)
            },
            None => if config@.default_target.len() == 0 {
                resolved matches Err(error) && error@ == Failure::NoTargetSpecified
            } else if config@.targets.dom().contains(config@.default_target) {
                resolved matches Ok((target, found)) && found@ == config@.default_target
                    && target@ == config@.targets[config@.default_target]
            } else {
                resolved matches Err(error) && error@ == Failure::UnknownTarget(
                    config@.default_target,
                )
            },
        },
{
    match choose_name(requested, &config.default_target) {
        None => Err(Error::NoTargetSpecified),
        Some(name) => match config.targets.get(name.as_str()) {
            Some(target) => Ok((target, name)),
            None => Err(Error::UnknownTarget(name)),
        },
    }
}

/// Resolves the binary of a run: the requested one, else the configured
/// default binary, and [`Error::NoBinarySpecified`] where that is empty.
pub fn resolve_binary(config: &Config, requested: Option<&str>) -> (resolved: Result<String, Error>)
    ensures
        match requested {
            Some(name) => resolved matches Ok(found) && found@ == name@,
            None => if config@.default_bin.len() == 0 {
                resolved matches Err(error) && error@ == Failure::NoBinarySpecified
            } else {
                resolved matches Ok(found) && found@ == config@.default_bin
            },
        },
{
    match choose_name(requested, &config.default_bin) {
        Some(name) => Ok(name),
        None => Err(Error::NoBinarySpecified),
    }
}

} // verus!
