//! The start-up sequence: check the broker set-up, repair what the check
//! flags, then initialise the system.

use vstd::prelude::*;
use crate::system::domain::{ErrorType, Flag, StateInit};

verus! {

/// What the start-up sequence does after a check.
#[derive(Debug, PartialEq, Eq)]
pub enum InitNext {
    /// Go on in the given stage, with the problem to repair.
    Goto(StateInit, Flag),
    /// Leave the process with the given status.
    Exit(i32),
    /// End the start-up with this error.
    Fail(ErrorType),
}

/// The rule after the check: success leads to initialisation; a missing
/// broker ends the process with status 1; an inactive service, a bad main
/// configuration or a bad mTLS configuration lead to the matching repair;
/// any other error ends the start-up with that error.
pub open spec fn after_check_rule(r: Result<(), ErrorType>, flag: Flag) -> InitNext {
    match r {
        Ok(()) => InitNext::Goto(StateInit::InitSystem, flag),
        Err(ErrorType::MosquittoNotInstalled) => InitNext::Exit(1),
        Err(ErrorType::MosquittoServiceInactive) => InitNext::Goto(
            StateInit::ConfigSystem,
            Flag::MosquittoServiceInactive,
        ),
        Err(ErrorType::MosquittoConf(_)) => InitNext::Goto(StateInit::ConfigSystem, Flag::MosquittoConf),
        Err(ErrorType::MtlsConfig(_)) => InitNext::Goto(StateInit::ConfigSystem, Flag::MtlsConf),
        Err(e) => InitNext::Fail(e),
    }
}

/// Decides the next stage from the outcome of the check.
pub fn after_check(r: Result<(), ErrorType>, flag: Flag) -> (n: InitNext)
    ensures
        n == after_check_rule(r, flag),
{
    match r {
        Ok(()) => InitNext::Goto(StateInit::InitSystem, flag),
        Err(ErrorType::MosquittoNotInstalled) => InitNext::Exit(1),
        Err(ErrorType::MosquittoServiceInactive) => InitNext::Goto(
            StateInit::ConfigSystem,
            Flag::MosquittoServiceInactive,
        ),
        Err(ErrorType::MosquittoConf(_)) => InitNext::Goto(StateInit::ConfigSystem, Flag::MosquittoConf),
        Err(ErrorType::MtlsConfig(_)) => InitNext::Goto(StateInit::ConfigSystem, Flag::MtlsConf),
        Err(e) => InitNext::Fail(e),
    }
}

/// Decides the next stage from the outcome of the repair: on success the
/// system is initialised, on failure the start-up ends with that error.
pub fn after_config(r: Result<(), ErrorType>) -> (n: Result<StateInit, ErrorType>)
    ensures
        match r {
            Ok(()) => n == Ok::<StateInit, ErrorType>(StateInit::InitSystem),
            Err(e) => n == Err::<StateInit, ErrorType>(e),
        },
{
    match r {
        Ok(()) => Ok(StateInit::InitSystem),
        Err(e) => Err(e),
    }
}

} // verus!
