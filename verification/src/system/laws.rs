//! Properties of the start-up checks, the repair plans and the start-up sequence.

use vstd::prelude::*;
use crate::system::check::{
    certificate_files_ok, mosquitto_conf_ok, mtls_conf_ok, mtls_conf_passes, mtls_scan, mtls_start, lines_view,
    opt_lines_view, reports_active, secure_flags, system_check_ok, SystemProbe,
};
use crate::system::configurate::{repair_drive, repair_plan, ConfigStep};
use crate::system::domain::{CertFiles, ErrorType, Flag, MtlsConfig, MtlsConfigView, StateInit};
use crate::system::fsm::{after_check_rule, InitNext};

verus! {

/// A configuration that validates has a listener, TLS 1.2, certificate sets
/// that pass their checks and every security flag set; it is the scanned
/// configuration itself. So checking the certificate files again after a
/// successful validation cannot fail.
pub proof fn law_valid_mtls_is_secure(
    c: MtlsConfigView,
    broker: CertFiles,
    edge_local: CertFiles,
    edge_remote: CertFiles,
    cfg: MtlsConfig,
)
    requires
        mtls_conf_ok(c, broker, edge_local, edge_remote, Ok(cfg)),
    ensures
        cfg@ == c,
        c.listener is Some,
        c.tls_version == Some("tlsv1.2"@),
        certificate_files_ok(c, broker, edge_local, edge_remote, Ok(())),
        secure_flags(c),
{
}

/// The start-up check passes only when every check passes: the broker is
/// installed, its service reports `active`, it listens, `mosquitto.conf`
/// includes the mTLS directory and the mTLS configuration validates.
pub proof fn law_check_passes_only_if_all_pass(p: SystemProbe)
    requires
        system_check_ok(p, Ok(())),
    ensures
        p.mosquitto_found,
        p.service_stdout matches Some(s) && reports_active(s@),
        p.listening,
        mosquitto_conf_ok(p.conf_size, opt_lines_view(p.conf_lines), Ok(())),
        p.mtls_lines matches Some(l) && mtls_conf_passes(
            mtls_scan(mtls_start(), lines_view(l@)),
            p.broker,
            p.edge_local,
            p.edge_remote,
        ),
{
}

/// Every repair rewrites the mTLS configuration and ends by restarting the
/// broker; only an inactive service is (re)activated.
pub proof fn law_repairs_end_with_restart(f: Flag)
    requires
        f != Flag::Null,
    ensures
        repair_plan(f).len() >= 2,
        repair_plan(f).last() == ConfigStep::RestartService,
        repair_plan(f).contains(ConfigStep::CreateMtlsConf),
        repair_plan(f).contains(ConfigStep::ActivateService) <==> f == Flag::MosquittoServiceInactive,
{
    match f {
        Flag::MosquittoServiceInactive => {
            assert(repair_plan(f)[2] == ConfigStep::CreateMtlsConf);
            assert(repair_plan(f)[0] == ConfigStep::ActivateService);
        },
        Flag::MosquittoConf => {
            assert(repair_plan(f)[1] == ConfigStep::CreateMtlsConf);
        },
        Flag::MtlsConf => {
            assert(repair_plan(f)[0] == ConfigStep::CreateMtlsConf);
        },
        Flag::Null => {},
    }
}

/// A failed check never leads straight to initialisation, and the flag it
/// sets names the problem that was found.
pub proof fn law_failed_check_never_initialises(e: ErrorType, flag: Flag)
    ensures
        !(after_check_rule(Err(e), flag) matches InitNext::Goto(StateInit::InitSystem, _)),
        after_check_rule(Err(e), flag) matches InitNext::Goto(StateInit::ConfigSystem, f) ==> f != Flag::Null,
{
}

/// The check never leads back to itself: after any outcome the start-up goes
/// on to a repair or to initialisation, or ends, so the sequence terminates.
pub proof fn law_check_never_repeats(r: Result<(), ErrorType>, flag: Flag)
    ensures
        !(after_check_rule(r, flag) matches InitNext::Goto(StateInit::CheckSystem, _)),
        r is Err && !(after_check_rule(r, flag) is Goto) ==> (after_check_rule(r, flag) is Exit
            || after_check_rule(r, flag) == InitNext::Fail(r->Err_0)),
{
}

/// The repair runs the steps of its plan in order and stops at the first that
/// fails: it returns `Ok` exactly when every step succeeds, and otherwise the
/// error of the first failing step, after which no step runs.
pub proof fn law_repair_stops_at_first_failure(plan: Seq<ConfigStep>, outcomes: Seq<Result<(), ErrorType>>)
    requires
        outcomes.len() == plan.len(),
    ensures
        repair_drive(plan, outcomes, 0, Ok(())).1 is Ok <==> forall|i: int|
            0 <= i < plan.len() ==> (#[trigger] outcomes[i]) is Ok,
        repair_drive(plan, outcomes, 0, Ok(())).1 is Ok ==> repair_drive(plan, outcomes, 0, Ok(())).0 == plan.len(),
        repair_drive(plan, outcomes, 0, Ok(())).1 matches Err(e) ==> {
            let k = repair_drive(plan, outcomes, 0, Ok(())).0 - 1;
            &&& 0 <= k < plan.len()
            &&& outcomes[k] == Err::<(), ErrorType>(e)
            &&& forall|j: int| 0 <= j < k ==> (#[trigger] outcomes[j]) is Ok
        },
{
    lemma_repair_drive(plan, outcomes, 0);
}

proof fn lemma_repair_drive(plan: Seq<ConfigStep>, outcomes: Seq<Result<(), ErrorType>>, done: int)
    requires
        outcomes.len() == plan.len(),
        0 <= done <= plan.len(),
    ensures
        repair_drive(plan, outcomes, done, Ok(())).1 is Ok <==> forall|i: int|
            done <= i < plan.len() ==> (#[trigger] outcomes[i]) is Ok,
        repair_drive(plan, outcomes, done, Ok(())).1 is Ok ==> repair_drive(plan, outcomes, done, Ok(())).0
            == plan.len(),
        repair_drive(plan, outcomes, done, Ok(())).1 matches Err(e) ==> {
            let k = repair_drive(plan, outcomes, done, Ok(())).0 - 1;
            &&& done <= k < plan.len()
            &&& outcomes[k] == Err::<(), ErrorType>(e)
            &&& forall|j: int| done <= j < k ==> (#[trigger] outcomes[j]) is Ok
        },
    decreases plan.len() - done,
{
    if done < plan.len() {
        let o = outcomes[done];
        assert(repair_drive(plan, outcomes, done, Ok(())) == repair_drive(plan, outcomes, done + 1, o));
        if o is Ok {
            lemma_repair_drive(plan, outcomes, done + 1);
        } else {
            assert(repair_drive(plan, outcomes, done + 1, o) == (done + 1, o));
        }
    }
}

/// What each outcome of the start-up check leads to: success to
/// initialisation (the flag kept), a missing broker to leaving with status 1,
/// each repairable problem to the repair that fixes it, and any other error to
/// the end of the start-up with that error.
pub proof fn law_check_outcomes(r: Result<(), ErrorType>, flag: Flag)
    ensures
        r is Ok ==> after_check_rule(r, flag) == InitNext::Goto(StateInit::InitSystem, flag),
        r == Err::<(), ErrorType>(ErrorType::MosquittoNotInstalled) ==> after_check_rule(r, flag) == InitNext::Exit(1),
        r == Err::<(), ErrorType>(ErrorType::MosquittoServiceInactive) ==> after_check_rule(r, flag) == InitNext::Goto(
            StateInit::ConfigSystem,
            Flag::MosquittoServiceInactive,
        ),
        r matches Err(ErrorType::MosquittoConf(_)) ==> after_check_rule(r, flag) == InitNext::Goto(
            StateInit::ConfigSystem,
            Flag::MosquittoConf,
        ),
        r matches Err(ErrorType::MtlsConfig(_)) ==> after_check_rule(r, flag) == InitNext::Goto(
            StateInit::ConfigSystem,
            Flag::MtlsConf,
        ),
        r matches Err(e) ==> (!(e is MosquittoNotInstalled || e is MosquittoServiceInactive || e is MosquittoConf
            || e is MtlsConfig) ==> after_check_rule(r, flag) == InitNext::Fail(e)),
{
}

} // verus!
