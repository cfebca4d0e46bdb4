//! Repair of the broker set-up: which steps each detected problem calls for,
//! and the configuration files that the steps write.

use vstd::prelude::*;
use crate::system::domain::{ErrorType, Flag};

verus! {

/// One repair step; the caller runs the steps in order and stops at the
/// first that fails.
#[derive(Debug, Clone, Copy, PartialEq, Eq, Structural)]
pub enum ConfigStep {
    /// `systemctl enable --now mosquitto`.
    ActivateService,
    /// Write `mosquitto.conf` (see `mosquitto_conf_text`).
    CreateMosquittoConf,
    /// Write `mtls.conf` (see `mtls_conf_text`).
    CreateMtlsConf,
    /// `systemctl restart mosquitto`.
    RestartService,
}

/// The steps that repair an inactive service: activate it, write both
/// configuration files, restart.
pub fn mosquitto_service_inactive_flow() -> (steps: Vec<ConfigStep>)
    ensures
        steps@ == seq![
            ConfigStep::ActivateService,
            ConfigStep::CreateMosquittoConf,
            ConfigStep::CreateMtlsConf,
            ConfigStep::RestartService,
        ],
{
    let mut steps = Vec::new();
    steps.push(ConfigStep::ActivateService);
    steps.push(ConfigStep::CreateMosquittoConf);
    steps.push(ConfigStep::CreateMtlsConf);
    steps.push(ConfigStep::RestartService);
    steps
}

/// The steps that repair the main configuration: write both files, restart.
pub fn mosquitto_conf_flow() -> (steps: Vec<ConfigStep>)
    ensures
        steps@ == seq![ConfigStep::CreateMosquittoConf, ConfigStep::CreateMtlsConf, ConfigStep::RestartService],
{
    let mut steps = Vec::new();
    steps.push(ConfigStep::CreateMosquittoConf);
    steps.push(ConfigStep::CreateMtlsConf);
    steps.push(ConfigStep::RestartService);
    steps
}

/// The steps that repair the mTLS configuration: write it, restart.
pub fn mtls_conf_flow() -> (steps: Vec<ConfigStep>)
    ensures
        steps@ == seq![ConfigStep::CreateMtlsConf, ConfigStep::RestartService],
{
    let mut steps = Vec::new();
    steps.push(ConfigStep::CreateMtlsConf);
    steps.push(ConfigStep::RestartService);
    steps
}

/// The repair steps for a detected problem (none when nothing is flagged).
pub open spec fn repair_plan(f: Flag) -> Seq<ConfigStep> {
    match f {
        Flag::MosquittoServiceInactive => seq![
            ConfigStep::ActivateService,
            ConfigStep::CreateMosquittoConf,
            ConfigStep::CreateMtlsConf,
            ConfigStep::RestartService,
        ],
        Flag::MosquittoConf => seq![
            ConfigStep::CreateMosquittoConf,
            ConfigStep::CreateMtlsConf,
            ConfigStep::RestartService,
        ],
        Flag::MtlsConf => seq![ConfigStep::CreateMtlsConf, ConfigStep::RestartService],
        Flag::Null => seq![],
    }
}

/// The repair steps for a detected problem.
pub fn configurate_system(event: &Flag) -> (steps: Vec<ConfigStep>)
    ensures
        steps@ == repair_plan(*event),
{
    match event {
        Flag::MosquittoServiceInactive => mosquitto_service_inactive_flow(),
        Flag::MosquittoConf => mosquitto_conf_flow(),
        Flag::MtlsConf => mtls_conf_flow(),
        Flag::Null => Vec::new(),
    }
}

/// What the repair does after a step: run the next step, or finish with
/// the given outcome.
#[derive(Debug, PartialEq, Eq)]
pub enum RepairNext {
    Run(ConfigStep),
    Finished(Result<(), ErrorType>),
}

/// The rule of the repair: `done` steps of `plan` have run and `last` is the
/// outcome of the latest (`Ok` before the first). A failure ends the repair
/// with that error and no later step runs; otherwise the next step of the plan
/// runs, and once every step has succeeded the repair finishes with `Ok`.
pub open spec fn repair_next_rule(plan: Seq<ConfigStep>, done: int, last: Result<(), ErrorType>) -> RepairNext {
    match last {
        Err(e) => RepairNext::Finished(Err(e)),
        Ok(()) => if done < plan.len() {
            RepairNext::Run(plan[done])
        } else {
            RepairNext::Finished(Ok(()))
        },
    }
}

/// Where the repair ends when the steps that run have the given `outcomes`
/// (the outcome of step `i` of the plan at index `i`): how many steps ran,
/// and what the repair returned.
pub open spec fn repair_drive(
    plan: Seq<ConfigStep>,
    outcomes: Seq<Result<(), ErrorType>>,
    done: int,
    last: Result<(), ErrorType>,
) -> (int, Result<(), ErrorType>)
    decreases plan.len() - done,
{
    match repair_next_rule(plan, done, last) {
        RepairNext::Run(_) => if 0 <= done < outcomes.len() {
            repair_drive(plan, outcomes, done + 1, outcomes[done])
        } else {
            (done, Ok(()))
        },
        RepairNext::Finished(r) => (done, r),
    }
}

/// Decides what follows a repair step from its outcome.
pub fn next_repair_step(plan: &Vec<ConfigStep>, done: usize, last: Result<(), ErrorType>) -> (n: RepairNext)
    requires
        done <= plan.len(),
    ensures
        n == repair_next_rule(plan@, done as int, last),
{
    match last {
        Err(e) => RepairNext::Finished(Err(e)),
        Ok(()) => if done < plan.len() {
            RepairNext::Run(plan[done])
        } else {
            RepairNext::Finished(Ok(()))
        },
    }
}

/// Directory and path of the main broker configuration.
pub const MOSQUITTO_DIR: &'static str = "/etc/mosquitto";

pub const MOSQUITTO_CONF_PATH: &'static str = "/etc/mosquitto/mosquitto.conf";

/// Directory and path of the mTLS configuration.
pub const MTLS_DIR: &'static str = "/etc/mosquitto/conf.d";

pub const MTLS_CONF_PATH: &'static str = "/etc/mosquitto/conf.d/mtls.conf";

/// Permission bits of the written configuration files.
pub const CONF_FILE_MODE: u32 = 0o644;

/// The main broker configuration: persistence, logging, and the mTLS directory.
pub fn mosquitto_conf_text() -> (s: &'static str)
    ensures
        s@ == "# Configuracion basica de mosquitto\n\n# Guarda informacion critica en disco\npersistence true\n\n# En el siguiente path se encuentra la base de datos con la informacion de persistencia\npersistence_location /var/lib/mosquitto/\n\n# Define donde van los mensajes de diagnostico y errores\nlog_dest file /var/log/mosquitto/mosquitto.log\n\n# La configuracion de mtls se encuentra en /etc/mosquitto/conf.d/\ninclude_dir /etc/mosquitto/conf.d\n"@,
{
    "# Configuracion basica de mosquitto\n\n# Guarda informacion critica en disco\npersistence true\n\n# En el siguiente path se encuentra la base de datos con la informacion de persistencia\npersistence_location /var/lib/mosquitto/\n\n# Define donde van los mensajes de diagnostico y errores\nlog_dest file /var/log/mosquitto/mosquitto.log\n\n# La configuracion de mtls se encuentra en /etc/mosquitto/conf.d/\ninclude_dir /etc/mosquitto/conf.d\n"
}

/// The mTLS configuration: TLS 1.2 on port 8883, the files of the broker and
/// of the local and remote edge, and every security flag set.
pub fn mtls_conf_text() -> (s: &'static str)
    ensures
        s@ == "# Configuracion para IoT Edge Gateway\nlistener 8883\ntls_version tlsv1.2\ncafile_broker /etc/mosquitto/certs_broker/ca_local.crt\ncertfile_broker /etc/mosquitto/certs_broker/mosquitto.crt\nkeyfile_broker /etc/mosquitto/certs_broker/mosquitto.key\ncafile_edge_local /etc/mosquitto/certs_edge_local/ca_edge_local.crt\ncertfile_edge_local /etc/mosquitto/certs_edge_local/edge_local.crt\nkeyfile_edge_local /etc/mosquitto/certs_edge_local/edge_local.key\ncafile_edge_remote /etc/mosquitto/certs_edge_remote/ca_edge_remote.crt\ncertfile_edge_remote /etc/mosquitto/certs_edge_remote/edge_remote.crt\nkeyfile_edge_remote /etc/mosquitto/certs_edge_remote/edge_remote.key\nrequire_certificate true\nuse_identity_as_username true\nallow_anonymous false\nconnection_messages true\n"@,
{
    "# Configuracion para IoT Edge Gateway\nlistener 8883\ntls_version tlsv1.2\ncafile_broker /etc/mosquitto/certs_broker/ca_local.crt\ncertfile_broker /etc/mosquitto/certs_broker/mosquitto.crt\nkeyfile_broker /etc/mosquitto/certs_broker/mosquitto.key\ncafile_edge_local /etc/mosquitto/certs_edge_local/ca_edge_local.crt\ncertfile_edge_local /etc/mosquitto/certs_edge_local/edge_local.crt\nkeyfile_edge_local /etc/mosquitto/certs_edge_local/edge_local.key\ncafile_edge_remote /etc/mosquitto/certs_edge_remote/ca_edge_remote.crt\ncertfile_edge_remote /etc/mosquitto/certs_edge_remote/edge_remote.crt\nkeyfile_edge_remote /etc/mosquitto/certs_edge_remote/edge_remote.key\nrequire_certificate true\nuse_identity_as_username true\nallow_anonymous false\nconnection_messages true\n"
}

} // verus!
