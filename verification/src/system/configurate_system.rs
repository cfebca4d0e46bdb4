//! Repair of a single-party broker set-up: the same steps as the main
//! repair, writing the single-party configuration; a step that fails is
//! reported and the following steps still run.

use vstd::prelude::*;
use crate::system::configurate::{configurate_system as repair_steps, repair_plan, ConfigStep, RepairNext};
use crate::system::domain::Flag;

verus! {

/// The repair steps for a detected problem; every step runs, whatever the
/// outcome of the previous ones.
pub fn configurate_system(event: &Flag) -> (steps: Vec<ConfigStep>)
    ensures
        steps@ == repair_plan(*event),
{
    repair_steps(event)
}

/// The rule of the single-party repair: after `done` steps of `plan` the next
/// step runs whatever the outcome of the previous ones, and once all have run
/// the repair finishes with `Ok`.
pub open spec fn repair_next_any_outcome_rule(plan: Seq<ConfigStep>, done: int) -> RepairNext {
    if done < plan.len() {
        RepairNext::Run(plan[done])
    } else {
        RepairNext::Finished(Ok(()))
    }
}

/// Decides what follows a single-party repair step; its outcome is only
/// reported, never acted on.
pub fn next_repair_step_any_outcome(plan: &Vec<ConfigStep>, done: usize) -> (n: RepairNext)
    requires
        done <= plan.len(),
    ensures
        n == repair_next_any_outcome_rule(plan@, done as int),
{
    if done < plan.len() {
        RepairNext::Run(plan[done])
    } else {
        RepairNext::Finished(Ok(()))
    }
}

/// The main broker configuration of the single-party set-up.
pub fn mosquitto_conf_text() -> (s: &'static str)
    ensures
        s@ == "# Configuracion basica de mosquitto\n# Guarda informacion critica en disco\npersistence true\n# En el siguiente path se encuentra la base de datos con la informacion de persistencia\npersistence_location /var/lib/mosquitto/\n# Define donde van los mensajes de diagnostico y errores\nlog_dest file /var/log/mosquitto/mosquitto.log\n# La configuracion de mtls se encuentra en /etc/mosquitto/conf.d/\ninclude_dir /etc/mosquitto/conf.d\n"@,
{
    "# Configuracion basica de mosquitto\n# Guarda informacion critica en disco\npersistence true\n# En el siguiente path se encuentra la base de datos con la informacion de persistencia\npersistence_location /var/lib/mosquitto/\n# Define donde van los mensajes de diagnostico y errores\nlog_dest file /var/log/mosquitto/mosquitto.log\n# La configuracion de mtls se encuentra en /etc/mosquitto/conf.d/\ninclude_dir /etc/mosquitto/conf.d\n"
}

/// The single-party mTLS configuration: TLS 1.2 on port 8883, the broker's
/// CA, certificate and key at their fixed places, and every security flag set.
pub fn mtls_conf_text() -> (s: &'static str)
    ensures
        s@ == "# Configuracion para IoT Edge Gateway\nlistener 8883\ntls_version tlsv1.2\ncafile /etc/mosquitto/certs/ca.crt\ncertfile /etc/mosquitto/certs/server.crt\nkeyfile /etc/mosquitto/certs/server.key\nrequire_certificate true\nuse_identity_as_username true\nallow_anonymous false\nconnection_messages true\n"@,
{
    "# Configuracion para IoT Edge Gateway\nlistener 8883\ntls_version tlsv1.2\ncafile /etc/mosquitto/certs/ca.crt\ncertfile /etc/mosquitto/certs/server.crt\nkeyfile /etc/mosquitto/certs/server.key\nrequire_certificate true\nuse_identity_as_username true\nallow_anonymous false\nconnection_messages true\n"
}

} // verus!
