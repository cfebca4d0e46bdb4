use iot_edge::system::check::{
    check_cert_file, check_system_config, scan_mosquitto_file_config, service_active,
    validate_certificate_files, validate_certificate_set, validate_mosquitto_conf, validate_mtls_conf,
    read_mtls_config, SystemProbe,
};
use iot_edge::system::check_config;
use iot_edge::system::configurate_system as single;
use iot_edge::system::check_system_config;
use iot_edge::system::check_system_config::{diagnose, DiagnosisProbe, Finding};
use iot_edge::system::configurate::{configurate_system, mtls_conf_text, mosquitto_conf_text, next_repair_step, ConfigStep, RepairNext};
use iot_edge::system::domain::{CertFiles, Certs, ErrorType, FileInfo, Flag, StateInit};
use iot_edge::system::fsm::{after_check, after_config, InitNext};

fn lines(text: &str) -> Vec<String> {
    text.lines().map(|l| l.to_string()).collect()
}

fn file(len: u64, mode: u32) -> Result<FileInfo, String> {
    Ok(FileInfo { is_file: true, len, mode })
}

fn good_files() -> CertFiles {
    CertFiles { cafile: file(10, 0o644), certfile: file(10, 0o644), keyfile: file(10, 0o600) }
}

fn mtls_msg(r: &Result<impl std::fmt::Debug, ErrorType>) -> String {
    match r {
        Err(ErrorType::MtlsConfig(m)) => m.clone(),
        other => panic!("unexpected {:?}", other),
    }
}

#[test]
fn mosquitto_conf_missing_empty_unreadable() {
    assert_eq!(
        validate_mosquitto_conf(None, None),
        Err(ErrorType::MosquittoConf(
            "Error: El archivo de configuración de mosquitto no existe o no es accesible".to_string()
        ))
    );
    assert_eq!(
        validate_mosquitto_conf(Some(0), None),
        Err(ErrorType::MosquittoConf("Error: El archivo de configuración de mosquitto esta vacío".to_string()))
    );
    assert_eq!(
        validate_mosquitto_conf(Some(5), None),
        Err(ErrorType::MtlsConfig("Error: No se pudo abrir el archivo mosquitto conf".to_string()))
    );
}

#[test]
fn mosquitto_conf_include_dir() {
    let ok = lines("# comment\n\npersistence true\n  include_dir   /etc/mosquitto/conf.d  \n");
    assert_eq!(scan_mosquitto_file_config(&ok), Ok(()));
    let equivalent = lines("include_dir /etc/mosquitto//conf.d/\n");
    assert_eq!(scan_mosquitto_file_config(&equivalent), Ok(()));
    let wrong = lines("include_dir /etc/other\ninclude_dir /etc/mosquitto/conf.d\n");
    assert_eq!(
        scan_mosquitto_file_config(&wrong),
        Err(ErrorType::MosquittoConf("Error: El directorio de configuración de mTLS no es correcto".to_string()))
    );
    let none = lines("#include_dir /etc/mosquitto/conf.d\ninclude_dir\n");
    assert_eq!(
        scan_mosquitto_file_config(&none),
        Err(ErrorType::MosquittoConf("Error: No se encontró el directorio de configuración de mTLS".to_string()))
    );
    assert_eq!(validate_mosquitto_conf(Some(100), Some(&ok)), Ok(()));
}

#[test]
fn written_mosquitto_conf_is_accepted() {
    let l = lines(mosquitto_conf_text());
    assert_eq!(validate_mosquitto_conf(Some(mosquitto_conf_text().len() as u64), Some(&l)), Ok(()));
}

#[test]
fn mtls_scan_reads_every_setting() {
    let cfg = read_mtls_config(&lines(mtls_conf_text()));
    assert_eq!(cfg.listener, Some(8883));
    assert_eq!(cfg.tls_version.as_deref(), Some("tlsv1.2"));
    assert_eq!(cfg.broker.cafile, "/etc/mosquitto/certs_broker/ca_local.crt");
    assert_eq!(cfg.edge_remote.keyfile, "/etc/mosquitto/certs_edge_remote/edge_remote.key");
    assert!(cfg.require_certificate && cfg.use_identity_as_username && !cfg.allow_anonymous);
    assert!(cfg.connection_messages);
    let bad_port = read_mtls_config(&lines("listener 70000\n"));
    assert_eq!(bad_port.listener, None);
}

#[test]
fn written_mtls_conf_validates() {
    let l = lines(mtls_conf_text());
    let r = validate_mtls_conf(Some(&l), &good_files(), &good_files(), &good_files());
    assert!(r.is_ok());
}

#[test]
fn mtls_conf_errors_in_order() {
    let r = validate_mtls_conf(None, &good_files(), &good_files(), &good_files());
    assert_eq!(mtls_msg(&r), "Error: No se pudo abrir el archivo mtls conf");
    let no_listener = lines("tls_version tlsv1.2\n");
    let r = validate_mtls_conf(Some(&no_listener), &good_files(), &good_files(), &good_files());
    assert_eq!(mtls_msg(&r), "Error: listener no definido");
    let old_tls = lines(&mtls_conf_text().replace("tlsv1.2", "tlsv1.1"));
    let r = validate_mtls_conf(Some(&old_tls), &good_files(), &good_files(), &good_files());
    assert_eq!(mtls_msg(&r), "Error: versión TLS inválida");
    let anonymous = lines(&mtls_conf_text().replace("allow_anonymous false", "allow_anonymous true"));
    let r = validate_mtls_conf(Some(&anonymous), &good_files(), &good_files(), &good_files());
    assert_eq!(mtls_msg(&r), "Error: flags de seguridad mTLS inválidos");
    let open_key = CertFiles { cafile: file(1, 0o644), certfile: file(1, 0o644), keyfile: file(1, 0o640) };
    let r = validate_mtls_conf(Some(&lines(mtls_conf_text())), &good_files(), &open_key, &good_files());
    assert_eq!(mtls_msg(&r), "Error: Permisos de clave privada inseguros");
}

#[test]
fn cert_file_errors() {
    assert_eq!(check_cert_file(&Err("gone".to_string()), false), Err(ErrorType::Io("gone".to_string())));
    let dir = Ok(FileInfo { is_file: false, len: 4096, mode: 0o755 });
    assert_eq!(
        check_cert_file(&dir, false),
        Err(ErrorType::MtlsConfig("Error: Certificado mTLS inválido".to_string()))
    );
    assert_eq!(
        check_cert_file(&file(0, 0o600), false),
        Err(ErrorType::MtlsConfig("Error: Certificado mTLS vacío".to_string()))
    );
    assert_eq!(check_cert_file(&file(3, 0o644), false), Ok(()));
    assert!(check_cert_file(&file(3, 0o644), true).is_err());
}

#[test]
fn certificate_set_coherence() {
    let certs = Certs { cafile: "/c/ca.crt".into(), certfile: "/c/ca.crt".into(), keyfile: "/c/k.key".into() };
    assert_eq!(
        validate_certificate_set(&certs, &good_files(), "broker"),
        Err(ErrorType::MtlsConfig("Error: CA y cert iguales en broker".to_string()))
    );
    let certs = Certs { cafile: "/c/ca.crt".into(), certfile: "/c/srv.pem".into(), keyfile: "/c/k.key".into() };
    assert_eq!(
        validate_certificate_set(&certs, &good_files(), "edge_local"),
        Err(ErrorType::MtlsConfig("Error: extensión cert inválida en edge_local".to_string()))
    );
    let certs = Certs { cafile: "/c/ca.crt".into(), certfile: "/c/srv.crt".into(), keyfile: "/c/k.pem".into() };
    assert_eq!(
        validate_certificate_set(&certs, &good_files(), "edge_remote"),
        Err(ErrorType::MtlsConfig("Error: extensión key inválida en edge_remote".to_string()))
    );
    let certs = Certs { cafile: "/c/ca.crt".into(), certfile: "/c/srv.crt".into(), keyfile: "/c/k.key".into() };
    assert_eq!(validate_certificate_set(&certs, &good_files(), "broker"), Ok(()));
    let cfg = read_mtls_config(&lines(mtls_conf_text()));
    assert_eq!(validate_certificate_files(&cfg, &good_files(), &good_files(), &good_files()), Ok(()));
}

#[test]
fn service_active_output() {
    assert_eq!(service_active(Some("active\n")), Ok(()));
    assert_eq!(service_active(Some("inactive\n")), Err(ErrorType::Generic));
    assert_eq!(service_active(None), Err(ErrorType::Generic));
}

fn probe() -> SystemProbe {
    SystemProbe {
        mosquitto_found: true,
        service_stdout: Some("active".to_string()),
        listening: true,
        conf_size: Some(10),
        conf_lines: Some(lines(mosquitto_conf_text())),
        mtls_lines: Some(lines(mtls_conf_text())),
        broker: good_files(),
        edge_local: good_files(),
        edge_remote: good_files(),
    }
}

#[test]
fn whole_check_in_order() {
    assert_eq!(check_system_config(&probe()), Ok(()));
    let mut p = probe();
    p.mosquitto_found = false;
    assert_eq!(check_system_config(&p), Err(ErrorType::MosquittoNotInstalled));
    let mut p = probe();
    p.service_stdout = Some("failed".to_string());
    assert_eq!(check_system_config(&p), Err(ErrorType::MosquittoServiceInactive));
    let mut p = probe();
    p.listening = false;
    assert_eq!(check_system_config(&p), Err(ErrorType::MosquittoServiceInactive));
    let mut p = probe();
    p.conf_size = Some(0);
    assert!(matches!(check_system_config(&p), Err(ErrorType::MosquittoConf(_))));
    let mut p = probe();
    p.mtls_lines = None;
    assert!(matches!(check_system_config(&p), Err(ErrorType::MtlsConfig(_))));
}

#[test]
fn start_up_sequence() {
    assert_eq!(after_check(Ok(()), Flag::Null), InitNext::Goto(StateInit::InitSystem, Flag::Null));
    assert_eq!(after_check(Err(ErrorType::MosquittoNotInstalled), Flag::Null), InitNext::Exit(1));
    assert_eq!(
        after_check(Err(ErrorType::MosquittoServiceInactive), Flag::Null),
        InitNext::Goto(StateInit::ConfigSystem, Flag::MosquittoServiceInactive)
    );
    assert_eq!(
        after_check(Err(ErrorType::MosquittoConf("x".into())), Flag::Null),
        InitNext::Goto(StateInit::ConfigSystem, Flag::MosquittoConf)
    );
    assert_eq!(
        after_check(Err(ErrorType::MtlsConfig("x".into())), Flag::Null),
        InitNext::Goto(StateInit::ConfigSystem, Flag::MtlsConf)
    );
    assert_eq!(after_check(Err(ErrorType::Generic), Flag::Null), InitNext::Fail(ErrorType::Generic));
    assert_eq!(after_check(Err(ErrorType::Io("missing".into())), Flag::Null), InitNext::Fail(ErrorType::Io("missing".into())));
    assert_eq!(after_config(Ok(())), Ok(StateInit::InitSystem));
    assert_eq!(after_config(Err(ErrorType::Generic)), Err(ErrorType::Generic));
}

#[test]
fn repair_plans() {
    assert_eq!(
        configurate_system(&Flag::MosquittoServiceInactive),
        vec![
            ConfigStep::ActivateService,
            ConfigStep::CreateMosquittoConf,
            ConfigStep::CreateMtlsConf,
            ConfigStep::RestartService
        ]
    );
    assert_eq!(
        configurate_system(&Flag::MosquittoConf),
        vec![ConfigStep::CreateMosquittoConf, ConfigStep::CreateMtlsConf, ConfigStep::RestartService]
    );
    assert_eq!(configurate_system(&Flag::MtlsConf), vec![ConfigStep::CreateMtlsConf, ConfigStep::RestartService]);
    assert!(configurate_system(&Flag::Null).is_empty());
}

#[test]
fn strict_single_party_check() {
    let text = "listener 8883\ntls_version tlsv1.2\ncafile /etc/mosquitto/certs/ca.crt\n\
                certfile /etc/mosquitto/certs/server.crt\nkeyfile /etc/mosquitto/certs/server.key\n\
                require_certificate true\nuse_identity_as_username true\nconnection_messages true\n";
    let cfg = check_config::validate_mtls_conf(Some(&lines(text))).unwrap();
    assert_eq!(cfg.listener, Some(8883));
    assert_eq!(check_config::validate_certificate_coherence(&cfg), Ok(()));
    let moved = text.replace("server.crt", "srv.crt");
    assert_eq!(
        check_config::validate_mtls_conf(Some(&lines(&moved))).unwrap_err(),
        check_config::ErrorType::MtlsConfig(
            "❌ Error: No se encontraron los parámetros esperados en mtls conf".to_string()
        )
    );
    let files = CertFiles { cafile: file(1, 0o644), certfile: file(0, 0o644), keyfile: file(1, 0o600) };
    assert_eq!(
        check_config::validate_certificate_files(&files),
        Err(check_config::ErrorType::MtlsConfig("❌ Error: Certificado mTLS vacío".to_string()))
    );
}

#[test]
fn lenient_check_follows_includes() {
    let mut cfg = check_system_config::new_config();
    assert_eq!(check_system_config::scan_line(&mut cfg, "listener 8883"), None);
    assert_eq!(
        check_system_config::scan_line(&mut cfg, "include_dir /etc/mosquitto/conf.d"),
        Some(check_system_config::Include::Dir("/etc/mosquitto/conf.d".to_string()))
    );
    assert_eq!(
        check_system_config::scan_line(&mut cfg, "include_file /etc/x.conf"),
        Some(check_system_config::Include::File("/etc/x.conf".to_string()))
    );
    assert!(check_system_config::is_conf_entry("/etc/mosquitto/conf.d/mtls.conf"));
    assert!(!check_system_config::is_conf_entry("/etc/mosquitto/conf.d/readme"));
    assert_eq!(check_system_config::check_mtls_config(Ok(cfg)).unwrap_err(), check_system_config::ErrorType::Generic);
    let mut cfg = check_system_config::new_config();
    for l in ["listener 8883", "cafile /a/ca.crt", "certfile /a/ca.crt", "keyfile /a/k.key", "require_certificate true"] {
        check_system_config::scan_line(&mut cfg, l);
    }
    let cfg = check_system_config::check_mtls_config(Ok(cfg)).unwrap();
    assert_eq!(
        check_system_config::check_certificate_coherence(&cfg),
        Err(check_system_config::ErrorType::Config(
            "❌ FALLO: Los certificados de CA y Server son iguales".to_string()
        ))
    );
    let files = CertFiles { cafile: file(1, 0o644), certfile: file(1, 0o644), keyfile: file(1, 0o604) };
    assert_eq!(
        check_system_config::check_certificate_files(&files),
        Err(check_system_config::ErrorType::Config("❌ FALLO: Permisos de clave privada inseguros".to_string()))
    );
}

#[test]
fn unreadable_files_report_the_system_message() {
    let files = CertFiles { cafile: Err("denied".into()), certfile: file(1, 0o644), keyfile: file(1, 0o600) };
    assert_eq!(check_config::validate_certificate_files(&files), Err(check_config::ErrorType::Io("denied".into())));
    assert_eq!(
        check_system_config::check_certificate_files(&files),
        Err(check_system_config::ErrorType::Io("denied".into()))
    );
    assert_eq!(
        check_system_config::check_mtls_config(Err(check_system_config::ErrorType::Io("x".into()))).unwrap_err(),
        check_system_config::ErrorType::Io("x".into())
    );
    assert_eq!(
        check_config::validate_mtls_conf(None).unwrap_err(),
        check_config::ErrorType::MtlsConfig("❌ Error: No se pudo abrir el archivo mtls conf".into())
    );
}

fn strict_probe() -> check_config::SystemProbe {
    let text = "listener 8883\ntls_version tlsv1.2\ncafile /etc/mosquitto/certs/ca.crt\n\
                certfile /etc/mosquitto/certs/server.crt\nkeyfile /etc/mosquitto/certs/server.key\n\
                require_certificate true\nuse_identity_as_username true\nconnection_messages true\n";
    check_config::SystemProbe {
        mosquitto_found: true,
        service_stdout: Some(" active ".into()),
        listening: true,
        conf_size: Some(3),
        conf_lines: Some(lines("include_dir /etc/mosquitto/conf.d\n")),
        mtls_lines: Some(lines(text)),
        files: good_files(),
    }
}

#[test]
fn strict_whole_check() {
    assert_eq!(check_config::check_system_config(&strict_probe()), Ok(()));
    let mut p = strict_probe();
    p.conf_size = None;
    assert_eq!(
        check_config::check_system_config(&p),
        Err(check_config::ErrorType::MosquittoConf(
            "❌ Error: El archivo de configuración de mosquitto no existe o no es accesible".into()
        ))
    );
    let mut p = strict_probe();
    p.conf_lines = Some(lines("include_dir /tmp\n"));
    assert_eq!(
        check_config::check_system_config(&p),
        Err(check_config::ErrorType::MosquittoConf(
            "❌ Error: El directorio de configuración de mTLS no es correcto".into()
        ))
    );
    let mut p = strict_probe();
    p.files = CertFiles { cafile: Err("x".into()), certfile: file(1, 0o644), keyfile: file(1, 0o600) };
    assert_eq!(check_config::check_system_config(&p), Ok(()));
}

#[test]
fn lenient_diagnosis() {

    let incomplete = DiagnosisProbe {
        mosquitto_found: false,
        service_stdout: None,
        listening: true,
        conf_size: Some(0),
        scanned: Ok(check_system_config::new_config()),
        files: good_files(),
    };
    let f = diagnose(incomplete);
    assert_eq!(f.len(), 5);
    assert_eq!(f[0], Finding::Installed(false));
    assert_eq!(f[1], Finding::ServiceActive(false));
    assert_eq!(
        f[3],
        Finding::ConfFile(Err(check_system_config::ErrorType::Config(
            "❌ FALLO: El archivo de configuración de mosquitto esta vacío".into()
        )))
    );
    assert_eq!(f[4], Finding::MtlsRequired(false));
    let mut cfg = check_system_config::new_config();
    for l in ["listener 1", "cafile /a/ca.crt", "certfile /a/s.crt", "keyfile /a/s.key", "require_certificate true"] {
        check_system_config::scan_line(&mut cfg, l);
    }
    let complete = DiagnosisProbe {
        mosquitto_found: true,
        service_stdout: Some("active".into()),
        listening: true,
        conf_size: Some(9),
        scanned: Ok(cfg),
        files: good_files(),
    };
    let f = diagnose(complete);
    assert_eq!(f.len(), 7);
    assert_eq!(f[5], Finding::CertificateFiles(Ok(())));
    assert_eq!(f[6], Finding::Coherence(Ok(())));
}

#[test]
fn single_party_repair_writes_an_accepted_configuration() {

    assert_eq!(single::configurate_system(&Flag::MtlsConf), vec![ConfigStep::CreateMtlsConf, ConfigStep::RestartService]);
    let cfg = check_config::validate_mtls_conf(Some(&lines(single::mtls_conf_text()))).unwrap();
    assert_eq!(check_config::validate_certificate_coherence(&cfg), Ok(()));
    let conf = lines(single::mosquitto_conf_text());
    assert_eq!(check_config::validate_mosquitto_conf(Some(10), Some(&conf)), Ok(()));
}

#[test]
fn repair_stops_at_first_failure() {
    let plan = configurate_system(&Flag::MosquittoConf);
    assert_eq!(next_repair_step(&plan, 0, Ok(())), RepairNext::Run(ConfigStep::CreateMosquittoConf));
    assert_eq!(next_repair_step(&plan, 1, Ok(())), RepairNext::Run(ConfigStep::CreateMtlsConf));
    assert_eq!(
        next_repair_step(&plan, 2, Err(ErrorType::Generic)),
        RepairNext::Finished(Err(ErrorType::Generic))
    );
    assert_eq!(next_repair_step(&plan, 2, Ok(())), RepairNext::Run(ConfigStep::RestartService));
    assert_eq!(next_repair_step(&plan, 3, Ok(())), RepairNext::Finished(Ok(())));
    let none = configurate_system(&Flag::Null);
    assert_eq!(next_repair_step(&none, 0, Ok(())), RepairNext::Finished(Ok(())));
}

#[test]
fn single_party_repair_runs_every_step() {
    let plan = configurate_system(&Flag::MtlsConf);
    assert_eq!(single::next_repair_step_any_outcome(&plan, 0), RepairNext::Run(ConfigStep::CreateMtlsConf));
    assert_eq!(single::next_repair_step_any_outcome(&plan, 1), RepairNext::Run(ConfigStep::RestartService));
    assert_eq!(single::next_repair_step_any_outcome(&plan, 2), RepairNext::Finished(Ok(())));
}

fn text_lines(v: &[&str]) -> Result<Vec<String>, String> {
    Ok(v.iter().map(|s| s.to_string()).collect())
}

#[test]
fn mtls_settings_follow_includes() {
    let mut files = check_system_config::FileTexts::new();
    let mut dirs = check_system_config::DirListings::new();
    files.insert("/m.conf".into(), text_lines(&["# main", "listener 8883", "include_file /a.conf", "include_dir /d", "keyfile /k.key"]));
    files.insert("/a.conf".into(), text_lines(&["cafile /ca.crt", "listener 1"]));
    dirs.insert("/d".into(), text_lines(&["/d/x.conf", "/d/readme"]));
    files.insert("/d/x.conf".into(), text_lines(&["certfile /s.crt", "require_certificate true", "listener 8884"]));
    let cfg = check_system_config::check_mtls_files(&files, &dirs, "/m.conf", 8).unwrap().unwrap();
    assert_eq!(cfg.listener, Some(8884));
    assert_eq!(cfg.cafile, Some("/ca.crt".to_string()));
    assert_eq!(cfg.certfile, Some("/s.crt".to_string()));
    assert_eq!(cfg.keyfile, Some("/k.key".to_string()));
    assert!(check_system_config::check_mtls_files(&files, &dirs, "/m.conf", 0).is_none());
}

#[test]
fn mtls_scan_reports_unreadable_files() {
    let mut files = check_system_config::FileTexts::new();
    let dirs = check_system_config::DirListings::new();
    files.insert("/m.conf".into(), text_lines(&["include_file /gone.conf"]));
    assert_eq!(
        check_system_config::check_mtls_files(&files, &dirs, "/m.conf", 4).unwrap().unwrap_err(),
        check_system_config::ErrorType::Io("/gone.conf".into())
    );
    files.insert("/gone.conf".into(), Err("permission denied".into()));
    assert_eq!(
        check_system_config::scan_mosquitto_config(&files, &dirs, "/m.conf", 4).unwrap().unwrap_err(),
        check_system_config::ErrorType::Io("permission denied".into())
    );
    files.insert("/gone.conf".into(), text_lines(&["listener 8883"]));
    assert_eq!(
        check_system_config::check_mtls_files(&files, &dirs, "/m.conf", 4).unwrap().unwrap_err(),
        check_system_config::ErrorType::Generic
    );
}
