//! Strict validation of the broker set-up: the main configuration file, the
//! mTLS configuration and the certificate files it names.
//!
//! The file system is read by the caller; these functions decide on what was read.

use vstd::prelude::*;
use crate::system::domain::{CertFiles, Certs, ErrorType, FileInfo, MtlsConfig, MtlsConfigView};
use crate::system::path::{extension_of, path_eq, path_extension, same_path};
use crate::text::{directive, parse_directive, parse_u16, parse_unsigned, text_is, trim, trimmed};

verus! {

/// The directory that `mosquitto.conf` must include.
pub open spec fn conf_dir() -> Seq<char> {
    "/etc/mosquitto/conf.d"@
}

/// The `include_dir` value of the first line that has one.
pub open spec fn first_include_dir(lines: Seq<Seq<char>>) -> Option<Seq<char>>
    decreases lines.len(),
{
    if lines.len() == 0 {
        None
    } else {
        match directive(lines[0]) {
            Some((k, Some(v))) => if k == "include_dir"@ {
                Some(v)
            } else {
                first_include_dir(lines.drop_first())
            },
            _ => first_include_dir(lines.drop_first()),
        }
    }
}

/// The views of a vector of lines.
pub open spec fn lines_view(lines: Seq<String>) -> Seq<Seq<char>> {
    lines.map_values(|l: String| l@)
}

/// Whether an error is a `MosquittoConf` error with the given text.
pub open spec fn is_conf_error(r: Result<(), ErrorType>, msg: Seq<char>) -> bool {
    r matches Err(ErrorType::MosquittoConf(m)) && m@ == msg
}

/// Checks the lines of `mosquitto.conf`: the first `include_dir` must name the
/// mTLS configuration directory.
pub fn scan_mosquitto_file_config(lines: &Vec<String>) -> (r: Result<(), ErrorType>)
    ensures
        match first_include_dir(lines_view(lines@)) {
            Some(dir) => if path_eq(dir, conf_dir()) {
                r is Ok
            } else {
                is_conf_error(r, "Error: El directorio de configuración de mTLS no es correcto"@)
            },
            None => is_conf_error(r, "Error: No se encontró el directorio de configuración de mTLS"@),
        },
{
    let n = lines.len();
    proof {
        assert(lines_view(lines@).skip(0) =~= lines_view(lines@));
    }
    for i in 0..n
        invariant
            n == lines@.len(),
            first_include_dir(lines_view(lines@)) == first_include_dir(lines_view(lines@).skip(i as int)),
    {
        let ghost rest = lines_view(lines@).skip(i as int);
        proof {
            assert(rest[0] == lines@[i as int]@);
            assert(rest.drop_first() =~= lines_view(lines@).skip(i + 1));
        }
        match parse_directive(lines[i].as_str()) {
            Some((key, Some(dir))) => {
                if text_is(&key, "include_dir") {
                    if same_path(dir.as_str(), "/etc/mosquitto/conf.d") {
                        return Ok(());
                    } else {
                        return Err(
                            ErrorType::MosquittoConf(
                                String::from_str("Error: El directorio de configuración de mTLS no es correcto"),
                            ),
                        );
                    }
                }
            },
            _ => {},
        }
    }
    proof {
        assert(lines_view(lines@).skip(n as int) =~= Seq::<Seq<char>>::empty());
    }
    Err(ErrorType::MosquittoConf(String::from_str("Error: No se encontró el directorio de configuración de mTLS")))
}

/// The outcome of checking `mosquitto.conf` given its size (`None` when it
/// cannot be reached) and its lines (`None` when it cannot be opened).
pub open spec fn mosquitto_conf_ok(size: Option<u64>, lines: Option<Seq<Seq<char>>>, r: Result<(), ErrorType>) -> bool {
    match size {
        None => is_conf_error(r, "Error: El archivo de configuración de mosquitto no existe o no es accesible"@),
        Some(n) => if n == 0 {
            is_conf_error(r, "Error: El archivo de configuración de mosquitto esta vacío"@)
        } else {
            match lines {
                None => r matches Err(ErrorType::MtlsConfig(m)) && m@
                    == "Error: No se pudo abrir el archivo mosquitto conf"@,
                Some(l) => match first_include_dir(l) {
                    Some(dir) => if path_eq(dir, conf_dir()) {
                        r is Ok
                    } else {
                        is_conf_error(r, "Error: El directorio de configuración de mTLS no es correcto"@)
                    },
                    None => is_conf_error(r, "Error: No se encontró el directorio de configuración de mTLS"@),
                },
            }
        },
    }
}

/// The views of optional lines.
pub open spec fn opt_lines_view(lines: Option<Vec<String>>) -> Option<Seq<Seq<char>>> {
    match lines {
        Some(l) => Some(lines_view(l@)),
        None => None,
    }
}

/// Checks `mosquitto.conf` given its size (`None` when it cannot be reached)
/// and its lines (`None` when it cannot be opened).
pub fn validate_mosquitto_conf(size: Option<u64>, lines: Option<&Vec<String>>) -> (r: Result<(), ErrorType>)
    ensures
        mosquitto_conf_ok(
            size,
            match lines {
                Some(l) => Some(lines_view(l@)),
                None => None,
            },
            r,
        ),
{
    match size {
        None => Err(
            ErrorType::MosquittoConf(
                String::from_str("Error: El archivo de configuración de mosquitto no existe o no es accesible"),
            ),
        ),
        Some(n) => {
            if n == 0 {
                return Err(
                    ErrorType::MosquittoConf(
                        String::from_str("Error: El archivo de configuración de mosquitto esta vacío"),
                    ),
                );
            }
            match lines {
                None => Err(
                    ErrorType::MtlsConfig(String::from_str("Error: No se pudo abrir el archivo mosquitto conf")),
                ),
                Some(l) => scan_mosquitto_file_config(l),
            }
        },
    }
}

/// The configuration after one line of `mtls.conf`.
pub open spec fn mtls_apply(c: MtlsConfigView, line: Seq<char>) -> MtlsConfigView {
    match directive(line) {
        Some((k, Some(v))) => if k == "listener"@ {
            MtlsConfigView {
                listener: match parse_unsigned(v, 65535) {
                    Some(x) => Some(x as u16),
                    None => None,
                },
                ..c
            }
        } else if k == "tls_version"@ {
            MtlsConfigView { tls_version: Some(v), ..c }
        } else if k == "cafile_broker"@ {
            MtlsConfigView { broker: (v, c.broker.1, c.broker.2), ..c }
        } else if k == "certfile_broker"@ {
            MtlsConfigView { broker: (c.broker.0, v, c.broker.2), ..c }
        } else if k == "keyfile_broker"@ {
            MtlsConfigView { broker: (c.broker.0, c.broker.1, v), ..c }
        } else if k == "cafile_edge_local"@ {
            MtlsConfigView { edge_local: (v, c.edge_local.1, c.edge_local.2), ..c }
        } else if k == "certfile_edge_local"@ {
            MtlsConfigView { edge_local: (c.edge_local.0, v, c.edge_local.2), ..c }
        } else if k == "keyfile_edge_local"@ {
            MtlsConfigView { edge_local: (c.edge_local.0, c.edge_local.1, v), ..c }
        } else if k == "cafile_edge_remote"@ {
            MtlsConfigView { edge_remote: (v, c.edge_remote.1, c.edge_remote.2), ..c }
        } else if k == "certfile_edge_remote"@ {
            MtlsConfigView { edge_remote: (c.edge_remote.0, v, c.edge_remote.2), ..c }
        } else if k == "keyfile_edge_remote"@ {
            MtlsConfigView { edge_remote: (c.edge_remote.0, c.edge_remote.1, v), ..c }
        } else if k == "require_certificate"@ && v == "true"@ {
            MtlsConfigView { require_certificate: true, ..c }
        } else if k == "use_identity_as_username"@ && v == "true"@ {
            MtlsConfigView { use_identity_as_username: true, ..c }
        } else if k == "allow_anonymous"@ && v == "false"@ {
            MtlsConfigView { allow_anonymous: false, ..c }
        } else if k == "connection_messages"@ && v == "true"@ {
            MtlsConfigView { connection_messages: true, ..c }
        } else {
            c
        },
        _ => c,
    }
}

/// The configuration after the lines of `mtls.conf`, in order.
pub open spec fn mtls_scan(c: MtlsConfigView, lines: Seq<Seq<char>>) -> MtlsConfigView
    decreases lines.len(),
{
    if lines.len() == 0 {
        c
    } else {
        mtls_apply(mtls_scan(c, lines.drop_last()), lines.last())
    }
}

/// Applies one line of `mtls.conf` to `cfg`.
pub fn apply_mtls_line(cfg: &mut MtlsConfig, line: &str)
    ensures
        final(cfg)@ == mtls_apply(old(cfg)@, line@),
{
    match parse_directive(line) {
        Some((key, Some(p))) => {
            if text_is(&key, "listener") {
                cfg.listener = parse_u16(p.as_str());
            } else if text_is(&key, "tls_version") {
                cfg.tls_version = Some(p);
            } else if text_is(&key, "cafile_broker") {
                cfg.broker.cafile = p;
            } else if text_is(&key, "certfile_broker") {
                cfg.broker.certfile = p;
            } else if text_is(&key, "keyfile_broker") {
                cfg.broker.keyfile = p;
            } else if text_is(&key, "cafile_edge_local") {
                cfg.edge_local.cafile = p;
            } else if text_is(&key, "certfile_edge_local") {
                cfg.edge_local.certfile = p;
            } else if text_is(&key, "keyfile_edge_local") {
                cfg.edge_local.keyfile = p;
            } else if text_is(&key, "cafile_edge_remote") {
                cfg.edge_remote.cafile = p;
            } else if text_is(&key, "certfile_edge_remote") {
                cfg.edge_remote.certfile = p;
            } else if text_is(&key, "keyfile_edge_remote") {
                cfg.edge_remote.keyfile = p;
            } else if text_is(&key, "require_certificate") && text_is(&p, "true") {
                cfg.require_certificate = true;
            } else if text_is(&key, "use_identity_as_username") && text_is(&p, "true") {
                cfg.use_identity_as_username = true;
            } else if text_is(&key, "allow_anonymous") && text_is(&p, "false") {
                cfg.allow_anonymous = false;
            } else if text_is(&key, "connection_messages") && text_is(&p, "true") {
                cfg.connection_messages = true;
            }
        },
        _ => {},
    }
}

/// Applies the lines of `mtls.conf`, in order, to `cfg`.
pub fn scan_mtls_config(lines: &Vec<String>, cfg: &mut MtlsConfig)
    ensures
        final(cfg)@ == mtls_scan(old(cfg)@, lines_view(lines@)),
{
    let n = lines.len();
    for i in 0..n
        invariant
            n == lines@.len(),
            cfg@ == mtls_scan(old(cfg)@, lines_view(lines@).take(i as int)),
    {
        proof {
            assert(lines_view(lines@).take(i + 1).drop_last() =~= lines_view(lines@).take(i as int));
            assert(lines_view(lines@).take(i + 1).last() == lines@[i as int]@);
        }
        apply_mtls_line(cfg, lines[i].as_str());
    }
    proof {
        assert(lines_view(lines@).take(n as int) =~= lines_view(lines@));
    }
}

/// The configuration that scanning starts from: nothing set, anonymous access allowed.
pub open spec fn mtls_start() -> MtlsConfigView {
    MtlsConfigView {
        listener: None,
        tls_version: None,
        broker: (Seq::empty(), Seq::empty(), Seq::empty()),
        edge_local: (Seq::empty(), Seq::empty(), Seq::empty()),
        edge_remote: (Seq::empty(), Seq::empty(), Seq::empty()),
        require_certificate: false,
        use_identity_as_username: false,
        allow_anonymous: true,
        connection_messages: false,
    }
}

fn empty_certs() -> (c: Certs)
    ensures
        c@ == (Seq::<char>::empty(), Seq::<char>::empty(), Seq::<char>::empty()),
{
    Certs { cafile: String::new(), certfile: String::new(), keyfile: String::new() }
}

/// The scanned configuration of `mtls.conf` given its lines.
pub fn read_mtls_config(lines: &Vec<String>) -> (cfg: MtlsConfig)
    ensures
        cfg@ == mtls_scan(mtls_start(), lines_view(lines@)),
{
    let mut cfg = MtlsConfig {
        listener: None,
        tls_version: None,
        broker: empty_certs(),
        edge_local: empty_certs(),
        edge_remote: empty_certs(),
        require_certificate: false,
        use_identity_as_username: false,
        allow_anonymous: true,
        connection_messages: false,
    };
    proof {
        assert(cfg@ == mtls_start());
    }
    scan_mtls_config(lines, &mut cfg);
    cfg
}

/// The error of a certificate or key file, if any: unreadable, not a regular
/// file, empty, or (for a private key) accessible to group or others.
pub open spec fn cert_file_error(f: Result<FileInfo, String>, is_private_key: bool) -> Option<Seq<char>> {
    match f {
        Err(_) => None,
        Ok(info) => if !info.is_file {
            Some("Error: Certificado mTLS inválido"@)
        } else if info.len == 0 {
            Some("Error: Certificado mTLS vacío"@)
        } else if is_private_key && info.mode & 0o077 != 0 {
            Some("Error: Permisos de clave privada inseguros"@)
        } else {
            None
        },
    }
}

/// What checking one file gives: the lookup error, the file's error, or success.
pub open spec fn cert_file_ok(f: Result<FileInfo, String>, is_private_key: bool, r: Result<(), ErrorType>) -> bool {
    match f {
        Err(e) => r matches Err(ErrorType::Io(m)) && m@ == e@,
        Ok(_) => match cert_file_error(f, is_private_key) {
            Some(msg) => r matches Err(ErrorType::MtlsConfig(m)) && m@ == msg,
            None => r is Ok,
        },
    }
}

/// Checks a certificate or key file from its metadata.
pub fn check_cert_file(f: &Result<FileInfo, String>, is_private_key: bool) -> (r: Result<(), ErrorType>)
    ensures
        cert_file_ok(*f, is_private_key, r),
{
    match f {
        Err(e) => Err(ErrorType::Io(e.clone())),
        Ok(info) => {
            if !info.is_file {
                return Err(ErrorType::MtlsConfig(String::from_str("Error: Certificado mTLS inválido")));
            }
            if info.len == 0 {
                return Err(ErrorType::MtlsConfig(String::from_str("Error: Certificado mTLS vacío")));
            }
            if is_private_key && (info.mode & 0o077) != 0 {
                return Err(ErrorType::MtlsConfig(String::from_str("Error: Permisos de clave privada inseguros")));
            }
            Ok(())
        },
    }
}

/// Text followed by a label.
fn labelled(text: &str, label: &str) -> (s: String)
    ensures
        s@ == text@ + label@,
{
    let mut s = String::from_str(text);
    s.append(label);
    s
}

/// The outcome of checking one party's certificate set: the three files in
/// order, then CA and certificate must differ, the certificate must end in
/// `.crt` and the key in `.key`.
pub open spec fn certificate_set_ok(certs: (Seq<char>, Seq<char>, Seq<char>), files: CertFiles, label: Seq<char>, r: Result<
    (),
    ErrorType,
>) -> bool {
    if !(cert_file_ok(files.cafile, false, Ok(())) ) {
        cert_file_ok(files.cafile, false, r)
    } else if !cert_file_ok(files.certfile, false, Ok(())) {
        cert_file_ok(files.certfile, false, r)
    } else if !cert_file_ok(files.keyfile, true, Ok(())) {
        cert_file_ok(files.keyfile, true, r)
    } else if path_eq(certs.0, certs.1) {
        r matches Err(ErrorType::MtlsConfig(m)) && m@ == "Error: CA y cert iguales en "@ + label
    } else if path_extension(certs.1) != Some("crt"@) {
        r matches Err(ErrorType::MtlsConfig(m)) && m@ == "Error: extensión cert inválida en "@ + label
    } else if path_extension(certs.2) != Some("key"@) {
        r matches Err(ErrorType::MtlsConfig(m)) && m@ == "Error: extensión key inválida en "@ + label
    } else {
        r is Ok
    }
}

/// Whether an optional extension is the given text.
fn extension_is(p: &str, ext: &str) -> (b: bool)
    ensures
        b == (path_extension(p@) == Some(ext@)),
{
    match extension_of(p) {
        Some(e) => text_is(&e, ext),
        None => false,
    }
}

/// Checks the certificate set of one party.
pub fn validate_certificate_set(certs: &Certs, files: &CertFiles, label: &str) -> (r: Result<(), ErrorType>)
    ensures
        certificate_set_ok(certs@, *files, label@, r),
{
    check_cert_file(&files.cafile, false)?;
    check_cert_file(&files.certfile, false)?;
    check_cert_file(&files.keyfile, true)?;
    if same_path(certs.cafile.as_str(), certs.certfile.as_str()) {
        return Err(ErrorType::MtlsConfig(labelled("Error: CA y cert iguales en ", label)));
    }
    if !extension_is(certs.certfile.as_str(), "crt") {
        return Err(ErrorType::MtlsConfig(labelled("Error: extensión cert inválida en ", label)));
    }
    if !extension_is(certs.keyfile.as_str(), "key") {
        return Err(ErrorType::MtlsConfig(labelled("Error: extensión key inválida en ", label)));
    }
    Ok(())
}

/// Whether an error is an `MtlsConfig` error with the given text.
pub open spec fn is_mtls_error(r: Result<MtlsConfig, ErrorType>, msg: Seq<char>) -> bool {
    r matches Err(ErrorType::MtlsConfig(m)) && m@ == msg
}

/// Whether the three certificate sets of a configuration pass, in order.
pub open spec fn certificate_files_ok(
    c: MtlsConfigView,
    broker: CertFiles,
    edge_local: CertFiles,
    edge_remote: CertFiles,
    r: Result<(), ErrorType>,
) -> bool {
    if !certificate_set_ok(c.broker, broker, "broker"@, Ok(())) {
        certificate_set_ok(c.broker, broker, "broker"@, r) && r is Err
    } else if !certificate_set_ok(c.edge_local, edge_local, "edge_local"@, Ok(())) {
        certificate_set_ok(c.edge_local, edge_local, "edge_local"@, r) && r is Err
    } else if !certificate_set_ok(c.edge_remote, edge_remote, "edge_remote"@, Ok(())) {
        certificate_set_ok(c.edge_remote, edge_remote, "edge_remote"@, r) && r is Err
    } else {
        r is Ok
    }
}

/// Whether the security flags of a configuration are the required ones.
pub open spec fn secure_flags(c: MtlsConfigView) -> bool {
    c.require_certificate && c.use_identity_as_username && !c.allow_anonymous && c.connection_messages
}

/// The outcome of validating a scanned mTLS configuration: listener, TLS
/// version, the three certificate sets, then the security flags.
pub open spec fn mtls_conf_ok(
    c: MtlsConfigView,
    broker: CertFiles,
    edge_local: CertFiles,
    edge_remote: CertFiles,
    r: Result<MtlsConfig, ErrorType>,
) -> bool {
    if c.listener is None {
        is_mtls_error(r, "Error: listener no definido"@)
    } else if c.tls_version != Some("tlsv1.2"@) {
        is_mtls_error(r, "Error: versión TLS inválida"@)
    } else if !certificate_files_ok(c, broker, edge_local, edge_remote, Ok(())) {
        match r {
            Ok(_) => false,
            Err(e) => certificate_files_ok(c, broker, edge_local, edge_remote, Err(e)),
        }
    } else if !secure_flags(c) {
        is_mtls_error(r, "Error: flags de seguridad mTLS inválidos"@)
    } else {
        r matches Ok(cfg) && cfg@ == c
    }
}

/// Checks the three certificate sets of a configuration, given the metadata
/// of their files.
pub fn validate_certificate_files(
    cfg: &MtlsConfig,
    broker: &CertFiles,
    edge_local: &CertFiles,
    edge_remote: &CertFiles,
) -> (r: Result<(), ErrorType>)
    ensures
        certificate_files_ok(cfg@, *broker, *edge_local, *edge_remote, r),
{
    validate_certificate_set(&cfg.broker, broker, "broker")?;
    validate_certificate_set(&cfg.edge_local, edge_local, "edge_local")?;
    validate_certificate_set(&cfg.edge_remote, edge_remote, "edge_remote")?;
    Ok(())
}

/// Validates `mtls.conf` given its lines (`None` when it cannot be opened) and
/// the metadata of the certificate files it names.
pub fn validate_mtls_conf(
    lines: Option<&Vec<String>>,
    broker: &CertFiles,
    edge_local: &CertFiles,
    edge_remote: &CertFiles,
) -> (r: Result<MtlsConfig, ErrorType>)
    ensures
        lines is None ==> is_mtls_error(r, "Error: No se pudo abrir el archivo mtls conf"@),
        lines matches Some(l) ==> mtls_conf_ok(
            mtls_scan(mtls_start(), lines_view(l@)),
            *broker,
            *edge_local,
            *edge_remote,
            r,
        ),
{
    let lines = match lines {
        None => {
            return Err(ErrorType::MtlsConfig(String::from_str("Error: No se pudo abrir el archivo mtls conf")));
        },
        Some(l) => l,
    };
    let cfg = read_mtls_config(lines);
    if cfg.listener.is_none() {
        return Err(ErrorType::MtlsConfig(String::from_str("Error: listener no definido")));
    }
    let tls_ok = match &cfg.tls_version {
        Some(t) => text_is(t, "tlsv1.2"),
        None => false,
    };
    if !tls_ok {
        proof {
            reveal_strlit("tlsv1.2");
        }
        return Err(ErrorType::MtlsConfig(String::from_str("Error: versión TLS inválida")));
    }
    match validate_certificate_files(&cfg, broker, edge_local, edge_remote) {
        Err(e) => {
            return Err(e);
        },
        Ok(()) => {},
    }
    if !(cfg.require_certificate && cfg.use_identity_as_username && !cfg.allow_anonymous
        && cfg.connection_messages) {
        return Err(ErrorType::MtlsConfig(String::from_str("Error: flags de seguridad mTLS inválidos")));
    }
    Ok(cfg)
}

/// Whether `systemctl is-active` printed `active`, blanks around it aside.
pub open spec fn reports_active(stdout: Seq<char>) -> bool {
    trim(stdout) == "active"@
}

/// Decides on the output of `systemctl is-active <service>`: `None` when the
/// command could not be run, else its standard output.
pub fn service_active(stdout: Option<&str>) -> (r: Result<(), ErrorType>)
    ensures
        match stdout {
            Some(s) => if reports_active(s@) {
                r is Ok
            } else {
                r matches Err(ErrorType::Generic)
            },
            None => r matches Err(ErrorType::Generic),
        },
{
    match stdout {
        None => Err(ErrorType::Generic),
        Some(s) => {
            let t = trimmed(s);
            if text_is(&t, "active") {
                Ok(())
            } else {
                Err(ErrorType::Generic)
            }
        },
    }
}

/// What the start-up check reads from the machine, in the order it is used:
/// whether the broker binary is on the path, the output of
/// `systemctl is-active mosquitto`, whether the TLS port accepts connections,
/// `mosquitto.conf` (size and lines), `mtls.conf` (lines) and the metadata of
/// the certificate files that `mtls.conf` names.
pub struct SystemProbe {
    pub mosquitto_found: bool,
    pub service_stdout: Option<String>,
    pub listening: bool,
    pub conf_size: Option<u64>,
    pub conf_lines: Option<Vec<String>>,
    pub mtls_lines: Option<Vec<String>>,
    pub broker: CertFiles,
    pub edge_local: CertFiles,
    pub edge_remote: CertFiles,
}

/// Whether the scanned mTLS configuration passes every check.
pub open spec fn mtls_conf_passes(c: MtlsConfigView, broker: CertFiles, edge_local: CertFiles, edge_remote: CertFiles) -> bool {
    &&& c.listener is Some
    &&& c.tls_version == Some("tlsv1.2"@)
    &&& certificate_files_ok(c, broker, edge_local, edge_remote, Ok(()))
    &&& secure_flags(c)
}

/// The outcome of the whole start-up check on what was read: the first
/// failing check decides the error.
pub open spec fn system_check_ok(p: SystemProbe, r: Result<(), ErrorType>) -> bool {
    if !p.mosquitto_found {
        r matches Err(ErrorType::MosquittoNotInstalled)
    } else if !(p.service_stdout matches Some(s) && reports_active(s@)) {
        r matches Err(ErrorType::MosquittoServiceInactive)
    } else if !p.listening {
        r matches Err(ErrorType::MosquittoServiceInactive)
    } else if !mosquitto_conf_ok(p.conf_size, opt_lines_view(p.conf_lines), Ok(())) {
        r is Err && mosquitto_conf_ok(p.conf_size, opt_lines_view(p.conf_lines), r)
    } else {
        match p.mtls_lines {
            None => r matches Err(ErrorType::MtlsConfig(m)) && m@ == "Error: No se pudo abrir el archivo mtls conf"@,
            Some(l) => {
                let c = mtls_scan(mtls_start(), lines_view(l@));
                if mtls_conf_passes(c, p.broker, p.edge_local, p.edge_remote) {
                    r is Ok
                } else {
                    r matches Err(e) && mtls_conf_ok(c, p.broker, p.edge_local, p.edge_remote, Err(e))
                }
            },
        }
    }
}

/// Runs the start-up checks in order on what was read from the machine and
/// stops at the first that fails.
pub fn check_system_config(probe: &SystemProbe) -> (r: Result<(), ErrorType>)
    ensures
        system_check_ok(*probe, r),
{
    if !probe.mosquitto_found {
        return Err(ErrorType::MosquittoNotInstalled);
    }
    let active = match &probe.service_stdout {
        Some(s) => service_active(Some(s.as_str())),
        None => service_active(None),
    };
    if active.is_err() {
        return Err(ErrorType::MosquittoServiceInactive);
    }
    if !probe.listening {
        return Err(ErrorType::MosquittoServiceInactive);
    }
    validate_mosquitto_conf(probe.conf_size, probe.conf_lines.as_ref())?;
    match validate_mtls_conf(probe.mtls_lines.as_ref(), &probe.broker, &probe.edge_local, &probe.edge_remote) {
        Ok(_) => Ok(()),
        Err(e) => Err(e),
    }
}

} // verus!
