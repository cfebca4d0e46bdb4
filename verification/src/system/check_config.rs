//! Validation of a single-party mTLS set-up: the configuration must name the
//! broker's files at their fixed places and enable every security flag.

use vstd::prelude::*;
use crate::system::check::{
    first_include_dir, lines_view, opt_lines_view, reports_active, service_active,
    validate_mosquitto_conf as validate_conf_strict,
};
use crate::system::domain::ErrorType as StrictError;
use crate::system::domain::{CertFiles, FileInfo};
use crate::system::path::{extension_of, path_eq, path_extension, same_path};
use crate::text::{directive, parse_directive, parse_u16, parse_unsigned, text_is};

verus! {

/// Errors of the single-party checks.
#[derive(Debug, PartialEq, Eq)]
pub enum ErrorType {
    MosquittoNotInstalled,
    MosquittoServiceInactive,
    Generic,
    MosquittoConf(String),
    MtlsConfig(String),
    /// A file could not be read; the text is the system's message.
    Io(String),
}

/// The mTLS settings read from the configuration; a path is `None` until a
/// line sets it, and every flag starts unset.
#[derive(Debug, Default)]
pub struct MtlsConfig {
    pub listener: Option<u16>,
    pub tls_version: Option<String>,
    pub cafile: Option<String>,
    pub certfile: Option<String>,
    pub keyfile: Option<String>,
    pub require_certificate: bool,
    pub use_identity_as_username: bool,
    pub allow_anonymous: bool,
    pub connection_messages: bool,
}

/// The value of an `MtlsConfig`.
pub struct MtlsConfigView {
    pub listener: Option<u16>,
    pub tls_version: Option<Seq<char>>,
    pub cafile: Option<Seq<char>>,
    pub certfile: Option<Seq<char>>,
    pub keyfile: Option<Seq<char>>,
    pub require_certificate: bool,
    pub use_identity_as_username: bool,
    pub allow_anonymous: bool,
    pub connection_messages: bool,
}

/// The view of an optional text.
pub open spec fn opt_view(t: Option<String>) -> Option<Seq<char>> {
    match t {
        Some(s) => Some(s@),
        None => None,
    }
}

impl View for MtlsConfig {
    type V = MtlsConfigView;

    open spec fn view(&self) -> MtlsConfigView {
        MtlsConfigView {
            listener: self.listener,
            tls_version: opt_view(self.tls_version),
            cafile: opt_view(self.cafile),
            certfile: opt_view(self.certfile),
            keyfile: opt_view(self.keyfile),
            require_certificate: self.require_certificate,
            use_identity_as_username: self.use_identity_as_username,
            allow_anonymous: self.allow_anonymous,
            connection_messages: self.connection_messages,
        }
    }
}

/// The configuration scanning starts from: nothing set.
pub open spec fn start() -> MtlsConfigView {
    MtlsConfigView {
        listener: None,
        tls_version: None,
        cafile: None,
        certfile: None,
        keyfile: None,
        require_certificate: false,
        use_identity_as_username: false,
        allow_anonymous: false,
        connection_messages: false,
    }
}

/// The configuration after one line.
pub open spec fn apply(c: MtlsConfigView, line: Seq<char>) -> MtlsConfigView {
    match directive(line) {
        Some((k, Some(v))) => if k == "listener"@ {
            MtlsConfigView {
                listener: match parse_unsigned(v, 65535) {
                    Some(x) => Some(x as u16),
                    None => None,
                },
                ..c
            }
        } else if k == "tls_version"@ {
            MtlsConfigView { tls_version: Some(v), ..c }
        } else if k == "cafile"@ {
            MtlsConfigView { cafile: Some(v), ..c }
        } else if k == "certfile"@ {
            MtlsConfigView { certfile: Some(v), ..c }
        } else if k == "keyfile"@ {
            MtlsConfigView { keyfile: Some(v), ..c }
        } else if k == "require_certificate"@ && v == "true"@ {
            MtlsConfigView { require_certificate: true, ..c }
        } else if k == "use_identity_as_username"@ && v == "true"@ {
            MtlsConfigView { use_identity_as_username: true, ..c }
        } else if k == "allow_anonymous"@ && v == "false"@ {
            MtlsConfigView { allow_anonymous: false, ..c }
        } else if k == "connection_messages"@ && v == "true"@ {
            MtlsConfigView { connection_messages: true, ..c }
        } else {
            c
        },
        _ => c,
    }
}

/// The configuration after the lines, in order.
pub open spec fn scan(c: MtlsConfigView, lines: Seq<Seq<char>>) -> MtlsConfigView
    decreases lines.len(),
{
    if lines.len() == 0 {
        c
    } else {
        apply(scan(c, lines.drop_last()), lines.last())
    }
}

/// Applies one line to `cfg`.
pub fn apply_line(cfg: &mut MtlsConfig, line: &str)
    ensures
        final(cfg)@ == apply(old(cfg)@, line@),
{
    match parse_directive(line) {
        Some((key, Some(p))) => {
            if text_is(&key, "listener") {
                cfg.listener = parse_u16(p.as_str());
            } else if text_is(&key, "tls_version") {
                cfg.tls_version = Some(p);
            } else if text_is(&key, "cafile") {
                cfg.cafile = Some(p);
            } else if text_is(&key, "certfile") {
                cfg.certfile = Some(p);
            } else if text_is(&key, "keyfile") {
                cfg.keyfile = Some(p);
            } else if text_is(&key, "require_certificate") && text_is(&p, "true") {
                cfg.require_certificate = true;
            } else if text_is(&key, "use_identity_as_username") && text_is(&p, "true") {
                cfg.use_identity_as_username = true;
            } else if text_is(&key, "allow_anonymous") && text_is(&p, "false") {
                cfg.allow_anonymous = false;
            } else if text_is(&key, "connection_messages") && text_is(&p, "true") {
                cfg.connection_messages = true;
            }
        },
        _ => {},
    }
}

/// The configuration read from the lines.
pub fn scan_mtls_config(lines: &Vec<String>) -> (cfg: MtlsConfig)
    ensures
        cfg@ == scan(start(), lines_view(lines@)),
{
    let mut cfg = MtlsConfig {
        listener: None,
        tls_version: None,
        cafile: None,
        certfile: None,
        keyfile: None,
        require_certificate: false,
        use_identity_as_username: false,
        allow_anonymous: false,
        connection_messages: false,
    };
    let n = lines.len();
    for i in 0..n
        invariant
            n == lines@.len(),
            cfg@ == scan(start(), lines_view(lines@).take(i as int)),
    {
        proof {
            assert(lines_view(lines@).take(i + 1).drop_last() =~= lines_view(lines@).take(i as int));
            assert(lines_view(lines@).take(i + 1).last() == lines@[i as int]@);
        }
        apply_line(&mut cfg, lines[i].as_str());
    }
    proof {
        assert(lines_view(lines@).take(n as int) =~= lines_view(lines@));
    }
    cfg
}

/// Whether an optional path is the given path.
pub open spec fn is_path(p: Option<Seq<char>>, expected: Seq<char>) -> bool {
    p matches Some(x) && path_eq(x, expected)
}

/// Whether the configuration is the one expected: a listener, TLS 1.2, the
/// broker's files at their fixed places and every security flag set.
pub open spec fn expected(c: MtlsConfigView) -> bool {
    &&& c.listener is Some
    &&& c.tls_version == Some("tlsv1.2"@)
    &&& is_path(c.cafile, "/etc/mosquitto/certs/ca.crt"@)
    &&& is_path(c.certfile, "/etc/mosquitto/certs/server.crt"@)
    &&& is_path(c.keyfile, "/etc/mosquitto/certs/server.key"@)
    &&& c.require_certificate
    &&& c.use_identity_as_username
    &&& !c.allow_anonymous
    &&& c.connection_messages
}

fn path_is(p: &Option<String>, expected: &str) -> (b: bool)
    ensures
        b == is_path(opt_view(*p), expected@),
{
    match p {
        Some(x) => same_path(x.as_str(), expected),
        None => false,
    }
}

/// Validates the configuration given its lines (`None` when it cannot be opened).
pub fn validate_mtls_conf(lines: Option<&Vec<String>>) -> (r: Result<MtlsConfig, ErrorType>)
    ensures
        lines is None ==> (r matches Err(ErrorType::MtlsConfig(m)) && m@
            == "❌ Error: No se pudo abrir el archivo mtls conf"@),
        lines matches Some(l) ==> if expected(scan(start(), lines_view(l@))) {
            r matches Ok(cfg) && cfg@ == scan(start(), lines_view(l@))
        } else {
            r matches Err(ErrorType::MtlsConfig(m)) && m@
                == "❌ Error: No se encontraron los parámetros esperados en mtls conf"@
        },
{
    let lines = match lines {
        None => {
            return Err(ErrorType::MtlsConfig(String::from_str("❌ Error: No se pudo abrir el archivo mtls conf")));
        },
        Some(l) => l,
    };
    let config = scan_mtls_config(lines);
    let tls_ok = match &config.tls_version {
        Some(t) => text_is(t, "tlsv1.2"),
        None => false,
    };
    if config.listener.is_some() && tls_ok && path_is(&config.cafile, "/etc/mosquitto/certs/ca.crt")
        && path_is(&config.certfile, "/etc/mosquitto/certs/server.crt") && path_is(
        &config.keyfile,
        "/etc/mosquitto/certs/server.key",
    ) && config.require_certificate && config.use_identity_as_username && !config.allow_anonymous
        && config.connection_messages {
        Ok(config)
    } else {
        Err(
            ErrorType::MtlsConfig(
                String::from_str("❌ Error: No se encontraron los parámetros esperados en mtls conf"),
            ),
        )
    }
}

/// The error of a certificate or key file, if any.
pub open spec fn cert_file_error(info: FileInfo, is_private_key: bool) -> Option<Seq<char>> {
    if !info.is_file {
        Some("❌ Error: Certificado mTLS inválido"@)
    } else if info.len == 0 {
        Some("❌ Error: Certificado mTLS vacío"@)
    } else if is_private_key && info.mode & 0o077 != 0 {
        Some("❌ Error: Permisos de clave privada inseguros"@)
    } else {
        None
    }
}

/// What checking one file gives: the lookup error, the file's error, or success.
pub open spec fn cert_file_ok(f: Result<FileInfo, String>, is_private_key: bool, r: Result<(), ErrorType>) -> bool {
    match f {
        Err(e) => r matches Err(ErrorType::Io(m)) && m@ == e@,
        Ok(info) => match cert_file_error(info, is_private_key) {
            Some(msg) => r matches Err(ErrorType::MtlsConfig(m)) && m@ == msg,
            None => r is Ok,
        },
    }
}

/// Checks a certificate or key file from its metadata.
pub fn check_cert_file(f: &Result<FileInfo, String>, is_private_key: bool) -> (r: Result<(), ErrorType>)
    ensures
        cert_file_ok(*f, is_private_key, r),
{
    match f {
        Err(e) => Err(ErrorType::Io(e.clone())),
        Ok(info) => {
            if !info.is_file {
                return Err(ErrorType::MtlsConfig(String::from_str("❌ Error: Certificado mTLS inválido")));
            }
            if info.len == 0 {
                return Err(ErrorType::MtlsConfig(String::from_str("❌ Error: Certificado mTLS vacío")));
            }
            if is_private_key && (info.mode & 0o077) != 0 {
                return Err(ErrorType::MtlsConfig(String::from_str("❌ Error: Permisos de clave privada inseguros")));
            }
            Ok(())
        },
    }
}

/// Checks the CA, certificate and key files, in order, from their metadata.
pub fn validate_certificate_files(files: &CertFiles) -> (r: Result<(), ErrorType>)
    ensures
        if !cert_file_ok(files.cafile, false, Ok(())) {
            cert_file_ok(files.cafile, false, r)
        } else if !cert_file_ok(files.certfile, false, Ok(())) {
            cert_file_ok(files.certfile, false, r)
        } else {
            cert_file_ok(files.keyfile, true, r)
        },
{
    check_cert_file(&files.cafile, false)?;
    check_cert_file(&files.certfile, false)?;
    check_cert_file(&files.keyfile, true)?;
    Ok(())
}

/// The outcome of the coherence check on three paths.
pub open spec fn coherence_ok(ca: Seq<char>, cert: Seq<char>, key: Seq<char>, r: Result<(), ErrorType>) -> bool {
    if path_eq(ca, cert) {
        r matches Err(ErrorType::MtlsConfig(m)) && m@ == "❌ Error: Los certificados de CA y Server son iguales"@
    } else if path_extension(cert) != Some("crt"@) {
        r matches Err(ErrorType::MtlsConfig(m)) && m@
            == "❌ Error: La extensión de archivo del certificado Server es inválida"@
    } else if path_extension(key) != Some("key"@) {
        r matches Err(ErrorType::MtlsConfig(m)) && m@
            == "❌ Error: La extensión de archivo de la clave privada es inválida"@
    } else {
        r is Ok
    }
}

fn has_extension(p: &str, ext: &str) -> (b: bool)
    ensures
        b == (path_extension(p@) == Some(ext@)),
{
    match extension_of(p) {
        Some(e) => text_is(&e, ext),
        None => false,
    }
}

/// Checks that CA and certificate differ and that certificate and key have
/// the `.crt` and `.key` extensions. The three paths must be set.
pub fn validate_certificate_coherence(cfg: &MtlsConfig) -> (r: Result<(), ErrorType>)
    requires
        cfg.cafile is Some,
        cfg.certfile is Some,
        cfg.keyfile is Some,
    ensures
        coherence_ok(cfg.cafile->0@, cfg.certfile->0@, cfg.keyfile->0@, r),
        cfg.cafile->0@ == cfg.certfile->0@ ==> (r matches Err(ErrorType::MtlsConfig(m)) && m@
            == "❌ Error: Los certificados de CA y Server son iguales"@),
{
    let ca = cfg.cafile.as_ref().unwrap();
    let cert = cfg.certfile.as_ref().unwrap();
    let key = cfg.keyfile.as_ref().unwrap();
    if same_path(ca.as_str(), cert.as_str()) {
        return Err(ErrorType::MtlsConfig(String::from_str("❌ Error: Los certificados de CA y Server son iguales")));
    }
    if !has_extension(cert.as_str(), "crt") {
        return Err(
            ErrorType::MtlsConfig(
                String::from_str("❌ Error: La extensión de archivo del certificado Server es inválida"),
            ),
        );
    }
    if !has_extension(key.as_str(), "key") {
        return Err(
            ErrorType::MtlsConfig(
                String::from_str("❌ Error: La extensión de archivo de la clave privada es inválida"),
            ),
        );
    }
    Ok(())
}

/// The outcome of checking `mosquitto.conf` given its size and lines, with
/// this check's messages.
pub open spec fn mosquitto_conf_ok(size: Option<u64>, lines: Option<Seq<Seq<char>>>, r: Result<(), ErrorType>) -> bool {
    match size {
        None => r matches Err(ErrorType::MosquittoConf(m)) && m@
            == "❌ Error: El archivo de configuración de mosquitto no existe o no es accesible"@,
        Some(n) => if n == 0 {
            r matches Err(ErrorType::MosquittoConf(m)) && m@
                == "❌ Error: El archivo de configuración de mosquitto esta vacío"@
        } else {
            match lines {
                None => r matches Err(ErrorType::MtlsConfig(m)) && m@
                    == "❌ Error: No se pudo abrir el archivo mosquitto conf"@,
                Some(l) => match first_include_dir(l) {
                    Some(dir) => if path_eq(dir, "/etc/mosquitto/conf.d"@) {
                        r is Ok
                    } else {
                        r matches Err(ErrorType::MosquittoConf(m)) && m@
                            == "❌ Error: El directorio de configuración de mTLS no es correcto"@
                    },
                    None => r matches Err(ErrorType::MosquittoConf(m)) && m@
                        == "❌ Error: No se encontró el directorio de configuración de mTLS"@,
                },
            }
        },
    }
}

fn marked(m: &String) -> (s: String)
    ensures
        s@ == "❌ "@ + m@,
{
    let mut s = String::from_str("❌ ");
    s.append(m.as_str());
    s
}

/// Checks `mosquitto.conf` given its size (`None` when it cannot be reached)
/// and its lines (`None` when it cannot be opened).
pub fn validate_mosquitto_conf(size: Option<u64>, lines: Option<&Vec<String>>) -> (r: Result<(), ErrorType>)
    ensures
        mosquitto_conf_ok(
            size,
            match lines {
                Some(l) => Some(lines_view(l@)),
                None => None,
            },
            r,
        ),
{
    proof {
        reveal_strlit("❌ ");
        reveal_strlit("Error: El archivo de configuración de mosquitto no existe o no es accesible");
        reveal_strlit("❌ Error: El archivo de configuración de mosquitto no existe o no es accesible");
        reveal_strlit("Error: El archivo de configuración de mosquitto esta vacío");
        reveal_strlit("❌ Error: El archivo de configuración de mosquitto esta vacío");
        reveal_strlit("Error: No se pudo abrir el archivo mosquitto conf");
        reveal_strlit("❌ Error: No se pudo abrir el archivo mosquitto conf");
        reveal_strlit("Error: El directorio de configuración de mTLS no es correcto");
        reveal_strlit("❌ Error: El directorio de configuración de mTLS no es correcto");
        reveal_strlit("Error: No se encontró el directorio de configuración de mTLS");
        reveal_strlit("❌ Error: No se encontró el directorio de configuración de mTLS");
        assert("❌ "@ + "Error: El archivo de configuración de mosquitto no existe o no es accesible"@
            =~= "❌ Error: El archivo de configuración de mosquitto no existe o no es accesible"@);
        assert("❌ "@ + "Error: El archivo de configuración de mosquitto esta vacío"@
            =~= "❌ Error: El archivo de configuración de mosquitto esta vacío"@);
        assert("❌ "@ + "Error: No se pudo abrir el archivo mosquitto conf"@
            =~= "❌ Error: No se pudo abrir el archivo mosquitto conf"@);
        assert("❌ "@ + "Error: El directorio de configuración de mTLS no es correcto"@
            =~= "❌ Error: El directorio de configuración de mTLS no es correcto"@);
        assert("❌ "@ + "Error: No se encontró el directorio de configuración de mTLS"@
            =~= "❌ Error: No se encontró el directorio de configuración de mTLS"@);
    }
    match validate_conf_strict(size, lines) {
        Ok(()) => Ok(()),
        Err(StrictError::MosquittoConf(m)) => Err(ErrorType::MosquittoConf(marked(&m))),
        Err(StrictError::MtlsConfig(m)) => Err(ErrorType::MtlsConfig(marked(&m))),
        Err(_) => Err(ErrorType::Generic),
    }
}

/// What this check reads from the machine: as for the main check, with the
/// metadata of the CA, certificate and key files that `mtls.conf` names.
pub struct SystemProbe {
    pub mosquitto_found: bool,
    pub service_stdout: Option<String>,
    pub listening: bool,
    pub conf_size: Option<u64>,
    pub conf_lines: Option<Vec<String>>,
    pub mtls_lines: Option<Vec<String>>,
    pub files: CertFiles,
}

/// The outcome of the whole check: installation, service, port, main
/// configuration and mTLS configuration in order; then the certificate files
/// are checked without effect on the outcome, and an incoherent certificate
/// set is a generic error.
pub open spec fn system_check_ok(p: SystemProbe, r: Result<(), ErrorType>) -> bool {
    if !p.mosquitto_found {
        r matches Err(ErrorType::MosquittoNotInstalled)
    } else if !(p.service_stdout matches Some(s) && reports_active(s@)) {
        r matches Err(ErrorType::MosquittoServiceInactive)
    } else if !p.listening {
        r matches Err(ErrorType::MosquittoServiceInactive)
    } else if !mosquitto_conf_ok(p.conf_size, opt_lines_view(p.conf_lines), Ok(())) {
        r is Err && mosquitto_conf_ok(p.conf_size, opt_lines_view(p.conf_lines), r)
    } else {
        match p.mtls_lines {
            None => r matches Err(ErrorType::MtlsConfig(m)) && m@ == "❌ Error: No se pudo abrir el archivo mtls conf"@,
            Some(l) => {
                let c = scan(start(), lines_view(l@));
                if !expected(c) {
                    r matches Err(ErrorType::MtlsConfig(m)) && m@
                        == "❌ Error: No se encontraron los parámetros esperados en mtls conf"@
                } else if coherence_ok(c.cafile->0, c.certfile->0, c.keyfile->0, Ok(())) {
                    r is Ok
                } else {
                    r matches Err(ErrorType::Generic)
                }
            },
        }
    }
}

/// Runs the checks in order on what was read from the machine.
pub fn check_system_config(probe: &SystemProbe) -> (r: Result<(), ErrorType>)
    ensures
        system_check_ok(*probe, r),
{
    if !probe.mosquitto_found {
        return Err(ErrorType::MosquittoNotInstalled);
    }
    let active = match &probe.service_stdout {
        Some(s) => service_active(Some(s.as_str())),
        None => service_active(None),
    };
    if active.is_err() {
        return Err(ErrorType::MosquittoServiceInactive);
    }
    if !probe.listening {
        return Err(ErrorType::MosquittoServiceInactive);
    }
    validate_mosquitto_conf(probe.conf_size, probe.conf_lines.as_ref())?;
    let cfg = validate_mtls_conf(probe.mtls_lines.as_ref())?;
    let _ = validate_certificate_files(&probe.files);
    match validate_certificate_coherence(&cfg) {
        Ok(()) => Ok(()),
        Err(_) => Err(ErrorType::Generic),
    }
}

} // verus!
