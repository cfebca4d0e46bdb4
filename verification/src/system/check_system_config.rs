//! Lenient diagnosis of the broker's mTLS set-up: the settings may come from
//! the main configuration file or from the files and directories it includes.
//!
//! Reading files is left to the caller, which hands over the lines of each
//! file and the entries of each directory by path; `scan_mosquitto_config`
//! follows the includes through them.

use vstd::prelude::*;
use crate::system::check::{reports_active, service_active};
use crate::system::domain::{CertFiles, FileInfo};
use crate::system::path::{extension_of, path_eq, path_extension, same_path};
use crate::keyed::StringMap;
use crate::text::{directive, parse_directive, parse_u16, parse_unsigned, text_is};

verus! {

/// Errors of the lenient diagnosis.
#[derive(Debug, PartialEq, Eq)]
pub enum ErrorType {
    Generic,
    Config(String),
    /// A file could not be read; the text is the system's message.
    Io(String),
}

/// The mTLS settings found so far.
#[derive(Debug, Default)]
pub struct MtlsConfig {
    pub listener: Option<u16>,
    pub cafile: Option<String>,
    pub certfile: Option<String>,
    pub keyfile: Option<String>,
    pub require_certificate: bool,
    pub use_identity_as_username: bool,
}

/// The value of an `MtlsConfig`.
pub struct MtlsConfigView {
    pub listener: Option<u16>,
    pub cafile: Option<Seq<char>>,
    pub certfile: Option<Seq<char>>,
    pub keyfile: Option<Seq<char>>,
    pub require_certificate: bool,
    pub use_identity_as_username: bool,
}

/// The view of an optional text.
pub open spec fn opt_view(t: Option<String>) -> Option<Seq<char>> {
    match t {
        Some(s) => Some(s@),
        None => None,
    }
}

impl View for MtlsConfig {
    type V = MtlsConfigView;

    open spec fn view(&self) -> MtlsConfigView {
        MtlsConfigView {
            listener: self.listener,
            cafile: opt_view(self.cafile),
            certfile: opt_view(self.certfile),
            keyfile: opt_view(self.keyfile),
            require_certificate: self.require_certificate,
            use_identity_as_username: self.use_identity_as_username,
        }
    }
}

/// A file or directory that a configuration line includes.
#[derive(Debug, PartialEq, Eq)]
pub enum Include {
    File(String),
    Dir(String),
}

/// The settings after one line.
pub open spec fn apply(c: MtlsConfigView, line: Seq<char>) -> MtlsConfigView {
    match directive(line) {
        Some((k, Some(v))) => if k == "listener"@ {
            MtlsConfigView {
                listener: match parse_unsigned(v, 65535) {
                    Some(x) => Some(x as u16),
                    None => None,
                },
                ..c
            }
        } else if k == "cafile"@ {
            MtlsConfigView { cafile: Some(v), ..c }
        } else if k == "certfile"@ {
            MtlsConfigView { certfile: Some(v), ..c }
        } else if k == "keyfile"@ {
            MtlsConfigView { keyfile: Some(v), ..c }
        } else if k == "require_certificate"@ && v == "true"@ {
            MtlsConfigView { require_certificate: true, ..c }
        } else if k == "use_identity_as_username"@ && v == "true"@ {
            MtlsConfigView { use_identity_as_username: true, ..c }
        } else {
            c
        },
        _ => c,
    }
}

/// What a line includes, if anything.
pub open spec fn included(line: Seq<char>) -> Option<(bool, Seq<char>)> {
    match directive(line) {
        Some((k, Some(v))) => if k == "include_file"@ {
            Some((true, v))
        } else if k == "include_dir"@ {
            Some((false, v))
        } else {
            None
        },
        _ => None,
    }
}

/// Applies one line to `cfg` and reports the file or directory it includes;
/// the caller scans what is included before the next line.
pub fn scan_line(cfg: &mut MtlsConfig, line: &str) -> (inc: Option<Include>)
    ensures
        final(cfg)@ == apply(old(cfg)@, line@),
        match included(line@) {
            Some((is_file, q)) => if is_file {
                inc matches Some(Include::File(p)) && p@ == q
            } else {
                inc matches Some(Include::Dir(p)) && p@ == q
            },
            None => inc is None,
        },
{
    proof {
        reveal_strlit("include_file");
        reveal_strlit("include_dir");
        reveal_strlit("listener");
        reveal_strlit("cafile");
        reveal_strlit("certfile");
        reveal_strlit("keyfile");
        reveal_strlit("require_certificate");
        reveal_strlit("use_identity_as_username");
        assert("include_file"@.len() == 12);
        assert("include_dir"@.len() == 11);
        assert("listener"@.len() == 8);
        assert("cafile"@.len() == 6);
        assert("certfile"@.len() == 8);
        assert("keyfile"@.len() == 7);
        assert("require_certificate"@.len() == 19);
        assert("use_identity_as_username"@.len() == 24);
    }
    match parse_directive(line) {
        Some((key, Some(p))) => {
            if text_is(&key, "listener") {
                cfg.listener = parse_u16(p.as_str());
                None
            } else if text_is(&key, "cafile") {
                cfg.cafile = Some(p);
                None
            } else if text_is(&key, "certfile") {
                cfg.certfile = Some(p);
                None
            } else if text_is(&key, "keyfile") {
                cfg.keyfile = Some(p);
                None
            } else if text_is(&key, "require_certificate") && text_is(&p, "true") {
                cfg.require_certificate = true;
                None
            } else if text_is(&key, "use_identity_as_username") && text_is(&p, "true") {
                cfg.use_identity_as_username = true;
                None
            } else if text_is(&key, "include_file") {
                Some(Include::File(p))
            } else if text_is(&key, "include_dir") {
                Some(Include::Dir(p))
            } else {
                None
            }
        },
        _ => None,
    }
}

/// Whether a directory entry is scanned: its extension is `conf`.
pub fn is_conf_entry(path: &str) -> (b: bool)
    ensures
        b == (path_extension(path@) == Some("conf"@)),
{
    match extension_of(path) {
        Some(e) => text_is(&e, "conf"),
        None => false,
    }
}

/// The settings from an empty start.
pub fn new_config() -> (cfg: MtlsConfig)
    ensures
        cfg@ == (MtlsConfigView {
            listener: None,
            cafile: None,
            certfile: None,
            keyfile: None,
            require_certificate: false,
            use_identity_as_username: false,
        }),
{
    MtlsConfig {
        listener: None,
        cafile: None,
        certfile: None,
        keyfile: None,
        require_certificate: false,
        use_identity_as_username: false,
    }
}

/// Whether the settings are complete: a listener, the three files and
/// client certificates required.
pub open spec fn complete(c: MtlsConfigView) -> bool {
    c.listener is Some && c.cafile is Some && c.certfile is Some && c.keyfile is Some && c.require_certificate
}

/// Decides on the settings gathered by the scan (or the error that stopped
/// it): complete settings pass, incomplete ones are a generic error.
pub fn check_mtls_config(scanned: Result<MtlsConfig, ErrorType>) -> (r: Result<MtlsConfig, ErrorType>)
    ensures
        match scanned {
            Err(e) => r == Err::<MtlsConfig, ErrorType>(e),
            Ok(c) => if complete(c@) {
                r matches Ok(d) && d@ == c@
            } else {
                r matches Err(ErrorType::Generic)
            },
        },
{
    match scanned {
        Err(e) => Err(e),
        Ok(config) => {
            if config.listener.is_some() && config.cafile.is_some() && config.certfile.is_some()
                && config.keyfile.is_some() && config.require_certificate {
                Ok(config)
            } else {
                Err(ErrorType::Generic)
            }
        },
    }
}

/// The error of a certificate or key file, if any.
pub open spec fn cert_file_error(info: FileInfo, is_private_key: bool) -> Option<Seq<char>> {
    if !info.is_file {
        Some("❌ FALLO: Certificado mTLS inválido"@)
    } else if info.len == 0 {
        Some("❌ FALLO: Certificado mTLS vacío"@)
    } else if is_private_key && info.mode & 0o077 != 0 {
        Some("❌ FALLO: Permisos de clave privada inseguros"@)
    } else {
        None
    }
}

/// What checking one file gives: the lookup error, the file's error, or success.
pub open spec fn cert_file_ok(f: Result<FileInfo, String>, is_private_key: bool, r: Result<(), ErrorType>) -> bool {
    match f {
        Err(e) => r matches Err(ErrorType::Io(m)) && m@ == e@,
        Ok(info) => match cert_file_error(info, is_private_key) {
            Some(msg) => r matches Err(ErrorType::Config(m)) && m@ == msg,
            None => r is Ok,
        },
    }
}

/// Checks a certificate or key file from its metadata.
pub fn check_cert_file(f: &Result<FileInfo, String>, is_private_key: bool) -> (r: Result<(), ErrorType>)
    ensures
        cert_file_ok(*f, is_private_key, r),
{
    match f {
        Err(e) => Err(ErrorType::Io(e.clone())),
        Ok(info) => {
            if !info.is_file {
                return Err(ErrorType::Config(String::from_str("❌ FALLO: Certificado mTLS inválido")));
            }
            if info.len == 0 {
                return Err(ErrorType::Config(String::from_str("❌ FALLO: Certificado mTLS vacío")));
            }
            if is_private_key && (info.mode & 0o077) != 0 {
                return Err(ErrorType::Config(String::from_str("❌ FALLO: Permisos de clave privada inseguros")));
            }
            Ok(())
        },
    }
}

/// The outcome of checking the CA, certificate and key files in order.
pub open spec fn certificate_files_ok(files: CertFiles, r: Result<(), ErrorType>) -> bool {
    if !cert_file_ok(files.cafile, false, Ok(())) {
        cert_file_ok(files.cafile, false, r)
    } else if !cert_file_ok(files.certfile, false, Ok(())) {
        cert_file_ok(files.certfile, false, r)
    } else {
        cert_file_ok(files.keyfile, true, r)
    }
}

/// Checks the CA, certificate and key files, in order, from their metadata.
pub fn check_certificate_files(files: &CertFiles) -> (r: Result<(), ErrorType>)
    ensures
        certificate_files_ok(*files, r),
{
    check_cert_file(&files.cafile, false)?;
    check_cert_file(&files.certfile, false)?;
    check_cert_file(&files.keyfile, true)?;
    Ok(())
}

/// The outcome of the coherence check on three paths.
pub open spec fn coherence_ok(ca: Seq<char>, cert: Seq<char>, key: Seq<char>, r: Result<(), ErrorType>) -> bool {
    if path_eq(ca, cert) {
        r matches Err(ErrorType::Config(m)) && m@ == "❌ FALLO: Los certificados de CA y Server son iguales"@
    } else if path_extension(cert) != Some("crt"@) {
        r matches Err(ErrorType::Config(m)) && m@
            == "❌ FALLO: La extensión de archivo del certificado Server es inválida"@
    } else if path_extension(key) != Some("key"@) {
        r matches Err(ErrorType::Config(m)) && m@
            == "❌ FALLO: La extensión de archivo de la clave privada es inválida"@
    } else {
        r is Ok
    }
}

fn has_extension(p: &str, ext: &str) -> (b: bool)
    ensures
        b == (path_extension(p@) == Some(ext@)),
{
    match extension_of(p) {
        Some(e) => text_is(&e, ext),
        None => false,
    }
}

/// Checks that CA and certificate differ and that certificate and key have
/// the `.crt` and `.key` extensions. The three paths must be set.
pub fn check_certificate_coherence(cfg: &MtlsConfig) -> (r: Result<(), ErrorType>)
    requires
        cfg.cafile is Some,
        cfg.certfile is Some,
        cfg.keyfile is Some,
    ensures
        coherence_ok(cfg.cafile->0@, cfg.certfile->0@, cfg.keyfile->0@, r),
        cfg.cafile->0@ == cfg.certfile->0@ ==> (r matches Err(ErrorType::Config(m)) && m@
            == "❌ FALLO: Los certificados de CA y Server son iguales"@),
{
    let ca = cfg.cafile.as_ref().unwrap();
    let cert = cfg.certfile.as_ref().unwrap();
    let key = cfg.keyfile.as_ref().unwrap();
    if same_path(ca.as_str(), cert.as_str()) {
        return Err(ErrorType::Config(String::from_str("❌ FALLO: Los certificados de CA y Server son iguales")));
    }
    if !has_extension(cert.as_str(), "crt") {
        return Err(
            ErrorType::Config(String::from_str("❌ FALLO: La extensión de archivo del certificado Server es inválida")),
        );
    }
    if !has_extension(key.as_str(), "key") {
        return Err(
            ErrorType::Config(String::from_str("❌ FALLO: La extensión de archivo de la clave privada es inválida")),
        );
    }
    Ok(())
}

/// The outcome of checking that `mosquitto.conf` exists and is not empty.
pub open spec fn conf_file_ok(size: Option<u64>, r: Result<(), ErrorType>) -> bool {
    match size {
        None => r matches Err(ErrorType::Config(m)) && m@
            == "❌ FALLO: El archivo de configuración de mosquitto no existe o no es accesible"@,
        Some(n) => if n == 0 {
            r matches Err(ErrorType::Config(m)) && m@ == "❌ FALLO: El archivo de configuración de mosquitto esta vacío"@
        } else {
            r is Ok
        },
    }
}

/// Checks that `mosquitto.conf` exists and is not empty, given its size
/// (`None` when it cannot be reached).
pub fn validate_mosquitto_file_config(size: Option<u64>) -> (r: Result<(), ErrorType>)
    ensures
        conf_file_ok(size, r),
{
    match size {
        None => Err(
            ErrorType::Config(
                String::from_str("❌ FALLO: El archivo de configuración de mosquitto no existe o no es accesible"),
            ),
        ),
        Some(n) => {
            if n == 0 {
                Err(ErrorType::Config(String::from_str("❌ FALLO: El archivo de configuración de mosquitto esta vacío")))
            } else {
                Ok(())
            }
        },
    }
}

/// What the diagnosis reads from the machine: whether the broker is
/// installed, the service's state, whether the port listens, the size of
/// `mosquitto.conf`, the settings gathered from it and what it includes (or
/// the error that stopped the scan), and the metadata of the CA, certificate
/// and key files.
pub struct DiagnosisProbe {
    pub mosquitto_found: bool,
    pub service_stdout: Option<String>,
    pub listening: bool,
    pub conf_size: Option<u64>,
    pub scanned: Result<MtlsConfig, ErrorType>,
    pub files: CertFiles,
}

/// One finding of the diagnosis, in the order they are made.
#[derive(Debug, PartialEq, Eq)]
pub enum Finding {
    Installed(bool),
    ServiceActive(bool),
    Listening(bool),
    ConfFile(Result<(), ErrorType>),
    /// Whether the settings require client certificates; the diagnosis stops
    /// when they do not.
    MtlsRequired(bool),
    CertificateFiles(Result<(), ErrorType>),
    Coherence(Result<(), ErrorType>),
}

/// Diagnoses the set-up: every check is reported; after incomplete mTLS
/// settings nothing more is checked.
pub fn diagnose(probe: DiagnosisProbe) -> (findings: Vec<Finding>)
    ensures
        findings@.len() == if probe.scanned matches Ok(c) && complete(c@) {
            7int
        } else {
            5int
        },
        findings@[0] == Finding::Installed(probe.mosquitto_found),
        findings@[1] == Finding::ServiceActive(probe.service_stdout matches Some(s) && reports_active(s@)),
        findings@[2] == Finding::Listening(probe.listening),
        findings@[3] matches Finding::ConfFile(r) && conf_file_ok(probe.conf_size, r),
        findings@[4] == Finding::MtlsRequired(probe.scanned matches Ok(c) && complete(c@)),
        match probe.scanned {
            Ok(c) => complete(c@) ==> {
                &&& findings@[5] matches Finding::CertificateFiles(r) && certificate_files_ok(probe.files, r)
                &&& findings@[6] matches Finding::Coherence(r) && coherence_ok(
                    c.cafile->0@,
                    c.certfile->0@,
                    c.keyfile->0@,
                    r,
                )
            },
            Err(_) => true,
        },
{
    let mut findings: Vec<Finding> = Vec::new();
    findings.push(Finding::Installed(probe.mosquitto_found));
    let active = match &probe.service_stdout {
        Some(s) => service_active(Some(s.as_str())),
        None => service_active(None),
    };
    findings.push(Finding::ServiceActive(active.is_ok()));
    findings.push(Finding::Listening(probe.listening));
    findings.push(Finding::ConfFile(validate_mosquitto_file_config(probe.conf_size)));
    match check_mtls_config(probe.scanned) {
        Err(_) => {
            findings.push(Finding::MtlsRequired(false));
        },
        Ok(cfg) => {
            findings.push(Finding::MtlsRequired(true));
            findings.push(Finding::CertificateFiles(check_certificate_files(&probe.files)));
            findings.push(Finding::Coherence(check_certificate_coherence(&cfg)));
        },
    }
    findings
}

/// The lines of each readable file, or the reason it cannot be read, by path.
pub type FileTexts = StringMap<Result<Vec<String>, String>>;

/// The entries of each directory, or the reason it cannot be listed, by path;
/// a path that is not a directory has no entry.
pub type DirListings = StringMap<Result<Vec<String>, String>>;

/// Where a scan of configuration files ends: with the settings gathered, with
/// a file or directory that cannot be read (and why), or with includes nested
/// deeper than the scan was allowed to follow.
pub enum ScanOutcome {
    Done(MtlsConfigView),
    Failed(Seq<char>),
    TooDeep,
}

/// Scanning a file: a file that is not known cannot be read (its path is the
/// reason given), an unreadable file gives its reason, a readable one is
/// scanned line by line.
pub open spec fn scan_file(
    fs: Map<Seq<char>, Result<Vec<String>, String>>,
    ds: Map<Seq<char>, Result<Vec<String>, String>>,
    path: Seq<char>,
    c: MtlsConfigView,
    depth: nat,
) -> ScanOutcome
    decreases depth, 2int, 0int,
{
    if !fs.contains_key(path) {
        ScanOutcome::Failed(path)
    } else {
        match fs[path] {
            Err(e) => ScanOutcome::Failed(e@),
            Ok(lines) => scan_lines(fs, ds, lines@, 0, c, depth),
        }
    }
}

/// Scanning lines from index `i`: each line updates the settings (the last
/// value of a key wins), and an included file or directory is scanned, one
/// level deeper, before the next line.
pub open spec fn scan_lines(
    fs: Map<Seq<char>, Result<Vec<String>, String>>,
    ds: Map<Seq<char>, Result<Vec<String>, String>>,
    lines: Seq<String>,
    i: int,
    c: MtlsConfigView,
    depth: nat,
) -> ScanOutcome
    decreases depth, 1int, lines.len() - i,
{
    if i < 0 || i >= lines.len() {
        ScanOutcome::Done(c)
    } else {
        let c1 = apply(c, lines[i]@);
        match included(lines[i]@) {
            None => scan_lines(fs, ds, lines, i + 1, c1, depth),
            Some((is_file, q)) => if depth == 0 {
                ScanOutcome::TooDeep
            } else {
                let inner = if is_file {
                    scan_file(fs, ds, q, c1, (depth - 1) as nat)
                } else {
                    scan_dir(fs, ds, q, c1, (depth - 1) as nat)
                };
                match inner {
                    ScanOutcome::Done(c2) => scan_lines(fs, ds, lines, i + 1, c2, depth),
                    other => other,
                }
            },
        }
    }
}

/// Scanning a directory: a path that is not a directory is skipped, an
/// unlistable one gives its reason, and otherwise its `.conf` entries are
/// scanned in listing order.
pub open spec fn scan_dir(
    fs: Map<Seq<char>, Result<Vec<String>, String>>,
    ds: Map<Seq<char>, Result<Vec<String>, String>>,
    dir: Seq<char>,
    c: MtlsConfigView,
    depth: nat,
) -> ScanOutcome
    decreases depth, 4int, 0int,
{
    if !ds.contains_key(dir) {
        ScanOutcome::Done(c)
    } else {
        match ds[dir] {
            Err(e) => ScanOutcome::Failed(e@),
            Ok(entries) => scan_entries(fs, ds, entries@, 0, c, depth),
        }
    }
}

pub open spec fn scan_entries(
    fs: Map<Seq<char>, Result<Vec<String>, String>>,
    ds: Map<Seq<char>, Result<Vec<String>, String>>,
    entries: Seq<String>,
    j: int,
    c: MtlsConfigView,
    depth: nat,
) -> ScanOutcome
    decreases depth, 3int, entries.len() - j,
{
    if j < 0 || j >= entries.len() {
        ScanOutcome::Done(c)
    } else if path_extension(entries[j]@) == Some("conf"@) {
        match scan_file(fs, ds, entries[j]@, c, depth) {
            ScanOutcome::Done(c2) => scan_entries(fs, ds, entries, j + 1, c2, depth),
            other => other,
        }
    } else {
        scan_entries(fs, ds, entries, j + 1, c, depth)
    }
}

/// Why a scan stopped.
#[derive(Debug, PartialEq, Eq)]
pub enum ScanError {
    Io(String),
    TooDeep,
}

/// Whether an exec scan's result, with the settings it left, is `o`.
pub open spec fn scan_matches(r: Result<(), ScanError>, c: MtlsConfigView, o: ScanOutcome) -> bool {
    match r {
        Ok(()) => o == ScanOutcome::Done(c),
        Err(ScanError::Io(e)) => o == ScanOutcome::Failed(e@),
        Err(ScanError::TooDeep) => o == ScanOutcome::TooDeep,
    }
}

fn scan_file_exec(files: &FileTexts, dirs: &DirListings, path: &str, cfg: &mut MtlsConfig, depth: usize) -> (r: Result<
    (),
    ScanError,
>)
    requires
        files.wf(),
        dirs.wf(),
    ensures
        scan_matches(r, final(cfg)@, scan_file(files@, dirs@, path@, old(cfg)@, depth as nat)),
    decreases depth, 2int, 0int,
{
    match files.get(path) {
        None => Err(ScanError::Io(String::from_str(path))),
        Some(Err(e)) => Err(ScanError::Io(e.clone())),
        Some(Ok(lines)) => {
            let n = lines.len();
            let mut i: usize = 0;
            while i < n
                invariant
                    files.wf(),
                    dirs.wf(),
                    n == lines@.len(),
                    i <= n,
                    scan_file(files@, dirs@, path@, old(cfg)@, depth as nat) == scan_lines(
                        files@,
                        dirs@,
                        lines@,
                        i as int,
                        cfg@,
                        depth as nat,
                    ),
                decreases n - i,
            {
                let ghost before = cfg@;
                let inc = scan_line(cfg, lines[i].as_str());
                match inc {
                    None => {},
                    Some(Include::File(p)) => {
                        if depth == 0 {
                            assert(scan_lines(files@, dirs@, lines@, i as int, before, depth as nat)
                                == ScanOutcome::TooDeep);
                            return Err(ScanError::TooDeep);
                        }
                        let ghost mid = cfg@;
                        let r = scan_file_exec(files, dirs, p.as_str(), cfg, depth - 1);
                        if r.is_err() {
                            assert(scan_lines(files@, dirs@, lines@, i as int, before, depth as nat) == scan_file(
                                files@,
                                dirs@,
                                p@,
                                mid,
                                (depth - 1) as nat,
                            ));
                            return r;
                        }
                    },
                    Some(Include::Dir(d)) => {
                        if depth == 0 {
                            assert(scan_lines(files@, dirs@, lines@, i as int, before, depth as nat)
                                == ScanOutcome::TooDeep);
                            return Err(ScanError::TooDeep);
                        }
                        let ghost mid = cfg@;
                        let r = scan_dir_exec(files, dirs, d.as_str(), cfg, depth - 1);
                        if r.is_err() {
                            assert(scan_lines(files@, dirs@, lines@, i as int, before, depth as nat) == scan_dir(
                                files@,
                                dirs@,
                                d@,
                                mid,
                                (depth - 1) as nat,
                            ));
                            return r;
                        }
                    },
                }
                i = i + 1;
            }
            Ok(())
        },
    }
}

fn scan_dir_exec(files: &FileTexts, dirs: &DirListings, dir: &str, cfg: &mut MtlsConfig, depth: usize) -> (r: Result<
    (),
    ScanError,
>)
    requires
        files.wf(),
        dirs.wf(),
    ensures
        scan_matches(r, final(cfg)@, scan_dir(files@, dirs@, dir@, old(cfg)@, depth as nat)),
    decreases depth, 4int, 0int,
{
    match dirs.get(dir) {
        None => Ok(()),
        Some(Err(e)) => Err(ScanError::Io(e.clone())),
        Some(Ok(entries)) => {
            let n = entries.len();
            let mut j: usize = 0;
            while j < n
                invariant
                    files.wf(),
                    dirs.wf(),
                    n == entries@.len(),
                    j <= n,
                    scan_dir(files@, dirs@, dir@, old(cfg)@, depth as nat) == scan_entries(
                        files@,
                        dirs@,
                        entries@,
                        j as int,
                        cfg@,
                        depth as nat,
                    ),
                decreases n - j,
            {
                if is_conf_entry(entries[j].as_str()) {
                    let ghost mid = cfg@;
                    let r = scan_file_exec(files, dirs, entries[j].as_str(), cfg, depth);
                    if r.is_err() {
                        assert(scan_entries(files@, dirs@, entries@, j as int, mid, depth as nat) == scan_file(
                            files@,
                            dirs@,
                            entries@[j as int]@,
                            mid,
                            depth as nat,
                        ));
                        return r;
                    }
                }
                j = j + 1;
            }
            Ok(())
        },
    }
}

/// The settings as scanned from a starting file, before they are judged:
/// `None` when the includes nest too deep, an `Io` error with its reason for an
/// unreadable file or directory, the gathered settings otherwise.
pub open spec fn scan_outcome_is(o: ScanOutcome, r: Option<Result<MtlsConfig, ErrorType>>) -> bool {
    match o {
        ScanOutcome::TooDeep => r is None,
        ScanOutcome::Failed(e) => r matches Some(Err(ErrorType::Io(m))) && m@ == e,
        ScanOutcome::Done(c) => r matches Some(Ok(d)) && d@ == c,
    }
}

/// No settings yet.
pub open spec fn empty_view() -> MtlsConfigView {
    MtlsConfigView {
        listener: None,
        cafile: None,
        certfile: None,
        keyfile: None,
        require_certificate: false,
        use_identity_as_username: false,
    }
}

/// Scans the main configuration file at `main_conf` and what it includes,
/// following includes at most `depth` levels deep, from no settings.
pub fn scan_mosquitto_config(files: &FileTexts, dirs: &DirListings, main_conf: &str, depth: usize) -> (r: Option<
    Result<MtlsConfig, ErrorType>,
>)
    requires
        files.wf(),
        dirs.wf(),
    ensures
        scan_outcome_is(scan_file(files@, dirs@, main_conf@, empty_view(), depth as nat), r),
{
    let mut cfg = new_config();
    match scan_file_exec(files, dirs, main_conf, &mut cfg, depth) {
        Ok(()) => Some(Ok(cfg)),
        Err(ScanError::Io(e)) => Some(Err(ErrorType::Io(e))),
        Err(ScanError::TooDeep) => None,
    }
}

/// The outcome of the mTLS check over configuration files: `None` when the
/// includes nest deeper than `depth`; an unreadable file or directory is an
/// `Io` error with its reason; otherwise the gathered settings are judged as
/// `check_mtls_config` judges them.
pub open spec fn mtls_files_outcome(o: ScanOutcome, r: Option<Result<MtlsConfig, ErrorType>>) -> bool {
    match o {
        ScanOutcome::TooDeep => r is None,
        ScanOutcome::Failed(e) => r matches Some(Err(ErrorType::Io(m))) && m@ == e,
        ScanOutcome::Done(c) => if complete(c) {
            r matches Some(Ok(d)) && d@ == c
        } else {
            r matches Some(Err(ErrorType::Generic))
        },
    }
}

/// Checks the broker's mTLS settings from the main configuration file at
/// `main_conf` and the files and directories it includes, following includes
/// at most `depth` levels deep, starting from no settings.
pub fn check_mtls_files(files: &FileTexts, dirs: &DirListings, main_conf: &str, depth: usize) -> (r: Option<
    Result<MtlsConfig, ErrorType>,
>)
    requires
        files.wf(),
        dirs.wf(),
    ensures
        mtls_files_outcome(scan_file(files@, dirs@, main_conf@, empty_view(), depth as nat), r),
{
    match scan_mosquitto_config(files, dirs, main_conf, depth) {
        Some(scanned) => Some(check_mtls_config(scanned)),
        None => None,
    }
}

} // verus!
