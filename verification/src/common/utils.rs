use std::str::FromStr;
use vstd::prelude::*;
use crate::common::text::{eq_ignore_ascii_case, same_ignoring_ascii_case, str_eq};
use crate::common::udp::UdpRelayMode;

verus! {

/// An IP address, in network order.
#[derive(Clone, Copy, Debug, PartialEq, Eq)]
pub enum IpAddress {
    V4([u8; 4]),
    V6([u8; 16]),
}

/// The algorithm that paces what a connection sends.
#[derive(Clone, Copy, Debug, PartialEq, Eq, Structural)]
pub enum CongestionController {
    Bbr,
    Cubic,
    NewReno,
}

/// A name that stands for no congestion controller.
#[derive(Clone, Copy, Debug, PartialEq, Eq, Structural)]
pub struct InvalidCongestionController;

/// A name that stands for no UDP relay mode.
#[derive(Clone, Copy, Debug, PartialEq, Eq, Structural)]
pub struct InvalidUdpRelayMode;

/// The congestion controller that a name stands for: `cubic`, `new_reno`
/// or `newreno`, `bbr`, in any case.
pub open spec fn congestion_controller_named(s: Seq<char>) -> Option<CongestionController> {
    if same_ignoring_ascii_case(s, "cubic"@) {
        Some(CongestionController::Cubic)
    } else if same_ignoring_ascii_case(s, "new_reno"@) || same_ignoring_ascii_case(s, "newreno"@) {
        Some(CongestionController::NewReno)
    } else if same_ignoring_ascii_case(s, "bbr"@) {
        Some(CongestionController::Bbr)
    } else {
        None
    }
}

/// The UDP relay mode that a name stands for: `native` or `quic`, in any
/// case.
pub open spec fn udp_relay_mode_named(s: Seq<char>) -> Option<UdpRelayMode> {
    if same_ignoring_ascii_case(s, "native"@) {
        Some(UdpRelayMode::Native)
    } else if same_ignoring_ascii_case(s, "quic"@) {
        Some(UdpRelayMode::Quic)
    } else {
        None
    }
}

impl Default for CongestionController {
    fn default() -> (c: Self)
        ensures
            c == CongestionController::Cubic,
    {
        CongestionController::Cubic
    }
}

impl CongestionController {
    /// The controller's name in configuration files.
    pub fn name(&self) -> (name: &'static str)
        ensures
            name@ == match *self {
                CongestionController::Bbr => "bbr"@,
                CongestionController::Cubic => "cubic"@,
                CongestionController::NewReno => "new_reno"@,
            },
    {
        match self {
            CongestionController::Bbr => "bbr",
            CongestionController::Cubic => "cubic",
            CongestionController::NewReno => "new_reno",
        }
    }
}

impl FromStr for CongestionController {
    type Err = InvalidCongestionController;

    fn from_str(s: &str) -> (r: Result<Self, Self::Err>)
        ensures
            match r {
                Ok(c) => congestion_controller_named(s@) == Some(c),
                Err(_) => congestion_controller_named(s@) is None,
            },
    {
        if eq_ignore_ascii_case(s, "cubic") {
            Ok(CongestionController::Cubic)
        } else if eq_ignore_ascii_case(s, "new_reno") || eq_ignore_ascii_case(s, "newreno") {
            Ok(CongestionController::NewReno)
        } else if eq_ignore_ascii_case(s, "bbr") {
            Ok(CongestionController::Bbr)
        } else {
            Err(InvalidCongestionController)
        }
    }
}

impl FromStr for UdpRelayMode {
    type Err = InvalidUdpRelayMode;

    fn from_str(s: &str) -> (r: Result<Self, Self::Err>)
        ensures
            match r {
                Ok(mode) => udp_relay_mode_named(s@) == Some(mode),
                Err(_) => udp_relay_mode_named(s@) is None,
            },
    {
        if eq_ignore_ascii_case(s, "native") {
            Ok(UdpRelayMode::Native)
        } else if eq_ignore_ascii_case(s, "quic") {
            Ok(UdpRelayMode::Quic)
        } else {
            Err(InvalidUdpRelayMode)
        }
    }
}

/// How a certificate or key file is encoded.
#[derive(Clone, Copy, Debug, PartialEq, Eq, Structural)]
pub enum Encoding {
    /// One object in DER.
    Der,
    /// Any number of objects in PEM.
    Pem,
}

/// The encoding that a file's extension stands for: `der` is DER, and
/// any other extension, or none, is PEM.
pub fn encoding_of(extension: Option<&str>) -> (encoding: Encoding)
    ensures
        encoding == match extension {
            Some(ext) => if ext@ == "der"@ {
                Encoding::Der
            } else {
                Encoding::Pem
            },
            None => Encoding::Pem,
        },
{
    match extension {
        Some(ext) => if str_eq(ext, "der") {
            Encoding::Der
        } else {
            Encoding::Pem
        },
        None => Encoding::Pem,
    }
}

/// How a private key is laid out.
#[derive(Clone, Copy, Debug, PartialEq, Eq, Structural)]
pub enum KeyKind {
    Pkcs1,
    Sec1,
    Pkcs8,
}

/// A private key in DER.
#[derive(Debug, PartialEq, Eq)]
pub struct PrivateKey {
    pub kind: KeyKind,
    pub der: Vec<u8>,
}

/// Why a certificate chain could not be read.
#[derive(Clone, Copy, Debug, PartialEq, Eq, Structural)]
pub enum CertError {
    /// The file is not PEM.
    InvalidPem,
}

/// Why a private key could not be read.
#[derive(Clone, Copy, Debug, PartialEq, Eq, Structural)]
pub enum KeyError {
    /// The file is not PEM, or holds a key of a layout that is not known.
    Malformed,
    /// The file holds no private key.
    NoPrivateKey,
}

/// The certificates that a PEM file holds, each in DER, in the order of
/// the file; nothing where the file is malformed.
pub uninterp spec fn pem_certificates(pem: Seq<u8>) -> Option<Seq<Seq<u8>>>;

/// The first private key that a PEM file holds, with its layout, if it
/// holds one; an error where the file is malformed.
pub uninterp spec fn pem_private_key(pem: Seq<u8>) -> Result<Option<(KeyKind, Seq<u8>)>, ()>;

/// What a list of DER objects stands for.
pub open spec fn ders(list: Seq<Vec<u8>>) -> Seq<Seq<u8>> {
    list.map_values(|der: Vec<u8>| der@)
}

/// `rustls_pemfile::certs`: every certificate of a PEM file, or nothing
/// where reading the file fails.
#[verifier::external_body]
fn pem_certs(pem: &[u8]) -> (r: Option<Vec<Vec<u8>>>)
    ensures
        match r {
            Some(certs) => pem_certificates(pem@) == Some(ders(certs@)),
            None => pem_certificates(pem@) is None,
        },
{
    let mut reader = pem;
    rustls_pemfile::certs(&mut reader).map(|cert| cert.map(|der| der.as_ref().to_vec())).collect::<
        Result<Vec<_>, _>,
    >().ok()
}

/// `rustls_pemfile::private_key`: the first private key of a PEM file.
#[verifier::external_body]
fn pem_key(pem: &[u8]) -> (r: Result<Option<PrivateKey>, ()>)
    ensures
        match r {
            Ok(Some(key)) => pem_private_key(pem@) == Ok::<_, ()>(Some((key.kind, key.der@))),
            Ok(None) => pem_private_key(pem@) == Ok::<Option<(KeyKind, Seq<u8>)>, ()>(None),
            Err(_) => pem_private_key(pem@) is Err,
        },
{
    let mut reader = pem;
    let (kind, key) = match rustls_pemfile::private_key(&mut reader) {
        Ok(Some(key @ rustls::pki_types::PrivateKeyDer::Pkcs1(_))) => (KeyKind::Pkcs1, key),
        Ok(Some(key @ rustls::pki_types::PrivateKeyDer::Sec1(_))) => (KeyKind::Sec1, key),
        Ok(Some(key @ rustls::pki_types::PrivateKeyDer::Pkcs8(_))) => (KeyKind::Pkcs8, key),
        Ok(None) => return Ok(None),
        _ => return Err(()),
    };
    Ok(Some(PrivateKey { kind, der: key.secret_der().to_vec() }))
}

/// The certificate chain that a file holds, each certificate in DER. A
/// file with the extension `der` is one certificate as it stands; any
/// other is read as PEM.
pub fn load_cert_chain(file: Vec<u8>, extension: Option<&str>) -> (r: Result<
    Vec<Vec<u8>>,
    CertError,
>)
    ensures
        match r {
            Ok(chain) => if extension matches Some(ext) && ext@ == "der"@ {
                ders(chain@) == seq![file@]
            } else {
                pem_certificates(file@) == Some(ders(chain@))
            },
            Err(CertError::InvalidPem) => !(extension matches Some(ext) && ext@ == "der"@)
                && pem_certificates(file@) is None,
        },
{
    match encoding_of(extension) {
        Encoding::Der => {
            let mut chain: Vec<Vec<u8>> = Vec::new();
            chain.push(file);
            Ok(chain)
        },
        Encoding::Pem => match pem_certs(file.as_slice()) {
            Some(chain) => Ok(chain),
            None => Err(CertError::InvalidPem),
        },
    }
}

/// The private key that a file holds. A file with the extension `der` is
/// a PKCS #8 key as it stands; any other is read as PEM, and its first
/// private key is taken.
pub fn load_priv_key(file: Vec<u8>, extension: Option<&str>) -> (r: Result<PrivateKey, KeyError>)
    ensures
        if extension matches Some(ext) && ext@ == "der"@ {
            r matches Ok(key) && key.kind == KeyKind::Pkcs8 && key.der@ == file@
        } else {
            match pem_private_key(file@) {
                Ok(Some((kind, der))) => r matches Ok(key) && key.kind == kind && key.der@ == der,
                Ok(None) => r == Err::<PrivateKey, _>(KeyError::NoPrivateKey),
                Err(_) => r == Err::<PrivateKey, _>(KeyError::Malformed),
            }
        },
{
    match encoding_of(extension) {
        Encoding::Der => Ok(PrivateKey { kind: KeyKind::Pkcs8, der: file }),
        Encoding::Pem => match pem_key(file.as_slice()) {
            Ok(Some(key)) => Ok(key),
            Ok(None) => Err(KeyError::NoPrivateKey),
            Err(_) => Err(KeyError::Malformed),
        },
    }
}

} // verus!
