//! Certificate and private-key material: generated self-signed, or decoded
//! from the bytes of a certificate file and a key file.
use vstd::prelude::*;
use vstd::utf8::is_ascii_chars;

verus! {

#[verifier::external_type_specification]
#[verifier::external_body]
pub struct ExRcgenError(rcgen::RcgenError);

/// A DER-encoded X.509 certificate, kept as opaque bytes.
#[derive(Debug)]
pub struct CertificateMaterial {
    pub der: Vec<u8>,
}

/// A DER-encoded private key, whatever encoding the key was read from.
#[derive(Debug)]
pub struct PrivateKeyMaterial {
    pub der: Vec<u8>,
}

/// Why self-signing failed.
#[derive(Debug)]
pub enum GenerationCause {
    /// A subject alternative name is not ASCII, which certificate names
    /// must be.
    InvalidName,
    /// The certificate generator reported an error.
    Library(rcgen::RcgenError),
    /// The generator produced an empty certificate or key encoding.
    EmptyEncoding,
}

/// The failures of certificate provisioning.
#[derive(Debug)]
pub enum ProvisionError {
    /// Generating a self-signed certificate failed.
    CertificateGenerationFailure(GenerationCause),
    /// The certificate or key file could not be read.
    KeyFileIOFailure(String),
    /// The key file holds PEM content that does not parse.
    KeyParseFailure(String),
    /// The key file parses but holds no PKCS#8 or RSA private key.
    KeyNotFound,
}

/// What `std::path::Path::extension` gives for a path: the text after the
/// last `.` of its file name, if it has one.
pub uninterp spec fn path_extension_of(path: Seq<char>) -> Option<Seq<char>>;

/// The DER bodies of the PKCS#8 private-key sections of a PEM text, in order,
/// or `None` where the text does not parse.
pub uninterp spec fn pkcs8_keys_of(pem: Seq<u8>) -> Option<Seq<Seq<u8>>>;

/// The DER bodies of the RSA private-key sections of a PEM text, in order,
/// or `None` where the text does not parse.
pub uninterp spec fn rsa_keys_of(pem: Seq<u8>) -> Option<Seq<Seq<u8>>>;

/// A key path whose extension is exactly `der`.
pub open spec fn is_der_path(path: Seq<char>) -> bool {
    path_extension_of(path) == Some(seq!['d', 'e', 'r'])
}

/// Relies on `rcgen::generate_simple_self_signed`, then on
/// `rcgen::Certificate::serialize_der` and
/// `rcgen::Certificate::serialize_private_key_der` of the certificate it
/// made: the self-signed certificate in DER and its fresh key pair in PKCS#8
/// DER. The key is random, so nothing is stated of the result. Serializing
/// panics on a name that is not ASCII (rcgen writes names as IA5 strings) and
/// on a remote key pair; `requires` leaves out the first, and the generated
/// key pair is always local.
#[verifier::external_body]
fn self_signed_der(subject_alt_names: Vec<String>) -> (r: Result<
    (Vec<u8>, Vec<u8>),
    rcgen::RcgenError,
>)
    requires
        names_are_ascii(subject_alt_names@),
{
    let cert = rcgen::generate_simple_self_signed(subject_alt_names)?;
    let key = cert.serialize_private_key_der();
    Ok((cert.serialize_der()?, key))
}

/// Relies on `std::path::Path::extension`: the extension of the path's file
/// name. The path is UTF-8, so the extension is too.
#[verifier::external_body]
fn path_extension(path: &str) -> (r: Option<String>)
    ensures
        match r {
            Some(ext) => path_extension_of(path@) == Some(ext@),
            None => path_extension_of(path@).is_none(),
        },
{
    match std::path::Path::new(path).extension() {
        Some(ext) => Some(ext.to_string_lossy().into_owned()),
        None => None,
    }
}

/// Relies on `rustls_pemfile::pkcs8_private_keys`: every PKCS#8 private key
/// of the PEM text, in order, or the parser's error.
#[verifier::external_body]
fn pem_pkcs8_keys(pem: &[u8]) -> (r: Result<Vec<Vec<u8>>, String>)
    ensures
        match r {
            Ok(keys) => pkcs8_keys_of(pem@) == Some(keys@.map_values(|k: Vec<u8>| k@)),
            Err(_) => pkcs8_keys_of(pem@).is_none(),
        },
{
    let mut rd: &[u8] = pem;
    match rustls_pemfile::pkcs8_private_keys(&mut rd) {
        Ok(keys) => Ok(keys),
        Err(e) => Err(e.to_string()),
    }
}

/// Relies on `rustls_pemfile::rsa_private_keys`: every RSA (PKCS#1) private
/// key of the PEM text, in order, or the parser's error.
#[verifier::external_body]
fn pem_rsa_keys(pem: &[u8]) -> (r: Result<Vec<Vec<u8>>, String>)
    ensures
        match r {
            Ok(keys) => rsa_keys_of(pem@) == Some(keys@.map_values(|k: Vec<u8>| k@)),
            Err(_) => rsa_keys_of(pem@).is_none(),
        },
{
    let mut rd: &[u8] = pem;
    match rustls_pemfile::rsa_private_keys(&mut rd) {
        Ok(keys) => Ok(keys),
        Err(e) => Err(e.to_string()),
    }
}

/// Every name is ASCII text.
pub open spec fn names_are_ascii(names: Seq<String>) -> bool {
    forall|i: int| 0 <= i < names.len() ==> is_ascii_chars(#[trigger] names[i]@)
}

/// Puts together the certificate and key encodings that the generator
/// returned: its error is kept as the cause, and an empty encoding is a
/// failure too.
pub fn self_signed_pair(cert_der: Result<Vec<u8>, rcgen::RcgenError>, key_der: Vec<u8>) -> (r:
    Result<(CertificateMaterial, PrivateKeyMaterial), ProvisionError>)
    ensures
        match cert_der {
            Err(e) => r == Err::<(CertificateMaterial, PrivateKeyMaterial), ProvisionError>(
                ProvisionError::CertificateGenerationFailure(GenerationCause::Library(e)),
            ),
            Ok(d) => if d@.len() > 0 && key_der@.len() > 0 {
                r matches Ok((c, k)) && c.der@ == d@ && k.der@ == key_der@
            } else {
                r matches Err(
                    ProvisionError::CertificateGenerationFailure(GenerationCause::EmptyEncoding),
                )
            },
        },
{
    match cert_der {
        Err(e) => Err(ProvisionError::CertificateGenerationFailure(GenerationCause::Library(e))),
        Ok(der) => {
            if der.len() == 0 || key_der.len() == 0 {
                Err(ProvisionError::CertificateGenerationFailure(GenerationCause::EmptyEncoding))
            } else {
                Ok((CertificateMaterial { der }, PrivateKeyMaterial { der: key_der }))
            }
        },
    }
}

/// Generates a self-signed certificate and its private key for the given
/// subject alternative names. A name that is not ASCII fails with
/// `InvalidName` before anything is generated; otherwise either both
/// encodings are non-empty, or the call fails with
/// `CertificateGenerationFailure`.
pub fn generate_self_signed(subject_alt_names: Vec<String>) -> (r: Result<
    (CertificateMaterial, PrivateKeyMaterial),
    ProvisionError,
>)
    ensures
        !names_are_ascii(subject_alt_names@) <==> r matches Err(
            ProvisionError::CertificateGenerationFailure(GenerationCause::InvalidName),
        ),
        match r {
            Ok((cert, key)) => cert.der@.len() > 0 && key.der@.len() > 0,
            Err(e) => e is CertificateGenerationFailure,
        },
{
    let mut i: usize = 0;
    while i < subject_alt_names.len()
        invariant
            i <= subject_alt_names@.len(),
            forall|j: int| 0 <= j < i ==> is_ascii_chars(#[trigger] subject_alt_names@[j]@),
        decreases subject_alt_names@.len() - i,
    {
        if !subject_alt_names[i].as_str().is_ascii() {
            return Err(ProvisionError::CertificateGenerationFailure(GenerationCause::InvalidName));
        }
        i = i + 1;
    }
    match self_signed_der(subject_alt_names) {
        Err(e) => self_signed_pair(Err(e), Vec::new()),
        Ok((cert_der, key_der)) => self_signed_pair(Ok(cert_der), key_der),
    }
}

/// The first key that a PEM parse found, if any; a parse error becomes
/// `KeyParseFailure` with the parser's message.
pub fn first_key(parsed: Result<Vec<Vec<u8>>, String>) -> (r: Result<
    Option<PrivateKeyMaterial>,
    ProvisionError,
>)
    ensures
        match parsed {
            Err(msg) => r == Err::<Option<PrivateKeyMaterial>, ProvisionError>(
                ProvisionError::KeyParseFailure(msg),
            ),
            Ok(keys) => if keys@.len() > 0 {
                r matches Ok(Some(k)) && k.der@ == keys@[0]@
            } else {
                r matches Ok(None)
            },
        },
{
    match parsed {
        Err(msg) => Err(ProvisionError::KeyParseFailure(msg)),
        Ok(mut keys) => {
            if keys.len() > 0 {
                let der = keys.swap_remove(0);
                Ok(Some(PrivateKeyMaterial { der }))
            } else {
                Ok(None)
            }
        },
    }
}

/// Decodes a certificate file and a key file, given their contents and the
/// key file's path. The certificate is taken verbatim. A key path with the
/// extension `der` has the key taken verbatim too; otherwise the key file is
/// read as PEM: its first PKCS#8 key, else its first RSA key, else
/// `KeyNotFound`.
pub fn read_certs_key(cert: Vec<u8>, key_path: &str, key: Vec<u8>) -> (r: Result<
    (CertificateMaterial, PrivateKeyMaterial),
    ProvisionError,
>)
    ensures
        r matches Ok((c, _)) ==> c.der@ == cert@,
        is_der_path(key_path@) ==> (r matches Ok((_, k)) && k.der@ == key@),
        !is_der_path(key_path@) ==> match pkcs8_keys_of(key@) {
            None => r matches Err(ProvisionError::KeyParseFailure(_)),
            Some(p) => if p.len() > 0 {
                r matches Ok((_, k)) && k.der@ == p[0]
            } else {
                match rsa_keys_of(key@) {
                    None => r matches Err(ProvisionError::KeyParseFailure(_)),
                    Some(q) => if q.len() > 0 {
                        r matches Ok((_, k)) && k.der@ == q[0]
                    } else {
                        r matches Err(ProvisionError::KeyNotFound)
                    },
                }
            },
        },
{
    let der_ext = "der".to_owned();
    let is_der = match path_extension(key_path) {
        Some(ext) => ext == der_ext,
        None => false,
    };
    proof {
        reveal_strlit("der");
        assert(der_ext@ =~= seq!['d', 'e', 'r']);
    }
    let private_key = if is_der {
        PrivateKeyMaterial { der: key }
    } else {
        match first_key(pem_pkcs8_keys(key.as_slice())) {
            Err(e) => return Err(e),
            Ok(Some(k)) => k,
            Ok(None) => match first_key(pem_rsa_keys(key.as_slice())) {
                Err(e) => return Err(e),
                Ok(Some(k)) => k,
                Ok(None) => return Err(ProvisionError::KeyNotFound),
            },
        }
    };
    Ok((CertificateMaterial { der: cert }, private_key))
}

} // verus!
