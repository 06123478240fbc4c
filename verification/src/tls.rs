//! The TLS material of a domain: which domains may name files, how a
//! certificate is issued and recorded, and when it is rotated.

use crate::text::{begins_with, chars_of, conjoin, contains, contains_text, push_char};
use sha2::Digest;
use vstd::prelude::*;

verus! {

/// One day in milliseconds.
pub const DAY_MS: u64 = 86_400_000;

/// One day in nanoseconds.
pub const DAY_NS: i128 = 86_400_000_000_000;

/// One millisecond in nanoseconds.
pub const MS_NS: i128 = 1_000_000;

/// The validity that a certificate gets where the caller names none, in days.
pub const DEFAULT_VALIDITY_DAYS: u64 = 30;

/// What is recorded of an issued certificate.
#[derive(Debug, PartialEq, Eq)]
pub struct TlsCertificateRecord {
    pub domain: String,
    pub cert_path: String,
    pub key_path: String,
    pub fingerprint_sha256: String,
    pub created_unix_ms: u64,
    pub expires_unix_ms: u64,
}

pub struct TlsCertificateRecordView {
    pub domain: Seq<char>,
    pub cert_path: Seq<char>,
    pub key_path: Seq<char>,
    pub fingerprint_sha256: Seq<char>,
    pub created_unix_ms: u64,
    pub expires_unix_ms: u64,
}

impl View for TlsCertificateRecord {
    type V = TlsCertificateRecordView;

    open spec fn view(&self) -> TlsCertificateRecordView {
        TlsCertificateRecordView {
            domain: self.domain@,
            cert_path: self.cert_path@,
            key_path: self.key_path@,
            fingerprint_sha256: self.fingerprint_sha256@,
            created_unix_ms: self.created_unix_ms,
            expires_unix_ms: self.expires_unix_ms,
        }
    }
}

impl Clone for TlsCertificateRecord {
    fn clone(&self) -> (copy: Self)
        ensures
            copy@ == self@,
    {
        TlsCertificateRecord {
            domain: self.domain.clone(),
            cert_path: self.cert_path.clone(),
            key_path: self.key_path.clone(),
            fingerprint_sha256: self.fingerprint_sha256.clone(),
            created_unix_ms: self.created_unix_ms,
            expires_unix_ms: self.expires_unix_ms,
        }
    }
}

/// What a rotation came to: whether new material was issued, and the record
/// that is now current.
#[derive(Debug, PartialEq, Eq)]
pub struct RotateOutcome {
    pub rotated: bool,
    pub record: TlsCertificateRecord,
}

pub struct RotateOutcomeView {
    pub rotated: bool,
    pub record: TlsCertificateRecordView,
}

impl View for RotateOutcome {
    type V = RotateOutcomeView;

    open spec fn view(&self) -> RotateOutcomeView {
        RotateOutcomeView { rotated: self.rotated, record: self.record@ }
    }
}

/// What can go wrong with TLS material. Each variant but the last holds the
/// text of the cause.
#[derive(Debug, PartialEq, Eq)]
pub enum TlsError {
    Io(String),
    Json(String),
    Rcgen(String),
    Time(String),
    InvalidDomain(String),
}

pub enum TlsErrorView {
    Io(Seq<char>),
    Json(Seq<char>),
    Rcgen(Seq<char>),
    Time(Seq<char>),
    InvalidDomain(Seq<char>),
}

impl View for TlsError {
    type V = TlsErrorView;

    open spec fn view(&self) -> TlsErrorView {
        match self {
            TlsError::Io(cause) => TlsErrorView::Io(cause@),
            TlsError::Json(cause) => TlsErrorView::Json(cause@),
            TlsError::Rcgen(cause) => TlsErrorView::Rcgen(cause@),
            TlsError::Time(cause) => TlsErrorView::Time(cause@),
            TlsError::InvalidDomain(domain) => TlsErrorView::InvalidDomain(domain@),
        }
    }
}

/// The error as one line.
pub open spec fn tls_error_text(error: TlsErrorView) -> Seq<char> {
    match error {
        TlsErrorView::Io(cause) => "io: "@ + cause,
        TlsErrorView::Json(cause) => "json: "@ + cause,
        TlsErrorView::Rcgen(cause) => "rcgen: "@ + cause,
        TlsErrorView::Time(cause) => "time: "@ + cause,
        TlsErrorView::InvalidDomain(domain) => "invalid domain for tls path: "@ + domain,
    }
}

impl TlsError {
    /// The error as one line.
    pub fn message(&self) -> (line: String)
        ensures
            line@ == tls_error_text(self@),
    {
        match self {
            TlsError::Io(cause) => conjoin("io: ", cause.as_str()),
            TlsError::Json(cause) => conjoin("json: ", cause.as_str()),
            TlsError::Rcgen(cause) => conjoin("rcgen: ", cause.as_str()),
            TlsError::Time(cause) => conjoin("time: ", cause.as_str()),
            TlsError::InvalidDomain(domain) => conjoin(
                "invalid domain for tls path: ",
                domain.as_str(),
            ),
        }
    }
}

/// An ASCII letter, an ASCII digit, `.` or `-`.
pub open spec fn is_domain_char(c: char) -> bool {
    ('a' <= c <= 'z') || ('A' <= c <= 'Z') || ('0' <= c <= '9') || c == '.' || c == '-'
}

/// A domain that may name files: not empty, made of ASCII letters, digits, `.`
/// and `-` only, so without a path separator, and without `..`.
pub open spec fn is_valid_domain(domain: Seq<char>) -> bool {
    &&& domain.len() > 0
    &&& forall|i: int| 0 <= i < domain.len() ==> is_domain_char(#[trigger] domain[i])
    &&& !contains_text(domain, seq!['.', '.'])
}

/// Accepts the domains that may name files and refuses the others, with the
/// domain in the error.
pub fn validate_domain(domain: &str) -> (result: Result<(), TlsError>)
    ensures
        match result {
            Ok(()) => is_valid_domain(domain@),
            Err(e) => !is_valid_domain(domain@) && e@ == TlsErrorView::InvalidDomain(domain@),
        },
{
    let chars = chars_of(domain);
    let mut all_allowed = true;
    let mut i: usize = 0;
    while i < chars.len()
        invariant
            i <= chars.len(),
            all_allowed == forall|j: int| 0 <= j < i ==> is_domain_char(#[trigger] chars@[j]),
        decreases chars.len() - i,
    {
        let c = chars[i];
        let allowed = ('a' <= c && c <= 'z') || ('A' <= c && c <= 'Z') || ('0' <= c && c <= '9')
            || c == '.' || c == '-';
        if !allowed {
            all_allowed = false;
        }
        i += 1;
    }
    proof {
        reveal_strlit("..");
        assert(".."@ =~= seq!['.', '.']);
    }
    if chars.len() == 0 || !all_allowed || contains(domain, "..") {
        return Err(TlsError::InvalidDomain(String::from_str(domain)));
    }
    Ok(())
}

/// The name of the certificate file of a domain.
pub fn cert_file_name(domain: &str) -> (name: String)
    ensures
        name@ == domain@ + ".crt.pem"@,
{
    conjoin(domain, ".crt.pem")
}

/// The name of the private key file of a domain.
pub fn key_file_name(domain: &str) -> (name: String)
    ensures
        name@ == domain@ + ".key.pem"@,
{
    conjoin(domain, ".key.pem")
}

/// The name of the metadata file of a domain.
pub fn meta_file_name(domain: &str) -> (name: String)
    ensures
        name@ == domain@ + ".meta.json"@,
{
    conjoin(domain, ".meta.json")
}

/// The SHA-256 digest of a sequence of bytes.
pub uninterp spec fn sha256_of(bytes: Seq<u8>) -> Seq<u8>;

/// `sha2::Sha256::digest`: the digest of `bytes`, which is 32 bytes long.
#[verifier::external_body]
fn sha256(bytes: &[u8]) -> (digest: Vec<u8>)
    ensures
        digest@ == sha256_of(bytes@),
        digest@.len() == 32,
{
    sha2::Sha256::digest(bytes).to_vec()
}

/// The lower-case hexadecimal digit for `n`.
pub open spec fn hex_digit(n: nat) -> char
    recommends
        n < 16,
{
    if n < 10 {
        (48 + n) as char
    } else {
        (87 + n) as char
    }
}

/// The bytes in lower-case hexadecimal, two digits for each.
pub open spec fn hex_of(bytes: Seq<u8>) -> Seq<char>
    decreases bytes.len(),
{
    if bytes.len() == 0 {
        Seq::empty()
    } else {
        hex_of(bytes.drop_last()).push(hex_digit((bytes.last() / 16) as nat)).push(
            hex_digit((bytes.last() % 16) as nat),
        )
    }
}

/// The lower-case hexadecimal digit for `n`.
fn hex_digit_of(n: u8) -> (c: char)
    requires
        n < 16,
    ensures
        c == hex_digit(n as nat),
{
    if n < 10 {
        (48u8 + n) as char
    } else {
        (87u8 + n) as char
    }
}

/// The bytes in lower-case hexadecimal.
pub fn hex_text(bytes: &Vec<u8>) -> (out: String)
    ensures
        out@ == hex_of(bytes@),
        out@.len() == 2 * bytes@.len(),
{
    let mut out = String::new();
    let mut i: usize = 0;
    while i < bytes.len()
        invariant
            i <= bytes.len(),
            out@ == hex_of(bytes@.take(i as int)),
            out@.len() == 2 * i,
        decreases bytes.len() - i,
    {
        proof {
            let upto = bytes@.take(i + 1);
            assert(upto.drop_last() =~= bytes@.take(i as int));
            assert(upto.last() == bytes@[i as int]);
        }
        let b: u8 = bytes[i];
        push_char(&mut out, hex_digit_of(b / 16));
        push_char(&mut out, hex_digit_of(b % 16));
        i += 1;
    }
    assert(bytes@.take(bytes.len() as int) =~= bytes@);
    out
}

/// The fingerprint of a sequence of bytes: its SHA-256 digest in lower-case
/// hexadecimal, 64 characters long.
pub fn sha256_hex(bytes: &[u8]) -> (fingerprint: String)
    ensures
        fingerprint@ == hex_of(sha256_of(bytes@)),
        fingerprint@.len() == 64,
{
    let digest = sha256(bytes);
    hex_text(&digest)
}

/// `rcgen::CertificateParams`: what a certificate is issued from.
#[verifier::external_type_specification]
#[verifier::external_body]
pub struct ExCertificateParams(rcgen::CertificateParams);

/// `rcgen::KeyPair`: a private key with its public key.
#[verifier::external_type_specification]
#[verifier::external_body]
pub struct ExKeyPair(rcgen::KeyPair);

/// `rcgen::Certificate`: an issued certificate.
#[verifier::external_type_specification]
#[verifier::external_body]
pub struct ExCertificate(rcgen::Certificate);

/// `rcgen::Error`: why a key or a certificate was not made.
#[verifier::external_type_specification]
#[verifier::external_body]
pub struct ExRcgenError(rcgen::Error);

/// `time::OffsetDateTime`: an instant.
#[verifier::external_type_specification]
#[verifier::external_body]
pub struct ExOffsetDateTime(time::OffsetDateTime);

/// `time::error::ComponentRange`: a timestamp outside the dates that can be
/// held.
#[verifier::external_type_specification]
#[verifier::external_body]
pub struct ExComponentRange(time::error::ComponentRange);

/// `rcgen::DistinguishedName`: the subject of a certificate.
#[verifier::external_type_specification]
#[verifier::external_body]
pub struct ExDistinguishedName(rcgen::DistinguishedName);

/// Whether there is an instant `nanos` nanoseconds after the Unix epoch that
/// `time::OffsetDateTime` can hold: whether
/// `time::OffsetDateTime::from_unix_timestamp_nanos` succeeds on `nanos`.
pub uninterp spec fn instant_exists(nanos: int) -> bool;

/// `time::OffsetDateTime::from_unix_timestamp_nanos`: the instant that lies
/// `nanos` nanoseconds after the Unix epoch, or an error where the crate
/// cannot hold that date. Whether it succeeds depends on `nanos` alone;
/// nothing more is claimed. Only instants from the epoch on are asked for,
/// so that every instant made here lies in the years that a certificate can
/// carry.
#[verifier::external_body]
fn instant_from_unix_nanos(nanos: i128) -> (result: Result<
    time::OffsetDateTime,
    time::error::ComponentRange,
>)
    requires
        nanos >= 0,
    ensures
        (result is Ok) == instant_exists(nanos as int),
{
    time::OffsetDateTime::from_unix_timestamp_nanos(nanos)
}

/// `rcgen::CertificateParams::new`: parameters with `name` as the one subject
/// alternative name. Nothing is claimed of the result.
#[verifier::external_body]
fn params_for_name(name: &str) -> Result<rcgen::CertificateParams, rcgen::Error> {
    rcgen::CertificateParams::new(vec![name.to_string()])
}

/// `rcgen::DistinguishedName::new`: a subject without entries.
#[verifier::external_body]
fn empty_subject() -> rcgen::DistinguishedName {
    rcgen::DistinguishedName::new()
}

/// `rcgen::DistinguishedName::push` with `rcgen::DnType::CommonName`: sets
/// the common name of a subject.
#[verifier::external_body]
fn push_common_name(subject: &mut rcgen::DistinguishedName, name: &str) {
    subject.push(rcgen::DnType::CommonName, name)
}

/// Writes the field `distinguished_name` of `rcgen::CertificateParams`.
#[verifier::external_body]
fn set_subject(params: &mut rcgen::CertificateParams, subject: rcgen::DistinguishedName) {
    params.distinguished_name = subject;
}

/// Writes the fields `not_before` and `not_after` of
/// `rcgen::CertificateParams`.
#[verifier::external_body]
fn set_validity(
    params: &mut rcgen::CertificateParams,
    not_before: time::OffsetDateTime,
    not_after: time::OffsetDateTime,
) {
    params.not_before = not_before;
    params.not_after = not_after;
}

/// `rcgen::KeyPair::generate`: a fresh random key pair. Nothing is claimed of
/// the result.
#[verifier::external_body]
fn generate_key_pair() -> Result<rcgen::KeyPair, rcgen::Error> {
    rcgen::KeyPair::generate()
}

/// `rcgen::CertificateParams::self_signed`: the certificate of `params`,
/// signed with `key_pair`. Nothing is claimed of the result.
#[verifier::external_body]
fn self_signed(params: rcgen::CertificateParams, key_pair: &rcgen::KeyPair) -> Result<
    rcgen::Certificate,
    rcgen::Error,
> {
    params.self_signed(key_pair)
}

/// Whether `text` opens as a PEM block of `tag` does: with the line
/// `-----BEGIN `, the tag, `-----`.
pub open spec fn is_pem_of(text: Seq<char>, tag: Seq<char>) -> bool {
    begins_with(text, "-----BEGIN "@ + tag + "-----"@)
}

/// `rcgen::Certificate::pem`: the certificate in PEM form, which opens with
/// the line of a `CERTIFICATE` block.
#[verifier::external_body]
fn certificate_pem(certificate: &rcgen::Certificate) -> (pem: String)
    ensures
        is_pem_of(pem@, "CERTIFICATE"@),
{
    certificate.pem()
}

/// `rcgen::KeyPair::serialize_pem`: the private key in PEM form, which opens
/// with the line of a `PRIVATE KEY` block. Only key pairs that
/// `rcgen::KeyPair::generate` made are handed to it.
#[verifier::external_body]
fn key_pair_pem(key_pair: &rcgen::KeyPair) -> (pem: String)
    ensures
        is_pem_of(pem@, "PRIVATE KEY"@),
{
    key_pair.serialize_pem()
}

/// The text of an `rcgen::Error`, as its `Display` gives it.
#[verifier::external_body]
fn rcgen_error_text(error: &rcgen::Error) -> String {
    error.to_string()
}

/// The text of a `time::error::ComponentRange`, as its `Display` gives it.
#[verifier::external_body]
fn time_error_text(error: &time::error::ComponentRange) -> String {
    error.to_string()
}

/// A certificate and its private key, both in PEM form.
#[derive(Debug, PartialEq, Eq)]
pub struct IssuedMaterial {
    pub cert_pem: String,
    pub key_pem: String,
}

/// The number of days that a certificate can be asked to last.
pub open spec fn certificate_days(validity_days: u64) -> int {
    if validity_days <= i64::MAX {
        validity_days as int
    } else {
        i64::MAX as int
    }
}

/// The first instant of a certificate issued at `created_unix_ms`, in
/// nanoseconds after the Unix epoch.
pub open spec fn not_before_nanos(created_unix_ms: u64) -> int {
    created_unix_ms * 1_000_000
}

/// The last instant of that certificate.
pub open spec fn not_after_nanos(created_unix_ms: u64, validity_days: u64) -> int {
    not_before_nanos(created_unix_ms) + certificate_days(validity_days) * 86_400_000_000_000
}

/// The parameters of a certificate for `domain`: the domain is its one
/// subject alternative name and the common name of its subject, and the two
/// instants bound its validity.
fn certificate_params(
    domain: &str,
    not_before: time::OffsetDateTime,
    not_after: time::OffsetDateTime,
) -> Result<rcgen::CertificateParams, rcgen::Error> {
    let mut params = match params_for_name(domain) {
        Ok(params) => params,
        Err(error) => {
            return Err(error);
        },
    };
    let mut subject = empty_subject();
    push_common_name(&mut subject, domain);
    set_subject(&mut params, subject);
    set_validity(&mut params, not_before, not_after);
    Ok(params)
}

/// Reads the outcome of a conversion to an instant: the instant as it came,
/// or a time error that holds the text of the conversion's error.
fn time_outcome(outcome: Result<time::OffsetDateTime, time::error::ComponentRange>) -> (result:
    Result<time::OffsetDateTime, TlsError>)
    ensures
        match outcome {
            Ok(instant) => result == Ok::<time::OffsetDateTime, TlsError>(instant),
            Err(_) => result matches Err(e) && e is Time,
        },
{
    match outcome {
        Ok(instant) => Ok(instant),
        Err(error) => Err(TlsError::Time(time_error_text(&error))),
    }
}

/// The instant that lies `nanos` nanoseconds after the Unix epoch, with the
/// error of the conversion as a TLS error: it succeeds exactly where there
/// is such an instant.
fn instant_at(nanos: i128) -> (result: Result<time::OffsetDateTime, TlsError>)
    requires
        nanos >= 0,
    ensures
        (result is Ok) == instant_exists(nanos as int),
        result matches Err(e) ==> e is Time,
{
    time_outcome(instant_from_unix_nanos(nanos))
}

/// The first and the last instant of a certificate issued at
/// `created_unix_ms` for `validity_days` days, in nanoseconds after the Unix
/// epoch: the last lies that many days after the first. These are the bounds
/// that the issuing hands to the certificate.
pub fn validity_bounds(created_unix_ms: u64, validity_days: u64) -> (bounds: (i128, i128))
    ensures
        bounds.0 == not_before_nanos(created_unix_ms),
        bounds.1 == not_after_nanos(created_unix_ms, validity_days),
        0 <= bounds.0 <= bounds.1,
{
    let days: i128 = if validity_days <= 0x7FFF_FFFF_FFFF_FFFF {
        validity_days as i128
    } else {
        0x7FFF_FFFF_FFFF_FFFF
    };
    let start: i128 = created_unix_ms as i128 * MS_NS;
    let end: i128 = start + days * DAY_NS;
    (start, end)
}

/// Whether both bounds of the validity of a certificate are instants that
/// can be held.
pub open spec fn validity_exists(created_unix_ms: u64, validity_days: u64) -> bool {
    instant_exists(not_before_nanos(created_unix_ms)) && instant_exists(
        not_after_nanos(created_unix_ms, validity_days),
    )
}

/// Issues a self-signed certificate for a valid domain, with the domain as
/// common name and as subject alternative name, valid from `created_unix_ms`
/// for `validity_days` days (the bounds are those of `validity_bounds`), and
/// a fresh key pair. An invalid domain is refused before anything is made.
/// A valid domain with a bound that is no instant gives a time error. In
/// every other case the outcome is that of the issuing: an issuing error, or
/// the material, which is a `CERTIFICATE` block and a `PRIVATE KEY` block in
/// PEM form.
pub fn issue_certificate(domain: &str, created_unix_ms: u64, validity_days: u64) -> (result: Result<
    IssuedMaterial,
    TlsError,
>)
    ensures
        match result {
            Ok(material) => is_valid_domain(domain@) && validity_exists(
                created_unix_ms,
                validity_days,
            ) && is_pem_of(material.cert_pem@, "CERTIFICATE"@) && is_pem_of(
                material.key_pem@,
                "PRIVATE KEY"@,
            ),
            Err(e) => if !is_valid_domain(domain@) {
                e@ == TlsErrorView::InvalidDomain(domain@)
            } else if !validity_exists(created_unix_ms, validity_days) {
                e is Time
            } else {
                e is Rcgen
            },
        },
{
    match validate_domain(domain) {
        Ok(()) => {},
        Err(error) => {
            return Err(error);
        },
    }
    let (start, end) = validity_bounds(created_unix_ms, validity_days);
    let not_before = match instant_at(start) {
        Ok(instant) => instant,
        Err(error) => {
            return Err(error);
        },
    };
    let not_after = match instant_at(end) {
        Ok(instant) => instant,
        Err(error) => {
            return Err(error);
        },
    };
    let params = match certificate_params(domain, not_before, not_after) {
        Ok(params) => params,
        Err(error) => {
            return Err(TlsError::Rcgen(rcgen_error_text(&error)));
        },
    };
    let key_pair = match generate_key_pair() {
        Ok(key_pair) => key_pair,
        Err(error) => {
            return Err(TlsError::Rcgen(rcgen_error_text(&error)));
        },
    };
    let certificate = match self_signed(params, &key_pair) {
        Ok(certificate) => certificate,
        Err(error) => {
            return Err(TlsError::Rcgen(rcgen_error_text(&error)));
        },
    };
    Ok(IssuedMaterial { cert_pem: certificate_pem(&certificate), key_pem: key_pair_pem(&key_pair) })
}

/// When a certificate issued at `created_unix_ms` for `validity_days` days
/// expires: the sum in milliseconds, held at the greatest value that fits.
pub open spec fn expiry(created_unix_ms: u64, validity_days: u64) -> u64 {
    let span = if validity_days * 86_400_000 <= u64::MAX {
        validity_days * 86_400_000
    } else {
        u64::MAX as int
    };
    if created_unix_ms + span <= u64::MAX {
        (created_unix_ms + span) as u64
    } else {
        u64::MAX
    }
}

/// The record of a certificate written to `cert_path`, with its key at
/// `key_path`: the fingerprint is the SHA-256 digest of the PEM text in
/// hexadecimal.
pub fn issued_record(
    domain: &str,
    cert_path: &str,
    key_path: &str,
    cert_pem: &str,
    created_unix_ms: u64,
    validity_days: u64,
) -> (record: TlsCertificateRecord)
    ensures
        record@ == (TlsCertificateRecordView {
            domain: domain@,
            cert_path: cert_path@,
            key_path: key_path@,
            fingerprint_sha256: hex_of(sha256_of(vstd::utf8::encode_utf8(cert_pem@))),
            created_unix_ms,
            expires_unix_ms: expiry(created_unix_ms, validity_days),
        }),
        record@.fingerprint_sha256.len() == 64,
{
    let span: u64 = match validity_days.checked_mul(DAY_MS) {
        Some(span) => span,
        None => u64::MAX,
    };
    TlsCertificateRecord {
        domain: String::from_str(domain),
        cert_path: String::from_str(cert_path),
        key_path: String::from_str(key_path),
        fingerprint_sha256: sha256_hex(cert_pem.as_bytes()),
        created_unix_ms,
        expires_unix_ms: created_unix_ms.saturating_add(span),
    }
}

/// What has to be done to have material for a domain.
#[derive(Debug, PartialEq, Eq)]
pub enum EnsureStep {
    /// The material is there: this is its record.
    Reuse(TlsCertificateRecord),
    /// Material has to be issued and stored.
    Issue,
}

/// Decides whether a domain's material can be used as it is. An invalid
/// domain is refused. Otherwise the recorded material is reused, unchanged,
/// where the record is there and both files exist; new material is issued in
/// every other case.
pub fn ensure_self_signed_cert(
    domain: &str,
    existing: Option<TlsCertificateRecord>,
    cert_exists: bool,
    key_exists: bool,
) -> (result: Result<EnsureStep, TlsError>)
    ensures
        match result {
            Ok(EnsureStep::Reuse(record)) => is_valid_domain(domain@) && existing == Some(record)
                && cert_exists && key_exists,
            Ok(EnsureStep::Issue) => is_valid_domain(domain@) && (existing is None || !cert_exists
                || !key_exists),
            Err(e) => !is_valid_domain(domain@) && e@ == TlsErrorView::InvalidDomain(domain@),
        },
{
    match validate_domain(domain) {
        Ok(()) => {},
        Err(error) => {
            return Err(error);
        },
    }
    match existing {
        Some(record) => {
            if cert_exists && key_exists {
                return Ok(EnsureStep::Reuse(record));
            }
            Ok(EnsureStep::Issue)
        },
        None => Ok(EnsureStep::Issue),
    }
}

/// The validity that a record was issued under, in whole days and at least 1.
pub open spec fn validity_days_of(record: TlsCertificateRecordView) -> u64 {
    let span: int = if record.expires_unix_ms >= record.created_unix_ms {
        record.expires_unix_ms - record.created_unix_ms
    } else {
        0
    };
    if span / 86_400_000 >= 1 {
        (span / 86_400_000) as u64
    } else {
        1
    }
}

/// The whole days that are left to a record at `now_unix_ms`; 0 once it has
/// expired.
pub open spec fn remaining_days(record: TlsCertificateRecordView, now_unix_ms: u64) -> u64 {
    if record.expires_unix_ms > now_unix_ms {
        ((record.expires_unix_ms - now_unix_ms) / 86_400_000) as u64
    } else {
        0
    }
}

/// Whether a record is to be rotated: no more days are left to it than the
/// threshold.
pub open spec fn rotation_due(
    record: TlsCertificateRecordView,
    now_unix_ms: u64,
    threshold_days: u64,
) -> bool {
    remaining_days(record, now_unix_ms) <= threshold_days
}

/// What a rotation has to do.
#[derive(Debug, PartialEq, Eq)]
pub enum RotationStep {
    /// Nothing: the current record stays, and this is the outcome.
    Keep(RotateOutcome),
    /// New material is to be issued, valid for this many days.
    Reissue { validity_days: u64 },
}

/// Decides on the rotation of the current record at `now_unix_ms`. Where no
/// more days are left than `threshold_days`, new material is to be issued
/// under the validity of the current record; otherwise the record stays as
/// it is.
pub fn rotate_if_expiring(current: TlsCertificateRecord, now_unix_ms: u64, threshold_days: u64) -> (step:
    RotationStep)
    ensures
        match step {
            RotationStep::Keep(outcome) => !rotation_due(current@, now_unix_ms, threshold_days)
                && outcome == (RotateOutcome { rotated: false, record: current }),
            RotationStep::Reissue { validity_days } => rotation_due(
                current@,
                now_unix_ms,
                threshold_days,
            ) && validity_days == validity_days_of(current@),
        },
{
    let span: u64 = current.expires_unix_ms.saturating_sub(current.created_unix_ms) / DAY_MS;
    let validity_days: u64 = if span >= 1 {
        span
    } else {
        1
    };
    let remaining: u64 = if current.expires_unix_ms > now_unix_ms {
        (current.expires_unix_ms - now_unix_ms) / DAY_MS
    } else {
        0
    };
    if remaining <= threshold_days {
        return RotationStep::Reissue { validity_days };
    }
    RotationStep::Keep(RotateOutcome { rotated: false, record: current })
}

/// The outcome of a rotation that issued new material.
pub fn rotated_outcome(record: TlsCertificateRecord) -> (outcome: RotateOutcome)
    ensures
        outcome == (RotateOutcome { rotated: true, record }),
{
    RotateOutcome { rotated: true, record }
}

/// A record is rotated whenever the threshold is at least the validity it was
/// issued under and the clock has not gone back behind its issuing.
pub proof fn lemma_rotates_within_validity(
    record: TlsCertificateRecordView,
    now_unix_ms: u64,
    threshold_days: u64,
)
    requires
        now_unix_ms >= record.created_unix_ms,
        threshold_days >= validity_days_of(record),
    ensures
        rotation_due(record, now_unix_ms, threshold_days),
{
    if record.expires_unix_ms > now_unix_ms {
        let left: int = record.expires_unix_ms - now_unix_ms;
        let span: int = record.expires_unix_ms - record.created_unix_ms;
        assert(left <= span);
        assert(left / 86_400_000 <= span / 86_400_000) by (nonlinear_arith)
            requires
                0 <= left <= span,
        ;
    }
}

/// A record is kept whenever more days are left to it than the threshold.
pub proof fn lemma_keeps_before_threshold(
    record: TlsCertificateRecordView,
    now_unix_ms: u64,
    threshold_days: u64,
)
    requires
        threshold_days < remaining_days(record, now_unix_ms),
    ensures
        !rotation_due(record, now_unix_ms, threshold_days),
{
}

/// A record of material issued for at least one day, whose expiry still fits,
/// was issued under exactly that validity: a rotation reissues for as long.
pub proof fn lemma_validity_is_kept(created_unix_ms: u64, validity_days: u64, record: TlsCertificateRecordView)
    requires
        validity_days >= 1,
        created_unix_ms + validity_days * 86_400_000 <= u64::MAX,
        record.created_unix_ms == created_unix_ms,
        record.expires_unix_ms == expiry(created_unix_ms, validity_days),
    ensures
        validity_days_of(record) == validity_days,
{
    assert((validity_days * 86_400_000) / 86_400_000 == validity_days) by (nonlinear_arith);
}

} // verus!
