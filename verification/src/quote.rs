//! Reading an attestation quote: the header fields that classify it, and the
//! PCK certificate chain embedded in its certification-data section, from
//! which the platform identifier (FMSPC) and the issuing certificate
//! authority are derived.
//!
//! The quote layout is an externally defined binary format. The first eight
//! bytes hold the quote version (16-bit little-endian at offset 0) and the
//! platform-family tag (32-bit little-endian at offset 4). A report body
//! follows the 48-byte header — 384 bytes for the SGX family, 584 bytes for
//! the TDX family — and then a length-prefixed signature section. Inside the
//! signature section, after the fixed-size signature material and the
//! variable-length QE authentication data, sits the certification data: for
//! version 3 directly, for version 4 nested inside a QE-report certification
//! wrapper. Certification data of type 5 is a PEM certificate chain whose
//! first certificate is the leaf PCK certificate; the FMSPC is the six-byte
//! value of a dedicated X.509 extension of that certificate, and the issuing
//! authority is told apart by the marker text in the certificate's issuer
//! name. Every offset access is bounds-checked; a quote in which the chain
//! or the extension cannot be located is rejected with a typed error, never
//! a panic.

use vstd::prelude::*;
use vstd::slice::slice_subrange;
use crate::base64::{decode_pem_body, pem_body_decode};
use crate::binary::{
    bytes_to_hex, find_sub, first_match, hex_of, read_u16_le, read_u32_le, u16_le, u32_le,
};
use crate::types::{FactsModel, QuoteError, QuoteFacts, CA, SGX_TEE_TYPE, TDX_TEE_TYPE};

verus! {

/// What reading the quote header means: the version and the platform-family
/// tag, validated against the supported values.
pub open spec fn spec_quote_header(q: Seq<u8>) -> Result<(int, int), QuoteError> {
    if q.len() < 8 {
        Err(QuoteError::MalformedQuote)
    } else {
        let version = u16_le(q, 0);
        let tee_type = u32_le(q, 4);
        if version != 3 && version != 4 {
            Err(QuoteError::UnsupportedVersion)
        } else if tee_type != SGX_TEE_TYPE as int && tee_type != TDX_TEE_TYPE as int {
            Err(QuoteError::UnsupportedPlatform)
        } else {
            Ok((version, tee_type))
        }
    }
}

/// Reads the quote version and platform-family tag from the first eight
/// bytes of the quote. Rejects a buffer shorter than eight bytes, a version
/// other than 3 or 4, and a platform tag other than the two recognized ones.
pub fn read_quote_header(raw_quote: &[u8]) -> (r: Result<(u16, u32), QuoteError>)
    ensures
        match r {
            Ok(h) => spec_quote_header(raw_quote@) == Ok::<(int, int), QuoteError>(
                (h.0 as int, h.1 as int),
            ),
            Err(e) => spec_quote_header(raw_quote@) == Err::<(int, int), QuoteError>(e),
        },
{
    if raw_quote.len() < 8 {
        return Err(QuoteError::MalformedQuote);
    }
    let version = read_u16_le(raw_quote, 0);
    let tee_type = read_u32_le(raw_quote, 4);
    if version != 3 && version != 4 {
        Err(QuoteError::UnsupportedVersion)
    } else if tee_type != SGX_TEE_TYPE && tee_type != TDX_TEE_TYPE {
        Err(QuoteError::UnsupportedPlatform)
    } else {
        Ok((version, tee_type))
    }
}

/// Length of the report body that follows the 48-byte quote header: the TDX
/// family uses an extended body, the SGX family a fixed one.
pub open spec fn report_body_len(tee_type: int) -> int {
    if tee_type == TDX_TEE_TYPE as int {
        584
    } else {
        384
    }
}

/// The certification data carried after the QE authentication data found at
/// offset `off` of the signature section: a 16-bit length prefix for the
/// authentication data, then a 16-bit certification-data type that must be 5
/// (PCK certificate chain) and a 32-bit size, then the chain itself.
pub open spec fn spec_pck_chain(sig: Seq<u8>, off: int) -> Option<Seq<u8>> {
    if sig.len() < off + 2 {
        None
    } else {
        let auth_len = u16_le(sig, off);
        let p = off + 2 + auth_len;
        if sig.len() < p + 6 {
            None
        } else {
            let cert_type = u16_le(sig, p);
            let cert_size = u32_le(sig, p + 2);
            if cert_type != 5 || sig.len() < p + 6 + cert_size {
                None
            } else {
                Some(sig.subrange(p + 6, p + 6 + cert_size))
            }
        }
    }
}

/// The version-4 signature section wraps the QE report, its signature, the
/// QE authentication data and the certification data inside an outer
/// certification-data entry of type 6 that starts at offset 128, after the
/// quote signature and the attestation key.
pub open spec fn spec_qe_report_chain(sig: Seq<u8>) -> Option<Seq<u8>> {
    if sig.len() < 134 {
        None
    } else {
        let qe_cert_type = u16_le(sig, 128);
        let qe_cert_size = u32_le(sig, 130);
        if qe_cert_type != 6 || sig.len() < 134 + qe_cert_size {
            None
        } else {
            spec_pck_chain(sig.subrange(134, 134 + qe_cert_size), 448)
        }
    }
}

/// Where the certification data lies in a quote. The signature section is
/// length-prefixed right after the report body; version 3 places the QE
/// authentication data at offset 576 of that section (signature, attestation
/// key, QE report and QE-report signature), version 4 nests it inside the
/// QE-report certification entry at offset 448 (QE report and signature).
pub open spec fn spec_cert_data(q: Seq<u8>, version: int, tee_type: int) -> Option<Seq<u8>> {
    let sig_off = 48 + report_body_len(tee_type);
    if q.len() < sig_off + 4 {
        None
    } else {
        let sig_len = u32_le(q, sig_off);
        if q.len() < sig_off + 4 + sig_len {
            None
        } else {
            let sig = q.subrange(sig_off + 4, sig_off + 4 + sig_len);
            if version == 3 {
                spec_pck_chain(sig, 576)
            } else {
                spec_qe_report_chain(sig)
            }
        }
    }
}

/// The bytes of an ASCII string, one byte per character.
pub open spec fn ascii_bytes(s: Seq<char>) -> Seq<u8> {
    Seq::new(s.len(), |i: int| s[i] as u8)
}

/// The line that opens a PEM certificate.
pub open spec fn begin_marker() -> Seq<u8> {
    ascii_bytes("-----BEGIN CERTIFICATE-----"@)
}

/// The line that closes a PEM certificate.
pub open spec fn end_marker() -> Seq<u8> {
    ascii_bytes("-----END CERTIFICATE-----"@)
}

/// Issuer-name marker of a PCK certificate issued by the platform CA.
pub open spec fn platform_marker() -> Seq<u8> {
    ascii_bytes("Platform CA"@)
}

/// Issuer-name marker of a PCK certificate issued by the processor CA.
pub open spec fn processor_marker() -> Seq<u8> {
    ascii_bytes("Processor CA"@)
}

/// The DER bytes of the first (leaf) certificate of the PEM chain in the
/// certification data: the base64 body between the first BEGIN marker and
/// the first END marker after it, decoded.
pub open spec fn spec_leaf_cert_der(cd: Seq<u8>) -> Option<Seq<u8>> {
    match first_match(cd, begin_marker(), 0) {
        Option::None => None,
        Option::Some(b) => {
            let start = b + begin_marker().len();
            match first_match(cd, end_marker(), start) {
                Option::None => None,
                Option::Some(e) => pem_body_decode(cd.subrange(start, e)),
            }
        },
    }
}

/// The DER encoding of the object identifier of the FMSPC entry inside the
/// PCK certificate's SGX extension, tag and length included.
pub open spec fn fmspc_oid() -> Seq<u8> {
    seq![0x06u8, 0x0au8, 0x2au8, 0x86u8, 0x48u8, 0x86u8, 0xf8u8, 0x4du8, 0x01u8, 0x0du8, 0x01u8, 0x04u8]
}

/// The six FMSPC bytes: the content of the OCTET STRING (tag 0x04, length
/// 6) that follows the first occurrence of the FMSPC object identifier in
/// the leaf certificate.
pub open spec fn spec_fmspc_bytes(der: Seq<u8>) -> Option<Seq<u8>> {
    match first_match(der, fmspc_oid(), 0) {
        Option::None => None,
        Option::Some(i) => {
            if i + 20 <= der.len() && der[i + 12] == 0x04 && der[i + 13] == 0x06 {
                Some(der.subrange(i + 14, i + 20))
            } else {
                None
            }
        },
    }
}

/// Which certificate authority issued the leaf certificate, told apart by
/// the marker text in its issuer name.
pub open spec fn spec_issuer(der: Seq<u8>) -> Option<CA> {
    if first_match(der, platform_marker(), 0) is Some {
        Some(CA::PLATFORM)
    } else if first_match(der, processor_marker(), 0) is Some {
        Some(CA::PROCESSOR)
    } else {
        None
    }
}

/// What extracting the platform identifier and the issuing authority from a
/// quote means: locate the certification data, decode the leaf certificate,
/// classify its issuer, and read the FMSPC extension. A quote in which the
/// chain cannot be located, decoded or classified is rejected with
/// `CertificateChainNotFound`; one whose leaf certificate lacks the FMSPC
/// extension with `PlatformIdentifierExtensionMissing`.
pub open spec fn spec_pck_info(q: Seq<u8>, version: int, tee_type: int) -> Result<
    (Seq<u8>, CA),
    QuoteError,
> {
    match spec_cert_data(q, version, tee_type) {
        Option::None => Err(QuoteError::CertificateChainNotFound),
        Option::Some(cd) => match spec_leaf_cert_der(cd) {
            Option::None => Err(QuoteError::CertificateChainNotFound),
            Option::Some(der) => match spec_issuer(der) {
                Option::None => Err(QuoteError::CertificateChainNotFound),
                Option::Some(ca) => match spec_fmspc_bytes(der) {
                    Option::None => Err(QuoteError::PlatformIdentifierExtensionMissing),
                    Option::Some(f) => Ok((f, ca)),
                },
            },
        },
    }
}

/// Locates the certification-data section of the quote.
fn cert_data<'a>(q: &'a [u8], version: u16, tee_type: u32) -> (r: Option<&'a [u8]>)
    ensures
        match r {
            Some(cd) => spec_cert_data(q@, version as int, tee_type as int) == Some(cd@),
            None => spec_cert_data(q@, version as int, tee_type as int) is None,
        },
{
    let body: usize = if tee_type == TDX_TEE_TYPE {
        584
    } else {
        384
    };
    let sig_off = 48 + body;
    if q.len() < sig_off + 4 {
        return None;
    }
    let sig_len = read_u32_le(q, sig_off) as usize;
    if sig_len > q.len() - (sig_off + 4) {
        return None;
    }
    let sig = slice_subrange(q, sig_off + 4, sig_off + 4 + sig_len);
    if version == 3 {
        pck_chain(sig, 576)
    } else {
        qe_report_chain(sig)
    }
}

/// Walks past the QE authentication data at offset `off` of the signature
/// section and returns the PCK certificate chain that follows it.
fn pck_chain<'a>(sig: &'a [u8], off: usize) -> (r: Option<&'a [u8]>)
    requires
        off <= 1024,
    ensures
        match r {
            Some(cd) => spec_pck_chain(sig@, off as int) == Some(cd@),
            None => spec_pck_chain(sig@, off as int) is None,
        },
{
    let n = sig.len();
    if n < off + 2 {
        return None;
    }
    let auth_len = read_u16_le(sig, off) as usize;
    if auth_len > n - (off + 2) {
        return None;
    }
    let p = off + 2 + auth_len;
    if n - p < 6 {
        return None;
    }
    let cert_type = read_u16_le(sig, p);
    let cert_size = read_u32_le(sig, p + 2) as usize;
    if cert_type != 5 || cert_size > n - (p + 6) {
        return None;
    }
    Some(slice_subrange(sig, p + 6, p + 6 + cert_size))
}

/// Unwraps the version-4 QE-report certification entry and returns the PCK
/// certificate chain nested inside it.
fn qe_report_chain<'a>(sig: &'a [u8]) -> (r: Option<&'a [u8]>)
    ensures
        match r {
            Some(cd) => spec_qe_report_chain(sig@) == Some(cd@),
            None => spec_qe_report_chain(sig@) is None,
        },
{
    let n = sig.len();
    if n < 134 {
        return None;
    }
    let qe_cert_type = read_u16_le(sig, 128);
    let qe_cert_size = read_u32_le(sig, 130) as usize;
    if qe_cert_type != 6 || qe_cert_size > n - 134 {
        return None;
    }
    let inner = slice_subrange(sig, 134, 134 + qe_cert_size);
    pck_chain(inner, 448)
}

/// Decodes the first (leaf) certificate of the PEM chain to DER.
fn leaf_cert_der(cd: &[u8]) -> (r: Option<Vec<u8>>)
    ensures
        match r {
            Some(der) => spec_leaf_cert_der(cd@) == Some(der@),
            None => spec_leaf_cert_der(cd@) is None,
        },
{
    let begin = "-----BEGIN CERTIFICATE-----";
    let end = "-----END CERTIFICATE-----";
    let begin_bytes = begin.as_bytes();
    let end_bytes = end.as_bytes();
    proof {
        broadcast use vstd::string::is_ascii_spec_bytes;

        reveal_strlit("-----BEGIN CERTIFICATE-----");
        reveal_strlit("-----END CERTIFICATE-----");
        assert(begin.is_ascii());
        assert(end.is_ascii());
        assert(begin_bytes@ =~= begin_marker());
        assert(end_bytes@ =~= end_marker());
    }
    let b = match find_sub(cd, begin_bytes, 0) {
        Some(b) => b,
        None => {
            return None;
        },
    };
    proof {
        broadcast use vstd::slice::axiom_spec_len;

        assert(cd@.len() == vstd::slice::spec_slice_len(cd));
    }
    let start = b + begin_bytes.len();
    let e = match find_sub(cd, end_bytes, start) {
        Some(e) => e,
        None => {
            return None;
        },
    };
    let body = slice_subrange(cd, start, e);
    decode_pem_body(body)
}

/// Classifies the issuer of the leaf certificate.
fn issuer_of(der: &[u8]) -> (r: Option<CA>)
    ensures
        match r {
            Some(ca) => spec_issuer(der@) == Some(ca),
            None => spec_issuer(der@) is None,
        },
{
    let platform = "Platform CA";
    let processor = "Processor CA";
    let platform_bytes = platform.as_bytes();
    let processor_bytes = processor.as_bytes();
    proof {
        broadcast use vstd::string::is_ascii_spec_bytes;

        reveal_strlit("Platform CA");
        reveal_strlit("Processor CA");
        assert(platform.is_ascii());
        assert(processor.is_ascii());
        assert(platform_bytes@ =~= platform_marker());
        assert(processor_bytes@ =~= processor_marker());
    }
    if find_sub(der, platform_bytes, 0).is_some() {
        Some(CA::PLATFORM)
    } else if find_sub(der, processor_bytes, 0).is_some() {
        Some(CA::PROCESSOR)
    } else {
        None
    }
}

/// Reads the six FMSPC bytes from the leaf certificate.
fn fmspc_bytes<'a>(der: &'a [u8]) -> (r: Option<&'a [u8]>)
    ensures
        match r {
            Some(f) => spec_fmspc_bytes(der@) == Some(f@),
            None => spec_fmspc_bytes(der@) is None,
        },
{
    let mut oid: Vec<u8> = Vec::new();
    oid.push(0x06);
    oid.push(0x0a);
    oid.push(0x2a);
    oid.push(0x86);
    oid.push(0x48);
    oid.push(0x86);
    oid.push(0xf8);
    oid.push(0x4d);
    oid.push(0x01);
    oid.push(0x0d);
    oid.push(0x01);
    oid.push(0x04);
    proof {
        assert(oid@ =~= fmspc_oid());
    }
    match find_sub(der, oid.as_slice(), 0) {
        None => None,
        Some(i) => {
            if der.len() - i >= 20 && der[i + 12] == 0x04 && der[i + 13] == 0x06 {
                Some(slice_subrange(der, i + 14, i + 20))
            } else {
                None
            }
        },
    }
}

/// Extracts the platform identifier (FMSPC, rendered as twelve lower-case
/// hex digits) and the issuing certificate authority from the PCK
/// certificate chain embedded in the quote.
pub fn get_pck_fmspc_and_issuer(raw_quote: &[u8], quote_version: u16, tee_type: u32) -> (r: Result<
    (String, CA),
    QuoteError,
>)
    ensures
        match r {
            Ok(p) => spec_pck_info(raw_quote@, quote_version as int, tee_type as int) matches Ok(q)
                && p.0@ == hex_of(q.0) && p.1 == q.1,
            Err(e) => spec_pck_info(raw_quote@, quote_version as int, tee_type as int) == Err::<
                (Seq<u8>, CA),
                QuoteError,
            >(e),
        },
{
    let cd = match cert_data(raw_quote, quote_version, tee_type) {
        Some(cd) => cd,
        None => {
            return Err(QuoteError::CertificateChainNotFound);
        },
    };
    let der = match leaf_cert_der(cd) {
        Some(der) => der,
        None => {
            return Err(QuoteError::CertificateChainNotFound);
        },
    };
    let issuer = match issuer_of(der.as_slice()) {
        Some(ca) => ca,
        None => {
            return Err(QuoteError::CertificateChainNotFound);
        },
    };
    let fmspc = match fmspc_bytes(der.as_slice()) {
        Some(f) => f,
        None => {
            return Err(QuoteError::PlatformIdentifierExtensionMissing);
        },
    };
    Ok((bytes_to_hex(fmspc), issuer))
}

/// What classifying a whole quote means: read and validate the header, then
/// extract the platform identifier and the issuing authority.
pub open spec fn spec_classify(q: Seq<u8>) -> Result<FactsModel, QuoteError> {
    match spec_quote_header(q) {
        Result::Err(e) => Err(e),
        Result::Ok(h) => match spec_pck_info(q, h.0, h.1) {
            Result::Err(e) => Err(e),
            Result::Ok(p) => Ok(
                FactsModel {
                    version: h.0 as u16,
                    tee_type: h.1 as u32,
                    fmspc: hex_of(p.0),
                    pck_ca: p.1,
                },
            ),
        },
    }
}

/// Derives the facts that drive the completeness pipeline from the raw
/// quote bytes: version, platform family, FMSPC, and issuing authority. On
/// any input-validation failure the error says what was wrong and no facts
/// are produced.
pub fn classify_quote(raw_quote: &[u8]) -> (r: Result<QuoteFacts, QuoteError>)
    ensures
        match r {
            Ok(facts) => spec_classify(raw_quote@) == Ok::<FactsModel, QuoteError>(facts@)
                && crate::types::facts_wf(facts@),
            Err(e) => spec_classify(raw_quote@) == Err::<FactsModel, QuoteError>(e),
        },
{
    let (version, tee_type) = match read_quote_header(raw_quote) {
        Ok(h) => h,
        Err(e) => {
            return Err(e);
        },
    };
    match get_pck_fmspc_and_issuer(raw_quote, version, tee_type) {
        Ok((fmspc, pck_ca)) => Ok(QuoteFacts { version, tee_type, fmspc, pck_ca }),
        Err(e) => Err(e),
    }
}

/// A quote whose version is not 3 or 4, or whose platform-family tag is not
/// one of the two recognized tags, or that is too short to hold a header,
/// is rejected outright: no facts are derived, so no pipeline runs for it.
pub proof fn lemma_invalid_header_rejected(q: Seq<u8>)
    requires
        q.len() < 8 || (u16_le(q, 0) != 3 && u16_le(q, 0) != 4) || (u32_le(q, 4)
            != SGX_TEE_TYPE as int && u32_le(q, 4) != TDX_TEE_TYPE as int),
    ensures
        spec_quote_header(q) is Err,
        spec_classify(q) is Err,
{
}

} // verus!
