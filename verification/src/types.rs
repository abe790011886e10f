//! The vocabulary of the crate: errors raised while reading a quote, the
//! closed sets of certificate authorities, enclave-identity kinds and TCB
//! platform families, the facts derived from a quote, and the verdict of one
//! collateral-completeness run.

use vstd::prelude::*;

verus! {

/// Platform-family tag of an SGX-family quote.
pub const SGX_TEE_TYPE: u32 = 0x0000_0000;

/// Platform-family tag of a TDX-family quote.
pub const TDX_TEE_TYPE: u32 = 0x0000_0081;

/// An input-validation failure found while reading a quote.
#[derive(Clone, Copy, Debug, PartialEq, Eq, Structural)]
pub enum QuoteError {
    /// The buffer is too short to hold the quote header.
    MalformedQuote,
    /// The quote version is neither 3 nor 4.
    UnsupportedVersion,
    /// The platform-family tag is neither the SGX nor the TDX tag.
    UnsupportedPlatform,
    /// The PCK certificate chain could not be located, decoded or
    /// classified.
    CertificateChainNotFound,
    /// The leaf PCK certificate lacks the FMSPC extension.
    PlatformIdentifierExtensionMissing,
}

/// Identifier of a certificate authority in the PCK hierarchy.
#[derive(Clone, Copy, Debug, PartialEq, Eq, Structural)]
pub enum CA {
    /// The root certificate authority, the trust anchor.
    ROOT,
    /// The TCB-signing intermediate certificate authority.
    SIGNING,
    /// The platform-issuing PCK certificate authority.
    PLATFORM,
    /// The processor-issuing PCK certificate authority.
    PROCESSOR,
}

/// Kind of enclave identity document.
#[derive(Clone, Copy, Debug, PartialEq, Eq, Structural)]
pub enum EnclaveIdType {
    /// The quoting enclave.
    QE,
    /// The quoting verification enclave.
    QVE,
    /// The TD quoting enclave.
    TDQE,
}

/// Platform family of a TCB info document.
#[derive(Clone, Copy, Debug, PartialEq, Eq, Structural)]
pub enum TcbKind {
    Sgx,
    Tdx,
}

/// The verdict of one collateral-completeness run: either every required
/// piece of collateral is present, or exactly one missing item is reported —
/// the first gap in the fixed check order.
#[derive(Debug)]
pub enum MissingCollateral {
    /// All required collateral is present.
    Complete,
    /// The enclave identity document of this kind and quote version is
    /// missing.
    MissingEnclaveIdentity(EnclaveIdType, u32),
    /// The TCB info document for this platform family, FMSPC (as twelve hex
    /// digits) and schema version is missing.
    MissingTcbInfo(TcbKind, String, u32),
    /// Collateral of this certificate authority is missing; the two flags
    /// say whether the certificate and the CRL are absent.
    MissingCertificateAuthority(CA, bool, bool),
}

/// Mathematical view of a [`MissingCollateral`] verdict.
pub enum VerdictModel {
    Complete,
    MissingEnclaveIdentity(EnclaveIdType, u32),
    MissingTcbInfo(TcbKind, Seq<char>, u32),
    MissingCertificateAuthority(CA, bool, bool),
}

impl View for MissingCollateral {
    type V = VerdictModel;

    open spec fn view(&self) -> VerdictModel {
        match self {
            MissingCollateral::Complete => VerdictModel::Complete,
            MissingCollateral::MissingEnclaveIdentity(kind, version) => {
                VerdictModel::MissingEnclaveIdentity(*kind, *version)
            },
            MissingCollateral::MissingTcbInfo(kind, fmspc, version) => {
                VerdictModel::MissingTcbInfo(*kind, fmspc@, *version)
            },
            MissingCollateral::MissingCertificateAuthority(ca, cert_absent, crl_absent) => {
                VerdictModel::MissingCertificateAuthority(*ca, *cert_absent, *crl_absent)
            },
        }
    }
}

impl PartialEq for MissingCollateral {
    fn eq(&self, other: &MissingCollateral) -> (r: bool) {
        match (self, other) {
            (MissingCollateral::Complete, MissingCollateral::Complete) => true,
            (
                MissingCollateral::MissingEnclaveIdentity(k1, v1),
                MissingCollateral::MissingEnclaveIdentity(k2, v2),
            ) => *k1 == *k2 && *v1 == *v2,
            (
                MissingCollateral::MissingTcbInfo(k1, f1, v1),
                MissingCollateral::MissingTcbInfo(k2, f2, v2),
            ) => *k1 == *k2 && f1.eq(f2) && *v1 == *v2,
            (
                MissingCollateral::MissingCertificateAuthority(c1, a1, b1),
                MissingCollateral::MissingCertificateAuthority(c2, a2, b2),
            ) => *c1 == *c2 && *a1 == *a2 && *b1 == *b2,
            _ => false,
        }
    }
}

impl vstd::std_specs::cmp::PartialEqSpecImpl for MissingCollateral {
    open spec fn obeys_eq_spec() -> bool {
        true
    }

    open spec fn eq_spec(&self, other: &MissingCollateral) -> bool {
        self@ == other@
    }
}

/// The facts derived from one quote that drive the completeness pipeline:
/// its version, its platform-family tag, its platform identifier (FMSPC, as
/// twelve lower-case hex digits), and the authority that issued its leaf
/// PCK certificate.
#[derive(Debug)]
pub struct QuoteFacts {
    pub version: u16,
    pub tee_type: u32,
    pub fmspc: String,
    pub pck_ca: CA,
}

/// Mathematical view of [`QuoteFacts`].
pub struct FactsModel {
    pub version: u16,
    pub tee_type: u32,
    pub fmspc: Seq<char>,
    pub pck_ca: CA,
}

impl View for QuoteFacts {
    type V = FactsModel;

    open spec fn view(&self) -> FactsModel {
        FactsModel {
            version: self.version,
            tee_type: self.tee_type,
            fmspc: self.fmspc@,
            pck_ca: self.pck_ca,
        }
    }
}

/// Well-formed quote facts: the version and the platform-family tag are
/// supported, and the issuing authority is one of the two PCK authorities.
/// Facts produced from a valid quote always satisfy this.
pub open spec fn facts_wf(facts: FactsModel) -> bool {
    &&& (facts.version == 3 || facts.version == 4)
    &&& (facts.tee_type == SGX_TEE_TYPE || facts.tee_type == TDX_TEE_TYPE)
    &&& (facts.pck_ca == CA::PLATFORM || facts.pck_ca == CA::PROCESSOR)
}

} // verus!
