//! The collateral-completeness pipeline: a fixed, ordered sequence of five
//! existence checks against an external collateral service, short-circuiting
//! on the first gap. The order is a protocol, not an implementation detail:
//! root CA first (every later item is meaningless without the trust anchor),
//! then enclave identity and TCB info (needed whichever authority issued the
//! leaf), then the TCB-signing CA, and last the PCK-issuing CA determined
//! from the quote's certificate chain.
//!
//! The pipeline is a step machine. For the current step, [`request_of`] says
//! what to fetch; the caller performs the fetch — the only part this crate
//! cannot do itself — and hands the response to [`advance`], which either
//! proceeds to the next step or ends the run with a verdict. Each result
//! carries the artifacts to persist for that step, in order. A response that
//! does not have the shape the step asked for counts as absent, as does a
//! failed fetch: the verdict only tells the caller what to fetch again, not
//! why the fetch failed.

use vstd::prelude::*;
use crate::types::{
    facts_wf, EnclaveIdType, FactsModel, MissingCollateral, QuoteFacts, TcbKind, VerdictModel, CA,
    SGX_TEE_TYPE, TDX_TEE_TYPE,
};

verus! {

/// The five steps of the pipeline, in their required order.
#[derive(Clone, Copy, Debug, PartialEq, Eq, Structural)]
pub enum PipelineStep {
    /// Fetch the root CA certificate and CRL.
    Root,
    /// Fetch the enclave identity document.
    EnclaveIdentity,
    /// Fetch the TCB info document.
    TcbInfo,
    /// Fetch the TCB-signing CA certificate (no CRL required).
    Signing,
    /// Fetch the PCK-issuing CA certificate and CRL.
    PckCa,
}

/// Position of a step in the pipeline order.
pub open spec fn step_index(step: PipelineStep) -> int {
    match step {
        PipelineStep::Root => 0,
        PipelineStep::EnclaveIdentity => 1,
        PipelineStep::TcbInfo => 2,
        PipelineStep::Signing => 3,
        PipelineStep::PckCa => 4,
    }
}

/// What a step asks the external collateral service for.
pub enum CollateralRequest {
    /// A certificate and CRL, by authority.
    Certificate(CA),
    /// An enclave identity document, by kind and quote version.
    EnclaveIdentity(EnclaveIdType, u32),
    /// A TCB info document, by platform family, FMSPC hex and schema
    /// version.
    TcbInfo(TcbKind, String, u32),
}

/// Mathematical view of a [`CollateralRequest`].
pub enum RequestModel {
    Certificate(CA),
    EnclaveIdentity(EnclaveIdType, u32),
    TcbInfo(TcbKind, Seq<char>, u32),
}

impl View for CollateralRequest {
    type V = RequestModel;

    open spec fn view(&self) -> RequestModel {
        match self {
            CollateralRequest::Certificate(ca) => RequestModel::Certificate(*ca),
            CollateralRequest::EnclaveIdentity(kind, version) => RequestModel::EnclaveIdentity(
                *kind,
                *version,
            ),
            CollateralRequest::TcbInfo(kind, fmspc, version) => RequestModel::TcbInfo(
                *kind,
                fmspc@,
                *version,
            ),
        }
    }
}

/// What the external collateral service answered. Empty bytes are a valid
/// "not found" signal; a transport failure is handled identically.
pub enum FetchResponse {
    /// A certificate and CRL pair, either of which may be empty.
    Pair(Vec<u8>, Vec<u8>),
    /// A document.
    Doc(Vec<u8>),
    /// The fetch failed.
    Failed,
}

/// Mathematical view of a [`FetchResponse`].
pub enum ResponseModel {
    Pair(Seq<u8>, Seq<u8>),
    Doc(Seq<u8>),
    Failed,
}

impl View for FetchResponse {
    type V = ResponseModel;

    open spec fn view(&self) -> ResponseModel {
        match self {
            FetchResponse::Pair(cert, crl) => ResponseModel::Pair(cert@, crl@),
            FetchResponse::Doc(doc) => ResponseModel::Doc(doc@),
            FetchResponse::Failed => ResponseModel::Failed,
        }
    }
}

/// Name of an artifact to persist, from which its file name derives.
#[derive(Clone, Copy, Debug, PartialEq, Eq, Structural)]
pub enum ArtifactKind {
    /// The certificate of an authority.
    CaCertificate(CA),
    /// The CRL of an authority.
    CaCrl(CA),
    /// An enclave identity document, by kind and quote version.
    EnclaveIdentityDoc(EnclaveIdType, u32),
    /// A TCB info document, by platform family and schema version.
    TcbInfoDoc(TcbKind, u32),
}

/// One artifact to persist: its kind and the bytes that were fetched.
pub struct Artifact {
    pub kind: ArtifactKind,
    pub bytes: Vec<u8>,
}

/// Mathematical view of an [`Artifact`].
pub struct ArtifactModel {
    pub kind: ArtifactKind,
    pub bytes: Seq<u8>,
}

impl View for Artifact {
    type V = ArtifactModel;

    open spec fn view(&self) -> ArtifactModel {
        ArtifactModel { kind: self.kind, bytes: self.bytes@ }
    }
}

/// What one step of the pipeline decided: proceed to the next step, or end
/// the run with a verdict. Either way the artifacts retrieved by this step
/// are handed back for persistence, in order.
pub enum StepResult {
    Proceed(PipelineStep, Vec<Artifact>),
    Verdict(MissingCollateral, Vec<Artifact>),
}

/// Mathematical view of a [`StepResult`].
pub enum StepModel {
    Proceed(PipelineStep, Seq<ArtifactModel>),
    Verdict(VerdictModel, Seq<ArtifactModel>),
}

impl View for StepResult {
    type V = StepModel;

    open spec fn view(&self) -> StepModel {
        match self {
            StepResult::Proceed(step, arts) => StepModel::Proceed(
                *step,
                arts@.map_values(|a: Artifact| a@),
            ),
            StepResult::Verdict(verdict, arts) => StepModel::Verdict(
                verdict@,
                arts@.map_values(|a: Artifact| a@),
            ),
        }
    }
}

/// The enclave-identity kind selected by the platform family: the TDX
/// family selects the TD quoting enclave, the SGX family the quoting
/// enclave.
pub open spec fn spec_enclave_kind(tee_type: u32) -> EnclaveIdType {
    if tee_type == TDX_TEE_TYPE {
        EnclaveIdType::TDQE
    } else {
        EnclaveIdType::QE
    }
}

/// The TCB platform family selected by the platform-family tag.
pub open spec fn spec_tcb_kind(tee_type: u32) -> TcbKind {
    if tee_type == TDX_TEE_TYPE {
        TcbKind::Tdx
    } else {
        TcbKind::Sgx
    }
}

/// The TCB-info schema version selected by the quote version: schema 2
/// below quote version 4, schema 3 from version 4 on.
pub open spec fn spec_tcb_version(version: u16) -> u32 {
    if version < 4 {
        2
    } else {
        3
    }
}

/// Selects the enclave-identity kind for a platform family.
pub fn enclave_kind(tee_type: u32) -> (r: EnclaveIdType)
    ensures
        r == spec_enclave_kind(tee_type),
{
    if tee_type == TDX_TEE_TYPE {
        EnclaveIdType::TDQE
    } else {
        EnclaveIdType::QE
    }
}

/// Selects the TCB platform family for a platform-family tag.
pub fn tcb_kind(tee_type: u32) -> (r: TcbKind)
    ensures
        r == spec_tcb_kind(tee_type),
{
    if tee_type == TDX_TEE_TYPE {
        TcbKind::Tdx
    } else {
        TcbKind::Sgx
    }
}

/// Selects the TCB-info schema version for a quote version.
pub fn tcb_version(version: u16) -> (r: u32)
    ensures
        r == spec_tcb_version(version),
{
    if version < 4 {
        2
    } else {
        3
    }
}

/// What each step asks the external collateral service for.
pub open spec fn spec_request(facts: FactsModel, step: PipelineStep) -> RequestModel {
    match step {
        PipelineStep::Root => RequestModel::Certificate(CA::ROOT),
        PipelineStep::EnclaveIdentity => RequestModel::EnclaveIdentity(
            spec_enclave_kind(facts.tee_type),
            facts.version as u32,
        ),
        PipelineStep::TcbInfo => RequestModel::TcbInfo(
            spec_tcb_kind(facts.tee_type),
            facts.fmspc,
            spec_tcb_version(facts.version),
        ),
        PipelineStep::Signing => RequestModel::Certificate(CA::SIGNING),
        PipelineStep::PckCa => RequestModel::Certificate(facts.pck_ca),
    }
}

/// The request the pipeline makes at the given step.
pub fn request_of(facts: &QuoteFacts, step: PipelineStep) -> (r: CollateralRequest)
    ensures
        r@ == spec_request(facts@, step),
{
    match step {
        PipelineStep::Root => CollateralRequest::Certificate(CA::ROOT),
        PipelineStep::EnclaveIdentity => CollateralRequest::EnclaveIdentity(
            enclave_kind(facts.tee_type),
            facts.version as u32,
        ),
        PipelineStep::TcbInfo => CollateralRequest::TcbInfo(
            tcb_kind(facts.tee_type),
            facts.fmspc.clone(),
            tcb_version(facts.version),
        ),
        PipelineStep::Signing => CollateralRequest::Certificate(CA::SIGNING),
        PipelineStep::PckCa => CollateralRequest::Certificate(facts.pck_ca),
    }
}

/// What one step of the pipeline decides, given the facts and the response
/// to its request. This is the whole decision table of the protocol.
pub open spec fn spec_advance(facts: FactsModel, step: PipelineStep, resp: ResponseModel)
    -> StepModel {
    match step {
        PipelineStep::Root => match resp {
            ResponseModel::Pair(cert, crl) => {
                if cert.len() == 0 {
                    StepModel::Verdict(
                        VerdictModel::MissingCertificateAuthority(CA::ROOT, true, true),
                        Seq::empty(),
                    )
                } else if crl.len() == 0 {
                    StepModel::Verdict(
                        VerdictModel::MissingCertificateAuthority(CA::ROOT, false, true),
                        seq![ArtifactModel { kind: ArtifactKind::CaCertificate(CA::ROOT), bytes: cert }],
                    )
                } else {
                    StepModel::Proceed(
                        PipelineStep::EnclaveIdentity,
                        seq![
                            ArtifactModel { kind: ArtifactKind::CaCertificate(CA::ROOT), bytes: cert },
                            ArtifactModel { kind: ArtifactKind::CaCrl(CA::ROOT), bytes: crl },
                        ],
                    )
                }
            },
            _ => StepModel::Verdict(
                VerdictModel::MissingCertificateAuthority(CA::ROOT, true, true),
                Seq::empty(),
            ),
        },
        PipelineStep::EnclaveIdentity => match resp {
            ResponseModel::Doc(doc) => StepModel::Proceed(
                PipelineStep::TcbInfo,
                seq![
                    ArtifactModel {
                        kind: ArtifactKind::EnclaveIdentityDoc(
                            spec_enclave_kind(facts.tee_type),
                            facts.version as u32,
                        ),
                        bytes: doc,
                    },
                ],
            ),
            _ => StepModel::Verdict(
                VerdictModel::MissingEnclaveIdentity(
                    spec_enclave_kind(facts.tee_type),
                    facts.version as u32,
                ),
                Seq::empty(),
            ),
        },
        PipelineStep::TcbInfo => match resp {
            ResponseModel::Doc(doc) => StepModel::Proceed(
                PipelineStep::Signing,
                seq![
                    ArtifactModel {
                        kind: ArtifactKind::TcbInfoDoc(
                            spec_tcb_kind(facts.tee_type),
                            spec_tcb_version(facts.version),
                        ),
                        bytes: doc,
                    },
                ],
            ),
            _ => StepModel::Verdict(
                VerdictModel::MissingTcbInfo(
                    spec_tcb_kind(facts.tee_type),
                    facts.fmspc,
                    spec_tcb_version(facts.version),
                ),
                Seq::empty(),
            ),
        },
        PipelineStep::Signing => match resp {
            ResponseModel::Pair(cert, crl) => {
                if cert.len() == 0 {
                    StepModel::Verdict(
                        VerdictModel::MissingCertificateAuthority(CA::SIGNING, true, false),
                        Seq::empty(),
                    )
                } else {
                    StepModel::Proceed(
                        PipelineStep::PckCa,
                        seq![ArtifactModel { kind: ArtifactKind::CaCertificate(CA::SIGNING), bytes: cert }],
                    )
                }
            },
            _ => StepModel::Verdict(
                VerdictModel::MissingCertificateAuthority(CA::SIGNING, true, false),
                Seq::empty(),
            ),
        },
        PipelineStep::PckCa => match resp {
            ResponseModel::Pair(cert, crl) => {
                if cert.len() == 0 {
                    StepModel::Verdict(
                        VerdictModel::MissingCertificateAuthority(facts.pck_ca, true, true),
                        Seq::empty(),
                    )
                } else if crl.len() == 0 {
                    StepModel::Verdict(
                        VerdictModel::MissingCertificateAuthority(facts.pck_ca, false, true),
                        seq![ArtifactModel { kind: ArtifactKind::CaCertificate(facts.pck_ca), bytes: cert }],
                    )
                } else {
                    StepModel::Verdict(
                        VerdictModel::Complete,
                        seq![
                            ArtifactModel { kind: ArtifactKind::CaCertificate(facts.pck_ca), bytes: cert },
                            ArtifactModel { kind: ArtifactKind::CaCrl(facts.pck_ca), bytes: crl },
                        ],
                    )
                }
            },
            _ => StepModel::Verdict(
                VerdictModel::MissingCertificateAuthority(facts.pck_ca, true, true),
                Seq::empty(),
            ),
        },
    }
}

/// Runs one step of the pipeline: decides, from the facts and the response
/// to this step's request, whether to proceed or to end the run with a
/// verdict, and which artifacts to persist for this step.
pub fn advance(facts: &QuoteFacts, step: PipelineStep, response: FetchResponse) -> (r: StepResult)
    ensures
        r@ == spec_advance(facts@, step, response@),
{
    let ghost resp_model = response@;
    match step {
        PipelineStep::Root => match response {
            FetchResponse::Pair(cert, crl) => {
                if cert.len() == 0 {
                    verdict(
                        MissingCollateral::MissingCertificateAuthority(CA::ROOT, true, true),
                    )
                } else if crl.len() == 0 {
                    let mut arts: Vec<Artifact> = Vec::new();
                    arts.push(Artifact { kind: ArtifactKind::CaCertificate(CA::ROOT), bytes: cert });
                    let r = StepResult::Verdict(
                        MissingCollateral::MissingCertificateAuthority(CA::ROOT, false, true),
                        arts,
                    );
                    proof {
                        assert_step_model(r@, spec_advance(facts@, step, resp_model));
                    }
                    r
                } else {
                    let mut arts: Vec<Artifact> = Vec::new();
                    arts.push(Artifact { kind: ArtifactKind::CaCertificate(CA::ROOT), bytes: cert });
                    arts.push(Artifact { kind: ArtifactKind::CaCrl(CA::ROOT), bytes: crl });
                    let r = StepResult::Proceed(PipelineStep::EnclaveIdentity, arts);
                    proof {
                        assert_step_model(r@, spec_advance(facts@, step, resp_model));
                    }
                    r
                }
            },
            _ => verdict(MissingCollateral::MissingCertificateAuthority(CA::ROOT, true, true)),
        },
        PipelineStep::EnclaveIdentity => match response {
            FetchResponse::Doc(doc) => {
                let mut arts: Vec<Artifact> = Vec::new();
                arts.push(
                    Artifact {
                        kind: ArtifactKind::EnclaveIdentityDoc(
                            enclave_kind(facts.tee_type),
                            facts.version as u32,
                        ),
                        bytes: doc,
                    },
                );
                let r = StepResult::Proceed(PipelineStep::TcbInfo, arts);
                proof {
                    assert_step_model(r@, spec_advance(facts@, step, resp_model));
                }
                r
            },
            _ => verdict(
                MissingCollateral::MissingEnclaveIdentity(
                    enclave_kind(facts.tee_type),
                    facts.version as u32,
                ),
            ),
        },
        PipelineStep::TcbInfo => match response {
            FetchResponse::Doc(doc) => {
                let mut arts: Vec<Artifact> = Vec::new();
                arts.push(
                    Artifact {
                        kind: ArtifactKind::TcbInfoDoc(
                            tcb_kind(facts.tee_type),
                            tcb_version(facts.version),
                        ),
                        bytes: doc,
                    },
                );
                let r = StepResult::Proceed(PipelineStep::Signing, arts);
                proof {
                    assert_step_model(r@, spec_advance(facts@, step, resp_model));
                }
                r
            },
            _ => verdict(
                MissingCollateral::MissingTcbInfo(
                    tcb_kind(facts.tee_type),
                    facts.fmspc.clone(),
                    tcb_version(facts.version),
                ),
            ),
        },
        PipelineStep::Signing => match response {
            FetchResponse::Pair(cert, _crl) => {
                if cert.len() == 0 {
                    verdict(
                        MissingCollateral::MissingCertificateAuthority(CA::SIGNING, true, false),
                    )
                } else {
                    let mut arts: Vec<Artifact> = Vec::new();
                    arts.push(
                        Artifact { kind: ArtifactKind::CaCertificate(CA::SIGNING), bytes: cert },
                    );
                    let r = StepResult::Proceed(PipelineStep::PckCa, arts);
                    proof {
                        assert_step_model(r@, spec_advance(facts@, step, resp_model));
                    }
                    r
                }
            },
            _ => verdict(
                MissingCollateral::MissingCertificateAuthority(CA::SIGNING, true, false),
            ),
        },
        PipelineStep::PckCa => match response {
            FetchResponse::Pair(cert, crl) => {
                if cert.len() == 0 {
                    verdict(
                        MissingCollateral::MissingCertificateAuthority(facts.pck_ca, true, true),
                    )
                } else if crl.len() == 0 {
                    let mut arts: Vec<Artifact> = Vec::new();
                    arts.push(
                        Artifact { kind: ArtifactKind::CaCertificate(facts.pck_ca), bytes: cert },
                    );
                    let r = StepResult::Verdict(
                        MissingCollateral::MissingCertificateAuthority(facts.pck_ca, false, true),
                        arts,
                    );
                    proof {
                        assert_step_model(r@, spec_advance(facts@, step, resp_model));
                    }
                    r
                } else {
                    let mut arts: Vec<Artifact> = Vec::new();
                    arts.push(
                        Artifact { kind: ArtifactKind::CaCertificate(facts.pck_ca), bytes: cert },
                    );
                    arts.push(Artifact { kind: ArtifactKind::CaCrl(facts.pck_ca), bytes: crl });
                    let r = StepResult::Verdict(MissingCollateral::Complete, arts);
                    proof {
                        assert_step_model(r@, spec_advance(facts@, step, resp_model));
                    }
                    r
                }
            },
            _ => verdict(
                MissingCollateral::MissingCertificateAuthority(facts.pck_ca, true, true),
            ),
        },
    }
}

/// Wraps a verdict that persists nothing into a step result.
fn verdict(v: MissingCollateral) -> (r: StepResult)
    ensures
        r@ == StepModel::Verdict(v@, Seq::<ArtifactModel>::empty()),
{
    let arts: Vec<Artifact> = Vec::new();
    let r = StepResult::Verdict(v, arts);
    proof {
        assert(arts@.map_values(|a: Artifact| a@) =~= Seq::<ArtifactModel>::empty());
    }
    r
}

/// Short tag of a certificate authority, used in artifact file names.
pub open spec fn spec_ca_tag(ca: CA) -> Seq<char> {
    match ca {
        CA::ROOT => "root"@,
        CA::SIGNING => "signing"@,
        CA::PLATFORM => "platform"@,
        CA::PROCESSOR => "processor"@,
    }
}

/// Short tag of an enclave-identity kind, used in artifact file names.
pub open spec fn spec_enclave_tag(kind: EnclaveIdType) -> Seq<char> {
    match kind {
        EnclaveIdType::QE => "qe"@,
        EnclaveIdType::QVE => "qve"@,
        EnclaveIdType::TDQE => "td"@,
    }
}

/// Short tag of a TCB platform family, used in artifact file names.
pub open spec fn spec_tcb_tag(kind: TcbKind) -> Seq<char> {
    match kind {
        TcbKind::Sgx => "sgx"@,
        TcbKind::Tdx => "tdx"@,
    }
}

/// Decimal rendering of the versions the pipeline forms: quote versions 3
/// and 4 and TCB-info schema versions 2 and 3.
pub open spec fn spec_version_digit(v: u32) -> Seq<char> {
    if v == 2 {
        "2"@
    } else if v == 3 {
        "3"@
    } else {
        "4"@
    }
}

/// An artifact kind whose version field is one the pipeline forms: quote
/// versions 3 and 4 for identity documents, schema versions 2 and 3 for TCB
/// info documents.
pub open spec fn artifact_kind_wf(kind: ArtifactKind) -> bool {
    match kind {
        ArtifactKind::EnclaveIdentityDoc(_, v) => v == 3 || v == 4,
        ArtifactKind::TcbInfoDoc(_, v) => v == 2 || v == 3,
        _ => true,
    }
}

/// The deterministic file name an artifact is persisted under:
/// `{authority}.der` and `{authority}-crl.der` for certificate-authority
/// artifacts, `identity-{kind}-v{quoteVersion}.json` for enclave identity,
/// `tcbinfo-{family}-v{schemaVersion}.json` for TCB info.
pub open spec fn spec_artifact_name(kind: ArtifactKind) -> Seq<char> {
    match kind {
        ArtifactKind::CaCertificate(ca) => spec_ca_tag(ca) + ".der"@,
        ArtifactKind::CaCrl(ca) => spec_ca_tag(ca) + "-crl.der"@,
        ArtifactKind::EnclaveIdentityDoc(kind, v) => "identity-"@ + spec_enclave_tag(kind) + "-v"@
            + spec_version_digit(v) + ".json"@,
        ArtifactKind::TcbInfoDoc(kind, v) => "tcbinfo-"@ + spec_tcb_tag(kind) + "-v"@
            + spec_version_digit(v) + ".json"@,
    }
}

/// The tag of a certificate authority.
fn ca_tag(ca: CA) -> (r: &'static str)
    ensures
        r@ == spec_ca_tag(ca),
{
    match ca {
        CA::ROOT => "root",
        CA::SIGNING => "signing",
        CA::PLATFORM => "platform",
        CA::PROCESSOR => "processor",
    }
}

/// The tag of an enclave-identity kind.
fn enclave_tag(kind: EnclaveIdType) -> (r: &'static str)
    ensures
        r@ == spec_enclave_tag(kind),
{
    match kind {
        EnclaveIdType::QE => "qe",
        EnclaveIdType::QVE => "qve",
        EnclaveIdType::TDQE => "td",
    }
}

/// The tag of a TCB platform family.
fn tcb_tag(kind: TcbKind) -> (r: &'static str)
    ensures
        r@ == spec_tcb_tag(kind),
{
    match kind {
        TcbKind::Sgx => "sgx",
        TcbKind::Tdx => "tdx",
    }
}

/// The decimal digit of a version the pipeline forms.
fn version_digit(v: u32) -> (r: &'static str)
    ensures
        r@ == spec_version_digit(v),
{
    if v == 2 {
        "2"
    } else if v == 3 {
        "3"
    } else {
        "4"
    }
}

/// The file name an artifact is persisted under. Persisting under these
/// names is overwrite-safe: the name depends only on the artifact kind, so a
/// repeated run persists the same set, not an additional one.
pub fn artifact_file_name(kind: &ArtifactKind) -> (r: String)
    requires
        artifact_kind_wf(*kind),
    ensures
        r@ == spec_artifact_name(*kind),
{
    match kind {
        ArtifactKind::CaCertificate(ca) => {
            let mut s = ca_tag(*ca).to_owned();
            s.append(".der");
            s
        },
        ArtifactKind::CaCrl(ca) => {
            let mut s = ca_tag(*ca).to_owned();
            s.append("-crl.der");
            s
        },
        ArtifactKind::EnclaveIdentityDoc(k, v) => {
            let mut s = "identity-".to_owned();
            s.append(enclave_tag(*k));
            s.append("-v");
            s.append(version_digit(*v));
            s.append(".json");
            s
        },
        ArtifactKind::TcbInfoDoc(k, v) => {
            let mut s = "tcbinfo-".to_owned();
            s.append(tcb_tag(*k));
            s.append("-v");
            s.append(version_digit(*v));
            s.append(".json");
            s
        },
    }
}

/// The artifacts a step result carries, whether it proceeds or ends the
/// run.
pub open spec fn step_artifacts(m: StepModel) -> Seq<ArtifactModel> {
    match m {
        StepModel::Proceed(_, arts) => arts,
        StepModel::Verdict(_, arts) => arts,
    }
}

/// For well-formed quote facts, every artifact a step hands back has a
/// well-formed kind, so its file name is defined.
pub proof fn lemma_advance_artifacts_wf(facts: FactsModel, step: PipelineStep, resp: ResponseModel)
    requires
        facts_wf(facts),
    ensures
        forall|i: int|
            0 <= i < step_artifacts(spec_advance(facts, step, resp)).len()
                ==> artifact_kind_wf(#[trigger] step_artifacts(spec_advance(facts, step, resp))[i].kind),
{
}

/// A step that proceeds always proceeds to the next step of the pipeline
/// order, and the last step never proceeds: a run makes at most five
/// requests.
pub proof fn lemma_advance_order(facts: FactsModel, step: PipelineStep, resp: ResponseModel)
    ensures
        spec_advance(facts, step, resp) matches StepModel::Proceed(next, _) ==> step_index(next)
            == step_index(step) + 1,
        step == PipelineStep::PckCa ==> spec_advance(facts, step, resp) is Verdict,
{
}

/// One whole run of the pipeline from the root step, over the responses the
/// collateral service would give to the five requests: the verdict, and
/// every artifact persisted on the way, in pipeline order. Since the run
/// stops at the first gap, responses after the failing step are never asked
/// for and do not influence the result.
pub open spec fn spec_run(
    facts: FactsModel,
    root_resp: ResponseModel,
    identity_resp: ResponseModel,
    tcb_resp: ResponseModel,
    signing_resp: ResponseModel,
    pck_resp: ResponseModel,
) -> (VerdictModel, Seq<ArtifactModel>) {
    match spec_advance(facts, PipelineStep::Root, root_resp) {
        StepModel::Verdict(v, a1) => (v, a1),
        StepModel::Proceed(_, a1) => match spec_advance(
            facts,
            PipelineStep::EnclaveIdentity,
            identity_resp,
        ) {
            StepModel::Verdict(v, a2) => (v, a1 + a2),
            StepModel::Proceed(_, a2) => match spec_advance(facts, PipelineStep::TcbInfo, tcb_resp) {
                StepModel::Verdict(v, a3) => (v, a1 + a2 + a3),
                StepModel::Proceed(_, a3) => match spec_advance(
                    facts,
                    PipelineStep::Signing,
                    signing_resp,
                ) {
                    StepModel::Verdict(v, a4) => (v, a1 + a2 + a3 + a4),
                    StepModel::Proceed(_, a4) => match spec_advance(
                        facts,
                        PipelineStep::PckCa,
                        pck_resp,
                    ) {
                        StepModel::Verdict(v, a5) => (v, a1 + a2 + a3 + a4 + a5),
                        // the last step never proceeds (lemma_advance_order)
                        StepModel::Proceed(_, a5) => (
                            VerdictModel::Complete,
                            a1 + a2 + a3 + a4 + a5,
                        ),
                    },
                },
            },
        },
    }
}

/// An artifact model, written compactly in the laws below.
pub open spec fn artifact(kind: ArtifactKind, bytes: Seq<u8>) -> ArtifactModel {
    ArtifactModel { kind, bytes }
}

/// A run against a service that has every required piece present completes,
/// and persists exactly these artifacts, in pipeline order: root
/// certificate, root CRL, enclave identity, TCB info, TCB-signing CA
/// certificate, PCK-authority certificate, PCK-authority CRL — and nothing
/// else; in particular the CRL handed back with the signing certificate is
/// not persisted.
pub proof fn lemma_run_all_present(
    facts: FactsModel,
    root_cert: Seq<u8>,
    root_crl: Seq<u8>,
    identity: Seq<u8>,
    tcb: Seq<u8>,
    signing_cert: Seq<u8>,
    signing_crl: Seq<u8>,
    pck_cert: Seq<u8>,
    pck_crl: Seq<u8>,
)
    requires
        root_cert.len() > 0,
        root_crl.len() > 0,
        signing_cert.len() > 0,
        pck_cert.len() > 0,
        pck_crl.len() > 0,
    ensures
        spec_run(
            facts,
            ResponseModel::Pair(root_cert, root_crl),
            ResponseModel::Doc(identity),
            ResponseModel::Doc(tcb),
            ResponseModel::Pair(signing_cert, signing_crl),
            ResponseModel::Pair(pck_cert, pck_crl),
        ) == (
            VerdictModel::Complete,
            seq![
                artifact(ArtifactKind::CaCertificate(CA::ROOT), root_cert),
                artifact(ArtifactKind::CaCrl(CA::ROOT), root_crl),
                artifact(
                    ArtifactKind::EnclaveIdentityDoc(
                        spec_enclave_kind(facts.tee_type),
                        facts.version as u32,
                    ),
                    identity,
                ),
                artifact(
                    ArtifactKind::TcbInfoDoc(
                        spec_tcb_kind(facts.tee_type),
                        spec_tcb_version(facts.version),
                    ),
                    tcb,
                ),
                artifact(ArtifactKind::CaCertificate(CA::SIGNING), signing_cert),
                artifact(ArtifactKind::CaCertificate(facts.pck_ca), pck_cert),
                artifact(ArtifactKind::CaCrl(facts.pck_ca), pck_crl),
            ],
        ),
{
    let r = spec_run(
        facts,
        ResponseModel::Pair(root_cert, root_crl),
        ResponseModel::Doc(identity),
        ResponseModel::Doc(tcb),
        ResponseModel::Pair(signing_cert, signing_crl),
        ResponseModel::Pair(pck_cert, pck_crl),
    );
    assert(r.1 =~= seq![
        artifact(ArtifactKind::CaCertificate(CA::ROOT), root_cert),
        artifact(ArtifactKind::CaCrl(CA::ROOT), root_crl),
        artifact(
            ArtifactKind::EnclaveIdentityDoc(
                spec_enclave_kind(facts.tee_type),
                facts.version as u32,
            ),
            identity,
        ),
        artifact(
            ArtifactKind::TcbInfoDoc(spec_tcb_kind(facts.tee_type), spec_tcb_version(facts.version)),
            tcb,
        ),
        artifact(ArtifactKind::CaCertificate(CA::SIGNING), signing_cert),
        artifact(ArtifactKind::CaCertificate(facts.pck_ca), pck_cert),
        artifact(ArtifactKind::CaCrl(facts.pck_ca), pck_crl),
    ]);
}

/// For a version-3 SGX-family quote with all collateral present, the
/// identity persisted is the quoting enclave's at quote version 3 and the
/// TCB info is the SGX family's at schema version 2.
pub proof fn lemma_run_complete_sgx_v3(
    facts: FactsModel,
    root_cert: Seq<u8>,
    root_crl: Seq<u8>,
    identity: Seq<u8>,
    tcb: Seq<u8>,
    signing_cert: Seq<u8>,
    signing_crl: Seq<u8>,
    pck_cert: Seq<u8>,
    pck_crl: Seq<u8>,
)
    requires
        facts.version == 3,
        facts.tee_type == SGX_TEE_TYPE,
        root_cert.len() > 0,
        root_crl.len() > 0,
        signing_cert.len() > 0,
        pck_cert.len() > 0,
        pck_crl.len() > 0,
    ensures
        spec_run(
            facts,
            ResponseModel::Pair(root_cert, root_crl),
            ResponseModel::Doc(identity),
            ResponseModel::Doc(tcb),
            ResponseModel::Pair(signing_cert, signing_crl),
            ResponseModel::Pair(pck_cert, pck_crl),
        ) == (
            VerdictModel::Complete,
            seq![
                artifact(ArtifactKind::CaCertificate(CA::ROOT), root_cert),
                artifact(ArtifactKind::CaCrl(CA::ROOT), root_crl),
                artifact(ArtifactKind::EnclaveIdentityDoc(EnclaveIdType::QE, 3u32), identity),
                artifact(ArtifactKind::TcbInfoDoc(TcbKind::Sgx, 2u32), tcb),
                artifact(ArtifactKind::CaCertificate(CA::SIGNING), signing_cert),
                artifact(ArtifactKind::CaCertificate(facts.pck_ca), pck_cert),
                artifact(ArtifactKind::CaCrl(facts.pck_ca), pck_crl),
            ],
        ),
{
    lemma_run_all_present(
        facts,
        root_cert,
        root_crl,
        identity,
        tcb,
        signing_cert,
        signing_crl,
        pck_cert,
        pck_crl,
    );
}

/// A version-4 TDX-family quote asks for the TD-quoting-enclave identity at
/// quote version 4, and for TCB info of the TDX family at schema version 3.
pub proof fn lemma_requests_tdx_v4(facts: FactsModel)
    requires
        facts.version == 4,
        facts.tee_type == TDX_TEE_TYPE,
    ensures
        spec_request(facts, PipelineStep::EnclaveIdentity) == RequestModel::EnclaveIdentity(
            EnclaveIdType::TDQE,
            4u32,
        ),
        spec_request(facts, PipelineStep::TcbInfo) == RequestModel::TcbInfo(
            TcbKind::Tdx,
            facts.fmspc,
            3u32,
        ),
{
}

/// If the root lookup fails or returns an empty certificate, the verdict
/// reports the root authority with certificate and CRL absent, and nothing
/// is persisted: the run ends before any other step is reached.
pub proof fn lemma_run_missing_root(
    facts: FactsModel,
    root_resp: ResponseModel,
    identity_resp: ResponseModel,
    tcb_resp: ResponseModel,
    signing_resp: ResponseModel,
    pck_resp: ResponseModel,
)
    requires
        match root_resp {
            ResponseModel::Pair(cert, _) => cert.len() == 0,
            _ => true,
        },
    ensures
        spec_run(facts, root_resp, identity_resp, tcb_resp, signing_resp, pck_resp) == (
            VerdictModel::MissingCertificateAuthority(CA::ROOT, true, true),
            Seq::<ArtifactModel>::empty(),
        ),
{
}

/// If the root certificate is present but its CRL is empty, the verdict
/// reports only the root CRL as absent, and the root certificate — and
/// nothing else — has been persisted before the verdict is returned.
pub proof fn lemma_run_missing_root_crl(
    facts: FactsModel,
    root_cert: Seq<u8>,
    root_crl: Seq<u8>,
    identity_resp: ResponseModel,
    tcb_resp: ResponseModel,
    signing_resp: ResponseModel,
    pck_resp: ResponseModel,
)
    requires
        root_cert.len() > 0,
        root_crl.len() == 0,
    ensures
        spec_run(
            facts,
            ResponseModel::Pair(root_cert, root_crl),
            identity_resp,
            tcb_resp,
            signing_resp,
            pck_resp,
        ) == (
            VerdictModel::MissingCertificateAuthority(CA::ROOT, false, true),
            seq![artifact(ArtifactKind::CaCertificate(CA::ROOT), root_cert)],
        ),
{
}

/// If the enclave-identity lookup fails after the root succeeded, the
/// verdict reports the identity for the kind selected by the platform
/// family and the quote version, and exactly the root certificate and CRL
/// are persisted.
pub proof fn lemma_run_missing_identity(
    facts: FactsModel,
    root_cert: Seq<u8>,
    root_crl: Seq<u8>,
    identity_resp: ResponseModel,
    tcb_resp: ResponseModel,
    signing_resp: ResponseModel,
    pck_resp: ResponseModel,
)
    requires
        root_cert.len() > 0,
        root_crl.len() > 0,
        !(identity_resp is Doc),
    ensures
        spec_run(
            facts,
            ResponseModel::Pair(root_cert, root_crl),
            identity_resp,
            tcb_resp,
            signing_resp,
            pck_resp,
        ) == (
            VerdictModel::MissingEnclaveIdentity(
                spec_enclave_kind(facts.tee_type),
                facts.version as u32,
            ),
            seq![
                artifact(ArtifactKind::CaCertificate(CA::ROOT), root_cert),
                artifact(ArtifactKind::CaCrl(CA::ROOT), root_crl),
            ],
        ),
{
    let r = spec_run(
        facts,
        ResponseModel::Pair(root_cert, root_crl),
        identity_resp,
        tcb_resp,
        signing_resp,
        pck_resp,
    );
    assert(r.1 =~= seq![
        artifact(ArtifactKind::CaCertificate(CA::ROOT), root_cert),
        artifact(ArtifactKind::CaCrl(CA::ROOT), root_crl),
    ]);
}

/// If every step through the TCB-signing CA succeeds but the PCK-authority
/// CRL comes back empty, the verdict reports the CRL of the issuing
/// authority derived from the quote's certificate chain, and every prior
/// artifact — root certificate and CRL, identity, TCB info, signing CA
/// certificate, PCK-authority certificate — has been persisted, but not the
/// PCK CRL.
pub proof fn lemma_run_missing_pck_crl(
    facts: FactsModel,
    root_cert: Seq<u8>,
    root_crl: Seq<u8>,
    identity: Seq<u8>,
    tcb: Seq<u8>,
    signing_cert: Seq<u8>,
    signing_crl: Seq<u8>,
    pck_cert: Seq<u8>,
    pck_crl: Seq<u8>,
)
    requires
        root_cert.len() > 0,
        root_crl.len() > 0,
        signing_cert.len() > 0,
        pck_cert.len() > 0,
        pck_crl.len() == 0,
    ensures
        spec_run(
            facts,
            ResponseModel::Pair(root_cert, root_crl),
            ResponseModel::Doc(identity),
            ResponseModel::Doc(tcb),
            ResponseModel::Pair(signing_cert, signing_crl),
            ResponseModel::Pair(pck_cert, pck_crl),
        ) == (
            VerdictModel::MissingCertificateAuthority(facts.pck_ca, false, true),
            seq![
                artifact(ArtifactKind::CaCertificate(CA::ROOT), root_cert),
                artifact(ArtifactKind::CaCrl(CA::ROOT), root_crl),
                artifact(
                    ArtifactKind::EnclaveIdentityDoc(
                        spec_enclave_kind(facts.tee_type),
                        facts.version as u32,
                    ),
                    identity,
                ),
                artifact(
                    ArtifactKind::TcbInfoDoc(
                        spec_tcb_kind(facts.tee_type),
                        spec_tcb_version(facts.version),
                    ),
                    tcb,
                ),
                artifact(ArtifactKind::CaCertificate(CA::SIGNING), signing_cert),
                artifact(ArtifactKind::CaCertificate(facts.pck_ca), pck_cert),
            ],
        ),
{
    let r = spec_run(
        facts,
        ResponseModel::Pair(root_cert, root_crl),
        ResponseModel::Doc(identity),
        ResponseModel::Doc(tcb),
        ResponseModel::Pair(signing_cert, signing_crl),
        ResponseModel::Pair(pck_cert, pck_crl),
    );
    assert(r.1 =~= seq![
        artifact(ArtifactKind::CaCertificate(CA::ROOT), root_cert),
        artifact(ArtifactKind::CaCrl(CA::ROOT), root_crl),
        artifact(
            ArtifactKind::EnclaveIdentityDoc(
                spec_enclave_kind(facts.tee_type),
                facts.version as u32,
            ),
            identity,
        ),
        artifact(
            ArtifactKind::TcbInfoDoc(spec_tcb_kind(facts.tee_type), spec_tcb_version(facts.version)),
            tcb,
        ),
        artifact(ArtifactKind::CaCertificate(CA::SIGNING), signing_cert),
        artifact(ArtifactKind::CaCertificate(facts.pck_ca), pck_cert),
    ]);
}

/// Idempotence: the run is a pure function of the quote facts and the
/// service's responses, so running the pipeline twice on the same quote
/// against an unchanged service yields the same verdict and persists the
/// same artifacts, in the same order and under the same names — persistence
/// is overwrite-safe, not additive.
pub proof fn lemma_run_idempotent(
    facts_first: FactsModel,
    facts_second: FactsModel,
    root_first: ResponseModel,
    identity_first: ResponseModel,
    tcb_first: ResponseModel,
    signing_first: ResponseModel,
    pck_first: ResponseModel,
    root_second: ResponseModel,
    identity_second: ResponseModel,
    tcb_second: ResponseModel,
    signing_second: ResponseModel,
    pck_second: ResponseModel,
)
    requires
        facts_first == facts_second,
        root_first == root_second,
        identity_first == identity_second,
        tcb_first == tcb_second,
        signing_first == signing_second,
        pck_first == pck_second,
    ensures
        spec_run(facts_first, root_first, identity_first, tcb_first, signing_first, pck_first)
            == spec_run(
            facts_second,
            root_second,
            identity_second,
            tcb_second,
            signing_second,
            pck_second,
        ),
{
}

/// Two step models with matching shells and extensionally equal artifact
/// sequences are equal.
proof fn assert_step_model(a: StepModel, b: StepModel)
    requires
        match (a, b) {
            (StepModel::Proceed(s1, a1), StepModel::Proceed(s2, a2)) => s1 == s2 && a1 =~= a2,
            (StepModel::Verdict(v1, a1), StepModel::Verdict(v2, a2)) => v1 == v2 && a1 =~= a2,
            _ => false,
        },
    ensures
        a == b,
{
}

} // verus!
