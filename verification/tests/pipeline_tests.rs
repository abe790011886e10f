//! Tests of the collateral-completeness pipeline: the request each step
//! makes, the verdict and artifacts of each outcome, the fixed check order,
//! and idempotence of a repeated run.

use quote_collateral::pipeline::{
    advance, artifact_file_name, enclave_kind, request_of, tcb_kind, tcb_version, Artifact,
    ArtifactKind, CollateralRequest, FetchResponse, PipelineStep, StepResult,
};
use quote_collateral::{EnclaveIdType, MissingCollateral, QuoteFacts, TcbKind, CA};

fn sgx_v3_facts() -> QuoteFacts {
    QuoteFacts {
        version: 3,
        tee_type: 0x0000_0000,
        fmspc: String::from("00606a000000"),
        pck_ca: CA::PLATFORM,
    }
}

fn tdx_v4_facts() -> QuoteFacts {
    QuoteFacts {
        version: 4,
        tee_type: 0x0000_0081,
        fmspc: String::from("90c06f000000"),
        pck_ca: CA::PROCESSOR,
    }
}

/// The five responses of a service that has everything; bytes chosen so
/// each artifact is distinguishable.
fn all_present() -> Vec<FetchResponse> {
    vec![
        FetchResponse::Pair(vec![1], vec![2]),
        FetchResponse::Doc(vec![3]),
        FetchResponse::Doc(vec![4]),
        FetchResponse::Pair(vec![5], vec![6]),
        FetchResponse::Pair(vec![7], vec![8]),
    ]
}

/// Drives the pipeline from the root step over the given responses,
/// returning the verdict and the persisted artifacts in order.
fn run(facts: &QuoteFacts, mut responses: Vec<FetchResponse>) -> (MissingCollateral, Vec<Artifact>)
{
    responses.reverse();
    let mut step = PipelineStep::Root;
    let mut persisted: Vec<Artifact> = Vec::new();
    loop {
        // the request is what an external caller would now fetch; the
        // canned response stands in for the service's answer
        let _request = request_of(facts, step);
        let response = responses.pop().expect("the pipeline asked for a sixth fetch");
        match advance(facts, step, response) {
            StepResult::Proceed(next, artifacts) => {
                persisted.extend(artifacts);
                step = next;
            },
            StepResult::Verdict(verdict, artifacts) => {
                persisted.extend(artifacts);
                return (verdict, persisted);
            },
        }
    }
}

fn names_of(artifacts: &[Artifact]) -> Vec<String> {
    artifacts.iter().map(|a| artifact_file_name(&a.kind)).collect()
}

#[test]
fn complete_sgx_v3_run_persists_everything_in_order() {
    let facts = sgx_v3_facts();
    let (verdict, artifacts) = run(&facts, all_present());
    assert_eq!(verdict, MissingCollateral::Complete);
    assert_eq!(
        names_of(&artifacts),
        vec![
            "root.der",
            "root-crl.der",
            "identity-qe-v3.json",
            "tcbinfo-sgx-v2.json",
            "signing.der",
            "platform.der",
            "platform-crl.der",
        ]
    );
    let bytes: Vec<Vec<u8>> = artifacts.iter().map(|a| a.bytes.clone()).collect();
    assert_eq!(
        bytes,
        vec![vec![1], vec![2], vec![3], vec![4], vec![5], vec![7], vec![8]]
    );
}

#[test]
fn complete_tdx_v4_run_uses_td_identity_and_schema_3() {
    let facts = tdx_v4_facts();
    let (verdict, artifacts) = run(&facts, all_present());
    assert_eq!(verdict, MissingCollateral::Complete);
    assert_eq!(
        names_of(&artifacts),
        vec![
            "root.der",
            "root-crl.der",
            "identity-td-v4.json",
            "tcbinfo-tdx-v3.json",
            "signing.der",
            "processor.der",
            "processor-crl.der",
        ]
    );
}

#[test]
fn tdx_v4_requests_select_tdqe_and_schema_3() {
    let facts = tdx_v4_facts();
    match request_of(&facts, PipelineStep::EnclaveIdentity) {
        CollateralRequest::EnclaveIdentity(kind, version) => {
            assert_eq!(kind, EnclaveIdType::TDQE);
            assert_eq!(version, 4);
        },
        _ => panic!("the identity step must request an enclave identity"),
    }
    match request_of(&facts, PipelineStep::TcbInfo) {
        CollateralRequest::TcbInfo(kind, fmspc, version) => {
            assert_eq!(kind, TcbKind::Tdx);
            assert_eq!(fmspc, "90c06f000000");
            assert_eq!(version, 3);
        },
        _ => panic!("the TCB step must request TCB info"),
    }
}

#[test]
fn sgx_v3_requests_select_qe_and_schema_2() {
    assert_eq!(enclave_kind(0x0000_0000), EnclaveIdType::QE);
    assert_eq!(tcb_kind(0x0000_0000), TcbKind::Sgx);
    assert_eq!(tcb_version(3), 2);
    assert_eq!(tcb_version(4), 3);
    let facts = sgx_v3_facts();
    match request_of(&facts, PipelineStep::Root) {
        CollateralRequest::Certificate(ca) => assert_eq!(ca, CA::ROOT),
        _ => panic!("the root step must request a certificate"),
    }
    match request_of(&facts, PipelineStep::PckCa) {
        CollateralRequest::Certificate(ca) => assert_eq!(ca, CA::PLATFORM),
        _ => panic!("the PCK step must request a certificate"),
    }
}

#[test]
fn empty_root_certificate_persists_nothing() {
    let facts = sgx_v3_facts();
    let mut responses = all_present();
    responses[0] = FetchResponse::Pair(vec![], vec![2]);
    let (verdict, artifacts) = run(&facts, responses);
    assert_eq!(
        verdict,
        MissingCollateral::MissingCertificateAuthority(CA::ROOT, true, true)
    );
    assert!(artifacts.is_empty());
}

#[test]
fn failed_root_fetch_reports_root_missing() {
    let facts = sgx_v3_facts();
    let mut responses = all_present();
    responses[0] = FetchResponse::Failed;
    let (verdict, artifacts) = run(&facts, responses);
    assert_eq!(
        verdict,
        MissingCollateral::MissingCertificateAuthority(CA::ROOT, true, true)
    );
    assert!(artifacts.is_empty());
}

#[test]
fn empty_root_crl_persists_the_root_certificate_alone() {
    let facts = sgx_v3_facts();
    let mut responses = all_present();
    responses[0] = FetchResponse::Pair(vec![1], vec![]);
    let (verdict, artifacts) = run(&facts, responses);
    assert_eq!(
        verdict,
        MissingCollateral::MissingCertificateAuthority(CA::ROOT, false, true)
    );
    assert_eq!(names_of(&artifacts), vec!["root.der"]);
    assert_eq!(artifacts[0].bytes, vec![1]);
}

#[test]
fn failed_identity_fetch_persists_exactly_the_root_pair() {
    let facts = sgx_v3_facts();
    let mut responses = all_present();
    responses[1] = FetchResponse::Failed;
    let (verdict, artifacts) = run(&facts, responses);
    assert_eq!(
        verdict,
        MissingCollateral::MissingEnclaveIdentity(EnclaveIdType::QE, 3)
    );
    assert_eq!(names_of(&artifacts), vec!["root.der", "root-crl.der"]);
}

#[test]
fn failed_tcb_fetch_reports_the_fmspc() {
    let facts = sgx_v3_facts();
    let mut responses = all_present();
    responses[2] = FetchResponse::Failed;
    let (verdict, artifacts) = run(&facts, responses);
    assert_eq!(
        verdict,
        MissingCollateral::MissingTcbInfo(TcbKind::Sgx, String::from("00606a000000"), 2)
    );
    assert_eq!(names_of(&artifacts), vec!["root.der", "root-crl.der", "identity-qe-v3.json"]);
}

#[test]
fn empty_signing_certificate_reports_no_crl_needed() {
    let facts = sgx_v3_facts();
    let mut responses = all_present();
    responses[3] = FetchResponse::Pair(vec![], vec![6]);
    let (verdict, artifacts) = run(&facts, responses);
    assert_eq!(
        verdict,
        MissingCollateral::MissingCertificateAuthority(CA::SIGNING, true, false)
    );
    assert_eq!(
        names_of(&artifacts),
        vec!["root.der", "root-crl.der", "identity-qe-v3.json", "tcbinfo-sgx-v2.json"]
    );
}

#[test]
fn empty_pck_crl_persists_everything_but_the_crl() {
    let facts = sgx_v3_facts();
    let mut responses = all_present();
    responses[4] = FetchResponse::Pair(vec![7], vec![]);
    let (verdict, artifacts) = run(&facts, responses);
    assert_eq!(
        verdict,
        MissingCollateral::MissingCertificateAuthority(CA::PLATFORM, false, true)
    );
    assert_eq!(
        names_of(&artifacts),
        vec![
            "root.der",
            "root-crl.der",
            "identity-qe-v3.json",
            "tcbinfo-sgx-v2.json",
            "signing.der",
            "platform.der",
        ]
    );
}

#[test]
fn empty_pck_certificate_reports_both_absent() {
    let facts = sgx_v3_facts();
    let mut responses = all_present();
    responses[4] = FetchResponse::Pair(vec![], vec![8]);
    let (verdict, artifacts) = run(&facts, responses);
    assert_eq!(
        verdict,
        MissingCollateral::MissingCertificateAuthority(CA::PLATFORM, true, true)
    );
    assert_eq!(names_of(&artifacts).len(), 5);
}

#[test]
fn repeated_runs_are_idempotent() {
    let facts = sgx_v3_facts();
    let (first_verdict, first_artifacts) = run(&facts, all_present());
    let (second_verdict, second_artifacts) = run(&facts, all_present());
    assert_eq!(first_verdict, MissingCollateral::Complete);
    assert_eq!(first_verdict, second_verdict);
    assert_eq!(names_of(&first_artifacts), names_of(&second_artifacts));
    let first_bytes: Vec<Vec<u8>> = first_artifacts.iter().map(|a| a.bytes.clone()).collect();
    let second_bytes: Vec<Vec<u8>> = second_artifacts.iter().map(|a| a.bytes.clone()).collect();
    assert_eq!(first_bytes, second_bytes);
}

#[test]
fn artifact_file_names() {
    assert_eq!(artifact_file_name(&ArtifactKind::CaCertificate(CA::ROOT)), "root.der");
    assert_eq!(artifact_file_name(&ArtifactKind::CaCrl(CA::ROOT)), "root-crl.der");
    assert_eq!(artifact_file_name(&ArtifactKind::CaCertificate(CA::SIGNING)), "signing.der");
    assert_eq!(
        artifact_file_name(&ArtifactKind::CaCertificate(CA::PROCESSOR)),
        "processor.der"
    );
    assert_eq!(artifact_file_name(&ArtifactKind::CaCrl(CA::PLATFORM)), "platform-crl.der");
    assert_eq!(
        artifact_file_name(&ArtifactKind::EnclaveIdentityDoc(EnclaveIdType::QVE, 3)),
        "identity-qve-v3.json"
    );
    assert_eq!(
        artifact_file_name(&ArtifactKind::TcbInfoDoc(TcbKind::Tdx, 3)),
        "tcbinfo-tdx-v3.json"
    );
}

#[test]
fn a_doc_where_a_pair_was_asked_counts_as_absent() {
    let facts = sgx_v3_facts();
    let mut responses = all_present();
    responses[0] = FetchResponse::Doc(vec![9]);
    let (verdict, artifacts) = run(&facts, responses);
    assert_eq!(
        verdict,
        MissingCollateral::MissingCertificateAuthority(CA::ROOT, true, true)
    );
    assert!(artifacts.is_empty());
}
