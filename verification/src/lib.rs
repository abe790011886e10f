//! Collateral completeness checking for TEE attestation quotes.
//!
//! Given a hardware attestation quote, this crate determines which pieces of
//! verification collateral (certificates, certificate revocation lists,
//! enclave identity documents, TCB info documents) still have to be fetched
//! before the quote can be fully verified. It covers three concerns:
//!
//! - reading the quote header to classify the quote (version and platform
//!   family),
//! - locating the PCK certificate chain embedded in the quote and deriving
//!   the platform identifier (FMSPC) and the issuing certificate authority,
//! - the ordered decision procedure that turns these facts plus the results
//!   of external collateral lookups into a single [`MissingCollateral`]
//!   verdict.
//!
//! The crate does not perform the external lookups itself: the pipeline is a
//! step machine (`request_of` / `advance`) that a caller drives, performing
//! one lookup per step and handing the response back.

pub mod binary;
pub mod base64;
pub mod types;
pub mod quote;
pub mod pipeline;

pub use types::{MissingCollateral, QuoteError, QuoteFacts, CA, EnclaveIdType, TcbKind};
