//! TEE attestation report shapes and verify-before-display.
//!
//! Shapes for `GET /v1/attestation/report` (Dstack CPU quote). Checks
//! structure and nonce binding so replays fail fast. Full Intel DCAP quote
//! verification stays upstream.
use vstd::prelude::*;
use crate::text::{blank, is_blank, str_equal};

verus! {

/// Report path under the NEAR base URL, which already ends in `/v1`
/// (query params carry model, nonce, provider, ...).
pub const ATTESTATION_PATH: &'static str = "/attestation/report";

/// Gateway CPU quote (required subset of `DstackCpuQuote`).
#[derive(Debug, Clone, PartialEq, Eq)]
pub struct CpuQuote {
    /// Address that signs responses.
    pub signing_address: String,
    /// `ecdsa` or `ed25519`.
    pub signing_algo: String,
    /// Hex attestation quote (opaque here).
    pub intel_quote: String,
    /// Report data binding address + nonce.
    pub report_data: String,
    /// Echo of the request nonce (replay protection).
    pub request_nonce: String,
}

/// Attestation response (the subset verified).
#[derive(Debug, Clone, PartialEq, Eq)]
pub struct AttestationReport {
    /// Gateway quote, always present on success.
    pub gateway_attestation: CpuQuote,
}

/// Why a report fails verification (key material never included).
#[derive(Debug, Clone, Copy, PartialEq, Eq)]
pub enum AttestError {
    /// Required string field was blank.
    EmptyField(&'static str),
    /// `request_nonce` did not echo our nonce (possible replay).
    NonceMismatch,
}

impl AttestError {
    /// The text the error displays.
    pub open spec fn text(self) -> Seq<char> {
        match self {
            AttestError::EmptyField(field) => "attestation missing "@ + field@,
            AttestError::NonceMismatch => "attestation nonce mismatch"@,
        }
    }

    /// The display text of the error.
    pub fn message(&self) -> (r: String)
        ensures
            r@ == self.text(),
    {
        match self {
            AttestError::EmptyField(field) => String::from_str("attestation missing ").concat(field),
            AttestError::NonceMismatch => String::from_str("attestation nonce mismatch"),
        }
    }
}

/// The report passes: the three required fields are not blank and the quote
/// echoes the expected nonce.
pub open spec fn quote_ok(q: CpuQuote, nonce: Seq<char>) -> bool {
    &&& !blank(q.signing_address@)
    &&& !blank(q.intel_quote@)
    &&& !blank(q.report_data@)
    &&& q.request_nonce@ == nonce
}

/// Verify structure + nonce binding. Returns the signing address on success
/// so callers can pin it for per-response signature checks. Fields are
/// checked in order: `signing_address`, `intel_quote`, `report_data`, then
/// the nonce.
pub fn verify(report: &AttestationReport, expected_nonce: &str) -> (r: Result<String, AttestError>)
    ensures
        ({
            let q = report.gateway_attestation;
            &&& r is Ok <==> quote_ok(q, expected_nonce@)
            &&& r matches Ok(addr) ==> addr@ == q.signing_address@
            &&& blank(q.signing_address@) ==> (r matches Err(AttestError::EmptyField(f)) && f@
                == "signing_address"@)
            &&& !blank(q.signing_address@) && blank(q.intel_quote@) ==> (r matches Err(
                AttestError::EmptyField(f),
            ) && f@ == "intel_quote"@)
            &&& !blank(q.signing_address@) && !blank(q.intel_quote@) && blank(q.report_data@) ==> (
            r matches Err(AttestError::EmptyField(f)) && f@ == "report_data"@)
            &&& !blank(q.signing_address@) && !blank(q.intel_quote@) && !blank(q.report_data@)
                && q.request_nonce@ != expected_nonce@ ==> r == Err::<String, AttestError>(
                AttestError::NonceMismatch,
            )
        }),
{
    let q = &report.gateway_attestation;
    if is_blank(q.signing_address.as_str()) {
        return Err(AttestError::EmptyField("signing_address"));
    }
    if is_blank(q.intel_quote.as_str()) {
        return Err(AttestError::EmptyField("intel_quote"));
    }
    if is_blank(q.report_data.as_str()) {
        return Err(AttestError::EmptyField("report_data"));
    }
    if !str_equal(q.request_nonce.as_str(), expected_nonce) {
        return Err(AttestError::NonceMismatch);
    }
    Ok(q.signing_address.clone())
}

} // verus!

verus! {

/// The signing algorithm is carried, never checked: a report passes exactly
/// when its address, quote and report data are not blank and it echoes the
/// nonce, whatever `signing_algo` holds.
pub proof fn law_signing_algo_not_checked(q: CpuQuote, algo: String, nonce: Seq<char>)
    ensures
        quote_ok(q, nonce) == quote_ok(CpuQuote { signing_algo: algo, ..q }, nonce),
        (!blank(q.signing_address@) && !blank(q.intel_quote@) && !blank(q.report_data@)
            && q.request_nonce@ == nonce) == quote_ok(q, nonce),
{
}

} // verus!
