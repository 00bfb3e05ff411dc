use jear::attest::{verify, AttestError, AttestationReport, CpuQuote};

fn quote(nonce: &str) -> CpuQuote {
    CpuQuote {
        signing_address: "0xabc".to_string(),
        signing_algo: "ecdsa".to_string(),
        intel_quote: "deadbeef".to_string(),
        report_data: "binds-address-and-nonce".to_string(),
        request_nonce: nonce.to_string(),
    }
}

fn report(nonce: &str) -> AttestationReport {
    AttestationReport {
        gateway_attestation: quote(nonce),
    }
}

#[test]
fn valid_report_returns_signer() {
    assert_eq!(verify(&report("n-1"), "n-1"), Ok("0xabc".to_string()));
}

#[test]
fn wrong_nonce_fails() {
    assert_eq!(
        verify(&report("n-1"), "n-2"),
        Err(AttestError::NonceMismatch)
    );
}

#[test]
fn empty_quote_fails() {
    let mut r = report("n-1");
    r.gateway_attestation.intel_quote.clear();
    assert_eq!(
        verify(&r, "n-1"),
        Err(AttestError::EmptyField("intel_quote"))
    );
}

#[test]
fn blank_fields_fail_in_order() {
    let mut r = report("n-1");
    r.gateway_attestation.signing_address = "  \t".to_string();
    r.gateway_attestation.report_data.clear();
    assert_eq!(
        verify(&r, "n-1"),
        Err(AttestError::EmptyField("signing_address"))
    );
    let mut r = report("n-1");
    r.gateway_attestation.report_data = "\u{3000}".to_string();
    assert_eq!(
        verify(&r, "n-1"),
        Err(AttestError::EmptyField("report_data"))
    );
    // A blank field is reported before a nonce mismatch.
    assert_eq!(
        verify(&r, "n-2"),
        Err(AttestError::EmptyField("report_data"))
    );
}

#[test]
fn attest_errors_display() {
    assert_eq!(
        AttestError::EmptyField("intel_quote").message(),
        "attestation missing intel_quote"
    );
    assert_eq!(
        AttestError::NonceMismatch.message(),
        "attestation nonce mismatch"
    );
}
