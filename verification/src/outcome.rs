//! Verification outcomes, the uniform external response, the action
//! dispatcher's decision, and the audit record.

use vstd::prelude::*;

verus! {

/// The three required authentication headers.
#[derive(Clone, Copy, Debug, PartialEq, Eq, Structural)]
pub enum HeaderField {
    Fingerprint,
    Timestamp,
    Signature,
}

/// Why a request was rejected. Recorded in full internally; never
/// surfaced across the trust boundary, where every rejection looks the
/// same.
#[derive(Clone, Copy, Debug, PartialEq, Eq, Structural)]
pub enum Reason {
    /// A required header is absent.
    MissingHeader(HeaderField),
    /// A required header holds non-textual bytes.
    InvalidEncoding(HeaderField),
    /// The claimed fingerprint differs from the cached trusted one.
    FingerprintMismatch,
    /// The timestamp header is not a decimal integer in range.
    InvalidTimestamp,
    /// The timestamp lies outside the freshness window.
    TimestampExpired,
    /// The signature header is not valid standard base64.
    BadSignatureEncoding,
    /// The signature does not verify over the canonical signing string.
    InvalidSignature,
}

/// What verification decided about one request.
pub enum VerificationOutcome {
    /// Every gate passed; carries the verified artifact reference.
    Accepted { artifact_url: Vec<u8> },
    /// Some gate failed.
    Rejected { reason: Reason },
}

impl VerificationOutcome {
    pub open spec fn spec_is_accepted(&self) -> bool {
        self matches VerificationOutcome::Accepted { .. }
    }

    pub open spec fn spec_reason(&self) -> Option<Reason> {
        match *self {
            VerificationOutcome::Accepted { .. } => None,
            VerificationOutcome::Rejected { reason } => Some(reason),
        }
    }

    pub open spec fn spec_url(&self) -> Option<Seq<u8>> {
        match *self {
            VerificationOutcome::Accepted { artifact_url } => Some(artifact_url@),
            VerificationOutcome::Rejected { .. } => None,
        }
    }

    pub fn is_accepted(&self) -> (r: bool)
        ensures
            r == self.spec_is_accepted(),
    {
        match self {
            VerificationOutcome::Accepted { .. } => true,
            VerificationOutcome::Rejected { .. } => false,
        }
    }

    pub fn reason(&self) -> (r: Option<Reason>)
        ensures
            r == self.spec_reason(),
    {
        match self {
            VerificationOutcome::Accepted { .. } => None,
            VerificationOutcome::Rejected { reason } => Some(*reason),
        }
    }

    pub fn artifact_url(&self) -> (r: Option<&Vec<u8>>)
        ensures
            r is Some <==> self.spec_is_accepted(),
            r matches Some(u) ==> Some(u@) == self.spec_url(),
    {
        match self {
            VerificationOutcome::Accepted { artifact_url } => Some(artifact_url),
            VerificationOutcome::Rejected { .. } => None,
        }
    }
}

/// Outcome of invoking the external deployment mechanism.
pub enum DeploymentResult {
    Success,
    /// The mechanism completed with a non-zero status; carries its
    /// captured error stream.
    Failure { diagnostics: Vec<u8> },
}

impl DeploymentResult {
    pub open spec fn spec_success(&self) -> bool {
        self matches DeploymentResult::Success
    }

    /// Classifies one completed invocation of the deployment mechanism:
    /// a zero exit status is success, anything else is a failure carrying
    /// the captured error stream.
    pub fn from_invocation(exit_ok: bool, diagnostics: Vec<u8>) -> (r: DeploymentResult)
        ensures
            r.spec_success() <==> exit_ok,
            !exit_ok ==> (r matches DeploymentResult::Failure { diagnostics: d } && d@
                == diagnostics@),
    {
        if exit_ok {
            DeploymentResult::Success
        } else {
            DeploymentResult::Failure { diagnostics }
        }
    }
}

/// What crosses the trust boundary: the only three observable statuses.
#[derive(Clone, Copy, Debug, PartialEq, Eq, Structural)]
pub enum ResponseStatus {
    /// Verified and dispatched: empty body, status "OK".
    Success,
    /// Any verification-stage rejection: empty body, status "Not Found",
    /// uniform across all rejection kinds.
    NotFound,
    /// Verified, but the deployment invocation failed.
    ServerError,
}

pub open spec fn view_dispatch(d: Option<&DeploymentResult>) -> Option<DeploymentResult> {
    match d {
        Some(x) => Some(*x),
        None => None,
    }
}

/// The observable response for an outcome and, when dispatch ran, its
/// result. Every rejection maps to the same status, whatever its reason.
pub open spec fn spec_response(o: VerificationOutcome, dispatch: Option<DeploymentResult>) -> ResponseStatus {
    match o {
        VerificationOutcome::Rejected { .. } => ResponseStatus::NotFound,
        VerificationOutcome::Accepted { .. } => match dispatch {
            Some(DeploymentResult::Success) => ResponseStatus::Success,
            _ => ResponseStatus::ServerError,
        },
    }
}

/// Maps an outcome and the dispatch result to the status sent back.
pub fn response_status(outcome: &VerificationOutcome, dispatch: Option<&DeploymentResult>) -> (r: ResponseStatus)
    requires
        outcome.spec_is_accepted() <==> dispatch is Some,
    ensures
        r == spec_response(*outcome, view_dispatch(dispatch)),
{
    match outcome {
        VerificationOutcome::Rejected { .. } => ResponseStatus::NotFound,
        VerificationOutcome::Accepted { .. } => match dispatch {
            Some(DeploymentResult::Success) => ResponseStatus::Success,
            _ => ResponseStatus::ServerError,
        },
    }
}

/// Rejections are externally indistinguishable: whatever the two reasons
/// and whatever the dispatcher did or did not report, two rejected
/// outcomes always map to the same observable response, "Not Found".
pub proof fn lemma_rejections_uniform(
    r1: Reason,
    r2: Reason,
    d1: Option<DeploymentResult>,
    d2: Option<DeploymentResult>,
)
    ensures
        spec_response(VerificationOutcome::Rejected { reason: r1 }, d1) == spec_response(
            VerificationOutcome::Rejected { reason: r2 },
            d2,
        ),
        spec_response(VerificationOutcome::Rejected { reason: r1 }, d1)
            == ResponseStatus::NotFound,
{
}

/// The action dispatcher's guard: yields the verified artifact reference
/// exactly when the outcome is an acceptance, so the deployment
/// mechanism can never be invoked, directly or indirectly, for a
/// rejected request.
pub fn dispatch_payload(outcome: &VerificationOutcome) -> (r: Option<&Vec<u8>>)
    ensures
        r is Some <==> outcome.spec_is_accepted(),
        r matches Some(u) ==> Some(u@) == outcome.spec_url(),
{
    match outcome {
        VerificationOutcome::Accepted { artifact_url } => Some(artifact_url),
        VerificationOutcome::Rejected { .. } => None,
    }
}

/// The label an audit record carries for an outcome. A function of the
/// outcome's kind alone: no signature, key or timestamp bytes flow into
/// it.
pub open spec fn spec_outcome_label(o: VerificationOutcome) -> Seq<char> {
    match o {
        VerificationOutcome::Accepted { .. } => "accepted"@,
        VerificationOutcome::Rejected { reason } => match reason {
            Reason::MissingHeader(HeaderField::Fingerprint) => "missing_header_fingerprint"@,
            Reason::MissingHeader(HeaderField::Timestamp) => "missing_header_timestamp"@,
            Reason::MissingHeader(HeaderField::Signature) => "missing_header_signature"@,
            Reason::InvalidEncoding(HeaderField::Fingerprint) => "invalid_encoding_fingerprint"@,
            Reason::InvalidEncoding(HeaderField::Timestamp) => "invalid_encoding_timestamp"@,
            Reason::InvalidEncoding(HeaderField::Signature) => "invalid_encoding_signature"@,
            Reason::FingerprintMismatch => "fingerprint_mismatch"@,
            Reason::InvalidTimestamp => "invalid_timestamp"@,
            Reason::TimestampExpired => "timestamp_expired"@,
            Reason::BadSignatureEncoding => "bad_signature_encoding"@,
            Reason::InvalidSignature => "invalid_signature"@,
        },
    }
}

/// The fixed label for an outcome.
pub fn outcome_label(o: &VerificationOutcome) -> (r: &'static str)
    ensures
        r@ == spec_outcome_label(*o),
{
    match o {
        VerificationOutcome::Accepted { .. } => "accepted",
        VerificationOutcome::Rejected { reason } => match reason {
            Reason::MissingHeader(HeaderField::Fingerprint) => "missing_header_fingerprint",
            Reason::MissingHeader(HeaderField::Timestamp) => "missing_header_timestamp",
            Reason::MissingHeader(HeaderField::Signature) => "missing_header_signature",
            Reason::InvalidEncoding(HeaderField::Fingerprint) => "invalid_encoding_fingerprint",
            Reason::InvalidEncoding(HeaderField::Timestamp) => "invalid_encoding_timestamp",
            Reason::InvalidEncoding(HeaderField::Signature) => "invalid_encoding_signature",
            Reason::FingerprintMismatch => "fingerprint_mismatch",
            Reason::InvalidTimestamp => "invalid_timestamp",
            Reason::TimestampExpired => "timestamp_expired",
            Reason::BadSignatureEncoding => "bad_signature_encoding",
            Reason::InvalidSignature => "invalid_signature",
        },
    }
}

/// One structured audit entry. By construction its content is a function
/// of the outcome's kind, the dispatch result, and the non-sensitive
/// request metadata handed in: the raw signature and key bytes are not
/// among its inputs and can never appear in it.
pub struct AuditRecord {
    /// Fixed label for the verification verdict.
    pub outcome_label: &'static str,
    /// Fixed label for the dispatch result, when dispatch ran.
    pub dispatch_label: Option<&'static str>,
    /// Error stream captured from a failed deployment invocation.
    pub dispatch_diagnostics: Vec<u8>,
    /// Source address of the request.
    pub source: Vec<u8>,
    /// Arrival time, in seconds since the epoch.
    pub arrival_time: i64,
}

/// Builds the audit entry for one completed request.
pub fn build_audit_record(
    outcome: &VerificationOutcome,
    dispatch: Option<&DeploymentResult>,
    source: &[u8],
    arrival_time: i64,
) -> (r: AuditRecord)
    ensures
        r.outcome_label@ == spec_outcome_label(*outcome),
        r.dispatch_label is Some <==> dispatch is Some,
        (dispatch matches Some(d) && d.spec_success()) ==> r.dispatch_label == Some(
            "dispatch_success",
        ),
        dispatch matches Some(d) ==> (d.spec_success() || (r.dispatch_label == Some(
            "dispatch_failure",
        ) && (match *d {
            DeploymentResult::Failure { diagnostics } => r.dispatch_diagnostics@ == diagnostics@,
            _ => false,
        }))),
        r.source@ == source@,
        r.arrival_time == arrival_time,
{
    let (dispatch_label, dispatch_diagnostics): (Option<&'static str>, Vec<u8>) = match dispatch {
        None => (None, Vec::new()),
        Some(DeploymentResult::Success) => (Some("dispatch_success"), Vec::new()),
        Some(DeploymentResult::Failure { diagnostics }) => (
            Some("dispatch_failure"),
            vstd::slice::slice_to_vec(diagnostics.as_slice()),
        ),
    };
    AuditRecord {
        outcome_label: outcome_label(outcome),
        dispatch_label,
        dispatch_diagnostics,
        source: vstd::slice::slice_to_vec(source),
        arrival_time,
    }
}

} // verus!
