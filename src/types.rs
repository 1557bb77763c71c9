//! Request, response and catalog records of the proof service.
use vstd::prelude::*;

verus! {

broadcast use vstd::string::to_string_from_display_ensures_for_str;

/// Claim that a user has paid for a service in a given month.
pub struct SubscriptionProof {
    pub service_id: u32,
    pub is_valid: bool,
    pub payment_verified: bool,
    pub timestamp: u64,
    pub user_commitment: [u8; 32],
}

/// Request to generate a proof of payment.
#[derive(Debug, Clone)]
pub struct GenerateProofRequest {
    /// The user's address, in hex.
    pub user_address: String,
    /// The address of the contract that received the payment, in hex.
    pub payment_receiver: String,
    /// The billing period.
    pub month: u64,
    /// The user's signature, in hex.
    pub signature: String,
}

/// Response carrying a generated proof.
#[derive(Debug, Clone)]
pub struct GenerateProofResponse {
    pub success: bool,
    pub message: String,
    /// Unique proof identifier.
    pub proof_id: String,
    /// Public outputs of the proof computation, in hex.
    pub journal: String,
    /// The proof itself, in hex.
    pub seal: String,
    /// The chain-state commitment that the journal holds, in hex.
    pub commitment: String,
    /// When the proof was produced, in seconds since the Unix epoch.
    pub timestamp: u64,
}

/// Request to check a proof for a month.
#[derive(Debug)]
pub struct VerifyProofRequest {
    pub proof: String,
    pub commitment: String,
    pub month_year: u64,
}

/// Whether access is granted on a checked proof.
#[derive(Debug)]
pub struct VerifyProofResponse {
    pub access_granted: bool,
    /// Reason for a denial.
    pub reason: Option<String>,
    pub verified_service: Option<String>,
    pub verified_month_year: Option<u64>,
}

/// Error reported to a client.
#[derive(Debug)]
pub struct ErrorResponse {
    /// Human-readable message.
    pub error: String,
    /// Machine-readable code.
    pub error_code: String,
    pub details: Option<String>,
}

impl ErrorResponse {
    pub fn new(error: &str, error_code: &str, details: Option<String>) -> (r: Self)
        ensures
            r.error@ == error@,
            r.error_code@ == error_code@,
            r.details == details,
    {
        Self { error: error.to_string(), error_code: error_code.to_string(), details }
    }

    /// Invalid input data.
    pub fn validation_error(details: String) -> (r: Self)
        ensures
            r.error@ == "Validation error"@,
            r.error_code@ == "VALIDATION_ERROR"@,
            r.details == Some(details),
    {
        Self::new("Validation error", "VALIDATION_ERROR", Some(details))
    }

    /// Proof creation failed.
    pub fn proof_generation_error(details: String) -> (r: Self)
        ensures
            r.error@ == "Proof generation failed"@,
            r.error_code@ == "PROOF_ERROR"@,
            r.details == Some(details),
    {
        Self::new("Proof generation failed", "PROOF_ERROR", Some(details))
    }

    /// Proof verification failed.
    pub fn verification_error(details: String) -> (r: Self)
        ensures
            r.error@ == "Proof verification failed"@,
            r.error_code@ == "VERIFICATION_ERROR"@,
            r.details == Some(details),
    {
        Self::new("Proof verification failed", "VERIFICATION_ERROR", Some(details))
    }
}

/// A service of the static catalog.
#[derive(Debug)]
pub struct ServiceInfo {
    /// Service identifier.
    pub id: u32,
    pub name: String,
    /// Minimum payment, in wei, cut to 64 bits.
    pub min_amount: u64,
    pub description: String,
}

impl ServiceInfo {
    pub open spec fn view(&self) -> (u32, Seq<char>, u64, Seq<char>) {
        (self.id, self.name@, self.min_amount, self.description@)
    }
}

/// The catalog: id, name, minimum amount (the wei amount cut to its low 64 bits), description.
pub open spec fn service_catalog() -> Seq<(u32, Seq<char>, u64, Seq<char>)> {
    seq![
        (1u32, "VitalikFeetPics.com"@, 1_553_255_926_290_448_384u64,
            "Premium exclusive content subscription"@),
        (2u32, "Netflix"@, 15_000_000_000_000_000_000u64,
            "Netflix streaming service"@),
        (3u32, "Spotify"@, 10_000_000_000_000_000_000u64,
            "Spotify music streaming"@),
        (4u32, "Disney+"@, 8_000_000_000_000_000_000u64, "Disney+ streaming service"@),
        (5u32, "Amazon Prime"@, 12_000_000_000_000_000_000u64,
            "Amazon Prime Video"@),
        (6u32, "Hulu"@, 8_000_000_000_000_000_000u64, "Hulu streaming service"@),
    ]
}

fn service(id: u32, name: &str, min_amount: u64, description: &str) -> (r: ServiceInfo)
    ensures
        r@ == (id, name@, min_amount, description@),
{
    ServiceInfo { id, name: name.to_string(), min_amount, description: description.to_string() }
}

/// The services that proofs can be made for.
pub fn get_supported_services() -> (r: Vec<ServiceInfo>)
    ensures
        r@.len() == service_catalog().len(),
        forall|i: int| 0 <= i < r@.len() ==> #[trigger] r@[i]@ == service_catalog()[i],
{
    // 20 ether does not fit in 64 bits: the catalog holds its low 64 bits.
    let v = vec![
        service(1, "VitalikFeetPics.com", 1_553_255_926_290_448_384u64,
            "Premium exclusive content subscription"),
        service(2, "Netflix", 15_000_000_000_000_000_000u64, "Netflix streaming service"),
        service(3, "Spotify", 10_000_000_000_000_000_000u64, "Spotify music streaming"),
        service(4, "Disney+", 8_000_000_000_000_000_000u64, "Disney+ streaming service"),
        service(5, "Amazon Prime", 12_000_000_000_000_000_000u64, "Amazon Prime Video"),
        service(6, "Hulu", 8_000_000_000_000_000_000u64, "Hulu streaming service"),
    ];
    v
}

} // verus!
