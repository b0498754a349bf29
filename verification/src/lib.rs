//! zkTLS identity verification: core types, notary-side proof generation,
//! proof verification and verification templates.

pub mod digest;
pub mod error;
pub mod json;
pub mod keys;
pub mod laws;
pub mod notary;
pub mod session;
pub mod templates;
pub mod text;
pub mod time;
pub mod types;
pub mod verify;

pub use digest::sha512_hash;
pub use error::NotaryError;
pub use json::{JsonEntry, JsonValue};
pub use keys::NotaryKeyPair;
pub use notary::{ErrorResponse, NotarizeRequest, NotarizeResponse, NotaryConfig, NotaryInfoResponse};
pub use session::{
    build_signing_message, extract_fields, generate_proof, NotarySession, SessionState, SessionStore,
};
pub use templates::{
    utah_voter_template, FieldDefinition, FieldType, HttpMethod, TargetServer, TemplateRegistry,
    VerificationTemplate,
};
pub use time::Timestamp;
pub use types::{Attestation, CoreError, DisclosureMask, FieldMap, SessionProof};
pub use verify::{Ed25519Verifier, TrustedNotary, VerificationError, VerificationResult, Verify};
