pub mod client;
pub mod dns;
pub mod follow;
pub mod github;
pub mod hex;
pub mod key_to_key_link;
pub mod proof_type;
pub mod schema;
pub mod self_signed;
pub mod signer;
pub mod statement_type;
pub mod text;
pub mod twitter;
pub mod witness;
