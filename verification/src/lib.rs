//! Verified session core of a homomorphic-encryption orchestration layer:
//! scheme parameters, the shared encoding context, the key cache and its
//! fingerprint, and the rules that gate evaluator operations.
pub mod zq;
