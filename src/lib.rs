//! Workspace management for malware samples: fingerprinting, classification,
//! content-addressed storage, threat-intelligence enrichment and tagging.
pub mod hex_text;
pub mod responses;
pub mod vt_report;
pub mod vt_connect;
pub mod local_report;
pub mod digest;
pub mod sample;
pub mod project;
pub mod text;
