//! Core of a visual challenge-response ("captcha") service: generation
//! of a challenge (a random answer with randomized distortion
//! parameters for its rendered image), keyed storage of outstanding
//! challenge records, and one-shot verification of a claimed answer
//! against the stored record. Image rendering and transport are
//! external collaborators; this crate holds the lifecycle logic.

pub mod challenge;
pub mod generator;
pub mod store;
pub mod verification;
