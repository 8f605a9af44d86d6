//! Mutation admission and risk gating for a managed physiological state.
//!
//! A proposed mutation is admitted only after a fixed stack of independent
//! policies has accepted it: consent, lifeforce bands, per-epoch resource
//! ceilings, damping bounds, risk of harm, corridor envelopes and evidence.
//! Every decision function is pure and takes immutable snapshots.
//!
//! Real-valued quantities (fractions, joules, risk scores) are carried as
//! signed fixed-point numbers counted in millionths; see [`fixed`]. A
//! reading that arrives as a double is turned into millionths by
//! [`ieee`].

pub mod fixed;
pub mod ieee;
pub mod types;
pub mod lifeforce;
pub mod bio_defense;
pub mod reflex_sense;
pub mod text;
pub mod metrics;
pub mod reason;
pub mod evidence_bundle;
pub mod gaze_v1;
pub mod rohmodel;
pub mod riskofharm;
pub mod tokenguard;
pub mod sovereigntycore;
pub mod coverage;
pub mod admission;
pub mod reflex_sense_mapper;
pub mod cybernetic;
pub mod defensive_mutation;
pub mod evo_schema;
pub mod propose_only;
pub mod evidence;
pub mod manifest;
