//! A verified type checker for the Clarity smart contract language.
pub mod acceptance_laws;
pub mod analysis;
pub mod application_laws;
pub mod assets;
pub mod call_laws;
pub mod chain;
pub mod checker;
pub mod contexts;
pub mod costs;
pub mod define;
pub mod definition_laws;
pub mod definitions;
pub mod description_laws;
pub mod errors;
pub mod form_laws;
pub mod functions;
pub mod laws;
pub mod lookup_laws;
pub mod measure_laws;
pub mod name_map;
pub mod names;
pub mod natives;
pub mod nesting;
pub mod parse;
pub mod progress;
pub mod representations;
pub mod scope_laws;
pub mod sequence_laws;
pub mod sequences;
pub mod serialization;
mod special;
pub mod special_laws;
pub mod state;
pub mod subtyping;
pub mod trait_laws;
pub mod traits;
pub mod types;
pub mod typing;
pub mod value_laws;
pub mod values;
pub mod variables;
