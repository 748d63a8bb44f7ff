//! A safety-oriented wrapper layer over the Kiwi morphological-analysis
//! engine's C interface.
//!
//! The engine itself is an opaque native collaborator reached through raw
//! handles.  This crate holds the verified half of the wrapper: the option
//! and flag codecs, the bounds-checked projection of analysis results, the
//! two-phase callback buffer protocol, the sentinel and error-channel
//! decoding rules, and the shared-ownership teardown discipline.  The thin
//! foreign-call shells that move raw pointers live outside the verified
//! library and hand plain values in and out.

pub mod analyzed;
pub mod builder;
pub mod build_options;
pub mod error;
pub mod extracted;
pub mod match_options;
pub mod ownership;
pub mod pos_tag;
pub mod script;
pub mod text;
pub mod typo;
pub mod trampoline;

pub use analyzed::Analyzed;
pub use analyzed::Morpheme;
pub use analyzed::Token;
pub use build_options::KiwiOptions;
pub use error::Error;
pub use typo::CondVowel;
pub use typo::DefaultTypoSet;
pub use extracted::Extracted;
pub use extracted::Word;
pub use match_options::Match;
pub use pos_tag::POSTag;
