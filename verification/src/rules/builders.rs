//! Builders that produce rules from declarative specifications, validating
//! at construction time.

pub mod fuzzy;
pub mod regex;
pub mod simple;

pub use fuzzy::FuzzyRuleBuilder;
pub use regex::RegexRuleBuilder;
pub use simple::SimpleRuleBuilder;
