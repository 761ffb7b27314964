pub mod config;
pub mod corrector;
pub mod error;
pub mod fuzzy;
pub mod re;
pub mod rules;
pub mod shell;
pub mod skim;
pub mod text;
pub mod types;

pub use config::Config;
pub use corrector::Corrector;
pub use error::Error;
pub use fuzzy::FuzzyMatcher;
pub use rules::builders::FuzzyRuleBuilder;
pub use rules::builders::RegexRuleBuilder;
pub use rules::builders::SimpleRuleBuilder;
pub use rules::RuleRegistry;
pub use shell::Shell;
pub use shell::ShellOutput;
pub use types::Command;
pub use types::CorrectedCommand;
pub use types::CustomRule;
pub use types::Rule;
