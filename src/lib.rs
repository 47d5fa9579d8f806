//! Inflects English words between singular and plural form for a given
//! count, keeping the letter case of the word that was handed in.

pub mod casing;
pub mod defaults;
pub mod inflect;
pub mod irregular;
pub mod laws;
pub mod number;
pub mod pattern;
pub mod seed;
pub mod store;
pub mod template;
mod text;

pub use casing::restore_case;
pub use defaults::default_table;
pub use inflect::{pluralize, replace_match, to_plural, to_singular};
pub use pattern::{Captured, InvalidPatternError, PatternRule};
pub use seed::{initialize, RuleTable};
pub use store::{
    add_irregular_rule, add_plural_rule, add_singular_rule, add_uncountable_rule, RuleStore,
    UncountableRule,
};
pub use template::remove_dollar_escapes;
