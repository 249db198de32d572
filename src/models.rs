//! The values that cross the boundary of the use cases.
use vstd::prelude::*;

use crate::document::{RenderPreferences, WordCountRules};

verus! {

/// A heading of the loaded document.
#[derive(Debug, Clone)]
pub struct TocEntryOutput {
    pub level: u8,
    pub id: String,
    pub text: String,
}

/// A loaded and rendered document.
#[derive(Debug, Clone)]
pub struct MarkdownDocumentOutput {
    pub path: String,
    pub title: String,
    pub source: String,
    pub html: String,
    pub toc: Vec<TocEntryOutput>,
    pub word_count: usize,
    pub reading_time_minutes: u16,
}

/// The word-count rules a caller asks for.
#[derive(Debug, Clone, Copy)]
pub struct WordCountRulesInput {
    pub include_links: bool,
    pub include_code: bool,
    pub include_front_matter: bool,
}

impl Default for WordCountRulesInput {
    /// Link text counts; code and front matter do not.
    fn default() -> (r: Self)
        ensures
            r.include_links,
            !r.include_code,
            !r.include_front_matter,
    {
        WordCountRulesInput { include_links: true, include_code: false, include_front_matter: false }
    }
}

/// The render preferences a caller asks for.
#[derive(Debug, Clone, Copy)]
pub struct RenderPreferencesInput {
    pub performance_mode: bool,
    pub word_count_rules: WordCountRulesInput,
}

impl Default for RenderPreferencesInput {
    /// Full rendering, with the default word-count rules.
    fn default() -> (r: Self)
        ensures
            !r.performance_mode,
            r.word_count_rules.include_links,
            !r.word_count_rules.include_code,
            !r.word_count_rules.include_front_matter,
    {
        RenderPreferencesInput {
            performance_mode: false,
            word_count_rules: WordCountRulesInput::default(),
        }
    }
}

impl From<WordCountRulesInput> for WordCountRules {
    fn from(value: WordCountRulesInput) -> Self {
        WordCountRules {
            include_links: value.include_links,
            include_code: value.include_code,
            include_front_matter: value.include_front_matter,
        }
    }
}

impl vstd::std_specs::convert::FromSpecImpl<WordCountRulesInput> for WordCountRules {
    open spec fn obeys_from_spec() -> bool {
        true
    }

    open spec fn from_spec(value: WordCountRulesInput) -> Self {
        WordCountRules {
            include_links: value.include_links,
            include_code: value.include_code,
            include_front_matter: value.include_front_matter,
        }
    }
}

impl From<RenderPreferencesInput> for RenderPreferences {
    fn from(value: RenderPreferencesInput) -> Self {
        RenderPreferences {
            performance_mode: value.performance_mode,
            word_count_rules: WordCountRules::from(value.word_count_rules),
        }
    }
}

impl vstd::std_specs::convert::FromSpecImpl<RenderPreferencesInput> for RenderPreferences {
    open spec fn obeys_from_spec() -> bool {
        true
    }

    open spec fn from_spec(value: RenderPreferencesInput) -> Self {
        RenderPreferences {
            performance_mode: value.performance_mode,
            word_count_rules: WordCountRules {
                include_links: value.word_count_rules.include_links,
                include_code: value.word_count_rules.include_code,
                include_front_matter: value.word_count_rules.include_front_matter,
            },
        }
    }
}

} // verus!
