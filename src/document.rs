//! What rendering a markdown document yields, and the preferences it follows.
use vstd::prelude::*;

verus! {

/// One heading of a document's table of contents.
#[derive(Debug, Clone)]
pub struct TocEntry {
    pub level: u8,
    pub id: String,
    pub text: String,
}

/// A rendered document.
#[derive(Debug, Clone)]
pub struct RenderedMarkdown {
    pub html: String,
    pub toc: Vec<TocEntry>,
    pub word_count: usize,
    pub reading_time_minutes: u16,
}

/// Which parts of a document count as words.
#[derive(Debug, Clone, Copy)]
pub struct WordCountRules {
    pub include_links: bool,
    pub include_code: bool,
    pub include_front_matter: bool,
}

impl Default for WordCountRules {
    /// Link text counts; code and front matter do not.
    fn default() -> (r: Self)
        ensures
            r.include_links,
            !r.include_code,
            !r.include_front_matter,
    {
        WordCountRules { include_links: true, include_code: false, include_front_matter: false }
    }
}

/// How a document is rendered.
#[derive(Debug, Clone, Copy)]
pub struct RenderPreferences {
    pub performance_mode: bool,
    pub word_count_rules: WordCountRules,
}

impl Default for RenderPreferences {
    /// Full rendering, with the default word-count rules.
    fn default() -> (r: Self)
        ensures
            !r.performance_mode,
            r.word_count_rules.include_links,
            !r.word_count_rules.include_code,
            !r.word_count_rules.include_front_matter,
    {
        RenderPreferences { performance_mode: false, word_count_rules: WordCountRules::default() }
    }
}

} // verus!
