//! The shapes the user interface sends and receives.
use vstd::prelude::*;

use crate::models::{
    MarkdownDocumentOutput, RenderPreferencesInput, TocEntryOutput, WordCountRulesInput,
};

verus! {

#[derive(Debug, Clone)]
pub struct TocEntryDto {
    pub level: u8,
    pub id: String,
    pub text: String,
}

impl From<TocEntryOutput> for TocEntryDto {
    fn from(value: TocEntryOutput) -> Self {
        TocEntryDto { level: value.level, id: value.id, text: value.text }
    }
}

impl vstd::std_specs::convert::FromSpecImpl<TocEntryOutput> for TocEntryDto {
    open spec fn obeys_from_spec() -> bool {
        true
    }

    open spec fn from_spec(value: TocEntryOutput) -> Self {
        TocEntryDto { level: value.level, id: value.id, text: value.text }
    }
}

#[derive(Debug, Clone)]
pub struct MarkdownDocumentDto {
    pub path: String,
    pub title: String,
    pub source: String,
    pub html: String,
    pub toc: Vec<TocEntryDto>,
    pub word_count: usize,
    pub reading_time_minutes: u16,
}

/// The document sent to the interface carries every field of the loaded one.
pub open spec fn dto_carries(dto: MarkdownDocumentDto, out: MarkdownDocumentOutput) -> bool {
    &&& dto.path@ == out.path@
    &&& dto.title@ == out.title@
    &&& dto.source@ == out.source@
    &&& dto.html@ == out.html@
    &&& dto.toc@.len() == out.toc@.len()
    &&& forall|i: int|
        0 <= i < dto.toc@.len() ==> {
            let d = #[trigger] dto.toc@[i];
            let o = out.toc@[i];
            d.level == o.level && d.id@ == o.id@ && d.text@ == o.text@
        }
    &&& dto.word_count == out.word_count
    &&& dto.reading_time_minutes == out.reading_time_minutes
}

impl From<MarkdownDocumentOutput> for MarkdownDocumentDto {
    fn from(value: MarkdownDocumentOutput) -> (r: Self)
        ensures
            dto_carries(r, value),
    {
        let mut toc: Vec<TocEntryDto> = Vec::new();
        let mut i: usize = 0;
        while i < value.toc.len()
            invariant
                i <= value.toc@.len(),
                toc@.len() == i,
                forall|j: int|
                    0 <= j < i ==> {
                        let d = #[trigger] toc@[j];
                        let o = value.toc@[j];
                        d.level == o.level && d.id@ == o.id@ && d.text@ == o.text@
                    },
            decreases value.toc@.len() - i,
        {
            let entry = &value.toc[i];
            toc.push(
                TocEntryDto { level: entry.level, id: entry.id.clone(), text: entry.text.clone() },
            );
            i = i + 1;
        }
        let MarkdownDocumentOutput {
            path,
            title,
            source,
            html,
            toc: _,
            word_count,
            reading_time_minutes,
        } = value;
        MarkdownDocumentDto { path, title, source, html, toc, word_count, reading_time_minutes }
    }
}

impl vstd::std_specs::convert::FromSpecImpl<MarkdownDocumentOutput> for MarkdownDocumentDto {
    /// The document's table of contents is a vector, which no spec
    /// expression builds; the conversion states `dto_carries` instead.
    open spec fn obeys_from_spec() -> bool {
        false
    }

    open spec fn from_spec(value: MarkdownDocumentOutput) -> Self {
        vstd::pervasive::arbitrary()
    }
}

#[derive(Debug, Clone, Copy)]
pub struct WordCountRulesDto {
    pub include_links: bool,
    pub include_code: bool,
    pub include_front_matter: bool,
}

impl From<WordCountRulesDto> for WordCountRulesInput {
    fn from(value: WordCountRulesDto) -> Self {
        WordCountRulesInput {
            include_links: value.include_links,
            include_code: value.include_code,
            include_front_matter: value.include_front_matter,
        }
    }
}

impl vstd::std_specs::convert::FromSpecImpl<WordCountRulesDto> for WordCountRulesInput {
    open spec fn obeys_from_spec() -> bool {
        true
    }

    open spec fn from_spec(value: WordCountRulesDto) -> Self {
        WordCountRulesInput {
            include_links: value.include_links,
            include_code: value.include_code,
            include_front_matter: value.include_front_matter,
        }
    }
}

#[derive(Debug, Clone, Copy)]
pub struct RenderPreferencesDto {
    pub performance_mode: bool,
    pub word_count_rules: Option<WordCountRulesDto>,
}

/// The default word-count rules: link text counts, code and front matter do not.
pub open spec fn default_word_count_rules() -> WordCountRulesInput {
    WordCountRulesInput { include_links: true, include_code: false, include_front_matter: false }
}

/// The preferences an interface request stands for: its performance mode,
/// and its word-count rules or the default ones.
pub open spec fn application_preferences(dto: RenderPreferencesDto) -> RenderPreferencesInput {
    RenderPreferencesInput {
        performance_mode: dto.performance_mode,
        word_count_rules: match dto.word_count_rules {
            Some(rules) => WordCountRulesInput {
                include_links: rules.include_links,
                include_code: rules.include_code,
                include_front_matter: rules.include_front_matter,
            },
            None => default_word_count_rules(),
        },
    }
}

/// The preferences for a request that may carry none: the default ones then.
pub open spec fn requested_preferences(value: Option<RenderPreferencesDto>) -> RenderPreferencesInput {
    match value {
        Some(dto) => application_preferences(dto),
        None => RenderPreferencesInput {
            performance_mode: false,
            word_count_rules: default_word_count_rules(),
        },
    }
}

impl RenderPreferencesDto {
    pub fn to_application(self) -> (r: RenderPreferencesInput)
        ensures
            r == application_preferences(self),
    {
        let word_count_rules = match self.word_count_rules {
            Some(rules) => WordCountRulesInput::from(rules),
            None => WordCountRulesInput::default(),
        };
        RenderPreferencesInput { performance_mode: self.performance_mode, word_count_rules }
    }
}

pub fn to_render_preferences(value: Option<RenderPreferencesDto>) -> (r: RenderPreferencesInput)
    ensures
        r == requested_preferences(value),
{
    match value {
        Some(dto) => dto.to_application(),
        None => RenderPreferencesInput::default(),
    }
}

} // verus!
