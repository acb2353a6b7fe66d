//! Colours the text of one code region.
//!
//! The colouring itself is the work of the `syntect` crate with its default
//! syntax definitions and themes. What this module decides is which syntax is
//! asked for and what stands in for the markup where the engine gives none.

use vstd::prelude::*;
use vstd::string::*;

verus! {

/// What the engine answered for one region.
#[derive(Debug, Clone)]
pub enum EngineAnswer {
    /// No syntax answers to the token.
    NoSyntax,
    /// There is a syntax, but the engine gave no markup.
    Failed,
    /// The coloured markup of the region.
    Markup(String),
}

/// The characters of an answer.
pub enum AnswerView {
    NoSyntax,
    Failed,
    Markup(Seq<char>),
}

impl View for EngineAnswer {
    type V = AnswerView;

    open spec fn view(&self) -> AnswerView {
        match self {
            EngineAnswer::NoSyntax => AnswerView::NoSyntax,
            EngineAnswer::Failed => AnswerView::Failed,
            EngineAnswer::Markup(m) => AnswerView::Markup(m@),
        }
    }
}

/// What the engine answers for `code` under the theme of the given name and
/// the syntax that the default definitions hold for the token, or the
/// plain-text syntax where no token is given.
pub uninterp spec fn syntect_answer(
    token: Option<Seq<char>>,
    code: Seq<char>,
    theme: Seq<char>,
) -> AnswerView;

/// Looks the token up with `syntect::parsing::SyntaxSet::find_syntax_by_token`
/// in the set of `SyntaxSet::load_defaults_newlines` (without a token it takes
/// `find_syntax_plain_text`), takes the named theme of
/// `ThemeSet::load_defaults`, and calls
/// `syntect::html::highlighted_html_for_string`. The answer is `NoSyntax`
/// where the lookup finds nothing, `Failed` where the theme is missing or the
/// engine reports an error, else the engine's markup. It depends on the three
/// arguments alone; nothing more is claimed of it.
#[verifier::external_body]
fn ask_engine(token: Option<&str>, code: &str, theme: &str) -> (answer: EngineAnswer)
    ensures
        answer@ == syntect_answer(token_text(token), code@, theme@),
{
    let syntaxes = syntect::parsing::SyntaxSet::load_defaults_newlines();
    let themes = syntect::highlighting::ThemeSet::load_defaults();
    let syntax = match token {
        Some(t) => syntaxes.find_syntax_by_token(t),
        None => Some(syntaxes.find_syntax_plain_text()),
    };
    let Some(syntax) = syntax else { return EngineAnswer::NoSyntax; };
    let Some(theme) = themes.themes.get(theme) else { return EngineAnswer::Failed; };
    match syntect::html::highlighted_html_for_string(code, &syntaxes, syntax, theme) {
        Ok(markup) => EngineAnswer::Markup(markup),
        Err(_) => EngineAnswer::Failed,
    }
}

/// The characters of an optional token.
pub open spec fn token_text(token: Option<&str>) -> Option<Seq<char>> {
    match token {
        Some(t) => Some(t@),
        None => None,
    }
}

/// The characters of an optional string.
pub open spec fn text_of(s: Option<String>) -> Option<Seq<char>> {
    match s {
        Some(t) => Some(t@),
        None => None,
    }
}

/// The name of the one colour theme in use.
pub open spec fn theme_name() -> Seq<char> {
    "base16-ocean.dark"@
}

/// The token asked for where a region names no language.
pub open spec fn default_token() -> Seq<char> {
    "txt"@
}

/// The token asked for: the region's language tag, or the default.
pub open spec fn token_of(lang: Option<Seq<char>>) -> Seq<char> {
    match lang {
        Some(l) => l,
        None => default_token(),
    }
}

/// The markup in an answer, if it holds one.
pub open spec fn answer_markup(answer: AnswerView) -> Option<Seq<char>> {
    match answer {
        AnswerView::Markup(m) => Some(m),
        _ => None,
    }
}

/// Which answer counts for a region, given the answer for its token and the
/// answer for plain text: the first, unless no syntax answers to the token.
pub open spec fn settled_answer(for_token: AnswerView, for_plain: AnswerView) -> AnswerView {
    match for_token {
        AnswerView::NoSyntax => for_plain,
        _ => for_token,
    }
}

/// What the engine gives for a region: the markup under the token's syntax
/// where there is one, else the markup under the plain-text syntax.
pub open spec fn engine_markup(token: Seq<char>, code: Seq<char>) -> Option<Seq<char>> {
    answer_markup(
        settled_answer(
            syntect_answer(Some(token), code, theme_name()),
            syntect_answer(None, code, theme_name()),
        ),
    )
}

/// The unstyled rendering of a region: its text, as it is, in a preformatted
/// code element.
pub open spec fn literal_markup(code: Seq<char>) -> Seq<char> {
    "<pre><code>"@ + code + "</code></pre>"@
}

/// The markup of a region given what the engine returned: the engine's markup,
/// or the unstyled rendering where it returned none.
pub open spec fn region_markup(engine: Option<Seq<char>>, code: Seq<char>) -> Seq<char> {
    match engine {
        Some(m) => m,
        None => literal_markup(code),
    }
}

/// The markup that stands for a region with the given language tag and text.
pub open spec fn highlighted_markup(lang: Option<Seq<char>>, code: Seq<char>) -> Seq<char> {
    region_markup(engine_markup(token_of(lang), code), code)
}

/// The unstyled rendering of a region's text.
pub fn literal_fallback(code: &str) -> (markup: String)
    ensures
        markup@ == literal_markup(code@),
{
    let mut markup = String::from_str("<pre><code>");
    markup.append(code);
    markup.append("</code></pre>");
    markup
}

/// Settles the markup of a region once the engine has answered: its markup
/// where it gave one, the unstyled rendering of the text where it gave none.
pub fn markup_or_fallback(engine: Option<String>, code: &str) -> (markup: String)
    ensures
        markup@ == region_markup(text_of(engine), code@),
{
    match engine {
        Some(m) => m,
        None => literal_fallback(code),
    }
}

/// The markup in an answer, if it holds one.
pub fn markup_of(answer: EngineAnswer) -> (markup: Option<String>)
    ensures
        text_of(markup) == answer_markup(answer@),
{
    match answer {
        EngineAnswer::Markup(m) => Some(m),
        _ => None,
    }
}

/// Renders one code region. The language tag chooses the syntax; a missing or
/// unknown tag falls back to plain text, and a failure of the engine to the
/// unstyled rendering. There is always a result.
pub fn highlight_region(lang: &Option<String>, code: &str) -> (markup: String)
    ensures
        markup@ == highlighted_markup(text_of(*lang), code@),
{
    let token: &str = match lang {
        Some(l) => l.as_str(),
        None => "txt",
    };
    let answer = match ask_engine(Some(token), code, "base16-ocean.dark") {
        EngineAnswer::NoSyntax => ask_engine(None, code, "base16-ocean.dark"),
        other => other,
    };
    markup_or_fallback(markup_of(answer), code)
}

} // verus!
