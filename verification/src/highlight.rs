use vstd::prelude::*;

verus! {

/// What the highlighting engine produces for a language token and a source
/// text: highlighted HTML when a grammar matches the token, nothing when none
/// does. The engine works on its bundled default grammar and theme data, the
/// only data `Highlighter::new` ever loads, so the outcome is a function of
/// the token and the text alone.
pub uninterp spec fn highlight_of(token: Seq<char>, text: Seq<char>) -> Option<Seq<char>>;

/// Whether the engine's bundled grammar data has a grammar for a language
/// token: what the lookup alone decides, before any rendering.
pub uninterp spec fn has_grammar_of(token: Seq<char>) -> bool;

#[verifier::external_type_specification]
#[verifier::external_body]
pub struct ExSyntaxSet(syntect::parsing::SyntaxSet);

#[verifier::external_type_specification]
#[verifier::external_body]
pub struct ExThemeSet(syntect::highlighting::ThemeSet);

/// The loaded syntax-highlighting engine: grammar and theme data, read once at
/// startup and only consulted afterwards.
pub struct Highlighter {
    syntax_set: syntect::parsing::SyntaxSet,
    theme_set: syntect::highlighting::ThemeSet,
}

impl Highlighter {
    /// Relies on syntect's `SyntaxSet::load_defaults_newlines` and
    /// `ThemeSet::load_defaults`: they load the engine's bundled grammar and
    /// theme data, the same data on every call.
    #[verifier::external_body]
    fn load() -> (r: (syntect::parsing::SyntaxSet, syntect::highlighting::ThemeSet)) {
        (
            syntect::parsing::SyntaxSet::load_defaults_newlines(),
            syntect::highlighting::ThemeSet::load_defaults(),
        )
    }

    /// Loads the bundled grammars and themes. Every `Highlighter` holds this
    /// same data: there is no other way to build one.
    pub fn new() -> (r: Highlighter) {
        let (syntax_set, theme_set) = Self::load();
        Highlighter { syntax_set, theme_set }
    }

    /// Relies on syntect's `SyntaxSet::find_syntax_by_token` and
    /// `highlighted_html_for_string`: a grammar lookup by token followed by a
    /// best-effort rendering of the text through that grammar under a fixed
    /// theme. Both are pure given the loaded data, so together they are the
    /// function this crate calls `highlight_of`, and the lookup alone decides
    /// `has_grammar_of`. A missed lookup always yields nothing; nothing is
    /// promised of a matched one, since the render step returns a `Result`.
    #[verifier::external_body]
    pub fn highlight(&self, token: &str, text: &str) -> (r: Option<String>)
        ensures
            r is Some <==> highlight_of(token@, text@) is Some,
            r matches Some(h) ==> highlight_of(token@, text@) == Some(h@),
            r is Some ==> has_grammar_of(token@),
            !has_grammar_of(token@) ==> r is None,
    {
        let syntax = self.syntax_set.find_syntax_by_token(token)?;
        let theme = &self.theme_set.themes["base16-ocean.dark"];
        syntect::html::highlighted_html_for_string(text, &self.syntax_set, syntax, theme).ok()
    }
}

} // verus!
