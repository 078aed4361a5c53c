use syntect::easy::HighlightLines;
use syntect::highlighting::{Color, Style, Theme, ThemeSet};
use syntect::html::{styled_line_to_highlighted_html, IncludeBackground};
use syntect::parsing::{SyntaxReference, SyntaxSet};
use vstd::prelude::*;

verus! {

// The types of syntect that pass through the library. All but the two
// plain ones at the end are opaque: nothing is known of a value but what
// the specifications below say.
#[verifier::external_type_specification]
#[verifier::external_body]
pub struct ExSyntaxSet(SyntaxSet);

#[verifier::external_type_specification]
#[verifier::external_body]
pub struct ExSyntaxReference(SyntaxReference);

#[verifier::external_type_specification]
#[verifier::external_body]
pub struct ExThemeSet(ThemeSet);

#[verifier::external_type_specification]
#[verifier::external_body]
pub struct ExTheme(Theme);

#[verifier::external_type_specification]
#[verifier::external_body]
pub struct ExHighlightLines<'a>(HighlightLines<'a>);

#[verifier::external_type_specification]
#[verifier::external_body]
pub struct ExStyle(Style);

#[verifier::external_type_specification]
#[verifier::external_body]
pub struct ExSyntectError(syntect::Error);

#[verifier::external_type_specification]
pub struct ExColor(Color);

#[verifier::external_type_specification]
pub struct ExIncludeBackground(IncludeBackground);

/// The syntaxes that a syntax set holds.
pub uninterp spec fn held_syntaxes(ss: SyntaxSet) -> Set<SyntaxReference>;

/// The themes that a theme set holds, by their keys.
pub uninterp spec fn theme_table(ts: ThemeSet) -> Map<Seq<char>, Theme>;

/// The syntax named "Plain Text" of a syntax set, which
/// `find_syntax_plain_text` hands out. A set holds it exactly when it has a
/// syntax of that name.
pub uninterp spec fn plain_text_syntax(ss: SyntaxSet) -> SyntaxReference;

/// The syntax that `find_syntax_by_token` finds in a set for a token: one
/// with that file extension if there is any, else one with that name,
/// letter case ignored; `None` if the set holds neither.
pub uninterp spec fn syntax_for_token(ss: SyntaxSet, token: Seq<char>) -> Option<SyntaxReference>;

/// The highlighter that `HighlightLines::new` makes for a syntax and a theme,
/// before it has seen a line.
pub uninterp spec fn fresh_highlighter(syntax: SyntaxReference, theme: Theme) -> HighlightLines<'static>;

/// The syntax that a highlighter was made for, whose contexts it refers to
/// while it parses.
pub uninterp spec fn parsed_syntax(h: HighlightLines<'static>) -> SyntaxReference;

/// What `highlight_line` does with one line on a highlighter in state `h`:
/// the styled regions of the line (`None` when the line cannot be
/// tokenized) and the state the highlighter is left in.
pub uninterp spec fn highlight_step(h: HighlightLines<'static>, line: Seq<char>, ss: SyntaxSet) -> (
    Option<Seq<(Style, Seq<char>)>>,
    HighlightLines<'static>,
);

/// The HTML that `styled_line_to_highlighted_html` writes for the styled
/// regions of one line (`None` when it reports an error).
pub uninterp spec fn styled_html(regions: Seq<(Style, Seq<char>)>, bg: IncludeBackground) -> Option<Seq<char>>;

/// Styled regions with the text of each taken as a sequence of characters.
pub open spec fn regions_view(regions: Seq<(Style, &str)>) -> Seq<(Style, Seq<char>)> {
    Seq::new(regions.len(), |i: int| (regions[i].0, regions[i].1@))
}

/// `SyntaxSet::load_defaults_newlines` unpacks the syntax definitions that
/// ship with syntect. Claimed: that set holds the "Plain Text" syntax, so
/// `find_syntax_plain_text` may be called on it.
pub assume_specification[ SyntaxSet::load_defaults_newlines ]() -> (ss: SyntaxSet)
    ensures
        held_syntaxes(ss).contains(plain_text_syntax(ss)),
;

/// `ThemeSet::load_defaults` unpacks the themes that ship with syntect; its
/// documentation lists `base16-ocean.dark` among the keys of the map.
pub assume_specification[ ThemeSet::load_defaults ]() -> (ts: ThemeSet)
    ensures
        theme_table(ts).dom().contains("base16-ocean.dark"@),
;

/// `SyntaxSet::find_syntax_by_token` searches the set; its result depends on
/// the set and the token alone, and a syntax it returns is one the set holds.
pub assume_specification<'a>[ SyntaxSet::find_syntax_by_token ](ss: &'a SyntaxSet, s: &str) -> (r: Option<
    &'a SyntaxReference,
>)
    ensures
        r is Some <==> syntax_for_token(*ss, s@) is Some,
        r matches Some(syntax) ==> syntax_for_token(*ss, s@) == Some(*syntax) && held_syntaxes(
            *ss,
        ).contains(*syntax),
;

/// `SyntaxSet::find_syntax_plain_text` looks up the syntax named "Plain
/// Text" and panics when the set has none, which `requires` excludes.
pub assume_specification[ SyntaxSet::find_syntax_plain_text ](ss: &SyntaxSet) -> (r: &SyntaxReference)
    requires
        held_syntaxes(*ss).contains(plain_text_syntax(*ss)),
    ensures
        *r == plain_text_syntax(*ss),
;

/// `HighlightLines::new` builds the initial parse and highlight state from
/// the syntax and the theme alone.
pub assume_specification<'a>[ HighlightLines::<'a>::new ](syntax: &SyntaxReference, theme: &'a Theme) -> (h:
    HighlightLines<'a>)
    ensures
        h == fresh_highlighter(*syntax, *theme),
        parsed_syntax(h) == *syntax,
;

/// `HighlightLines::highlight_line` parses one line and styles it. Its
/// documentation asks for the syntax set that holds the highlighter's syntax
/// (with another it may panic). The regions and the state it leaves depend
/// on the state before, the line and the set alone; after an error nothing
/// is claimed of the state but the syntax it was made for.
pub assume_specification<'a, 'b>[ HighlightLines::<'a>::highlight_line ](
    h: &mut HighlightLines<'a>,
    line: &'b str,
    syntax_set: &SyntaxSet,
) -> (r: Result<Vec<(Style, &'b str)>, syntect::Error>)
    requires
        held_syntaxes(*syntax_set).contains(parsed_syntax(*old(h))),
    ensures
        parsed_syntax(*final(h)) == parsed_syntax(*old(h)),
        r is Ok <==> highlight_step(*old(h), line@, *syntax_set).0 is Some,
        r matches Ok(regions) ==> highlight_step(*old(h), line@, *syntax_set) == (
            Some(regions_view(regions@)),
            *final(h),
        ),
;

/// `styled_line_to_highlighted_html` writes `<span>` elements with inline
/// styles for the regions of one line; the text depends on the regions and
/// the background mode alone.
pub assume_specification[ styled_line_to_highlighted_html ](v: &[(Style, &str)], bg: IncludeBackground) -> (r:
    Result<String, syntect::Error>)
    ensures
        r is Ok <==> styled_html(regions_view(v@), bg) is Some,
        r matches Ok(html) ==> styled_html(regions_view(v@), bg) == Some(html@),
;

/// Indexes the `themes` map of a `ThemeSet` by a key. Indexing panics on a
/// key that the map lacks, which `requires` excludes.
#[verifier::external_body]
pub(crate) fn theme_named<'a>(ts: &'a ThemeSet, name: &str) -> (theme: &'a Theme)
    requires
        theme_table(*ts).dom().contains(name@),
    ensures
        *theme == theme_table(*ts)[name@],
{
    &ts.themes[name]
}

/// The text that syntect's `Display` impl gives for one of its errors.
#[verifier::external_body]
pub(crate) fn error_text(error: &syntect::Error) -> (text: String) {
    error.to_string()
}

} // verus!
