use crate::error::{outcome, Failure, RenderError};
use crate::syntaxes::{
    error_text, fresh_highlighter, held_syntaxes, highlight_step, parsed_syntax, plain_text_syntax,
    styled_html, syntax_for_token, theme_named, theme_table,
};
use crate::text::{lines_view, spec_lines, split_lines};
use syntect::easy::HighlightLines;
use syntect::highlighting::{Theme, ThemeSet};
use syntect::html::{styled_line_to_highlighted_html, IncludeBackground};
use syntect::parsing::{SyntaxReference, SyntaxSet};
use vstd::prelude::*;
use vstd::string::StringExecFns;

verus! {

/// The name of the theme that every code block is highlighted with.
pub const THEME: &'static str = "base16-ocean.dark";

/// The background mode that stands for the flag `wanted`.
pub open spec fn background(wanted: bool) -> IncludeBackground {
    if wanted {
        IncludeBackground::Yes
    } else {
        IncludeBackground::No
    }
}

/// Highlighting the first `n` of `lines` in turn, starting from a highlighter
/// in state `h`: the state reached and the HTML so far, one fragment per
/// line, each followed by a line feed; or the step that failed first.
pub open spec fn lines_prefix(
    h: HighlightLines<'static>,
    ss: SyntaxSet,
    lines: Seq<Seq<char>>,
    bg: IncludeBackground,
    n: nat,
) -> Result<(HighlightLines<'static>, Seq<char>), Failure>
    decreases n,
{
    if n == 0 {
        Ok((h, Seq::empty()))
    } else {
        match lines_prefix(h, ss, lines, bg, (n - 1) as nat) {
            Err(failure) => Err(failure),
            Ok((before, html)) => {
                let step = highlight_step(before, lines[n - 1], ss);
                match step.0 {
                    None => Err(Failure::Tokenize),
                    Some(regions) => match styled_html(regions, bg) {
                        None => Err(Failure::Markup),
                        Some(fragment) => Ok((step.1, html + fragment + seq!['\n'])),
                    },
                }
            },
        }
    }
}

/// Highlighting all of `lines`.
pub open spec fn lines_html(h: HighlightLines<'static>, ss: SyntaxSet, lines: Seq<Seq<char>>, bg: IncludeBackground)
    -> Result<(HighlightLines<'static>, Seq<char>), Failure> {
    lines_prefix(h, ss, lines, bg, lines.len())
}

/// Once highlighting a prefix of the lines has failed, every longer prefix
/// fails in the same way.
pub proof fn lemma_failure_stays(
    h: HighlightLines<'static>,
    ss: SyntaxSet,
    lines: Seq<Seq<char>>,
    bg: IncludeBackground,
    n: nat,
    m: nat,
)
    requires
        n <= m,
        lines_prefix(h, ss, lines, bg, n) is Err,
    ensures
        lines_prefix(h, ss, lines, bg, m) == lines_prefix(h, ss, lines, bg, n),
    decreases m,
{
    if n < m {
        lemma_failure_stays(h, ss, lines, bg, n, (m - 1) as nat);
    }
}

/// Highlights `s` line by line and joins the HTML of the lines, a line feed
/// after each. The highlighter keeps its state from line to line and is left
/// in the state after the last one. Fails at the first line that cannot be
/// tokenized or written.
pub fn highlighted_html_for_string(
    s: &str,
    ss: &SyntaxSet,
    highlighter: &mut HighlightLines<'_>,
    include_background: bool,
) -> (r: Result<String, RenderError>)
    requires
        held_syntaxes(*ss).contains(parsed_syntax(*old(highlighter))),
    ensures
        parsed_syntax(*final(highlighter)) == parsed_syntax(*old(highlighter)),
        r matches Ok(html) ==> lines_html(
            *old(highlighter),
            *ss,
            spec_lines(s@),
            background(include_background),
        ) matches Ok(done) && done == (*final(highlighter), html@),
        r matches Err(e) ==> lines_html(
            *old(highlighter),
            *ss,
            spec_lines(s@),
            background(include_background),
        ) matches Err(failure) && failure == e.kind,
{
    let bg = if include_background {
        IncludeBackground::Yes
    } else {
        IncludeBackground::No
    };
    let lines = split_lines(s);
    let mut output = String::new();
    let mut i: usize = 0;
    while i < lines.len()
        invariant
            i <= lines.len(),
            bg == background(include_background),
            lines_view(lines@) == spec_lines(s@),
            held_syntaxes(*ss).contains(parsed_syntax(*highlighter)),
            parsed_syntax(*highlighter) == parsed_syntax(*old(highlighter)),
            lines_prefix(*old(highlighter), *ss, spec_lines(s@), bg, i as nat) matches Ok(done) && done == (
                *highlighter,
                output@,
            ),
        decreases lines.len() - i,
    {
        assert(lines_view(lines@)[i as int] == lines@[i as int]@);
        proof {
            if lines_prefix(*old(highlighter), *ss, spec_lines(s@), bg, (i + 1) as nat) is Err {
                lemma_failure_stays(
                    *old(highlighter),
                    *ss,
                    spec_lines(s@),
                    bg,
                    (i + 1) as nat,
                    spec_lines(s@).len(),
                );
            }
        }
        let regions = match highlighter.highlight_line(lines[i].as_str(), ss) {
            Ok(regions) => regions,
            Err(e) => {
                return Err(RenderError { kind: Failure::Tokenize, message: error_text(&e) });
            },
        };
        let fragment = match styled_line_to_highlighted_html(regions.as_slice(), bg) {
            Ok(fragment) => fragment,
            Err(e) => {
                return Err(RenderError { kind: Failure::Markup, message: error_text(&e) });
            },
        };
        output.append(fragment.as_str());
        proof {
            reveal_strlit("\n");
            assert("\n"@ =~= seq!['\n']);
        }
        output.append("\n");
        i += 1;
    }
    Ok(output)
}

/// The syntax definitions and themes that code blocks are highlighted with:
/// the sets that ship with syntect, loaded once and then only read.
pub struct Highlighting {
    syntaxes: SyntaxSet,
    themes: ThemeSet,
}

impl Highlighting {
    #[verifier::type_invariant]
    spec fn ready(self) -> bool {
        &&& held_syntaxes(self.syntaxes).contains(plain_text_syntax(self.syntaxes))
        &&& theme_table(self.themes).dom().contains(THEME@)
    }

    /// The syntax set that languages are looked up in.
    pub closed spec fn syntaxes(self) -> SyntaxSet {
        self.syntaxes
    }

    /// The theme set that the theme is taken from.
    pub closed spec fn themes(self) -> ThemeSet {
        self.themes
    }

    /// The theme that code is styled with: the one that the theme set holds
    /// under the key `THEME`.
    pub open spec fn theme(self) -> Theme {
        theme_table(self.themes())[THEME@]
    }

    /// The syntax for a language tag: the one the set finds for it, or plain
    /// text when it finds none.
    pub open spec fn block_syntax(self, lang: Seq<char>) -> SyntaxReference {
        match syntax_for_token(self.syntaxes(), lang) {
            Some(syntax) => syntax,
            None => plain_text_syntax(self.syntaxes()),
        }
    }

    /// The HTML for `code` highlighted as `syntax`, without background
    /// colours, or the step that failed.
    pub open spec fn highlighted_as(self, syntax: SyntaxReference, code: Seq<char>) -> Result<Seq<char>, Failure> {
        match lines_html(
            fresh_highlighter(syntax, self.theme()),
            self.syntaxes(),
            spec_lines(code),
            IncludeBackground::No,
        ) {
            Ok((_, html)) => Ok(html),
            Err(failure) => Err(failure),
        }
    }

    /// The HTML that stands for a fenced code block tagged `lang` that holds
    /// `code`.
    pub open spec fn block_html(self, lang: Seq<char>, code: Seq<char>) -> Result<Seq<char>, Failure> {
        self.highlighted_as(self.block_syntax(lang), code)
    }

    /// Loads the syntaxes and the themes that ship with the highlighter.
    /// The context that comes back has what highlighting a code block reads:
    /// its syntax set holds the "Plain Text" syntax, for blocks whose language
    /// it does not know, and its theme set holds the theme `THEME`.
    pub fn new() -> (hl: Self)
        ensures
            held_syntaxes(hl.syntaxes()).contains(plain_text_syntax(hl.syntaxes())),
            theme_table(hl.themes()).dom().contains(THEME@),
    {
        Highlighting { syntaxes: SyntaxSet::load_defaults_newlines(), themes: ThemeSet::load_defaults() }
    }

    /// Highlights the contents of one fenced code block.
    pub fn highlight_block(&self, lang: &str, code: &str) -> (r: Result<String, RenderError>)
        ensures
            outcome(r) == self.block_html(lang@, code@),
    {
        proof {
            use_type_invariant(self);
        }
        let syntax = match self.syntaxes.find_syntax_by_token(lang) {
            Some(syntax) => syntax,
            None => self.syntaxes.find_syntax_plain_text(),
        };
        let theme = theme_named(&self.themes, THEME);
        let mut highlighter = HighlightLines::new(syntax, theme);
        highlighted_html_for_string(code, &self.syntaxes, &mut highlighter, false)
    }
}

/// A code block whose language tag the syntax set does not know is
/// highlighted exactly as plain text is.
pub proof fn lemma_unknown_language_is_plain_text(hl: Highlighting, lang: Seq<char>, code: Seq<char>)
    requires
        syntax_for_token(hl.syntaxes(), lang) is None,
    ensures
        hl.block_html(lang, code) == hl.highlighted_as(plain_text_syntax(hl.syntaxes()), code),
{
}

} // verus!
