//! Rendering of a report body as HTML.

use vstd::prelude::*;
use crate::sanitize::{clean_escape_sequences, sanitized};
use crate::text::{blank, chars_of, is_blank};

verus! {

/// How the conversion engine is set up for one conversion.
#[derive(Debug)]
pub struct RenderOptions {
    /// Tables.
    pub table: bool,
    /// Strikethrough.
    pub strikethrough: bool,
    /// The filter that disarms a fixed list of HTML tags.
    pub tagfilter: bool,
    /// Links found in plain text.
    pub autolink: bool,
    /// Task lists.
    pub tasklist: bool,
    /// Superscript.
    pub superscript: bool,
    /// Anchors on headings, their ids starting with this prefix.
    pub header_ids: Option<String>,
    /// The language of a code block as an attribute of its `pre` tag.
    pub github_pre_lang: bool,
    /// Soft line breaks come out as hard ones.
    pub hardbreaks: bool,
    /// Raw HTML in the input is passed through.
    pub raw_html: bool,
}

/// `RenderOptions` as the specifications see them.
pub struct RenderSettings {
    pub table: bool,
    pub strikethrough: bool,
    pub tagfilter: bool,
    pub autolink: bool,
    pub tasklist: bool,
    pub superscript: bool,
    pub header_ids: Option<Seq<char>>,
    pub github_pre_lang: bool,
    pub hardbreaks: bool,
    pub raw_html: bool,
}

impl View for RenderOptions {
    type V = RenderSettings;

    open spec fn view(&self) -> RenderSettings {
        RenderSettings {
            table: self.table,
            strikethrough: self.strikethrough,
            tagfilter: self.tagfilter,
            autolink: self.autolink,
            tasklist: self.tasklist,
            superscript: self.superscript,
            header_ids: match self.header_ids {
                Some(prefix) => Some(prefix@),
                None => None,
            },
            github_pre_lang: self.github_pre_lang,
            hardbreaks: self.hardbreaks,
            raw_html: self.raw_html,
        }
    }
}

/// The settings for a report shown on screen: every extension on, heading
/// anchors with the prefix `section-`, soft line breaks kept soft, raw HTML
/// passed through.
pub open spec fn report_settings() -> RenderSettings {
    RenderSettings {
        table: true,
        strikethrough: true,
        tagfilter: true,
        autolink: true,
        tasklist: true,
        superscript: true,
        header_ids: Some("section-"@),
        github_pre_lang: true,
        hardbreaks: false,
        raw_html: true,
    }
}

/// The settings for a report that goes to print: as on screen, without heading
/// anchors.
pub open spec fn print_settings() -> RenderSettings {
    RenderSettings {
        table: true,
        strikethrough: true,
        tagfilter: true,
        autolink: true,
        tasklist: true,
        superscript: true,
        header_ids: None,
        github_pre_lang: true,
        hardbreaks: false,
        raw_html: true,
    }
}

impl RenderOptions {
    /// The options for a report shown on screen.
    pub fn report() -> (options: RenderOptions)
        ensures
            options@ == report_settings(),
    {
        RenderOptions {
            table: true,
            strikethrough: true,
            tagfilter: true,
            autolink: true,
            tasklist: true,
            superscript: true,
            header_ids: Some(String::from_str("section-")),
            github_pre_lang: true,
            hardbreaks: false,
            raw_html: true,
        }
    }

    /// The options for a report that goes to print.
    pub fn print() -> (options: RenderOptions)
        ensures
            options@ == print_settings(),
    {
        RenderOptions {
            table: true,
            strikethrough: true,
            tagfilter: true,
            autolink: true,
            tasklist: true,
            superscript: true,
            header_ids: None,
            github_pre_lang: true,
            hardbreaks: false,
            raw_html: true,
        }
    }
}

/// The HTML that the conversion engine makes of a Markdown text under the given
/// settings.
pub uninterp spec fn markdown_html(markdown: Seq<char>, settings: RenderSettings) -> Seq<char>;

/// Converts Markdown to HTML.
///
/// Calls `comrak::markdown_to_html` with comrak's default options changed in the
/// ten places that `options` names. Of the result nothing is claimed but that it
/// depends on the text and the options alone.
#[verifier::external_body]
pub(crate) fn convert_markdown(markdown: &str, options: &RenderOptions) -> (html: String)
    ensures
        html@ == markdown_html(markdown@, options@),
{
    let mut engine = comrak::Options::default();
    engine.extension.table = options.table;
    engine.extension.strikethrough = options.strikethrough;
    engine.extension.tagfilter = options.tagfilter;
    engine.extension.autolink = options.autolink;
    engine.extension.tasklist = options.tasklist;
    engine.extension.superscript = options.superscript;
    engine.extension.header_ids = options.header_ids.clone();
    engine.render.github_pre_lang = options.github_pre_lang;
    engine.render.hardbreaks = options.hardbreaks;
    engine.render.unsafe_ = options.raw_html;
    comrak::markdown_to_html(markdown, &engine)
}

/// Why a text could not be rendered.
#[derive(Clone, Copy, Debug, PartialEq, Eq, Structural)]
pub enum RenderError {
    /// The input is empty or holds white space only.
    EmptyInput,
    /// The conversion ended abnormally.
    RenderPanic,
    /// The conversion gave nothing but white space.
    EmptyOutput,
}

/// What a finished conversion amounts to. `None` stands for a conversion that
/// ended abnormally.
pub open spec fn render_outcome(converted: Option<Seq<char>>) -> Result<Seq<char>, RenderError> {
    match converted {
        None => Err(RenderError::RenderPanic),
        Some(html) => if is_blank(html) {
            Err(RenderError::EmptyOutput)
        } else {
            Ok(html)
        },
    }
}

/// What rendering makes of a text: blank input is refused, anything else is
/// sanitized and converted with the settings for the screen.
pub open spec fn rendered(markdown: Seq<char>) -> Result<Seq<char>, RenderError> {
    if is_blank(markdown) {
        Err(RenderError::EmptyInput)
    } else {
        render_outcome(Some(markdown_html(sanitized(markdown), report_settings())))
    }
}

/// A rendering result as the specifications see it.
pub open spec fn render_view(r: Result<String, RenderError>) -> Result<Seq<char>, RenderError> {
    match r {
        Ok(html) => Ok(html@),
        Err(error) => Err(error),
    }
}

/// A conversion result as the specifications see it.
pub open spec fn converted_view(converted: Option<String>) -> Option<Seq<char>> {
    match converted {
        Some(html) => Some(html@),
        None => None,
    }
}

/// Judges a finished conversion. `None` stands for a conversion that ended
/// abnormally, which a caller that runs the conversion apart from itself finds
/// out where it collects the result.
pub fn finish_render(converted: Option<String>) -> (r: Result<String, RenderError>)
    ensures
        render_view(r) == render_outcome(converted_view(converted)),
{
    match converted {
        None => Err(RenderError::RenderPanic),
        Some(html) => {
            let chars = chars_of(html.as_str());
            if blank(&chars) {
                Err(RenderError::EmptyOutput)
            } else {
                Ok(html)
            }
        },
    }
}

/// Renders a Markdown report as HTML.
///
/// Blank input is refused. The text is sanitized before it reaches the
/// conversion engine, so that no caller can get around that. A conversion that
/// gives nothing but white space is an error too.
pub fn format_report(markdown: &str) -> (r: Result<String, RenderError>)
    ensures
        render_view(r) == rendered(markdown@),
{
    let chars = chars_of(markdown);
    if blank(&chars) {
        return Err(RenderError::EmptyInput);
    }
    let cleaned = clean_escape_sequences(markdown);
    let options = RenderOptions::report();
    finish_render(Some(convert_markdown(cleaned.as_str(), &options)))
}

/// Blank input is never rendered, and what is rendered is never blank.
pub proof fn lemma_rendered_never_blank(markdown: Seq<char>)
    ensures
        is_blank(markdown) ==> rendered(markdown) == Err::<Seq<char>, RenderError>(
            RenderError::EmptyInput,
        ),
        rendered(markdown) matches Ok(html) ==> !is_blank(html) && !is_blank(markdown),
{
}

} // verus!
