//! Export of a report as a PDF file by an outside converter, and the opening of
//! files with the application that the system has for them.

use vstd::prelude::*;
use crate::render::{convert_markdown, markdown_html, print_settings, RenderOptions};
use crate::sanitize::{clean_escape_sequences, sanitized};
use crate::text::{blank, chars_of, is_blank, strings_view};

verus! {

/// The program that turns the print document into a PDF file.
pub const CONVERTER: &'static str = "wkhtmltopdf";

/// The name of the file, in the system's directory for temporary files, that
/// holds the print document while the converter runs.
pub const TEMP_FILE_NAME: &'static str = "report_temp.html";

/// The print document up to the place of the report: the document type, the
/// style sheet for print, and the opening of the body.
pub const PRINT_HEAD: &'static str = "<!DOCTYPE html>
<html>
<head>
    <meta charset=\"UTF-8\">
    <style>
        body {
            font-family: Arial, sans-serif;
            font-size: 12pt;
            line-height: 1.5;
            margin: 2cm;
        }
        h1, h2, h3, h4, h5, h6 {
            color: #333;
            margin-top: 1.5em;
            margin-bottom: 0.5em;
        }
        h1 { font-size: 24pt; }
        h2 { font-size: 20pt; }
        h3 { font-size: 16pt; }
        table {
            width: 100%;
            border-collapse: collapse;
            margin: 1em 0;
        }
        th, td {
            border: 1px solid #ddd;
            padding: 8px;
            text-align: left;
        }
        th {
            background-color: #f2f2f2;
        }
        .report-metadata {
            margin-bottom: 2em;
            color: #666;
            font-style: italic;
        }
        ul, ol {
            margin: 0.5em 0;
            padding-left: 2em;
        }
        code {
            font-family: monospace;
            background-color: #f5f5f5;
            padding: 2px 4px;
            border-radius: 3px;
        }
        pre {
            background-color: #f5f5f5;
            padding: 1em;
            border-radius: 5px;
            overflow-x: auto;
        }
        blockquote {
            background-color: #f9f9f9;
            border-left: 4px solid #ccc;
            margin: 1em 0;
            padding: 0.5em 1em;
        }
    </style>
</head>
<body>
    ";

/// The print document behind the report.
pub const PRINT_TAIL: &'static str = "
</body>
</html>";

/// The print document around an HTML fragment.
pub open spec fn print_document(html: Seq<char>) -> Seq<char> {
    PRINT_HEAD@ + html + PRINT_TAIL@
}

/// Wraps an HTML fragment in the print document.
pub fn wrap_for_print(html: &str) -> (document: String)
    ensures
        document@ == print_document(html@),
{
    let mut document = String::from_str(PRINT_HEAD);
    document.append(html);
    document.append(PRINT_TAIL);
    document
}


/// Why a report could not be exported.
#[derive(Debug)]
pub enum ExportError {
    /// Nothing but white space is left of the report once it is sanitized.
    EmptyInput,
    /// The print document could not be written; the cause.
    TempWrite(String),
    /// The converter's version probe could not be run.
    ToolNotFound,
    /// The converter could not be started; the cause.
    ToolLaunch(String),
    /// The converter ended with a failure; what it wrote to its error stream.
    ToolFailed(String),
    /// The converter ended well and left no file at the destination.
    OutputMissing,
}

/// How a program ended.
#[derive(Debug)]
pub struct ToolExit {
    /// Whether its exit status says that it succeeded.
    pub success: bool,
    /// What it wrote to its error stream.
    pub stderr: String,
}

/// The print document of a report: the report is sanitized, refused if nothing
/// but white space is left, converted with the settings for print and wrapped.
pub open spec fn export_document(content: Seq<char>) -> Option<Seq<char>> {
    if is_blank(sanitized(content)) {
        None
    } else {
        Some(print_document(markdown_html(sanitized(content), print_settings())))
    }
}

/// Builds the print document of a report.
pub fn build_print_document(content: &str) -> (r: Result<String, ExportError>)
    ensures
        match r {
            Ok(document) => export_document(content@) == Some(document@),
            Err(error) => error is EmptyInput && export_document(content@) is None,
        },
{
    let cleaned = clean_escape_sequences(content);
    let chars = chars_of(cleaned.as_str());
    if blank(&chars) {
        return Err(ExportError::EmptyInput);
    }
    let options = RenderOptions::print();
    let html = convert_markdown(cleaned.as_str(), &options);
    Ok(wrap_for_print(html.as_str()))
}

/// The arguments of the version probe.
pub open spec fn probe_line() -> Seq<Seq<char>> {
    seq!["--version"@]
}

/// The arguments of a conversion: access to local files, A4 pages, margins of
/// 20 mm on all four sides, UTF-8, then the source and the destination.
pub open spec fn converter_line(source: Seq<char>, destination: Seq<char>) -> Seq<Seq<char>> {
    seq![
        "--enable-local-file-access"@,
        "--page-size"@,
        "A4"@,
        "--margin-top"@,
        "20mm"@,
        "--margin-bottom"@,
        "20mm"@,
        "--margin-left"@,
        "20mm"@,
        "--margin-right"@,
        "20mm"@,
        "--encoding"@,
        "UTF-8"@,
        source,
        destination,
    ]
}

/// The arguments with which the converter is asked for its version.
pub fn probe_arguments() -> (arguments: Vec<String>)
    ensures
        strings_view(arguments@) == probe_line(),
{
    let mut arguments: Vec<String> = Vec::new();
    arguments.push(String::from_str("--version"));
    assert(strings_view(arguments@) =~= probe_line());
    arguments
}

/// The arguments with which the converter turns the file `source` into the file
/// `destination`.
pub fn converter_arguments(source: &str, destination: &str) -> (arguments: Vec<String>)
    ensures
        strings_view(arguments@) == converter_line(source@, destination@),
{
    let mut arguments: Vec<String> = Vec::new();
    arguments.push(String::from_str("--enable-local-file-access"));
    arguments.push(String::from_str("--page-size"));
    arguments.push(String::from_str("A4"));
    arguments.push(String::from_str("--margin-top"));
    arguments.push(String::from_str("20mm"));
    arguments.push(String::from_str("--margin-bottom"));
    arguments.push(String::from_str("20mm"));
    arguments.push(String::from_str("--margin-left"));
    arguments.push(String::from_str("20mm"));
    arguments.push(String::from_str("--margin-right"));
    arguments.push(String::from_str("20mm"));
    arguments.push(String::from_str("--encoding"));
    arguments.push(String::from_str("UTF-8"));
    arguments.push(String::from_str(source));
    arguments.push(String::from_str(destination));
    assert(strings_view(arguments@) =~= converter_line(source@, destination@));
    arguments
}

/// Where an export stands. Each state but the last names the work that is to be
/// done next outside the library; the caller does it and reports what happened.
#[derive(Debug)]
pub enum ExportState {
    /// Write `html` to the temporary file.
    WriteTemp { html: String, destination: String },
    /// Run the converter's version probe.
    ProbeTool { source: String, destination: String },
    /// Run the converter on `source`.
    RunTool { source: String, destination: String },
    /// Look whether a file stands at `destination`.
    CheckOutput { destination: String },
    /// The export is over: the destination, or why it failed.
    Done(Result<String, ExportError>),
}

/// What the caller reports of the work it has done.
#[derive(Debug)]
pub enum ExportEvent {
    /// The temporary file was written, at this path; or why it was not.
    TempWritten(Result<String, String>),
    /// Whether the version probe could be run.
    ToolProbed(bool),
    /// How the converter ended; or why it could not be started.
    ToolRan(Result<ToolExit, String>),
    /// Whether a file stands at the destination.
    OutputChecked(bool),
}

/// The state that follows `state` on `event`. An event that does not answer the
/// work that `state` names changes nothing, and nothing follows the last state.
pub open spec fn export_next(state: ExportState, event: ExportEvent) -> ExportState {
    match (state, event) {
        (ExportState::WriteTemp { html, destination }, ExportEvent::TempWritten(Ok(path))) => {
            ExportState::ProbeTool { source: path, destination }
        },
        (ExportState::WriteTemp { html, destination }, ExportEvent::TempWritten(Err(cause))) => {
            ExportState::Done(Err(ExportError::TempWrite(cause)))
        },
        (ExportState::ProbeTool { source, destination }, ExportEvent::ToolProbed(found)) => {
            if found {
                ExportState::RunTool { source, destination }
            } else {
                ExportState::Done(Err(ExportError::ToolNotFound))
            }
        },
        (ExportState::RunTool { source, destination }, ExportEvent::ToolRan(Ok(exit))) => {
            if exit.success {
                ExportState::CheckOutput { destination }
            } else {
                ExportState::Done(Err(ExportError::ToolFailed(exit.stderr)))
            }
        },
        (ExportState::RunTool { source, destination }, ExportEvent::ToolRan(Err(cause))) => {
            ExportState::Done(Err(ExportError::ToolLaunch(cause)))
        },
        (ExportState::CheckOutput { destination }, ExportEvent::OutputChecked(present)) => {
            if present {
                ExportState::Done(Ok(destination))
            } else {
                ExportState::Done(Err(ExportError::OutputMissing))
            }
        },
        (state, _) => state,
    }
}

/// Starts the export of a report to the file `output_path`.
///
/// A report of which sanitizing leaves nothing but white space ends the export
/// at once. For any other the first work is to write its print document to the
/// temporary file.
pub fn export_to_pdf(content: &str, output_path: &str) -> (state: ExportState)
    ensures
        match export_document(content@) {
            Some(document) => state matches ExportState::WriteTemp { html, destination }
                && html@ == document && destination@ == output_path@,
            None => state matches ExportState::Done(Err(ExportError::EmptyInput)),
        },
{
    match build_print_document(content) {
        Ok(html) => ExportState::WriteTemp { html, destination: String::from_str(output_path) },
        Err(error) => ExportState::Done(Err(error)),
    }
}

/// Takes an export one step further.
pub fn export_step(state: ExportState, event: ExportEvent) -> (next: ExportState)
    ensures
        next == export_next(state, event),
{
    match (state, event) {
        (ExportState::WriteTemp { html, destination }, ExportEvent::TempWritten(Ok(path))) => {
            ExportState::ProbeTool { source: path, destination }
        },
        (ExportState::WriteTemp { html, destination }, ExportEvent::TempWritten(Err(cause))) => {
            ExportState::Done(Err(ExportError::TempWrite(cause)))
        },
        (ExportState::ProbeTool { source, destination }, ExportEvent::ToolProbed(found)) => {
            if found {
                ExportState::RunTool { source, destination }
            } else {
                ExportState::Done(Err(ExportError::ToolNotFound))
            }
        },
        (ExportState::RunTool { source, destination }, ExportEvent::ToolRan(Ok(exit))) => {
            if exit.success {
                ExportState::CheckOutput { destination }
            } else {
                ExportState::Done(Err(ExportError::ToolFailed(exit.stderr)))
            }
        },
        (ExportState::RunTool { source, destination }, ExportEvent::ToolRan(Err(cause))) => {
            ExportState::Done(Err(ExportError::ToolLaunch(cause)))
        },
        (ExportState::CheckOutput { destination }, ExportEvent::OutputChecked(present)) => {
            if present {
                ExportState::Done(Ok(destination))
            } else {
                ExportState::Done(Err(ExportError::OutputMissing))
            }
        },
        (state, _) => state,
    }
}

/// The system on which a file is opened.
#[derive(Clone, Copy, Debug, PartialEq, Eq, Structural)]
pub enum Platform {
    Windows,
    MacOs,
    Other,
}

/// The program that opens a file with the application that the system has for
/// it.
pub open spec fn opener_program(platform: Platform) -> Seq<char> {
    match platform {
        Platform::Windows => "cmd"@,
        Platform::MacOs => "open"@,
        Platform::Other => "xdg-open"@,
    }
}

/// The arguments of that program for the file `file_path`.
pub open spec fn opener_line(platform: Platform, file_path: Seq<char>) -> Seq<Seq<char>> {
    match platform {
        Platform::Windows => seq!["/c"@, "start"@, ""@, file_path],
        Platform::MacOs => seq![file_path],
        Platform::Other => seq![file_path],
    }
}

/// The command that opens `file_path` on `platform`: the program and its
/// arguments.
pub fn open_command(platform: Platform, file_path: &str) -> (command: (String, Vec<String>))
    ensures
        command.0@ == opener_program(platform),
        strings_view(command.1@) == opener_line(platform, file_path@),
{
    let mut arguments: Vec<String> = Vec::new();
    let program = match platform {
        Platform::Windows => {
            arguments.push(String::from_str("/c"));
            arguments.push(String::from_str("start"));
            arguments.push(String::from_str(""));
            String::from_str("cmd")
        },
        Platform::MacOs => String::from_str("open"),
        Platform::Other => String::from_str("xdg-open"),
    };
    arguments.push(String::from_str(file_path));
    assert(strings_view(arguments@) =~= opener_line(platform, file_path@));
    (program, arguments)
}

/// Why a file could not be opened.
#[derive(Debug)]
pub enum OpenError {
    /// The opening program could not be started; the cause.
    Launch(String),
    /// The opening program ended with a failure; what it wrote to its error
    /// stream.
    Failed(String),
}

/// What the run of the opening program amounts to.
pub open spec fn open_outcome(ran: Result<ToolExit, String>) -> Result<bool, OpenError> {
    match ran {
        Ok(exit) => if exit.success {
            Ok(true)
        } else {
            Err(OpenError::Failed(exit.stderr))
        },
        Err(cause) => Err(OpenError::Launch(cause)),
    }
}

/// Judges the one attempt to open a file: it is not tried again.
pub fn open_file(ran: Result<ToolExit, String>) -> (r: Result<bool, OpenError>)
    ensures
        r == open_outcome(ran),
{
    match ran {
        Ok(exit) => if exit.success {
            Ok(true)
        } else {
            Err(OpenError::Failed(exit.stderr))
        },
        Err(cause) => Err(OpenError::Launch(cause)),
    }
}

} // verus!
