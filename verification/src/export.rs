//! What a compilation is asked to produce.

use vstd::prelude::*;

verus! {

/// A format to export in.
#[derive(Debug, Copy, Clone, Eq, PartialEq, Structural)]
pub enum ExportFormat {
    Html,
    Pdf,
    Png,
    Svg,
}

/// A PDF standard that the output may be asked to conform to.
#[derive(Debug, Copy, Clone, Eq, PartialEq, Structural)]
pub enum PdfStandard {
    /// PDF 1.7.
    V17,
    /// PDF/A-2b.
    A2b,
    /// PDF/A-3b.
    A3b,
}

/// A character with an upper-case ASCII letter made lower case.
pub open spec fn lower(c: char) -> char {
    if 'A' <= c && c <= 'Z' {
        ((c as u8) + 32) as char
    } else {
        c
    }
}

/// A text with its upper-case ASCII letters made lower case.
pub open spec fn lowered(text: Seq<char>) -> Seq<char> {
    text.map_values(|c: char| lower(c))
}

/// `text` ends with `suffix`.
pub open spec fn ends_in(text: Seq<char>, suffix: Seq<char>) -> bool {
    text.len() >= suffix.len() && text.subrange(text.len() - suffix.len(), text.len() as int)
        == suffix
}

/// Calls `str::to_ascii_lowercase`, which maps the letters `A` to `Z` to
/// `a` to `z` and leaves every other character unchanged.
#[verifier::external_body]
pub(crate) fn to_lower(text: &str) -> (out: String)
    ensures
        out@ == lowered(text@),
{
    text.to_ascii_lowercase()
}

/// Calls `str::ends_with` with a string as pattern, which tells whether the
/// pattern matches a suffix of the text.
#[verifier::external_body]
pub(crate) fn ends_with(text: &str, suffix: &str) -> (found: bool)
    ensures
        found == ends_in(text@, suffix@),
{
    text.ends_with(suffix)
}

/// The format that a name in lower case stands for.
pub open spec fn named_export(name: Seq<char>) -> Option<ExportFormat> {
    if name == "html"@ {
        Some(ExportFormat::Html)
    } else if name == "pdf"@ {
        Some(ExportFormat::Pdf)
    } else if name == "png"@ {
        Some(ExportFormat::Png)
    } else if name == "svg"@ {
        Some(ExportFormat::Svg)
    } else {
        None
    }
}

/// The format to export in: the one named, whatever the case of its
/// letters, or PDF without a name. `None` for a name that is no format.
pub fn export_format(format: Option<&str>) -> (found: Option<ExportFormat>)
    ensures
        found == named_export(
            lowered(
                match format {
                    Some(name) => name@,
                    None => "pdf"@,
                },
            ),
        ),
{
    let normalized = to_lower(
        match format {
            Some(name) => name,
            None => "pdf",
        },
    );
    if normalized == String::from_str("html") {
        Some(ExportFormat::Html)
    } else if normalized == String::from_str("pdf") {
        Some(ExportFormat::Pdf)
    } else if normalized == String::from_str("png") {
        Some(ExportFormat::Png)
    } else if normalized == String::from_str("svg") {
        Some(ExportFormat::Svg)
    } else {
        None
    }
}

/// The format that the ending of an output path asks for: `.pdf`, `.png`
/// or `.svg`, in this order, or none.
pub fn format_of_output(output: &str) -> (name: Option<&'static str>)
    ensures
        match name {
            Some(text) => {
                ||| ends_in(output@, ".pdf"@) && text@ == "pdf"@
                ||| !ends_in(output@, ".pdf"@) && ends_in(output@, ".png"@) && text@ == "png"@
                ||| !ends_in(output@, ".pdf"@) && !ends_in(output@, ".png"@) && ends_in(
                    output@,
                    ".svg"@,
                ) && text@ == "svg"@
            },
            None => !ends_in(output@, ".pdf"@) && !ends_in(output@, ".png"@) && !ends_in(
                output@,
                ".svg"@,
            ),
        },
{
    if ends_with(output, ".pdf") {
        Some("pdf")
    } else if ends_with(output, ".png") {
        Some("png")
    } else if ends_with(output, ".svg") {
        Some("svg")
    } else {
        None
    }
}

/// The standard that a name stands for.
pub open spec fn named_standard(name: Seq<char>) -> Option<PdfStandard> {
    if name == "1.7"@ {
        Some(PdfStandard::V17)
    } else if name == "a-2b"@ {
        Some(PdfStandard::A2b)
    } else if name == "a-3b"@ {
        Some(PdfStandard::A3b)
    } else {
        None
    }
}

/// The PDF standard named by `name`: `1.7`, `a-2b` or `a-3b`.
pub fn pdf_standard(name: &str) -> (found: Result<PdfStandard, String>)
    ensures
        match named_standard(name@) {
            Some(standard) => found == Ok::<PdfStandard, String>(standard),
            None => found is Err && found->Err_0@ == "unknown pdf standard: "@ + name@,
        },
{
    let given = String::from_str(name);
    if given == String::from_str("1.7") {
        Ok(PdfStandard::V17)
    } else if given == String::from_str("a-2b") {
        Ok(PdfStandard::A2b)
    } else if given == String::from_str("a-3b") {
        Ok(PdfStandard::A3b)
    } else {
        let mut text = String::from_str("unknown pdf standard: ");
        text.append(name);
        Err(text)
    }
}

/// The standards named in a list, in order, or the failure of the first
/// name that is no standard.
pub fn pdf_standards(names: &Vec<String>) -> (found: Result<Vec<PdfStandard>, String>)
    ensures
        match found {
            Ok(standards) => {
                &&& standards@.len() == names@.len()
                &&& forall|i: int|
                    0 <= i < names@.len() ==> named_standard(names@[i]@) == Some(
                        #[trigger] standards@[i],
                    )
            },
            Err(reason) => exists|i: int|
                {
                    &&& 0 <= i < names@.len()
                    &&& named_standard(#[trigger] names@[i]@) is None
                    &&& reason@ == "unknown pdf standard: "@ + names@[i]@
                    &&& forall|j: int| 0 <= j < i ==> named_standard(#[trigger] names@[j]@) is Some
                },
        },
{
    let mut standards: Vec<PdfStandard> = Vec::new();
    let mut i: usize = 0;
    while i < names.len()
        invariant
            0 <= i <= names@.len(),
            standards@.len() == i,
            forall|j: int|
                0 <= j < i ==> named_standard(names@[j]@) == Some(#[trigger] standards@[j]),
        decreases names.len() - i,
    {
        match pdf_standard(names[i].as_str()) {
            Ok(standard) => standards.push(standard),
            Err(reason) => {
                proof {
                    assert forall|j: int| 0 <= j < i implies named_standard(
                        #[trigger] names@[j]@,
                    ) is Some by {
                        assert(named_standard(names@[j]@) == Some(standards@[j]));
                    }
                }
                return Err(reason);
            },
        }
        i += 1;
    }
    Ok(standards)
}

/// Details of a failed or warned compilation, for whoever reports them.
#[derive(Debug)]
pub struct TypstDiagnosticDetails {
    pub message: String,
    pub hints: Vec<String>,
    pub trace: Vec<String>,
}

/// Result of compilation that may include warnings.
#[derive(Debug)]
pub struct CompilationResult {
    pub data: Vec<Vec<u8>>,
    pub warnings: Vec<TypstDiagnosticDetails>,
}

/// The lines of a trace: each point with `at ` before it.
pub fn trace_lines(points: &Vec<String>) -> (lines: Vec<String>)
    ensures
        lines@.len() == points@.len(),
        forall|i: int| 0 <= i < points@.len() ==> (#[trigger] lines@[i])@ == "at "@ + points@[i]@,
{
    let mut lines: Vec<String> = Vec::new();
    let mut i: usize = 0;
    while i < points.len()
        invariant
            0 <= i <= points@.len(),
            lines@.len() == i,
            forall|j: int| 0 <= j < i ==> (#[trigger] lines@[j])@ == "at "@ + points@[j]@,
        decreases points.len() - i,
    {
        let mut line = String::from_str("at ");
        line.append(points[i].as_str());
        lines.push(line);
        i += 1;
    }
    lines
}

impl TypstDiagnosticDetails {
    /// The details of a diagnostic: its formatted message, its hints, and
    /// the points of its trace as lines.
    pub fn new(message: String, hints: Vec<String>, points: &Vec<String>) -> (details: Self)
        ensures
            details.message == message,
            details.hints == hints,
            details.trace@.len() == points@.len(),
            forall|i: int|
                0 <= i < points@.len() ==> (#[trigger] details.trace@[i])@ == "at "@
                    + points@[i]@,
    {
        TypstDiagnosticDetails { message, hints, trace: trace_lines(points) }
    }
}

} // verus!
