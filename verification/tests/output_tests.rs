use typst_py::export::{
    export_format, format_of_output, pdf_standard, pdf_standards, trace_lines, CompilationResult,
    ExportFormat, PdfStandard, TypstDiagnosticDetails,
};
use typst_py::output_template::{decimal_text, has_indexable_template, output_paths, padded_text};

#[test]
fn indexable_templates_are_recognized() {
    assert!(has_indexable_template("page-{p}.png"));
    assert!(has_indexable_template("page-{0p}.png"));
    assert!(has_indexable_template("{n}.svg"));
    assert!(!has_indexable_template("out-of-{t}.png"));
    assert!(!has_indexable_template("plain.png"));
    assert!(!has_indexable_template("{ p }.png"));
    assert!(!has_indexable_template(""));
}

#[test]
fn format_fills_each_placeholder() {
    assert_eq!(typst_py::output_template::format("page-{p}.png", 3, 12), "page-3.png");
    assert_eq!(typst_py::output_template::format("page-{0p}.png", 3, 12), "page-03.png");
    assert_eq!(typst_py::output_template::format("page-{n}-of-{t}.png", 3, 120), "page-003-of-120.png");
    assert_eq!(typst_py::output_template::format("{p}{p}-{t}", 10, 10), "1010-10");
    assert_eq!(typst_py::output_template::format("none.png", 1, 1), "none.png");
    assert_eq!(typst_py::output_template::format("{0p}", 7, 0), "7");
    assert_eq!(typst_py::output_template::format("{0p}", 123, 9), "123");
    assert_eq!(typst_py::output_template::format("{n}", 0, 1000), "0000");
}

#[test]
fn format_replaces_in_order() {
    assert_eq!(typst_py::output_template::format("{{p}}", 4, 9), "{4}");
    assert_eq!(typst_py::output_template::format("{{t}p}", 1, 2), "{2p}");
    assert_eq!(typst_py::output_template::format("{p", 1, 2), "{p");
}

#[test]
fn padded_text_pads_to_the_width() {
    assert_eq!(padded_text(5, 3), "005");
    assert_eq!(padded_text(5, 1), "5");
    assert_eq!(padded_text(5, 0), "5");
    assert_eq!(padded_text(1234, 2), "1234");
    assert_eq!(padded_text(0, 2), "00");
    assert_eq!(decimal_text(0), "0");
    assert_eq!(decimal_text(907), "907");
}

#[test]
fn output_paths_for_one_plain_page() {
    assert_eq!(output_paths("out-{t}.png", 1), Ok(vec!["out-{t}.png".to_string()]));
    assert_eq!(output_paths("out.pdf", 1), Ok(vec!["out.pdf".to_string()]));
}

#[test]
fn output_paths_refuse_many_pages_without_a_template() {
    assert_eq!(
        output_paths("out.png", 2),
        Err("output path does not support multiple pages".to_string())
    );
}

#[test]
fn output_paths_number_the_pages_from_one() {
    assert_eq!(
        output_paths("p{0p}.svg", 10).unwrap(),
        vec![
            "p01.svg", "p02.svg", "p03.svg", "p04.svg", "p05.svg", "p06.svg", "p07.svg",
            "p08.svg", "p09.svg", "p10.svg"
        ]
    );
    assert_eq!(output_paths("{p}.png", 1), Ok(vec!["1.png".to_string()]));
    assert_eq!(output_paths("{p}.png", 0), Ok(vec![]));
    assert_eq!(output_paths("out.png", 0), Ok(vec![]));
}

#[test]
fn export_format_ignores_case() {
    assert_eq!(export_format(None), Some(ExportFormat::Pdf));
    assert_eq!(export_format(Some("pdf")), Some(ExportFormat::Pdf));
    assert_eq!(export_format(Some("PNG")), Some(ExportFormat::Png));
    assert_eq!(export_format(Some("Svg")), Some(ExportFormat::Svg));
    assert_eq!(export_format(Some("hTmL")), Some(ExportFormat::Html));
    assert_eq!(export_format(Some("jpeg")), None);
    assert_eq!(export_format(Some("")), None);
    assert_eq!(export_format(Some(" pdf")), None);
}

#[test]
fn format_of_output_reads_the_ending() {
    assert_eq!(format_of_output("a/b/out.pdf"), Some("pdf"));
    assert_eq!(format_of_output("page-{p}.png"), Some("png"));
    assert_eq!(format_of_output(".svg"), Some("svg"));
    assert_eq!(format_of_output("out.PDF"), None);
    assert_eq!(format_of_output("out.html"), None);
    assert_eq!(format_of_output("pdf"), None);
    assert_eq!(format_of_output(""), None);
}

#[test]
fn pdf_standards_by_name() {
    assert_eq!(pdf_standard("1.7"), Ok(PdfStandard::V17));
    assert_eq!(pdf_standard("a-2b"), Ok(PdfStandard::A2b));
    assert_eq!(pdf_standard("a-3b"), Ok(PdfStandard::A3b));
    assert_eq!(pdf_standard("A-2B"), Err("unknown pdf standard: A-2B".to_string()));
    assert_eq!(pdf_standard(""), Err("unknown pdf standard: ".to_string()));
    assert_eq!(
        pdf_standards(&vec!["a-3b".to_string(), "1.7".to_string()]),
        Ok(vec![PdfStandard::A3b, PdfStandard::V17])
    );
    assert_eq!(pdf_standards(&vec![]), Ok(vec![]));
    assert_eq!(
        pdf_standards(&vec!["1.7".to_string(), "2.0".to_string(), "x".to_string()]),
        Err("unknown pdf standard: 2.0".to_string())
    );
}

#[test]
fn diagnostic_details_hold_trace_lines() {
    let points = vec!["call of function `f`".to_string(), "import".to_string()];
    assert_eq!(trace_lines(&points), vec!["at call of function `f`", "at import"]);
    let details = TypstDiagnosticDetails::new(
        "error: unknown variable".to_string(),
        vec!["did you mean `x`?".to_string()],
        &points,
    );
    assert_eq!(details.message, "error: unknown variable");
    assert_eq!(details.hints, vec!["did you mean `x`?"]);
    assert_eq!(details.trace, vec!["at call of function `f`", "at import"]);
    let result = CompilationResult { data: vec![vec![1]], warnings: vec![details] };
    assert_eq!(result.warnings.len(), 1);
    assert_eq!(result.data, vec![vec![1u8]]);
}
