//! Output paths with placeholders for page numbers.
//!
//! `{p}` stands for the page number, `{0p}` and `{n}` for the page number
//! padded with zeros to the width of the page count, and `{t}` for the page
//! count.

use crate::text::{decimal, push_decimal};
use vstd::prelude::*;

verus! {

/// `pattern` stands in `text` at position `at`.
pub open spec fn occurs_at(text: Seq<char>, pattern: Seq<char>, at: int) -> bool {
    0 <= at && at + pattern.len() <= text.len() && text.subrange(at, at + pattern.len())
        == pattern
}

/// `pattern` stands somewhere in `text`.
pub open spec fn occurs(text: Seq<char>, pattern: Seq<char>) -> bool {
    exists|at: int| occurs_at(text, pattern, at)
}

/// `text` with each occurrence of the non-empty `pattern` replaced by
/// `with`: occurrences are taken from the left and do not overlap.
pub open spec fn replaced(text: Seq<char>, pattern: Seq<char>, with: Seq<char>) -> Seq<char>
    decreases text.len(),
{
    if pattern.len() == 0 || text.len() < pattern.len() {
        text
    } else if text.subrange(0, pattern.len() as int) == pattern {
        with + replaced(text.skip(pattern.len() as int), pattern, with)
    } else {
        seq![text[0]] + replaced(text.skip(1), pattern, with)
    }
}

/// Calls `str::contains` with a string as pattern, which tells whether the
/// pattern matches a part of the text.
#[verifier::external_body]
pub(crate) fn contains(text: &str, pattern: &str) -> (found: bool)
    ensures
        found == occurs(text@, pattern@),
{
    text.contains(pattern)
}

/// Calls `str::replace` with a string as pattern, which replaces all
/// matches, found from the left without overlap, and copies the rest.
#[verifier::external_body]
pub(crate) fn replace(text: &str, pattern: &str, with: &str) -> (out: String)
    requires
        pattern@.len() > 0,
    ensures
        out@ == replaced(text@, pattern@, with@),
{
    text.replace(pattern, with)
}

/// The path holds a placeholder that differs from page to page.
pub open spec fn indexable(output: Seq<char>) -> bool {
    occurs(output, "{p}"@) || occurs(output, "{0p}"@) || occurs(output, "{n}"@)
}

/// Whether an output path can stand for several pages.
pub fn has_indexable_template(output: &str) -> (found: bool)
    ensures
        found == indexable(output@),
{
    contains(output, "{p}") || contains(output, "{0p}") || contains(output, "{n}")
}

/// `count` zeros.
pub open spec fn zeros(count: nat) -> Seq<char> {
    Seq::new(count, |i: int| '0')
}

/// The decimal digits of `n`, with zeros in front up to `width` characters.
/// A number that is wider stays as it is.
pub open spec fn padded(n: nat, width: nat) -> Seq<char> {
    if decimal(n).len() < width {
        zeros((width - decimal(n).len()) as nat) + decimal(n)
    } else {
        decimal(n)
    }
}

/// The path for page `this_page` of `total_pages`.
pub open spec fn format_text(output: Seq<char>, this_page: nat, total_pages: nat) -> Seq<char> {
    let number = padded(this_page, decimal(total_pages).len());
    replaced(
        replaced(
            replaced(replaced(output, "{p}"@, decimal(this_page)), "{0p}"@, number),
            "{n}"@,
            number,
        ),
        "{t}"@,
        decimal(total_pages),
    )
}

/// The decimal text of a number.
pub fn decimal_text(n: usize) -> (text: String)
    ensures
        text@ == decimal(n as nat),
{
    let mut text = String::new();
    push_decimal(&mut text, n as u64);
    text
}

/// The decimal text of a number, padded with zeros to a width.
pub fn padded_text(n: usize, width: usize) -> (text: String)
    ensures
        text@ == padded(n as nat, width as nat),
{
    let digits = decimal_text(n);
    let len = digits.as_str().unicode_len();
    if len >= width {
        return digits;
    }
    let mut text = String::new();
    let mut count: usize = 0;
    while count < width - len
        invariant
            len < width,
            count <= width - len,
            text@ == zeros(count as nat),
        decreases width - len - count,
    {
        text.append("0");
        proof {
            reveal_strlit("0");
        }
        count += 1;
    }
    text.append(digits.as_str());
    text
}

/// Fills the placeholders of an output path for one page.
pub fn format(output: &str, this_page: usize, total_pages: usize) -> (path: String)
    ensures
        path@ == format_text(output@, this_page as nat, total_pages as nat),
{
    proof {
        reveal_strlit("{p}");
        reveal_strlit("{0p}");
        reveal_strlit("{n}");
        reveal_strlit("{t}");
    }
    let page = decimal_text(this_page);
    let total = decimal_text(total_pages);
    let width = total.as_str().unicode_len();
    let number = padded_text(this_page, width);
    let out = replace(output, "{p}", page.as_str());
    let out = replace(out.as_str(), "{0p}", number.as_str());
    let out = replace(out.as_str(), "{n}", number.as_str());
    replace(out.as_str(), "{t}", total.as_str())
}

/// The paths that the pages of a document are written to.
///
/// A path without a placeholder for the page can hold one page only. With
/// one, every page gets its own path, numbered from one.
pub fn output_paths(output: &str, pages: usize) -> (paths: Result<Vec<String>, String>)
    ensures
        !indexable(output@) && pages > 1 ==> paths is Err && paths->Err_0@
            == "output path does not support multiple pages"@,
        !indexable(output@) && pages == 1 ==> paths is Ok && paths->Ok_0@.len() == 1
            && paths->Ok_0@[0]@ == output@,
        indexable(output@) || pages == 0 ==> {
            &&& paths is Ok
            &&& paths->Ok_0@.len() == pages
            &&& forall|i: int|
                0 <= i < pages ==> (#[trigger] paths->Ok_0@[i])@ == format_text(
                    output@,
                    (i + 1) as nat,
                    pages as nat,
                )
        },
{
    let can_handle_multiple = has_indexable_template(output);
    if !can_handle_multiple && pages > 1 {
        return Err(String::from_str("output path does not support multiple pages"));
    }
    let mut paths: Vec<String> = Vec::new();
    if !can_handle_multiple && pages == 1 {
        paths.push(String::from_str(output));
        return Ok(paths);
    }
    let mut i: usize = 0;
    while i < pages
        invariant
            0 <= i <= pages,
            paths@.len() == i,
            forall|j: int|
                0 <= j < i ==> (#[trigger] paths@[j])@ == format_text(
                    output@,
                    (j + 1) as nat,
                    pages as nat,
                ),
        decreases pages - i,
    {
        paths.push(format(output, i + 1, pages));
        i += 1;
    }
    Ok(paths)
}

} // verus!
