//! Queries on a compiled document: what is asked, and what is handed back.

use crate::text::{decimal, push_decimal};
use vstd::prelude::*;

verus! {

/// Output file format for a query.
#[derive(Debug, Copy, Clone, Eq, PartialEq, Structural)]
pub enum SerializationFormat {
    Json,
    Yaml,
}

/// Processes an input file to extract provided metadata.
#[derive(Debug)]
pub struct QueryCommand {
    /// Defines which elements to retrieve.
    pub selector: String,
    /// Extracts just one field from all retrieved elements.
    pub field: Option<String>,
    /// Expects and retrieves exactly one element.
    pub one: bool,
    /// The format to serialize in.
    pub format: SerializationFormat,
}

impl Clone for QueryCommand {
    fn clone(&self) -> (r: Self)
        ensures
            r == *self,
    {
        let field = match &self.field {
            Some(field) => Some(field.clone()),
            None => None,
        };
        QueryCommand { selector: self.selector.clone(), field, one: self.one, format: self.format }
    }
}

/// The format that a name stands for; JSON without a name.
pub open spec fn named_format(name: Option<Seq<char>>) -> Option<SerializationFormat> {
    match name {
        None => Some(SerializationFormat::Json),
        Some(text) => if text == "json"@ {
            Some(SerializationFormat::Json)
        } else if text == "yaml"@ {
            Some(SerializationFormat::Yaml)
        } else {
            None
        },
    }
}

/// The serialization format named by `name`: `json`, which is also the
/// default, or `yaml`. Any other name is refused.
pub fn serialization_format(name: Option<&str>) -> (format: Result<SerializationFormat, String>)
    ensures
        match named_format(
            match name {
                Some(text) => Some(text@),
                None => None,
            },
        ) {
            Some(found) => format == Ok::<SerializationFormat, String>(found),
            None => format is Err && format->Err_0@ == "unsupported serialization format"@,
        },
{
    match name {
        None => Ok(SerializationFormat::Json),
        Some(text) => {
            let given = String::from_str(text);
            if given == String::from_str("json") {
                Ok(SerializationFormat::Json)
            } else if given == String::from_str("yaml") {
                Ok(SerializationFormat::Yaml)
            } else {
                Err(String::from_str("unsupported serialization format"))
            }
        },
    }
}

/// What a query hands back: one value, or all of them.
#[derive(Debug)]
pub enum Selection<T> {
    One(T),
    Many(Vec<T>),
}

/// Picks what a query hands back.
///
/// `found` elements matched the selector, and `mapped` holds what was
/// extracted from them, in order; elements that lack the field have left
/// nothing in it. A query for one element needs exactly one match and hands
/// back the first value; any other query hands back all values.
pub fn select<T>(one: bool, found: usize, mapped: Vec<T>) -> (selected: Result<
    Selection<T>,
    String,
>)
    ensures
        one && found != 1 ==> selected is Err && selected->Err_0@
            == "expected exactly one element, found "@ + decimal(found as nat),
        one && found == 1 && mapped@.len() == 0 ==> selected is Err && selected->Err_0@
            == "no such field found for element"@,
        one && found == 1 && mapped@.len() > 0 ==> selected is Ok && selected->Ok_0
            == Selection::One(mapped@[0]),
        !one ==> selected == Ok::<Selection<T>, String>(Selection::Many(mapped)),
{
    if one && found != 1 {
        let mut text = String::from_str("expected exactly one element, found ");
        push_decimal(&mut text, found as u64);
        return Err(text);
    }
    if one {
        let mut mapped = mapped;
        if mapped.len() == 0 {
            return Err(String::from_str("no such field found for element"));
        }
        let first = mapped.swap_remove(0);
        Ok(Selection::One(first))
    } else {
        Ok(Selection::Many(mapped))
    }
}

/// The messages `errors[from..]`, each with `", "` before it.
pub open spec fn further(errors: Seq<String>, from: int) -> Seq<char>
    decreases errors.len() - from,
{
    if from >= errors.len() {
        Seq::empty()
    } else {
        ", "@ + errors[from]@ + further(errors, from + 1)
    }
}

/// The messages of the warnings from `from` on, each with `": "` before it.
pub open spec fn warned(warnings: Seq<String>, from: int) -> Seq<char>
    decreases warnings.len() - from,
{
    if from >= warnings.len() {
        Seq::empty()
    } else {
        ": "@ + warnings[from]@ + warned(warnings, from + 1)
    }
}

/// The report of a failure: the lead, the first error after `": "`, each
/// further error after `", "`, and each warning after `": "`.
pub open spec fn failure_text(lead: Seq<char>, errors: Seq<String>, warnings: Seq<String>) -> Seq<
    char,
> {
    if errors.len() == 0 {
        lead + warned(warnings, 0)
    } else {
        lead + ": "@ + errors[0]@ + further(errors, 1) + warned(warnings, 0)
    }
}

/// Builds the report of a failure from the messages of its errors and
/// warnings.
pub fn failure_message(lead: &str, errors: &Vec<String>, warnings: &Vec<String>) -> (text: String)
    ensures
        text@ == failure_text(lead@, errors@, warnings@),
{
    let mut out = String::from_str(lead);
    let mut i: usize = 0;
    if errors.len() > 0 {
        out.append(": ");
        out.append(errors[0].as_str());
        i = 1;
    }
    let ghost head = out@;
    while i < errors.len()
        invariant
            errors@.len() > 0 ==> 1 <= i <= errors@.len(),
            errors@.len() == 0 ==> i == 0,
            out@ + further(errors@, i as int) == head + further(
                errors@,
                if errors@.len() == 0 {
                    0int
                } else {
                    1int
                },
            ),
        decreases errors.len() - i,
    {
        out.append(", ");
        out.append(errors[i].as_str());
        i += 1;
    }
    let ghost body = out@;
    let mut j: usize = 0;
    while j < warnings.len()
        invariant
            0 <= j <= warnings@.len(),
            out@ + warned(warnings@, j as int) == body + warned(warnings@, 0),
        decreases warnings.len() - j,
    {
        out.append(": ");
        out.append(warnings[j].as_str());
        j += 1;
    }
    out
}

} // verus!
