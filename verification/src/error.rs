//! How failed requests are answered, and the text of form validation
//! problems.
use std::collections::HashMap;
use vstd::prelude::*;

verus! {

/// Problems found in a submitted form: field name and, where there is one,
/// the reason.
#[derive(Debug)]
pub struct FormValidation(pub HashMap<String, Option<String>>);

impl FormValidation {
    /// No problems yet.
    pub fn new() -> (r: Self)
        ensures
            r.0@ == Map::<String, Option<String>>::empty(),
    {
        FormValidation(HashMap::new())
    }
}

/// One line per problem: `> field : reason`, or `> field` without a reason.
pub open spec fn form_lines(entries: Seq<(String, Option<String>)>) -> Seq<char>
    decreases entries.len(),
{
    if entries.len() == 0 {
        Seq::empty()
    } else {
        let (k, v) = entries.last();
        form_lines(entries.drop_last()) + match v {
            Some(reason) => "> "@ + k@ + " : "@ + reason@ + "\n"@,
            None => "> "@ + k@ + "\n"@,
        }
    }
}

pub open spec fn form_text(entries: Seq<(String, Option<String>)>) -> Seq<char> {
    "Form Validation:\n"@ + form_lines(entries)
}

/// The text of a form validation whose problems, in the order they are
/// listed, are `entries`.
pub fn describe_form(entries: &[(String, Option<String>)]) -> (r: String)
    ensures
        r@ == form_text(entries@),
{
    let mut out = String::from_str("Form Validation:\n");
    let mut i: usize = 0;
    while i < entries.len()
        invariant
            i <= entries@.len(),
            out@ == form_text(entries@.take(i as int)),
        decreases entries.len() - i,
    {
        let (k, v) = &entries[i];
        out.append("> ");
        out.append(k.as_str());
        match v {
            Some(reason) => {
                out.append(" : ");
                out.append(reason.as_str());
                out.append("\n");
            },
            None => {
                out.append("\n");
            },
        }
        assert(entries@.take(i + 1).drop_last() =~= entries@.take(i as int));
        assert(entries@.take(i + 1).last() == entries@[i as int]);
        i = i + 1;
        assert(out@ =~= form_text(entries@.take(i as int)));
    }
    assert(entries@.take(i as int) =~= entries@);
    out
}

/// How a failed request is answered.
#[derive(Clone, Copy, Debug, PartialEq, Eq, Structural)]
pub enum Failure {
    /// The record asked for does not exist.
    NotFound,
    /// No signed-in user, or one not allowed in.
    Unauthorized,
    /// The submitted form has problems.
    Form,
    /// Anything else: database, network, configuration.
    Internal,
}

impl Failure {
    pub open spec fn spec_status(self) -> u16 {
        match self {
            Failure::NotFound => 404,
            Failure::Unauthorized => 401,
            Failure::Form => 422,
            Failure::Internal => 500,
        }
    }

    /// The HTTP status of the answer.
    pub fn status_code(&self) -> (r: u16)
        ensures
            r == self.spec_status(),
    {
        match self {
            Failure::NotFound => 404,
            Failure::Unauthorized => 401,
            Failure::Form => 422,
            Failure::Internal => 500,
        }
    }
}

/// A change that touched no row means the record does not exist.
pub fn require_rows(rows: u64) -> (r: Result<(), Failure>)
    ensures
        r == (if rows == 0 { Err(Failure::NotFound) } else { Ok(()) }),
{
    if rows == 0 {
        Err(Failure::NotFound)
    } else {
        Ok(())
    }
}

} // verus!
