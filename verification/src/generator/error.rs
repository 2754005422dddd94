//! Errors for stack lock and external generator documents.
use vstd::prelude::*;

use crate::text::{decimal, push_decimal, push_str, views};

verus! {

/// Errors produced while parsing or validating generator bridge documents.
#[derive(Debug)]
pub enum GeneratorError {
    /// Filesystem read failed (`path`, message of the I/O error).
    Io { path: String, message: String },
    /// TOML / JSON syntax or structural deserialize error.
    Parse { path: String, message: String },
    /// Schema or semantic validation failure.
    Validation(String),
    /// Multiple validation issues.
    ValidationMany { count: usize, details: String },
}

/// `"  {i+1}. {d}"` lines joined by newlines.
pub open spec fn numbered_lines(ds: Seq<Seq<char>>) -> Seq<char>
    decreases ds.len(),
{
    if ds.len() == 0 {
        Seq::empty()
    } else {
        let line = "  "@ + decimal(ds.len()) + ". "@ + ds.last();
        if ds.len() == 1 { line } else { numbered_lines(ds.drop_last()) + "\n"@ + line }
    }
}

/// `e` is the error `from_diagnostics` builds from `ds`.
pub open spec fn diagnostics_error(e: GeneratorError, ds: Seq<Seq<char>>) -> bool {
    if ds.len() == 1 {
        e matches GeneratorError::Validation(m) && m@ == ds[0]
    } else {
        e matches GeneratorError::ValidationMany { count, details } && count == ds.len()
            && details@ == numbered_lines(ds)
    }
}

/// The `Display` text of an error.
pub open spec fn error_message(e: GeneratorError) -> Seq<char> {
    match e {
        GeneratorError::Io { path, message } => "failed to read `"@ + path@ + "`: "@ + message@,
        GeneratorError::Parse { path, message } => "invalid TOML in `"@ + path@ + "`: "@ + message@,
        GeneratorError::Validation(m) => "validation failed: "@ + m@,
        GeneratorError::ValidationMany { count, details } => "validation failed with "@
            + decimal(count as nat) + " issue(s):\n"@ + details@,
    }
}

impl GeneratorError {
    /// Build a multi-diagnostic validation error.
    pub fn from_diagnostics(diagnostics: &Vec<String>) -> (r: Self)
        requires
            diagnostics.len() < u64::MAX,
        ensures
            diagnostics_error(r, views(diagnostics@)),
    {
        if diagnostics.len() == 1 {
            return GeneratorError::Validation(diagnostics[0].clone());
        }
        let ghost vs = views(diagnostics@);
        let mut details = String::new();
        let mut i: usize = 0;
        while i < diagnostics.len()
            invariant
                i <= diagnostics.len() < u64::MAX,
                vs == views(diagnostics@),
                details@ == numbered_lines(vs.take(i as int)),
            decreases diagnostics.len() - i,
        {
            if i > 0 {
                push_str(&mut details, "\n");
            }
            push_str(&mut details, "  ");
            push_decimal(&mut details, (i + 1) as u64);
            push_str(&mut details, ". ");
            push_str(&mut details, diagnostics[i].as_str());
            proof {
                let t = vs.take(i + 1);
                assert(t.drop_last() =~= vs.take(i as int));
                assert(details@ =~= numbered_lines(t));
            }
            i = i + 1;
        }
        assert(vs.take(diagnostics.len() as int) =~= vs);
        GeneratorError::ValidationMany { count: diagnostics.len(), details }
    }

    /// The error's `Display` text.
    pub fn message(&self) -> (r: String)
        ensures
            r@ == error_message(*self),
    {
        match self {
            GeneratorError::Io { path, message } => {
                let mut s = String::from_str("failed to read `");
                push_str(&mut s, path.as_str());
                push_str(&mut s, "`: ");
                push_str(&mut s, message.as_str());
                s
            },
            GeneratorError::Parse { path, message } => {
                let mut s = String::from_str("invalid TOML in `");
                push_str(&mut s, path.as_str());
                push_str(&mut s, "`: ");
                push_str(&mut s, message.as_str());
                s
            },
            GeneratorError::Validation(m) => {
                let mut s = String::from_str("validation failed: ");
                push_str(&mut s, m.as_str());
                s
            },
            GeneratorError::ValidationMany { count, details } => {
                let mut s = String::from_str("validation failed with ");
                push_decimal(&mut s, *count as u64);
                push_str(&mut s, " issue(s):\n");
                push_str(&mut s, details.as_str());
                s
            },
        }
    }
}

} // verus!
