//! The error type shared by the services and commands.

use vstd::prelude::*;

verus! {

/// Application error. Each variant carries its human-readable detail.
#[derive(Debug, Clone)]
pub enum AppError {
    Database(String),
    NotFound(String),
    Validation(String),
    Internal(String),
    External(String),
    Scraping(String),
}

/// The view of an error: its variant's number and its detail text.
pub open spec fn err_view(e: AppError) -> (int, Seq<char>) {
    match e {
        AppError::Database(m) => (0, m@),
        AppError::NotFound(m) => (1, m@),
        AppError::Validation(m) => (2, m@),
        AppError::Internal(m) => (3, m@),
        AppError::External(m) => (4, m@),
        AppError::Scraping(m) => (5, m@),
    }
}

/// The prefix each variant puts before its detail when displayed.
pub open spec fn err_prefix(kind: int) -> Seq<char> {
    if kind == 0 {
        "Database error: "@
    } else if kind == 1 {
        "Not found: "@
    } else if kind == 2 {
        "Validation error: "@
    } else if kind == 3 {
        "Internal error: "@
    } else if kind == 4 {
        "External error: "@
    } else {
        "Scraping error: "@
    }
}

/// A `String` holding `a` followed by `b`.
pub fn concat_str(a: &str, b: &str) -> (r: String)
    ensures
        r@ == a@ + b@,
{
    let mut s = a.to_string();
    s.append(b);
    s
}

impl AppError {
    /// A validation error with the given detail.
    pub fn validation(msg: &str) -> (r: AppError)
        ensures
            err_view(r) == (2int, msg@),
    {
        AppError::Validation(msg.to_string())
    }

    /// The detail text.
    pub fn detail(&self) -> (r: &str)
        ensures
            r@ == err_view(*self).1,
    {
        match self {
            AppError::Database(m) => m.as_str(),
            AppError::NotFound(m) => m.as_str(),
            AppError::Validation(m) => m.as_str(),
            AppError::Internal(m) => m.as_str(),
            AppError::External(m) => m.as_str(),
            AppError::Scraping(m) => m.as_str(),
        }
    }

    /// The displayed message: the variant's prefix, then the detail.
    pub fn message(&self) -> (r: String)
        ensures
            r@ == err_prefix(err_view(*self).0) + err_view(*self).1,
    {
        let prefix = match self {
            AppError::Database(_) => "Database error: ",
            AppError::NotFound(_) => "Not found: ",
            AppError::Validation(_) => "Validation error: ",
            AppError::Internal(_) => "Internal error: ",
            AppError::External(_) => "External error: ",
            AppError::Scraping(_) => "Scraping error: ",
        };
        proof {
            reveal_strlit("Database error: ");
            reveal_strlit("Not found: ");
            reveal_strlit("Validation error: ");
            reveal_strlit("Internal error: ");
            reveal_strlit("External error: ");
            reveal_strlit("Scraping error: ");
        }
        concat_str(prefix, self.detail())
    }
}

} // verus!
