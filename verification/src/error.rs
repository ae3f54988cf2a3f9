//! The failures that the catalogue reports, and how each is shown to a client.

use vstd::prelude::*;

verus! {

/// Why a request could not be served.
#[derive(Debug, PartialEq, Eq)]
pub enum Error {
    /// No product has the requested id.
    NotFound,
    /// A sale asked for more units than the product has in stock.
    InsufficientStock,
    /// The product table could not serve the request. The text, where there
    /// is one, is the table's own account of the failure.
    StoreUnavailable(Option<String>),
}

/// Whether `outcome` reports that the product table was unavailable.
pub open spec fn is_unavailable<T>(outcome: Result<T, Error>) -> bool {
    outcome is Err && outcome->Err_0 is StoreUnavailable
}

impl Clone for Error {
    fn clone(&self) -> (copy: Self)
        ensures
            copy == *self,
    {
        match self {
            Error::NotFound => Error::NotFound,
            Error::InsufficientStock => Error::InsufficientStock,
            Error::StoreUnavailable(Some(text)) => Error::StoreUnavailable(Some(text.clone())),
            Error::StoreUnavailable(None) => Error::StoreUnavailable(None),
        }
    }
}

impl Error {
    /// The HTTP status under which this failure is reported.
    pub open spec fn spec_status_code(self) -> u16 {
        match self {
            Error::NotFound => 404,
            Error::InsufficientStock => 409,
            Error::StoreUnavailable(_) => 500,
        }
    }

    /// The text that accompanies the status: a fixed word for each kind of
    /// failure, except that an unavailable table speaks for itself where it
    /// left a message.
    pub open spec fn spec_message(self) -> Seq<char> {
        match self {
            Error::NotFound => "NOT_FOUND"@,
            Error::InsufficientStock => "INSUFFICIENT_STOCK"@,
            Error::StoreUnavailable(Some(text)) => text@,
            Error::StoreUnavailable(None) => "INTERNAL_SERVER_ERROR"@,
        }
    }

    /// The HTTP status under which this failure is reported: 404 for a
    /// missing product, 409 for a sale beyond the stock, 500 for a table that
    /// is unavailable.
    pub fn status_code(&self) -> (code: u16)
        ensures
            code == self.spec_status_code(),
    {
        match self {
            Error::NotFound => 404,
            Error::InsufficientStock => 409,
            Error::StoreUnavailable(_) => 500,
        }
    }

    /// The text that accompanies the status.
    pub fn message(&self) -> (text: String)
        ensures
            text@ == self.spec_message(),
    {
        match self {
            Error::NotFound => "NOT_FOUND".to_owned(),
            Error::InsufficientStock => "INSUFFICIENT_STOCK".to_owned(),
            Error::StoreUnavailable(Some(text)) => text.clone(),
            Error::StoreUnavailable(None) => "INTERNAL_SERVER_ERROR".to_owned(),
        }
    }
}

} // verus!
