//! The ways in which a lookup ends without a console path.

use vstd::prelude::*;

verus! {

/// Why no console path was produced. Every kind ends the lookup at once.
#[derive(Debug, PartialEq, Eq)]
pub enum Error {
    /// Listing the stacks or the resources of a stack failed; the text is the
    /// provider's own.
    FetchFailed(String),
    /// A listing held nothing to choose from.
    NoOptions,
    /// The user left the picker without choosing.
    SelectionAborted,
    /// A chosen line is not the record of a resource.
    MalformedRecord,
    /// No console path is known for resources of this type.
    UnmappedResourceType(String),
}

/// An [`Error`] with its texts as character sequences.
pub enum ErrorView {
    FetchFailed(Seq<char>),
    NoOptions,
    SelectionAborted,
    MalformedRecord,
    UnmappedResourceType(Seq<char>),
}

impl View for Error {
    type V = ErrorView;

    open spec fn view(&self) -> ErrorView {
        match self {
            Error::FetchFailed(reason) => ErrorView::FetchFailed(reason@),
            Error::NoOptions => ErrorView::NoOptions,
            Error::SelectionAborted => ErrorView::SelectionAborted,
            Error::MalformedRecord => ErrorView::MalformedRecord,
            Error::UnmappedResourceType(resource_type) => ErrorView::UnmappedResourceType(
                resource_type@,
            ),
        }
    }
}

impl ErrorView {
    /// The one line that tells the user of this error. A failed listing is
    /// reported in the provider's words, an unmapped type by its name.
    pub open spec fn message(self) -> Seq<char> {
        match self {
            ErrorView::FetchFailed(reason) => reason,
            ErrorView::NoOptions => "There is nothing to pick from"@,
            ErrorView::SelectionAborted => "You have to pick an option"@,
            ErrorView::MalformedRecord => "Malformed resource str"@,
            ErrorView::UnmappedResourceType(resource_type) => "Not mapped: "@ + resource_type,
        }
    }
}

impl Clone for Error {
    fn clone(&self) -> (copy: Self)
        ensures
            copy == *self,
    {
        match self {
            Error::FetchFailed(reason) => Error::FetchFailed(reason.clone()),
            Error::NoOptions => Error::NoOptions,
            Error::SelectionAborted => Error::SelectionAborted,
            Error::MalformedRecord => Error::MalformedRecord,
            Error::UnmappedResourceType(resource_type) => Error::UnmappedResourceType(
                resource_type.clone(),
            ),
        }
    }
}

impl Error {
    /// The line to show the user.
    pub fn message(&self) -> (line: String)
        ensures
            line@ == self@.message(),
    {
        match self {
            Error::FetchFailed(reason) => reason.clone(),
            Error::NoOptions => String::from_str("There is nothing to pick from"),
            Error::SelectionAborted => String::from_str("You have to pick an option"),
            Error::MalformedRecord => String::from_str("Malformed resource str"),
            Error::UnmappedResourceType(resource_type) => String::from_str("Not mapped: ").concat(
                resource_type.as_str(),
            ),
        }
    }
}

} // verus!
