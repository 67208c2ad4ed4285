//! The failures that the address book can report.

use vstd::prelude::*;
use vstd::string::StringExecFns;

verus! {

/// A field of a contact, or the search term, that must not be empty.
#[derive(Debug, Clone, Copy, PartialEq, Eq, Structural)]
pub enum Field {
    Forename,
    Surname,
    Email,
    Needle,
    Organisation,
    Telephone,
}

impl Field {
    /// The field's name in lower case.
    pub open spec fn name_of(self) -> Seq<char> {
        match self {
            Field::Forename => "forename"@,
            Field::Surname => "surname"@,
            Field::Email => "email"@,
            Field::Needle => "needle"@,
            Field::Organisation => "organisation"@,
            Field::Telephone => "telephone"@,
        }
    }

    /// The sentence that reports the field as empty.
    pub open spec fn message_of(self) -> Seq<char> {
        "Field "@ + self.name_of() + " is empty."@
    }

    /// The field's name in lower case.
    pub fn name(&self) -> (r: &'static str)
        ensures
            r@ == self.name_of(),
    {
        match self {
            Field::Forename => "forename",
            Field::Surname => "surname",
            Field::Email => "email",
            Field::Needle => "needle",
            Field::Organisation => "organisation",
            Field::Telephone => "telephone",
        }
    }

    /// The sentence that reports the field as empty.
    pub fn message(&self) -> (r: String)
        ensures
            r@ == self.message_of(),
    {
        let mut text = String::from_str("Field ");
        text.append(self.name());
        text.append(" is empty.");
        text
    }
}

/// Everything that can go wrong in the address book.
///
/// The validator's and the storage engine's own errors are carried as the
/// text that they display.
#[derive(Debug)]
pub enum Error {
    /// A required or explicitly set value was the empty string.
    Empty(Field),
    /// The email text is not a syntactically valid address; holds the
    /// validator's diagnostic.
    Email(String),
    /// No table location was configured.
    Env,
    /// No operation was requested.
    NoArg,
    /// No table exists at the location that was to be opened; holds the
    /// location.
    NoFile(String),
    /// The storage engine failed; holds its message.
    Rusqlite(String),
}

/// An [`Error`] with each text taken as a sequence of characters.
pub enum ErrorView {
    Empty(Field),
    Email(Seq<char>),
    Env,
    NoArg,
    NoFile(Seq<char>),
    Rusqlite(Seq<char>),
}

impl View for Error {
    type V = ErrorView;

    open spec fn view(&self) -> ErrorView {
        match self {
            Error::Empty(field) => ErrorView::Empty(*field),
            Error::Email(diagnostic) => ErrorView::Email(diagnostic@),
            Error::Env => ErrorView::Env,
            Error::NoArg => ErrorView::NoArg,
            Error::NoFile(location) => ErrorView::NoFile(location@),
            Error::Rusqlite(message) => ErrorView::Rusqlite(message@),
        }
    }
}

/// What `std::fmt::Debug` writes for the text `text`: the text between
/// double quotes, with the characters that need it escaped.
pub uninterp spec fn quoted(text: Seq<char>) -> Seq<char>;

/// Formats `text` with `std::fmt::Debug`, as `{:?}` does.
///
/// Trusted: what comes back depends on `text` alone.
#[verifier::external_body]
pub(crate) fn quote(text: &str) -> (r: String)
    ensures
        r@ == quoted(text@),
{
    format!("{:?}", text)
}

impl ErrorView {
    /// The sentence that reports the failure to the user.
    pub open spec fn message_of(self) -> Seq<char> {
        match self {
            ErrorView::Empty(field) => field.message_of(),
            ErrorView::Email(diagnostic) => "Parsing email address failed: '"@ + diagnostic + "'"@,
            ErrorView::Env => "Environemnt variable CONTACT_DB is not set"@,
            ErrorView::NoArg => "Usage: 'contact add' or 'contact search'"@,
            ErrorView::NoFile(location) => "The requested file was not found: '"@ + quoted(
                location,
            ) + "'"@,
            ErrorView::Rusqlite(message) => "A rusqlite error occurred: ;"@ + message,
        }
    }
}

impl Error {
    /// The sentence that reports the failure to the user.
    pub fn message(&self) -> (r: String)
        ensures
            r@ == self@.message_of(),
    {
        match self {
            Error::Empty(field) => field.message(),
            Error::Email(diagnostic) => {
                let mut text = String::from_str("Parsing email address failed: '");
                text.append(diagnostic.as_str());
                text.append("'");
                text
            },
            Error::Env => String::from_str("Environemnt variable CONTACT_DB is not set"),
            Error::NoArg => String::from_str("Usage: 'contact add' or 'contact search'"),
            Error::NoFile(location) => {
                let mut text = String::from_str("The requested file was not found: '");
                let shown = quote(location.as_str());
                text.append(shown.as_str());
                text.append("'");
                text
            },
            Error::Rusqlite(message) => {
                let mut text = String::from_str("A rusqlite error occurred: ;");
                text.append(message.as_str());
                text
            },
        }
    }
}

} // verus!
