//! The one way in which building an entity fails: the graphics context
//! refuses to create a vertex array or a buffer.

use vstd::prelude::*;
use vstd::std_specs::convert::{FromSpec, IntoSpec};

verus! {

/// A refusal of the graphics context, with the words it gave.
#[derive(Debug)]
pub struct BlazedError {
    message: String,
}

impl View for BlazedError {
    type V = Seq<char>;

    /// The context's words.
    closed spec fn view(&self) -> Seq<char> {
        self.message@
    }
}

impl BlazedError {
    /// The refusal in the words `message`.
    pub closed spec fn spec_new(message: String) -> Self {
        BlazedError { message }
    }

    /// The refusal in the words `message`.
    #[verifier::when_used_as_spec(spec_new)]
    pub fn new(message: String) -> (out: Self)
        ensures
            out == Self::spec_new(message),
            out@ == message@,
    {
        BlazedError { message }
    }

    /// The context's words.
    pub fn message(&self) -> (out: &str)
        ensures
            out@ == self@,
    {
        self.message.as_str()
    }
}

impl From<String> for BlazedError {
    fn from(message: String) -> (out: Self) {
        BlazedError::new(message)
    }
}

impl vstd::std_specs::convert::FromSpecImpl<String> for BlazedError {
    open spec fn obeys_from_spec() -> bool {
        true
    }

    open spec fn from_spec(message: String) -> Self {
        BlazedError::spec_new(message)
    }
}

/// Why an operation of this library failed.
#[derive(Debug)]
pub enum Error {
    Blazed(BlazedError),
}

impl<T: Into<BlazedError>> From<T> for Error {
    fn from(value: T) -> (out: Self) {
        Error::Blazed(value.into())
    }
}

impl<T: Into<BlazedError>> vstd::std_specs::convert::FromSpecImpl<T> for Error {
    open spec fn obeys_from_spec() -> bool {
        <T as IntoSpec<BlazedError>>::obeys_into_spec()
    }

    open spec fn from_spec(value: T) -> Self {
        Error::Blazed(<T as IntoSpec<BlazedError>>::into_spec(value))
    }
}

impl Error {
    /// The words that describe the failure.
    pub fn message(&self) -> (out: &str)
        ensures
            out@ == (match *self {
                Error::Blazed(e) => e@,
            }),
    {
        match self {
            Error::Blazed(e) => e.message(),
        }
    }

    /// The failure that a refusal of the context in the words `message`
    /// becomes.
    pub open spec fn spec_refused(message: String) -> Error {
        Error::Blazed(BlazedError::spec_new(message))
    }

    /// The failure that a refusal of the context in the words `message`
    /// becomes.
    #[verifier::when_used_as_spec(spec_refused)]
    pub fn refused(message: String) -> (out: Error)
        ensures
            out == Error::spec_refused(message),
    {
        Error::from(message)
    }
}

/// A refusal keeps the context's words, letter for letter.
pub proof fn lemma_refused_message(message: String)
    ensures
        Error::spec_refused(message) matches Error::Blazed(e) && e@ == message@,
{
}

} // verus!
