//! Storage API error type, extensible with custom causes and static string
//! messages.

use vstd::prelude::*;

verus! {

/// The text shown for a static message put in front of a cause:
/// `"<message>: <cause>"`.
pub open spec fn with_context(msg: Seq<char>, cause: Seq<char>) -> Seq<char> {
    msg + seq![':', ' '] + cause
}

/// A failure of a storage API call.
#[derive(Debug)]
pub enum Error {
    /// A fixed message, with no underlying cause.
    SimpleMessage(&'static str),
    /// An underlying cause, with no further context.
    Custom(CustomError),
    /// A fixed context message together with the underlying cause.
    CustomWithMessage(&'static str, CustomError),
}

/// Result of a storage API call.
pub type Result<T> = core::result::Result<T, Error>;

/// A custom error: the underlying cause, held by its rendered text, which is
/// all that the storage layer reads of it.
#[derive(Debug)]
pub struct CustomError(pub String);

impl View for CustomError {
    type V = Seq<char>;

    open spec fn view(&self) -> Seq<char> {
        self.0@
    }
}

impl CustomError {
    /// Renders the cause: its own text, unchanged.
    pub fn to_string(&self) -> (s: String)
        ensures
            s@ == self@,
    {
        self.0.clone()
    }
}

impl Error {
    /// The text that this error renders as.
    pub open spec fn text(&self) -> Seq<char> {
        match self {
            Error::SimpleMessage(msg) => msg@,
            Error::Custom(cause) => cause@,
            Error::CustomWithMessage(msg, cause) => with_context(msg@, cause@),
        }
    }

    /// Creates an [`Error`] from another error, given by its rendered text.
    pub fn new(error: String) -> (r: Self)
        ensures
            r == Error::Custom(CustomError(error)),
            r.text() == error@,
    {
        Error::Custom(CustomError(error))
    }

    /// Creates an [`Error`] from a static message.
    pub fn new_const(msg: &'static str) -> (r: Self)
        ensures
            r == Error::SimpleMessage(msg),
            r.text() == msg@,
    {
        Error::SimpleMessage(msg)
    }

    /// Wraps another error, given by its rendered text, with a static message.
    pub fn wrap(msg: &'static str, error: String) -> (r: Self)
        ensures
            r == Error::CustomWithMessage(msg, CustomError(error)),
            r.text() == with_context(msg@, error@),
    {
        Error::CustomWithMessage(msg, CustomError(error))
    }

    /// Renders the error: a message alone, a cause alone, or
    /// `"<message>: <cause>"`.
    pub fn to_string(&self) -> (s: String)
        ensures
            s@ == self.text(),
    {
        match self {
            Error::SimpleMessage(msg) => String::from_str(msg),
            Error::Custom(cause) => cause.to_string(),
            Error::CustomWithMessage(msg, cause) => {
                let mut s = String::from_str(msg);
                let sep = ": ";
                proof {
                    reveal_strlit(": ");
                }
                s.append(sep);
                s.append(cause.0.as_str());
                s
            },
        }
    }
}

/// Conversion of a `Result` whose failure is given by its rendered text into
/// a storage API [`Result`].
pub trait ResultExt<T>: Sized {
    /// The storage API result that this value converts to.
    spec fn storage_result(self) -> Result<T>;

    /// The storage API result that this value converts to, with `msg` put in
    /// front of a failure.
    spec fn storage_result_with(self, msg: &'static str) -> Result<T>;

    /// Converts into a storage API [`Result`].
    fn into_storage_result(self) -> (r: Result<T>)
        ensures
            r == self.storage_result(),
    ;

    /// Adds a static message to a possible error.
    fn wrap_err(self, msg: &'static str) -> (r: Result<T>)
        ensures
            r == self.storage_result_with(msg),
    ;
}

impl<T> ResultExt<T> for core::result::Result<T, String> {
    open spec fn storage_result(self) -> Result<T> {
        match self {
            Ok(v) => Ok(v),
            Err(e) => Err(Error::Custom(CustomError(e))),
        }
    }

    open spec fn storage_result_with(self, msg: &'static str) -> Result<T> {
        match self {
            Ok(v) => Ok(v),
            Err(e) => Err(Error::CustomWithMessage(msg, CustomError(e))),
        }
    }

    fn into_storage_result(self) -> (r: Result<T>) {
        match self {
            Ok(v) => Ok(v),
            Err(e) => Err(Error::new(e)),
        }
    }

    fn wrap_err(self, msg: &'static str) -> (r: Result<T>) {
        match self {
            Ok(v) => Ok(v),
            Err(e) => Err(Error::wrap(msg, e)),
        }
    }
}

/// Turns the `None` case of an `Option` into an error from a static message.
pub trait OptionExt<T>: Sized {
    /// The storage API result that this value converts to with `msg`.
    spec fn ok_or_msg(self, msg: &'static str) -> Result<T>;

    /// Maps `Some(v)` to `Ok(v)` and `None` to the given static message.
    fn ok_or_err_msg(self, msg: &'static str) -> (r: Result<T>)
        ensures
            r == self.ok_or_msg(msg),
    ;
}

impl<T> OptionExt<T> for Option<T> {
    open spec fn ok_or_msg(self, msg: &'static str) -> Result<T> {
        match self {
            Some(v) => Ok(v),
            None => Err(Error::SimpleMessage(msg)),
        }
    }

    fn ok_or_err_msg(self, msg: &'static str) -> (r: Result<T>) {
        match self {
            Some(v) => Ok(v),
            None => Err(Error::new_const(msg)),
        }
    }
}

/// Converting a success leaves its value unchanged.
pub proof fn lemma_into_storage_result_keeps_ok<T>(v: T)
    ensures
        ResultExt::<T>::storage_result(Ok::<T, String>(v)) == Ok::<T, Error>(v),
{
}

/// Wrapping the error of a success leaves its value unchanged, whatever the
/// message.
pub proof fn lemma_wrap_err_keeps_ok<T>(v: T, msg: &'static str)
    ensures
        ResultExt::<T>::storage_result_with(Ok::<T, String>(v), msg) == Ok::<T, Error>(v),
{
}

/// A present value passes through; absence becomes a static message error
/// that renders as that message.
pub proof fn lemma_ok_or_err_msg<T>(v: Option<T>, msg: &'static str)
    ensures
        v is Some ==> v.ok_or_msg(msg) == Ok::<T, Error>(v->Some_0),
        v is None ==> v.ok_or_msg(msg) == Err::<T, Error>(Error::SimpleMessage(msg)),
        v is None ==> v.ok_or_msg(msg)->Err_0.text() == msg@,
{
}

/// Rendering is a function of the error alone: two renderings of one error
/// give the same text.
pub proof fn lemma_render_is_stable(e: &Error, first: String, second: String)
    requires
        first@ == e.text(),
        second@ == e.text(),
    ensures
        first@ == second@,
{
}

} // verus!
