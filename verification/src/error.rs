use vstd::prelude::*;

verus! {

/// The two error categories a grid read can surface.
///
/// `Io` covers failures of the underlying stream — it could not be opened,
/// read, or seeked, or a foreign handle answered with something malformed.
/// `Format` covers byte streams that were delivered intact but do not decode
/// into a valid grid record. Both carry a human-readable description; no
/// other category exists, and no error is ever retried.
#[derive(Clone, Debug)]
pub enum GridError {
    Io(String),
    Format(String),
}

/// Mathematical model of [`GridError`].
pub enum ErrorModel {
    Io(Seq<char>),
    Format(Seq<char>),
}

impl View for GridError {
    type V = ErrorModel;

    open spec fn view(&self) -> ErrorModel {
        match self {
            GridError::Io(m) => ErrorModel::Io(m@),
            GridError::Format(m) => ErrorModel::Format(m@),
        }
    }
}

impl ErrorModel {
    /// The description carried by the error, whichever its category.
    pub open spec fn message(self) -> Seq<char> {
        match self {
            ErrorModel::Io(m) => m,
            ErrorModel::Format(m) => m,
        }
    }
}

impl GridError {
    /// Whether this error belongs to the I/O category (as opposed to the
    /// format/semantic category).
    pub fn is_io_category(&self) -> (r: bool)
        ensures
            r == (self@ is Io),
    {
        match self {
            GridError::Io(_) => true,
            GridError::Format(_) => false,
        }
    }

    /// The human-readable description carried by the error.
    pub fn message(&self) -> (r: &String)
        ensures
            r@ == self@.message(),
    {
        match self {
            GridError::Io(m) => m,
            GridError::Format(m) => m,
        }
    }
}

/// Routes a decode failure to the host-visible category: an I/O failure
/// keeps the I/O category with its underlying description unchanged, and
/// every other failure becomes a format error carrying its description.
/// No other mapping exists.
pub fn translate_error(is_io: bool, msg: String) -> (r: GridError)
    ensures
        is_io ==> r@ == ErrorModel::Io(msg@),
        !is_io ==> r@ == ErrorModel::Format(msg@),
{
    if is_io {
        GridError::Io(msg)
    } else {
        GridError::Format(msg)
    }
}

} // verus!
