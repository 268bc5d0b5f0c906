//! Errors of the DeckLink boundary.
use vstd::prelude::*;
use vstd::string::*;

verus! {

/// Errors surfaced across the DeckLink boundary.
#[derive(Debug)]
pub enum Error {
    /// No DeckLink device matched the requested name.
    DeviceNotFound(String),
    /// The SDK refused to open or configure the device.
    OpenFailed(String),
    /// The device delivered no frames at all (unplugged card, driver fault).
    NoSignal(String),
    /// A failure while capturing or playing out.
    Io(String),
    /// A requested pixel format or mode that is not mapped.
    Unsupported(String),
    /// Playout backpressure: the card's scheduled-frame queue is full and did
    /// not drain within the write timeout. The frame was not scheduled.
    /// Callers should drop the frame and retry rather than treat the device as
    /// failed.
    Busy,
    /// The playout timeline went backwards: a frame's display time did not
    /// advance past the one before it. The frame was not scheduled, and the
    /// caller must re-anchor its epoch.
    TimeNotMonotonic(String),
    /// The stream was closed.
    Eof,
}

/// An [`Error`] with its text as a sequence of characters.
pub enum ErrorView {
    DeviceNotFound(Seq<char>),
    OpenFailed(Seq<char>),
    NoSignal(Seq<char>),
    Io(Seq<char>),
    Unsupported(Seq<char>),
    Busy,
    TimeNotMonotonic(Seq<char>),
    Eof,
}

impl View for Error {
    type V = ErrorView;

    open spec fn view(&self) -> ErrorView {
        match self {
            Error::DeviceNotFound(s) => ErrorView::DeviceNotFound(s@),
            Error::OpenFailed(s) => ErrorView::OpenFailed(s@),
            Error::NoSignal(s) => ErrorView::NoSignal(s@),
            Error::Io(s) => ErrorView::Io(s@),
            Error::Unsupported(s) => ErrorView::Unsupported(s@),
            Error::Busy => ErrorView::Busy,
            Error::TimeNotMonotonic(s) => ErrorView::TimeNotMonotonic(s@),
            Error::Eof => ErrorView::Eof,
        }
    }
}

/// A result whose value and error are taken by their views.
pub open spec fn viewed<T: View>(r: Result<T, Error>) -> Result<T::V, ErrorView> {
    match r {
        Ok(v) => Ok(v@),
        Err(e) => Err(e@),
    }
}

/// A result that carries no value, with its error taken by its view.
pub open spec fn viewed_unit(r: Result<(), Error>) -> Result<(), ErrorView> {
    match r {
        Ok(()) => Ok(()),
        Err(e) => Err(e@),
    }
}

impl ErrorView {
    /// The line that tells an operator what went wrong.
    pub open spec fn message(self) -> Seq<char> {
        match self {
            ErrorView::DeviceNotFound(s) => "decklink device not found: "@ + s,
            ErrorView::OpenFailed(s) => "decklink open failed: "@ + s,
            ErrorView::NoSignal(s) => "no SDI frames from "@ + s,
            ErrorView::Io(s) => "decklink i/o error: "@ + s,
            ErrorView::Unsupported(s) => "unsupported: "@ + s,
            ErrorView::Busy => "playout busy: scheduled-frame queue full"@,
            ErrorView::TimeNotMonotonic(s) => "playout time not monotonic: "@ + s,
            ErrorView::Eof => "decklink stream ended"@,
        }
    }
}

/// `prefix` followed by `text`.
fn prefixed(prefix: &str, text: &str) -> (r: String)
    ensures
        r@ == prefix@ + text@,
{
    let mut r = prefix.to_owned();
    r.append(text);
    r
}

impl Error {
    /// The line that tells an operator what went wrong.
    pub fn message(&self) -> (r: String)
        ensures
            r@ == self@.message(),
    {
        match self {
            Error::DeviceNotFound(s) => prefixed("decklink device not found: ", s.as_str()),
            Error::OpenFailed(s) => prefixed("decklink open failed: ", s.as_str()),
            Error::NoSignal(s) => prefixed("no SDI frames from ", s.as_str()),
            Error::Io(s) => prefixed("decklink i/o error: ", s.as_str()),
            Error::Unsupported(s) => prefixed("unsupported: ", s.as_str()),
            Error::Busy => "playout busy: scheduled-frame queue full".to_owned(),
            Error::TimeNotMonotonic(s) => prefixed("playout time not monotonic: ", s.as_str()),
            Error::Eof => "decklink stream ended".to_owned(),
        }
    }
}

// ---------------------------------------------------------------------------
// Laws
// ---------------------------------------------------------------------------

/// What an operator reads names the kind of the error, in words of its own,
/// and then says all that the error says.
pub proof fn law_message_says_what_the_error_says(s: Seq<char>)
    ensures
        ErrorView::DeviceNotFound(s).message() == "decklink device not found: "@ + s,
        ErrorView::OpenFailed(s).message() == "decklink open failed: "@ + s,
        ErrorView::NoSignal(s).message() == "no SDI frames from "@ + s,
        ErrorView::Io(s).message() == "decklink i/o error: "@ + s,
        ErrorView::Unsupported(s).message() == "unsupported: "@ + s,
        ErrorView::TimeNotMonotonic(s).message() == "playout time not monotonic: "@ + s,
        ErrorView::Busy.message() == "playout busy: scheduled-frame queue full"@,
        ErrorView::Eof.message() == "decklink stream ended"@,
{
}

/// An error is seen as its own kind with its own text, and a result as the
/// success or the error that it is.
pub proof fn law_error_is_seen_whole<T: View>(e: Error, v: T)
    ensures
        e matches Error::DeviceNotFound(s) ==> e@ == ErrorView::DeviceNotFound(s@),
        e matches Error::OpenFailed(s) ==> e@ == ErrorView::OpenFailed(s@),
        e matches Error::NoSignal(s) ==> e@ == ErrorView::NoSignal(s@),
        e matches Error::Io(s) ==> e@ == ErrorView::Io(s@),
        e matches Error::Unsupported(s) ==> e@ == ErrorView::Unsupported(s@),
        e matches Error::TimeNotMonotonic(s) ==> e@ == ErrorView::TimeNotMonotonic(s@),
        e is Busy <==> e@ is Busy,
        e is Eof <==> e@ is Eof,
        viewed::<T>(Ok(v)) == Ok::<T::V, ErrorView>(v@),
        viewed::<T>(Err(e)) == Err::<T::V, ErrorView>(e@),
        viewed_unit(Ok(())) == Ok::<(), ErrorView>(()),
        viewed_unit(Err(e)) == Err::<(), ErrorView>(e@),
{
}

} // verus!
