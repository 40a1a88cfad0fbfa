//! The closed set of failures that the library reports.
use vstd::prelude::*;
use vstd::string::StringExecFns;

verus! {

#[verifier::external_type_specification]
#[verifier::external_body]
pub struct ExIoError(std::io::Error);

/// Why an operation failed.
#[derive(Debug)]
pub enum Error {
    /// The operating system refused a mapping, flush or sync.
    Io(std::io::Error),
    /// A mapping of zero bytes cannot back a file.
    EmptyFile,
    /// A split position lies beyond the end of the range.
    InvalidRange { start: u64, end: u64, pos: u64 },
    /// `offset + len` runs past the end of the file.
    WriteExceedsFileSize { offset: u64, len: u64, file_size: u64 },
    /// The data handed to a range write is not exactly as long as the range.
    DataLengthMismatch { data_len: usize, range_len: u64 },
    /// The buffer handed to a range read is shorter than the range.
    BufferTooSmall { buffer_len: usize, range_len: u64 },
    /// `offset + len` of a partial flush runs past the end of the file.
    FlushRangeExceedsFileSize { offset: u64, len: u64, file_size: u64 },
    /// The allocator has handed out every byte of the file.
    InsufficientSpace { requested: u64, remaining: u64 },
}

/// The character of decimal digit `d`.
pub open spec fn digit(d: nat) -> char {
    seq!['0', '1', '2', '3', '4', '5', '6', '7', '8', '9'][d as int]
}

/// `n` in decimal, with no sign and no leading zeros.
pub open spec fn decimal(n: nat) -> Seq<char>
    decreases n,
{
    if n < 10 {
        seq![digit(n)]
    } else {
        decimal(n / 10).push(digit(n % 10))
    }
}

/// Relies on the `Display` of `u64`, through `ToString`: the number in
/// decimal digits.
#[verifier::external_body]
fn decimal_string(n: u64) -> (r: String)
    ensures
        r@ == decimal(n as nat),
{
    n.to_string()
}

/// The message for an error that does not come from the operating system.
pub open spec fn message_of(e: Error) -> Seq<char> {
    match e {
        Error::Io(_) => "I/O error"@,
        Error::EmptyFile => "Cannot map empty file"@,
        Error::InvalidRange { start, end, pos } => "Split position "@ + decimal(pos as nat)
            + " is beyond range "@ + decimal(start as nat) + ".."@ + decimal(end as nat),
        Error::WriteExceedsFileSize { offset, len, file_size } => "Write of "@ + decimal(len as nat)
            + " bytes at offset "@ + decimal(offset as nat) + " exceeds file size "@ + decimal(
            file_size as nat,
        ),
        Error::DataLengthMismatch { data_len, range_len } => "Data length "@ + decimal(data_len as nat)
            + " does not match range length "@ + decimal(range_len as nat),
        Error::BufferTooSmall { buffer_len, range_len } => "Buffer length "@ + decimal(buffer_len as nat)
            + " is smaller than range length "@ + decimal(range_len as nat),
        Error::FlushRangeExceedsFileSize { offset, len, file_size } => "Flush of "@ + decimal(len as nat)
            + " bytes at offset "@ + decimal(offset as nat) + " exceeds file size "@ + decimal(
            file_size as nat,
        ),
        Error::InsufficientSpace { requested, remaining } => "Requested "@ + decimal(requested as nat)
            + " bytes but only "@ + decimal(remaining as nat) + " remain"@,
    }
}

impl Error {
    /// A sentence that says what went wrong; an operating-system error keeps
    /// its own description after the prefix `I/O error: `.
    pub fn message(&self) -> (r: String)
        ensures
            !(*self is Io) ==> r@ == message_of(*self),
            *self is Io ==> exists|rest: Seq<char>| r@ == "I/O error: "@ + rest,
    {
        match self {
            Error::Io(err) => {
                let mut s = String::from_str("I/O error: ");
                let text = err.to_string();
                s.append(text.as_str());
                s
            },
            Error::EmptyFile => String::from_str("Cannot map empty file"),
            Error::InvalidRange { start, end, pos } => {
                let mut s = String::from_str("Split position ");
                s.append(decimal_string(*pos).as_str());
                s.append(" is beyond range ");
                s.append(decimal_string(*start).as_str());
                s.append("..");
                s.append(decimal_string(*end).as_str());
                s
            },
            Error::WriteExceedsFileSize { offset, len, file_size } => {
                let mut s = String::from_str("Write of ");
                s.append(decimal_string(*len).as_str());
                s.append(" bytes at offset ");
                s.append(decimal_string(*offset).as_str());
                s.append(" exceeds file size ");
                s.append(decimal_string(*file_size).as_str());
                s
            },
            Error::DataLengthMismatch { data_len, range_len } => {
                let mut s = String::from_str("Data length ");
                s.append(decimal_string(*data_len as u64).as_str());
                s.append(" does not match range length ");
                s.append(decimal_string(*range_len).as_str());
                s
            },
            Error::BufferTooSmall { buffer_len, range_len } => {
                let mut s = String::from_str("Buffer length ");
                s.append(decimal_string(*buffer_len as u64).as_str());
                s.append(" is smaller than range length ");
                s.append(decimal_string(*range_len).as_str());
                s
            },
            Error::FlushRangeExceedsFileSize { offset, len, file_size } => {
                let mut s = String::from_str("Flush of ");
                s.append(decimal_string(*len).as_str());
                s.append(" bytes at offset ");
                s.append(decimal_string(*offset).as_str());
                s.append(" exceeds file size ");
                s.append(decimal_string(*file_size).as_str());
                s
            },
            Error::InsufficientSpace { requested, remaining } => {
                let mut s = String::from_str("Requested ");
                s.append(decimal_string(*requested).as_str());
                s.append(" bytes but only ");
                s.append(decimal_string(*remaining).as_str());
                s.append(" remain");
                s
            },
        }
    }
}

/// The error that `std::io::Error::new(ErrorKind::InvalidInput, msg)` makes.
pub uninterp spec fn invalid_input_error(msg: Seq<char>) -> std::io::Error;

/// Relies on `std::io::Error::new`: an `InvalidInput` error that carries
/// `msg`.
#[verifier::external_body]
fn invalid_input(msg: String) -> (r: std::io::Error)
    ensures
        r == invalid_input_error(msg@),
{
    std::io::Error::new(std::io::ErrorKind::InvalidInput, msg)
}

/// Hands back the operating-system error itself; every other error becomes
/// an `InvalidInput` error with its message.
impl From<Error> for std::io::Error {
    fn from(err: Error) -> (r: std::io::Error) {
        match err {
            Error::Io(e) => e,
            other => {
                let msg = other.message();
                invalid_input(msg)
            },
        }
    }
}

impl vstd::std_specs::convert::FromSpecImpl<Error> for std::io::Error {
    open spec fn obeys_from_spec() -> bool {
        true
    }

    open spec fn from_spec(err: Error) -> std::io::Error {
        match err {
            Error::Io(e) => e,
            other => invalid_input_error(message_of(other)),
        }
    }
}

impl From<std::io::Error> for Error {
    fn from(err: std::io::Error) -> (r: Error)
        ensures
            r == Error::Io(err),
    {
        Error::Io(err)
    }
}

impl vstd::std_specs::convert::FromSpecImpl<std::io::Error> for Error {
    open spec fn obeys_from_spec() -> bool {
        true
    }

    open spec fn from_spec(err: std::io::Error) -> Error {
        Error::Io(err)
    }
}

} // verus!
