//! A serial device
//!
//! The device is reached through a transport that opens, reads, writes,
//! flushes and closes. This module says what is asked of the transport and
//! what its answers mean. The calls themselves are made by the driver.

use crate::error::{io_failure, Error, ErrorKind};
use crate::text::{decimal_text, push_decimal};
use vstd::prelude::*;
use vstd::slice::slice_to_vec;
use vstd::string::*;

verus! {

/// A failed call of the transport: the transport's own diagnostic and the
/// platform's description of its last error.
#[derive(Debug, PartialEq, Eq)]
pub struct Fault {
    /// The transport's diagnostic
    pub description: String,
    /// The platform's last error
    pub os_error: String,
}

impl Fault {
    /// The diagnostic, followed by the platform's error between brackets.
    pub open spec fn text(self) -> Seq<char> {
        self.description@ + " ("@ + self.os_error@ + ")"@
    }

    /// Builds the transport error that reports this fault.
    pub fn into_error(self) -> (error: Error)
        ensures
            error@ == io_failure(self.text()),
    {
        let mut text = self.description;
        text.append(" (");
        text.append(self.os_error.as_str());
        text.append(")");
        Error::with(ErrorKind::Io, text.as_str(), text.as_str())
    }
}

/// A call that the driver makes on the transport.
#[derive(Debug, PartialEq, Eq)]
pub enum Request {
    /// Open the device at `path`, a NUL-terminated byte string, with
    /// `baudrate`. The answer is the handle of the open device.
    Open { path: Vec<u8>, baudrate: u64 },
    /// Read at most `capacity` bytes from `fd`. The answer is the bytes read.
    Read { fd: i64, capacity: usize },
    /// Write `data` to `fd`. The answer is the number of bytes written,
    /// counted from the start of `data`.
    Write { fd: i64, data: Vec<u8> },
    /// Write out what `fd` has buffered.
    Flush { fd: i64 },
    /// Close `fd`.
    Close { fd: i64 },
}

/// A [`Request`] as a mathematical value.
pub enum RequestView {
    Open { path: Seq<u8>, baudrate: u64 },
    Read { fd: i64, capacity: usize },
    Write { fd: i64, data: Seq<u8> },
    Flush { fd: i64 },
    Close { fd: i64 },
}

impl View for Request {
    type V = RequestView;

    open spec fn view(&self) -> RequestView {
        match *self {
            Request::Open { path, baudrate } => RequestView::Open { path: path@, baudrate },
            Request::Read { fd, capacity } => RequestView::Read { fd, capacity },
            Request::Write { fd, data } => RequestView::Write { fd, data: data@ },
            Request::Flush { fd } => RequestView::Flush { fd },
            Request::Close { fd } => RequestView::Close { fd },
        }
    }
}

/// The transport's answer to a [`Request`].
#[derive(Debug, PartialEq, Eq)]
pub enum Reply {
    /// To [`Request::Open`]: the handle of the open device.
    Opened(Result<i64, Fault>),
    /// To [`Request::Read`]: the bytes read.
    Received(Result<Vec<u8>, Fault>),
    /// To [`Request::Write`]: the number of bytes written.
    Written(Result<usize, Fault>),
    /// To [`Request::Flush`].
    Flushed(Result<(), Fault>),
    /// To [`Request::Close`].
    Closed(Result<(), Fault>),
}

/// The handle of a device that has not been opened.
pub const NO_HANDLE: i64 = -1;

/// A serial device
#[derive(Debug)]
pub struct SerialDevice {
    /// The path of the device, NUL-terminated
    path: Vec<u8>,
    /// The speed of the line
    baudrate: u64,
    /// The underlying file descriptor
    fd: i64,
}

/// A [`SerialDevice`] as a mathematical value.
pub struct SerialDeviceView {
    pub path: Seq<u8>,
    pub baudrate: u64,
    pub fd: i64,
}

impl View for SerialDevice {
    type V = SerialDeviceView;

    closed spec fn view(&self) -> SerialDeviceView {
        SerialDeviceView { path: self.path@, baudrate: self.baudrate, fd: self.fd }
    }
}

/// Whether `at` is the place of the first NUL byte of `bytes`.
pub open spec fn is_first_nul(bytes: Seq<u8>, at: int) -> bool {
    &&& 0 <= at < bytes.len()
    &&& bytes[at] == 0
    &&& forall|j: int| 0 <= j < at ==> bytes[j] != 0
}

/// The description of a path that holds a NUL byte at `at`.
pub open spec fn nul_in_path(at: int) -> Seq<char> {
    "nul byte found in provided data at position: "@ + decimal_text(at as nat)
}

/// The description of a write that the transport answered with no byte
/// written.
pub open spec fn write_zero() -> Seq<char> {
    "failed to write whole buffer"@
}

impl SerialDevice {
    /// Prepares a serial device at `path`. The path must hold no NUL byte:
    /// the transport takes it as a NUL-terminated string.
    pub fn new(path: &str, baudrate: u64) -> (device: Result<Self, Error>)
        ensures
            match device {
                Ok(device) => {
                    &&& !path.spec_bytes().contains(0)
                    &&& device@ == (SerialDeviceView {
                        path: path.spec_bytes().push(0),
                        baudrate,
                        fd: NO_HANDLE,
                    })
                },
                Err(error) => exists|at: int|
                    is_first_nul(path.spec_bytes(), at) && error@ == io_failure(nul_in_path(at)),
            },
    {
        // Prepare the path
        let bytes = path.as_bytes();
        let mut terminated: Vec<u8> = Vec::new();
        let mut i: usize = 0;
        while i < bytes.len()
            invariant
                i <= bytes@.len(),
                bytes@ == path.spec_bytes(),
                terminated@ == bytes@.subrange(0, i as int),
                forall|j: int| 0 <= j < i ==> bytes@[j] != 0,
            decreases bytes@.len() - i,
        {
            if bytes[i] == 0 {
                let mut text = String::new();
                text.append("nul byte found in provided data at position: ");
                push_decimal(&mut text, i);
                assert(text@ =~= nul_in_path(i as int));
                assert(is_first_nul(path.spec_bytes(), i as int));
                return Err(Error::with(ErrorKind::Io, text.as_str(), text.as_str()));
            }
            terminated.push(bytes[i]);
            assert(terminated@ =~= bytes@.subrange(0, i + 1));
            i = i + 1;
        }
        assert(terminated@ =~= bytes@);
        terminated.push(0);
        Ok(SerialDevice { path: terminated, baudrate, fd: NO_HANDLE })
    }

    /// The underlying file descriptor, [`NO_HANDLE`] before the device is
    /// open.
    pub fn fd(&self) -> (fd: i64)
        ensures
            fd == self@.fd,
    {
        self.fd
    }

    /// The speed of the line.
    pub fn baudrate(&self) -> (baudrate: u64)
        ensures
            baudrate == self@.baudrate,
    {
        self.baudrate
    }

    /// Asks to open the device.
    pub fn open(&self) -> (request: Request)
        ensures
            request@ == (RequestView::Open { path: self@.path, baudrate: self@.baudrate }),
    {
        Request::Open { path: slice_to_vec(self.path.as_slice()), baudrate: self.baudrate }
    }

    /// Takes the answer to [`Self::open`]: the handle is kept, a fault is
    /// reported and leaves the device as it was.
    pub fn opened(&mut self, answer: Result<i64, Fault>) -> (outcome: Result<(), Error>)
        ensures
            match answer {
                Ok(fd) => outcome is Ok && final(self)@ == (SerialDeviceView { fd, ..old(self)@ }),
                Err(fault) => outcome matches Err(error) && error@ == io_failure(fault.text())
                    && final(self)@ == old(self)@,
            },
    {
        match answer {
            Ok(fd) => {
                self.fd = fd;
                Ok(())
            },
            Err(fault) => Err(fault.into_error()),
        }
    }

    /// Asks to read at most `capacity` bytes.
    pub fn read(&self, capacity: usize) -> (request: Request)
        ensures
            request@ == (RequestView::Read { fd: self@.fd, capacity }),
    {
        Request::Read { fd: self.fd, capacity }
    }

    /// Takes the answer to a read: the bytes that were read, as many as there
    /// are. Whether they are enough is for the caller to say.
    pub fn received(answer: Result<Vec<u8>, Fault>) -> (outcome: Result<Vec<u8>, Error>)
        ensures
            match answer {
                Ok(data) => outcome == Ok::<Vec<u8>, Error>(data),
                Err(fault) => outcome matches Err(error) && error@ == io_failure(fault.text()),
            },
    {
        match answer {
            Ok(data) => Ok(data),
            Err(fault) => Err(fault.into_error()),
        }
    }

    /// Asks to write `data`.
    pub fn write(&self, data: &[u8]) -> (request: Request)
        ensures
            request@ == (RequestView::Write { fd: self@.fd, data: data@ }),
    {
        Request::Write { fd: self.fd, data: slice_to_vec(data) }
    }

    /// Takes the answer to a write of `pending` bytes and gives the number of
    /// bytes that are still to be written. A write that took no byte is a
    /// failure.
    pub fn written(pending: usize, answer: Result<usize, Fault>) -> (outcome: Result<usize, Error>)
        requires
            pending > 0,
            answer matches Ok(count) ==> count <= pending,
        ensures
            match outcome {
                Ok(left) => answer matches Ok(count) && count > 0 && left == pending - count,
                Err(error) => match answer {
                    Ok(count) => count == 0 && error@ == io_failure(write_zero()),
                    Err(fault) => error@ == io_failure(fault.text()),
                },
            },
    {
        match answer {
            Ok(count) => {
                if count == 0 {
                    Err(
                        Error::with(
                            ErrorKind::Io,
                            "failed to write whole buffer",
                            "failed to write whole buffer",
                        ),
                    )
                } else {
                    Ok(pending - count)
                }
            },
            Err(fault) => Err(fault.into_error()),
        }
    }

    /// Asks to write out what the transport has buffered.
    pub fn flush(&self) -> (request: Request)
        ensures
            request@ == (RequestView::Flush { fd: self@.fd }),
    {
        Request::Flush { fd: self.fd }
    }

    /// Takes the answer to [`Self::flush`].
    pub fn flushed(answer: Result<(), Fault>) -> (outcome: Result<(), Error>)
        ensures
            match answer {
                Ok(_) => outcome is Ok,
                Err(fault) => outcome matches Err(error) && error@ == io_failure(fault.text()),
            },
    {
        match answer {
            Ok(_) => Ok(()),
            Err(fault) => Err(fault.into_error()),
        }
    }

    /// Asks to close the device and gives it up: a device is closed once.
    /// The answer does not matter, a close that fails is not reported.
    pub fn close(self) -> (request: Request)
        ensures
            request@ == (RequestView::Close { fd: self@.fd }),
    {
        Request::Close { fd: self.fd }
    }
}

} // verus!
