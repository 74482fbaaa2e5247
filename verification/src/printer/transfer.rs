use super::connect::PrinterConnection;
use crate::error::Error;
use rusb::Error as UsbFault;
use std::time::Duration;
use vstd::prelude::*;

verus! {

/// Milliseconds that the caller rests after a write that went through, before
/// the next command is sent.
pub const OP_DELAY: u64 = 10;

/// Number of bytes that a read hands back.
pub const READ_LENGTH: usize = 20;

/// What the caller is asked to do next during a write.
#[derive(Clone, Copy, Debug, PartialEq, Eq)]
pub enum WriteRequest {
    /// Send the bytes of the write to this bulk endpoint, within the timeout
    BulkOut { endpoint: u8, timeout: Duration },
    /// Rest for this many milliseconds
    Settle { millis: u64 },
}

/// What a read asks of the caller: to read at most `length` bytes from this
/// bulk endpoint, within the timeout.
#[derive(Clone, Copy, Debug, PartialEq, Eq)]
pub struct ReadRequest {
    /// Address of the bulk endpoint to read from
    pub endpoint: u8,
    /// Number of bytes that the read has room for
    pub length: usize,
    /// Time that the read may take
    pub timeout: Duration,
}

/// What came of a request during a write.
#[derive(Clone, Copy, Debug, PartialEq, Eq)]
pub enum WriteEvent {
    /// The bulk transfer ended: the number of bytes sent, or the failure
    Transferred(Result<usize, UsbFault>),
    /// The rest is over
    Settled,
}

/// How far a write has come: which event is awaited.
#[derive(Clone, Copy, Debug, PartialEq, Eq, Structural)]
pub enum WriteState {
    /// The end of the bulk transfer is awaited
    Transferring,
    /// The end of the rest after the transfer is awaited
    Settling,
}

/// The decisions of one write. The caller performs each request and reports what
/// came of it to [`Writer::step`], until that returns the result of the write.
#[derive(Clone, Copy, Debug, PartialEq, Eq)]
pub struct Writer {
    /// The connection that is written to
    pub connection: PrinterConnection,
    /// The event that is awaited
    pub state: WriteState,
}

/// One step of a write.
#[derive(Debug, PartialEq, Eq)]
pub enum WriteProgress {
    /// The write goes on: the writer's request is to be performed next
    Continue(Writer),
    /// The write has ended
    Finished(Result<(), Error>),
}

impl Writer {
    /// The request whose outcome the writer awaits.
    pub open spec fn request_spec(self) -> WriteRequest {
        match self.state {
            WriteState::Transferring => WriteRequest::BulkOut {
                endpoint: self.connection.endpoint,
                timeout: self.connection.timeout,
            },
            WriteState::Settling => WriteRequest::Settle { millis: OP_DELAY },
        }
    }

    /// The step that the writer takes on an event: a transfer that went through
    /// is followed by the rest, a failed one ends the write at once, and the
    /// write succeeds when the rest is over. An event that is not awaited
    /// changes nothing.
    pub open spec fn step_spec(self, event: WriteEvent) -> WriteProgress {
        match (self.state, event) {
            (WriteState::Transferring, WriteEvent::Transferred(Ok(_))) => WriteProgress::Continue(
                Writer { connection: self.connection, state: WriteState::Settling },
            ),
            (
                WriteState::Transferring,
                WriteEvent::Transferred(Err(fault)),
            ) => WriteProgress::Finished(Err(Error::UsbError(fault))),
            (WriteState::Settling, WriteEvent::Settled) => WriteProgress::Finished(Ok(())),
            _ => WriteProgress::Continue(self),
        }
    }

    /// A write on the connection at its beginning.
    pub open spec fn begun(connection: PrinterConnection) -> Writer {
        Writer { connection, state: WriteState::Transferring }
    }

    /// Begins a write on the connection: the bulk transfer is the first request.
    pub fn new(connection: PrinterConnection) -> (writer: Writer)
        ensures
            writer == Self::begun(connection),
    {
        Writer { connection, state: WriteState::Transferring }
    }

    /// The request that the caller is to perform next.
    pub fn request(&self) -> (request: WriteRequest)
        ensures
            request == self.request_spec(),
    {
        match self.state {
            WriteState::Transferring => WriteRequest::BulkOut {
                endpoint: self.connection.endpoint,
                timeout: self.connection.timeout,
            },
            WriteState::Settling => WriteRequest::Settle { millis: OP_DELAY },
        }
    }

    /// Takes what came of the pending request and decides how the write goes on.
    pub fn step(self, event: WriteEvent) -> (progress: WriteProgress)
        ensures
            progress == self.step_spec(event),
    {
        match self.state {
            WriteState::Transferring => match event {
                WriteEvent::Transferred(Ok(_)) => WriteProgress::Continue(
                    Writer { connection: self.connection, state: WriteState::Settling },
                ),
                WriteEvent::Transferred(Err(fault)) => WriteProgress::Finished(
                    Err(Error::UsbError(fault)),
                ),
                _ => WriteProgress::Continue(self),
            },
            WriteState::Settling => match event {
                WriteEvent::Settled => WriteProgress::Finished(Ok(())),
                _ => WriteProgress::Continue(self),
            },
        }
    }
}

/// The bytes of a read: what the device returned, cut to the length of a read
/// and filled up with zeros.
pub open spec fn zero_padded(received: Seq<u8>) -> Seq<u8> {
    Seq::new(
        READ_LENGTH as nat,
        |i: int|
            if i < received.len() {
                received[i]
            } else {
                0u8
            },
    )
}

impl PrinterConnection {
    /// The request that a read makes of the caller.
    pub fn read_request(&self) -> (request: ReadRequest)
        ensures
            request == (ReadRequest {
                endpoint: self.endpoint_r,
                length: READ_LENGTH,
                timeout: self.timeout,
            }),
    {
        ReadRequest { endpoint: self.endpoint_r, length: READ_LENGTH, timeout: self.timeout }
    }
}

/// Ends a read: the bytes that the device returned stand at the front of a
/// buffer of the length of a read and zeros fill the rest; a failed transfer is
/// reported as it came.
pub fn complete_read(answer: Result<&[u8], UsbFault>) -> (buffer: Result<[u8; 20], Error>)
    ensures
        match answer {
            Err(fault) => buffer == Err::<[u8; 20], Error>(Error::UsbError(fault)),
            Ok(received) => buffer is Ok && buffer->Ok_0@ == zero_padded(received@),
        },
{
    match answer {
        Err(fault) => Err(Error::UsbError(fault)),
        Ok(received) => {
            let mut buffer: [u8; 20] = [0u8;20];
            let mut i: usize = 0;
            while i < READ_LENGTH && i < received.len()
                invariant
                    i <= READ_LENGTH,
                    i <= received.len(),
                    forall|j: int| 0 <= j < i ==> buffer@[j] == received@[j],
                    forall|j: int| i <= j < READ_LENGTH ==> buffer@[j] == 0u8,
                decreases READ_LENGTH - i,
            {
                buffer[i] = received[i];
                i += 1;
            }
            Ok(buffer)
        },
    }
}

/// A write rests after a transfer that went through, for the fixed delay and
/// before it reports success; after a failed transfer it reports the failure at
/// once and asks for no rest.
pub proof fn law_settle_follows_success_only(
    connection: PrinterConnection,
    transfer: Result<usize, UsbFault>,
)
    ensures
        match Writer::begun(connection).step_spec(WriteEvent::Transferred(transfer)) {
            WriteProgress::Continue(next) => {
                &&& transfer is Ok
                &&& next.request_spec() == WriteRequest::Settle { millis: OP_DELAY }
                &&& next.step_spec(WriteEvent::Settled) == WriteProgress::Finished(Ok(()))
            },
            WriteProgress::Finished(result) => {
                &&& transfer is Err
                &&& result == Err::<(), Error>(Error::UsbError(transfer->Err_0))
            },
        },
{
}

/// A read hands back exactly as many bytes as a read is long: the bytes that
/// the device returned, in their order, and zeros after them.
pub proof fn law_read_is_zero_padded(received: Seq<u8>)
    ensures
        zero_padded(received).len() == READ_LENGTH,
        forall|i: int|
            (0 <= i && i < READ_LENGTH && i < received.len()) ==> zero_padded(received)[i]
                == received[i],
        forall|i: int|
            (received.len() <= i && i < READ_LENGTH) ==> zero_padded(received)[i] == 0u8,
{
}

} // verus!
