use escpos_rw::{
    complete_read, Error, PrinterConnection, ReadRequest, ScriptedTransport, WriteEvent,
    WriteProgress, WriteRequest, WriteRun, WriteState, Writer, OP_DELAY, READ_LENGTH,
};
use std::time::Duration;

fn connection() -> PrinterConnection {
    PrinterConnection { endpoint: 0x01, endpoint_r: 0x82, timeout: Duration::from_secs(2) }
}

fn bulk_out() -> WriteRequest {
    WriteRequest::BulkOut { endpoint: 0x01, timeout: Duration::from_secs(2) }
}

#[test]
fn accepted_write_settles_before_it_succeeds() {
    let printer = ScriptedTransport { write: Ok(()), read: Ok(vec![]) };
    let run = printer.write_raw(connection(), &[0x1B, 0x70, 0x00, 0x7E, 0x7E]);
    assert_eq!(
        run,
        WriteRun {
            result: Ok(()),
            requests: vec![bulk_out(), WriteRequest::Settle { millis: 10 }],
        }
    );
}

#[test]
fn failed_write_does_not_settle() {
    let printer = ScriptedTransport { write: Err(rusb::Error::Timeout), read: Ok(vec![]) };
    let run = printer.write_raw(connection(), &[0x1B, 0x40]);
    assert_eq!(
        run,
        WriteRun { result: Err(Error::UsbError(rusb::Error::Timeout)), requests: vec![bulk_out()] }
    );
}

#[test]
fn writer_steps_through_transfer_and_rest() {
    let writer = Writer::new(connection());
    assert_eq!(writer.state, WriteState::Transferring);
    assert_eq!(writer.request(), bulk_out());
    let settling = match writer.step(WriteEvent::Transferred(Ok(5))) {
        WriteProgress::Continue(next) => next,
        WriteProgress::Finished(result) => panic!("ended without rest: {:?}", result),
    };
    assert_eq!(settling.state, WriteState::Settling);
    assert_eq!(settling.request(), WriteRequest::Settle { millis: OP_DELAY });
    assert_eq!(settling.step(WriteEvent::Settled), WriteProgress::Finished(Ok(())));
}

#[test]
fn short_write_counts_as_written() {
    let writer = Writer::new(connection());
    assert!(matches!(writer.step(WriteEvent::Transferred(Ok(0))), WriteProgress::Continue(_)));
}

#[test]
fn writer_reports_each_failure_as_it_came() {
    let writer = Writer::new(connection());
    assert_eq!(
        writer.step(WriteEvent::Transferred(Err(rusb::Error::NoDevice))),
        WriteProgress::Finished(Err(Error::UsbError(rusb::Error::NoDevice)))
    );
    assert_eq!(
        writer.step(WriteEvent::Transferred(Err(rusb::Error::Pipe))),
        WriteProgress::Finished(Err(Error::UsbError(rusb::Error::Pipe)))
    );
}

#[test]
fn writer_ignores_events_that_it_does_not_await() {
    let writer = Writer::new(connection());
    assert_eq!(writer.step(WriteEvent::Settled), WriteProgress::Continue(writer));
    let settling = Writer { connection: connection(), state: WriteState::Settling };
    assert_eq!(
        settling.step(WriteEvent::Transferred(Err(rusb::Error::Io))),
        WriteProgress::Continue(settling)
    );
}

#[test]
fn settle_delay_is_ten_milliseconds() {
    assert_eq!(OP_DELAY, 10);
}

#[test]
fn read_asks_for_twenty_bytes_from_the_read_endpoint() {
    assert_eq!(READ_LENGTH, 20);
    assert_eq!(
        connection().read_request(),
        ReadRequest { endpoint: 0x82, length: 20, timeout: Duration::from_secs(2) }
    );
}

#[test]
fn short_read_is_filled_up_with_zeros() {
    let received = [0x14u8, 0x00, 0x00, 0x0F];
    let mut expected = [0u8; 20];
    expected[0] = 0x14;
    expected[3] = 0x0F;
    assert_eq!(complete_read(Ok(&received)), Ok(expected));
}

#[test]
fn empty_read_is_all_zeros() {
    assert_eq!(complete_read(Ok(&[])), Ok([0u8; 20]));
}

#[test]
fn full_read_is_kept_whole() {
    let received: Vec<u8> = (1..=20).collect();
    let buffer = complete_read(Ok(&received)).unwrap();
    assert_eq!(buffer.len(), 20);
    assert_eq!(buffer.to_vec(), received);
}

#[test]
fn read_keeps_the_first_twenty_bytes() {
    let received: Vec<u8> = (1..=25).collect();
    let buffer = complete_read(Ok(&received)).unwrap();
    assert_eq!(buffer.to_vec(), received[..20].to_vec());
}

#[test]
fn failed_read_is_reported() {
    assert_eq!(
        complete_read(Err(rusb::Error::Timeout)),
        Err(Error::UsbError(rusb::Error::Timeout))
    );
}

#[test]
fn scripted_read_is_zero_padded() {
    let printer = ScriptedTransport { write: Ok(()), read: Ok(vec![0x12, 0x34]) };
    let mut expected = [0u8; 20];
    expected[0] = 0x12;
    expected[1] = 0x34;
    assert_eq!(printer.read_raw(connection()), Ok(expected));
    let broken = ScriptedTransport { write: Ok(()), read: Err(rusb::Error::Overflow) };
    assert_eq!(broken.read_raw(connection()), Err(Error::UsbError(rusb::Error::Overflow)));
}
