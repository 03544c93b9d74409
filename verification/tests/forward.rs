use ws2812b_cgi::bridge::Update;
use ws2812b_cgi::error::{Error, ErrorKind, ValidationError};
use ws2812b_cgi::forward::{Action, Forwarder, Phase};
use ws2812b_cgi::serial::{Fault, Reply, Request, SerialDevice};

const PATH: &str = "/dev/ws2812b.serial";
const BAUDRATE: u64 = 921600;
const FD: i64 = 7;

/// A controller behind a transport that takes at most `chunk` bytes with each
/// write and echoes every line, but for the line at index `garbled`, which
/// it answers with `garbage`.
struct Controller {
    chunk: usize,
    garbled: Option<usize>,
    garbage: Vec<u8>,
    taken: Vec<u8>,
    echoed: usize,
}

impl Controller {
    fn echoing() -> Self {
        Controller { chunk: 17, garbled: None, garbage: Vec::new(), taken: Vec::new(), echoed: 0 }
    }

    fn garbling(line: usize, garbage: &[u8]) -> Self {
        Controller { garbled: Some(line), garbage: garbage.to_vec(), ..Controller::echoing() }
    }

    fn answer(&mut self, request: &Request) -> Reply {
        match request {
            Request::Open { .. } => Reply::Opened(Ok(FD)),
            Request::Write { data, .. } => {
                let count = data.len().min(self.chunk);
                self.taken.extend_from_slice(&data[..count]);
                Reply::Written(Ok(count))
            }
            Request::Read { capacity, .. } => {
                let line = self.taken[self.echoed * 17..][..*capacity].to_vec();
                let garbled = self.garbled == Some(self.echoed);
                self.echoed += 1;
                Reply::Received(Ok(if garbled { self.garbage.clone() } else { line }))
            }
            Request::Flush { .. } => Reply::Flushed(Ok(())),
            Request::Close { .. } => Reply::Closed(Ok(())),
        }
    }
}

/// Forwards `updates`, answering each request with `answer`. Gives the
/// requests that were made and the outcome.
fn drive(
    updates: Vec<Update>,
    mut answer: impl FnMut(&Request) -> Reply,
) -> (Vec<Request>, Result<(), Error>, usize) {
    let device = SerialDevice::new(PATH, BAUDRATE).unwrap();
    let mut forwarder = Forwarder::new(device, updates);
    assert_eq!(forwarder.phase(), Phase::Idle);
    let mut requests = Vec::new();
    let mut action = forwarder.start();
    loop {
        match action {
            Action::Finish(outcome) => {
                assert_eq!(forwarder.phase(), Phase::Finished);
                return (requests, outcome, forwarder.transacted());
            }
            Action::Perform(request) => {
                let reply = answer(&request);
                assert!(forwarder.expects(&reply));
                requests.push(request);
                action = forwarder.step(reply);
            }
        }
    }
}

fn open() -> Request {
    Request::Open { path: b"/dev/ws2812b.serial\0".to_vec(), baudrate: BAUDRATE }
}

fn write(data: &[u8]) -> Request {
    Request::Write { fd: FD, data: data.to_vec() }
}

fn read() -> Request {
    Request::Read { fd: FD, capacity: 17 }
}

fn close() -> Request {
    Request::Close { fd: FD }
}

fn fault() -> Fault {
    Fault { description: String::from("Device failed"), os_error: String::from("EIO") }
}

fn pixel(strip: usize, pixel: usize, red: u8) -> Update {
    Update { strip, pixel, rgbw: (red, 0, 0, 0) }
}

#[test]
fn echoed_line_completes_the_batch() {
    let mut controller = Controller::echoing();
    let updates = vec![Update { strip: 0, pixel: 0, rgbw: (255, 0, 0, 0) }];
    let (requests, outcome, transacted) = drive(updates, |request| controller.answer(request));
    assert_eq!(outcome, Ok(()));
    assert_eq!(transacted, 1);
    assert_eq!(requests, vec![open(), write(b"00000000ff000000\n"), read(), close()]);
    assert_eq!(controller.taken, b"00000000ff000000\n".to_vec());
}

#[test]
fn different_echo_is_a_transaction_mismatch() {
    let mut controller = Controller::garbling(0, b"00000000fe000000\n");
    let updates = vec![Update { strip: 0, pixel: 0, rgbw: (255, 0, 0, 0) }];
    let (requests, outcome, transacted) = drive(updates, |request| controller.answer(request));
    let error = outcome.unwrap_err();
    assert_eq!(error.kind(), ErrorKind::TransactionMismatch);
    assert_eq!(error.message(), "Transaction failed");
    assert_eq!(error.source(), None);
    assert_eq!(transacted, 0);
    assert_eq!(requests, vec![open(), write(b"00000000ff000000\n"), read(), close()]);
}

#[test]
fn refused_update_fails_before_anything_is_written_or_read() {
    let mut controller = Controller::echoing();
    let updates = vec![Update { strip: 4, pixel: 0, rgbw: (0, 0, 0, 0) }];
    let (requests, outcome, transacted) = drive(updates, |request| controller.answer(request));
    let error = outcome.unwrap_err();
    assert_eq!(error.kind(), ErrorKind::Validation(ValidationError::StripOutOfRange(4)));
    assert_eq!(error.message(), "LED strip index is too large (4)");
    assert_eq!(transacted, 0);
    assert_eq!(requests, vec![open(), close()]);
    assert!(controller.taken.is_empty());
}

#[test]
fn updates_are_sent_in_the_order_of_the_batch() {
    let mut controller = Controller::echoing();
    let updates = vec![pixel(0, 1, 10), pixel(3, 511, 20), pixel(0, 1, 30)];
    let (requests, outcome, transacted) = drive(updates, |request| controller.answer(request));
    assert_eq!(outcome, Ok(()));
    assert_eq!(transacted, 3);
    assert_eq!(
        requests,
        vec![
            open(),
            write(b"000000010a000000\n"),
            read(),
            write(b"000301ff14000000\n"),
            read(),
            write(b"000000011e000000\n"),
            read(),
            close(),
        ]
    );
}

#[test]
fn refusal_in_the_middle_aborts_the_rest_of_the_batch() {
    let mut controller = Controller::echoing();
    let updates = vec![pixel(0, 1, 10), pixel(1, 2, 20), pixel(2, 512, 30), pixel(3, 4, 40)];
    let (requests, outcome, transacted) = drive(updates, |request| controller.answer(request));
    let error = outcome.unwrap_err();
    assert_eq!(error.kind(), ErrorKind::Validation(ValidationError::PixelOutOfRange(512)));
    assert_eq!(transacted, 2);
    assert_eq!(
        requests,
        vec![
            open(),
            write(b"000000010a000000\n"),
            read(),
            write(b"0001000214000000\n"),
            read(),
            close(),
        ]
    );
    assert_eq!(controller.taken, b"000000010a000000\n0001000214000000\n".to_vec());
}

#[test]
fn mismatch_in_the_middle_aborts_the_rest_of_the_batch() {
    let mut controller = Controller::garbling(1, b"0001000215000000\n");
    let updates = vec![pixel(0, 1, 10), pixel(1, 2, 20), pixel(2, 3, 30), pixel(3, 4, 40)];
    let (requests, outcome, transacted) = drive(updates, |request| controller.answer(request));
    let error = outcome.unwrap_err();
    assert_eq!(error.kind(), ErrorKind::TransactionMismatch);
    assert_eq!(transacted, 1);
    assert_eq!(
        requests,
        vec![
            open(),
            write(b"000000010a000000\n"),
            read(),
            write(b"0001000214000000\n"),
            read(),
            close(),
        ]
    );
    assert_eq!(controller.taken, b"000000010a000000\n0001000214000000\n".to_vec());
}

#[test]
fn empty_batch_opens_and_closes_the_device() {
    let mut controller = Controller::echoing();
    let (requests, outcome, transacted) = drive(Vec::new(), |request| controller.answer(request));
    assert_eq!(outcome, Ok(()));
    assert_eq!(transacted, 0);
    assert_eq!(requests, vec![open(), close()]);
}

#[test]
fn partial_writes_go_on_with_the_rest_of_the_line() {
    let mut controller = Controller { chunk: 5, ..Controller::echoing() };
    let updates = vec![pixel(0, 0, 255), pixel(0, 1, 255)];
    let (requests, outcome, transacted) = drive(updates, |request| controller.answer(request));
    assert_eq!(outcome, Ok(()));
    assert_eq!(transacted, 2);
    assert_eq!(
        requests,
        vec![
            open(),
            write(b"00000000ff000000\n"),
            write(b"000ff000000\n"),
            write(b"000000\n"),
            write(b"0\n"),
            read(),
            write(b"00000001ff000000\n"),
            write(b"001ff000000\n"),
            write(b"000000\n"),
            write(b"0\n"),
            read(),
            close(),
        ]
    );
    assert_eq!(controller.taken, b"00000000ff000000\n00000001ff000000\n".to_vec());
}

#[test]
fn write_that_takes_nothing_fails_the_batch() {
    let updates = vec![pixel(0, 0, 1), pixel(0, 1, 1)];
    let (requests, outcome, transacted) = drive(updates, |request| match request {
        Request::Open { .. } => Reply::Opened(Ok(FD)),
        Request::Write { .. } => Reply::Written(Ok(0)),
        Request::Close { .. } => Reply::Closed(Ok(())),
        _ => unreachable!(),
    });
    let error = outcome.unwrap_err();
    assert_eq!(error.kind(), ErrorKind::Io);
    assert_eq!(error.message(), "failed to write whole buffer");
    assert_eq!(transacted, 0);
    assert_eq!(requests, vec![open(), write(b"0000000001000000\n"), close()]);
}

#[test]
fn write_fault_fails_the_batch_and_closes_the_device() {
    let updates = vec![pixel(0, 0, 1)];
    let (requests, outcome, _) = drive(updates, |request| match request {
        Request::Open { .. } => Reply::Opened(Ok(FD)),
        Request::Write { .. } => Reply::Written(Err(fault())),
        Request::Close { .. } => Reply::Closed(Ok(())),
        _ => unreachable!(),
    });
    let error = outcome.unwrap_err();
    assert_eq!(error.kind(), ErrorKind::Io);
    assert_eq!(error.message(), "Device failed (EIO)");
    assert_eq!(error.source(), Some("Device failed (EIO)"));
    assert_eq!(requests, vec![open(), write(b"0000000001000000\n"), close()]);
}

#[test]
fn short_echo_is_a_failed_read() {
    let mut controller = Controller::garbling(0, b"0000000001000000");
    let (requests, outcome, transacted) =
        drive(vec![pixel(0, 0, 1), pixel(0, 1, 1)], |request| controller.answer(request));
    let error = outcome.unwrap_err();
    assert_eq!(error.kind(), ErrorKind::Io);
    assert_eq!(error.message(), "failed to fill whole buffer");
    assert_eq!(transacted, 0);
    assert_eq!(requests, vec![open(), write(b"0000000001000000\n"), read(), close()]);
}

#[test]
fn empty_echo_is_a_failed_read() {
    let mut controller = Controller::garbling(0, b"");
    let (_, outcome, _) = drive(vec![pixel(0, 0, 1)], |request| controller.answer(request));
    assert_eq!(outcome.unwrap_err().message(), "failed to fill whole buffer");
}

#[test]
fn longer_echo_is_a_transaction_mismatch() {
    let mut controller = Controller::garbling(0, b"0000000001000000\n\n");
    let (_, outcome, transacted) =
        drive(vec![pixel(0, 0, 1)], |request| controller.answer(request));
    assert_eq!(outcome.unwrap_err().kind(), ErrorKind::TransactionMismatch);
    assert_eq!(transacted, 0);
}

#[test]
fn read_fault_fails_the_batch_and_closes_the_device() {
    let updates = vec![pixel(0, 0, 1), pixel(0, 1, 1)];
    let (requests, outcome, _) = drive(updates, |request| match request {
        Request::Open { .. } => Reply::Opened(Ok(FD)),
        Request::Write { data, .. } => Reply::Written(Ok(data.len())),
        Request::Read { .. } => Reply::Received(Err(fault())),
        Request::Close { .. } => Reply::Closed(Ok(())),
        _ => unreachable!(),
    });
    let error = outcome.unwrap_err();
    assert_eq!(error.kind(), ErrorKind::Io);
    assert_eq!(error.message(), "Device failed (EIO)");
    assert_eq!(requests, vec![open(), write(b"0000000001000000\n"), read(), close()]);
}

#[test]
fn device_that_cannot_be_opened_is_not_closed() {
    let updates = vec![pixel(0, 0, 1)];
    let (requests, outcome, transacted) = drive(updates, |request| match request {
        Request::Open { .. } => Reply::Opened(Err(fault())),
        _ => unreachable!(),
    });
    let error = outcome.unwrap_err();
    assert_eq!(error.kind(), ErrorKind::Io);
    assert_eq!(error.message(), "Device failed (EIO)");
    assert_eq!(transacted, 0);
    assert_eq!(requests, vec![open()]);
}

#[test]
fn failed_close_does_not_change_the_outcome() {
    let (requests, outcome, _) = drive(vec![pixel(0, 0, 1)], |request| match request {
        Request::Open { .. } => Reply::Opened(Ok(FD)),
        Request::Write { data, .. } => Reply::Written(Ok(data.len())),
        Request::Read { .. } => Reply::Received(Ok(b"0000000001000000\n".to_vec())),
        Request::Close { .. } => Reply::Closed(Err(fault())),
        _ => unreachable!(),
    });
    assert_eq!(outcome, Ok(()));
    assert_eq!(requests, vec![open(), write(b"0000000001000000\n"), read(), close()]);

    let (_, outcome, _) = drive(vec![pixel(9, 0, 1)], |request| match request {
        Request::Open { .. } => Reply::Opened(Ok(FD)),
        Request::Close { .. } => Reply::Closed(Err(fault())),
        _ => unreachable!(),
    });
    assert_eq!(
        outcome.unwrap_err().kind(),
        ErrorKind::Validation(ValidationError::StripOutOfRange(9))
    );
}

#[test]
fn forwarder_goes_through_its_phases() {
    let device = SerialDevice::new(PATH, BAUDRATE).unwrap();
    let mut forwarder = Forwarder::new(device, vec![pixel(0, 0, 1)]);
    assert_eq!(forwarder.phase(), Phase::Idle);
    assert_eq!(forwarder.start(), Action::Perform(open()));
    assert_eq!(forwarder.phase(), Phase::Opening);
    assert_eq!(forwarder.step(Reply::Opened(Ok(FD))), Action::Perform(write(b"0000000001000000\n")));
    assert_eq!(forwarder.phase(), Phase::Writing);
    assert_eq!(forwarder.step(Reply::Written(Ok(16))), Action::Perform(write(b"\n")));
    assert_eq!(forwarder.phase(), Phase::Writing);
    assert_eq!(forwarder.step(Reply::Written(Ok(1))), Action::Perform(read()));
    assert_eq!(forwarder.phase(), Phase::Reading);
    assert_eq!(forwarder.transacted(), 0);
    let echo = Reply::Received(Ok(b"0000000001000000\n".to_vec()));
    assert_eq!(forwarder.step(echo), Action::Perform(close()));
    assert_eq!(forwarder.phase(), Phase::Closing);
    assert_eq!(forwarder.transacted(), 1);
    assert_eq!(forwarder.step(Reply::Closed(Ok(()))), Action::Finish(Ok(())));
    assert_eq!(forwarder.phase(), Phase::Finished);
}

#[test]
fn only_the_answer_to_the_pending_request_is_expected() {
    let device = SerialDevice::new(PATH, BAUDRATE).unwrap();
    let mut forwarder = Forwarder::new(device, vec![pixel(0, 0, 1)]);
    assert!(!forwarder.expects(&Reply::Opened(Ok(FD))));
    forwarder.start();
    assert!(forwarder.expects(&Reply::Opened(Ok(FD))));
    assert!(forwarder.expects(&Reply::Opened(Err(fault()))));
    assert!(!forwarder.expects(&Reply::Written(Ok(1))));
    assert!(!forwarder.expects(&Reply::Closed(Ok(()))));
    forwarder.step(Reply::Opened(Ok(FD)));
    assert!(forwarder.expects(&Reply::Written(Ok(17))));
    assert!(forwarder.expects(&Reply::Written(Ok(0))));
    assert!(forwarder.expects(&Reply::Written(Err(fault()))));
    assert!(!forwarder.expects(&Reply::Written(Ok(18))));
    assert!(!forwarder.expects(&Reply::Flushed(Ok(()))));
    assert!(!forwarder.expects(&Reply::Received(Ok(Vec::new()))));
    forwarder.step(Reply::Written(Ok(10)));
    assert!(forwarder.expects(&Reply::Written(Ok(7))));
    assert!(!forwarder.expects(&Reply::Written(Ok(8))));
    forwarder.step(Reply::Written(Ok(7)));
    assert!(forwarder.expects(&Reply::Received(Ok(vec![0; 40]))));
    assert!(forwarder.expects(&Reply::Received(Err(fault()))));
    assert!(!forwarder.expects(&Reply::Written(Ok(1))));
    forwarder.step(Reply::Received(Err(fault())));
    assert!(forwarder.expects(&Reply::Closed(Ok(()))));
    assert!(forwarder.expects(&Reply::Closed(Err(fault()))));
    assert!(!forwarder.expects(&Reply::Received(Ok(Vec::new()))));
    forwarder.step(Reply::Closed(Ok(())));
    assert!(!forwarder.expects(&Reply::Closed(Ok(()))));
    assert!(!forwarder.expects(&Reply::Flushed(Ok(()))));
}
