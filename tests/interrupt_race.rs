use interruptible::channel::{Receiver, SignalChannel, TryRecvError};
use interruptible::interrupt::InterruptError;
use interruptible::race::{check_for_interrupt, poll_interruptible, resolve, settle, signal_observed};

#[derive(Debug, PartialEq, Eq)]
struct AnotherError {}

#[derive(Debug, PartialEq, Eq)]
enum MyError {
    Interrupted(InterruptError),
    Another(AnotherError),
}

impl From<InterruptError> for MyError {
    fn from(value: InterruptError) -> Self {
        MyError::Interrupted(value)
    }
}

impl From<AnotherError> for MyError {
    fn from(value: AnotherError) -> Self {
        MyError::Another(value)
    }
}

fn unit_channel() -> (SignalChannel<()>, Receiver) {
    SignalChannel::create(1).unwrap()
}

#[test]
fn interrupted() {
    let (_ch, mut rx) = unit_channel();
    let r: Option<Result<u8, MyError>> = poll_interruptible(&_ch, &mut rx, Some(Ok(123)));
    assert_eq!(r, Some(Ok(123)));
    let (ch, mut rx) = unit_channel();
    let r: Option<Result<u8, MyError>> =
        poll_interruptible(&ch, &mut rx, Some(Err(AnotherError {}.into())));
    assert_eq!(r, Some(Err(MyError::Another(AnotherError {}))));
}

#[test]
fn interrupt_markers_are_equal() {
    assert_eq!(InterruptError::new(), InterruptError::new());
    let a: MyError = InterruptError::new().into();
    let b: MyError = InterruptError::new().into();
    assert_eq!(a, b);
}

#[test]
fn interrupt_message() {
    assert_eq!(InterruptError::new().message(), "Async fiber interrupted.");
}

fn loop_checking_for_interrupt(ch: &SignalChannel<()>, rx: &mut Receiver) -> Result<u8, MyError> {
    for _ in 0..1000 {
        check_for_interrupt::<(), MyError>(ch, rx)?;
    }
    Ok(1)
}

#[test]
fn pending_signal_interrupts_checking_loop() {
    let (mut ch, mut rx) = unit_channel();
    let mut inner = rx.clone_subscription(&mut ch);
    assert_eq!(ch.send(()).ok(), Some(2));
    let done = loop_checking_for_interrupt(&ch, &mut inner);
    assert_eq!(done, Err(MyError::Interrupted(InterruptError::new())));
    let r = poll_interruptible(&ch, &mut rx, Some(done));
    assert_eq!(r, Some(Err(MyError::Interrupted(InterruptError::new()))));
}

#[test]
fn pending_signal_beats_immediate_success() {
    let (mut ch, mut rx) = unit_channel();
    assert!(ch.send(()).is_ok());
    let r: Option<Result<u8, MyError>> = poll_interruptible(&ch, &mut rx, Some(Ok(123)));
    assert_eq!(r, Some(Err(MyError::Interrupted(InterruptError::new()))));
}

#[test]
fn no_signal_gives_computation_success() {
    let (ch, mut rx) = unit_channel();
    let r: Option<Result<u8, MyError>> = poll_interruptible(&ch, &mut rx, Some(Ok(123)));
    assert_eq!(r, Some(Ok(123)));
    // Polling again changes nothing: no spurious interrupt.
    let r: Option<Result<u8, MyError>> = poll_interruptible(&ch, &mut rx, Some(Ok(123)));
    assert_eq!(r, Some(Ok(123)));
}

#[test]
fn no_signal_passes_computation_error() {
    let (ch, mut rx) = unit_channel();
    let r: Option<Result<u8, MyError>> =
        poll_interruptible(&ch, &mut rx, Some(Err(AnotherError {}.into())));
    assert_eq!(r, Some(Err(MyError::Another(AnotherError {}))));
}

#[test]
fn race_keeps_running_without_either() {
    let (ch, mut rx) = unit_channel();
    let r: Option<Result<u8, MyError>> = poll_interruptible(&ch, &mut rx, None);
    assert_eq!(r, None);
}

#[test]
fn closed_channel_interrupts() {
    let (mut ch, mut rx) = unit_channel();
    ch.close();
    let mut late = rx.clone_subscription(&mut ch);
    assert_eq!(ch.try_recv(&mut late), Err(TryRecvError::Closed));
    let r: Option<Result<u8, MyError>> = poll_interruptible(&ch, &mut rx, Some(Ok(5)));
    assert_eq!(r, Some(Err(MyError::Interrupted(InterruptError::new()))));
}

#[test]
fn resolve_takes_the_first_side() {
    let a: Result<u8, MyError> = resolve(None);
    assert_eq!(a, Err(MyError::Interrupted(InterruptError::new())));
    let b: Result<u8, MyError> = resolve(Some(Ok(123)));
    assert_eq!(b, Ok(123));
    let c: Result<u8, MyError> = resolve(Some(Err(AnotherError {}.into())));
    assert_eq!(c, Err(MyError::Another(AnotherError {})));
}

#[test]
fn check_point_without_signal_is_ok() {
    let (ch, mut rx) = unit_channel();
    assert_eq!(check_for_interrupt::<(), MyError>(&ch, &mut rx), Ok(()));
}

#[test]
fn settle_decides_each_way() {
    let a: Option<Result<u8, MyError>> = settle(true, Some(Ok(1)));
    assert_eq!(a, Some(Err(MyError::Interrupted(InterruptError::new()))));
    let b: Option<Result<u8, MyError>> = settle(true, None);
    assert_eq!(b, Some(Err(MyError::Interrupted(InterruptError::new()))));
    let c: Option<Result<u8, MyError>> = settle(false, Some(Ok(1)));
    assert_eq!(c, Some(Ok(1)));
    let d: Option<Result<u8, MyError>> = settle(false, None);
    assert_eq!(d, None);
}

#[test]
fn signal_observed_on_each_read() {
    assert!(!signal_observed::<()>(&Err(TryRecvError::Empty)));
    assert!(signal_observed::<()>(&Err(TryRecvError::Closed)));
    assert!(signal_observed::<()>(&Err(TryRecvError::Lagged(3))));
    assert!(signal_observed(&Ok(())));
}
