use std::time::Duration;
use tokio_os_timer::sys::{
    Action, Async, ConsumeError, Error, Event, Readiness, Release, Step, TimeSpec,
};
use tokio_os_timer::Interval;

const TICK: Readiness = Readiness::Signaled { readable: true };

fn running(interval: Duration) -> Interval {
    let mut t = Interval::new(interval);
    assert_eq!(t.begin::<i32>(), Step::Do(Action::Create));
    assert_eq!(
        t.advance::<i32>(Event::Created(Ok(()))),
        Step::Do(Action::Arm(TimeSpec::Interval(interval)))
    );
    assert_eq!(t.advance::<i32>(Event::Armed(Ok(()))), Step::Do(Action::Register));
    assert_eq!(
        t.advance::<i32>(Event::Registered(Ok(()))),
        Step::Done(Ok(Async::NotReady))
    );
    t
}

fn assert_not_ready(t: &mut Interval) {
    assert_eq!(t.poll::<i32>(), Step::Do(Action::PollReadable));
    assert_eq!(
        t.advance::<i32>(Event::Polled(Ok(Readiness::Pending))),
        Step::Done(Ok(Async::NotReady))
    );
}

fn assert_ready(t: &mut Interval) {
    assert_eq!(t.poll::<i32>(), Step::Do(Action::PollReadable));
    assert_eq!(t.advance::<i32>(Event::Polled(Ok(TICK))), Step::Do(Action::Consume));
    assert_eq!(
        t.advance::<i32>(Event::Consumed(Ok(()))),
        Step::Done(Ok(Async::Ready))
    );
}

#[test]
fn interval_immediate() {
    let mut interval = Interval::new(Duration::new(0, 0));
    assert_eq!(interval.begin::<i32>(), Step::Done(Ok(Async::Ready)));
    assert_eq!(interval.poll::<i32>(), Step::Done(Ok(Async::Ready)));
    assert_eq!(interval.poll::<i32>(), Step::Done(Ok(Async::Ready)));
}

#[test]
fn interval_immediate_holds_nothing() {
    let mut interval = Interval::new(Duration::new(0, 0));
    assert_eq!(
        interval.advance::<i32>(Event::Polled(Ok(TICK))),
        Step::Done(Err(Error::Protocol))
    );
    assert_eq!(interval.close(), Release::Nothing);
    assert_eq!(interval.poll::<i32>(), Step::Done(Ok(Async::Ready)));
}

#[test]
fn interval_delayed() {
    let interval = Duration::from_millis(10);
    let mut t = running(interval);
    assert_not_ready(&mut t);
    // the interval has passed
    assert_ready(&mut t);
    assert_not_ready(&mut t);
    // the interval has passed again
    assert_ready(&mut t);
    assert_not_ready(&mut t);
}

#[test]
fn interval_goes_on_ticking() {
    let mut t = running(Duration::new(0, 1));
    let mut ticks: u32 = 0;
    while ticks < 100 {
        assert_ready(&mut t);
        assert_not_ready(&mut t);
        ticks += 1;
    }
    assert_eq!(t.close(), Release::DeregisterAndClose);
    assert_eq!(t.close(), Release::Nothing);
    assert_eq!(t.poll::<i32>(), Step::Done(Err(Error::Protocol)));
}

#[test]
fn interval_spurious_wakeup_is_no_tick() {
    let mut t = running(Duration::from_millis(10));
    assert_eq!(t.poll::<i32>(), Step::Do(Action::PollReadable));
    assert_eq!(t.advance::<i32>(Event::Polled(Ok(TICK))), Step::Do(Action::Consume));
    assert_eq!(
        t.advance::<i32>(Event::Consumed(Err(ConsumeError::WouldBlock))),
        Step::Do(Action::ClearReadable)
    );
    assert_eq!(
        t.advance::<i32>(Event::Cleared(Ok(Readiness::Pending))),
        Step::Done(Ok(Async::NotReady))
    );
    assert_ready(&mut t);
}

#[test]
fn interval_fatal_error_is_handed_on() {
    let mut t = running(Duration::from_millis(10));
    assert_eq!(t.poll::<i32>(), Step::Do(Action::PollReadable));
    assert_eq!(t.advance::<i32>(Event::Polled(Ok(TICK))), Step::Do(Action::Consume));
    assert_eq!(
        t.advance(Event::Consumed(Err(ConsumeError::Io(9)))),
        Step::Done(Err(Error::Io(9)))
    );
}

#[test]
fn interval_setup_failures() {
    let mut t = Interval::new(Duration::from_millis(10));
    assert_eq!(t.begin::<i32>(), Step::Do(Action::Create));
    assert_eq!(
        t.advance(Event::Created(Err(23))),
        Step::Done(Err(Error::Creation(23)))
    );
    assert_eq!(t.close(), Release::Nothing);

    let mut t = Interval::new(Duration::from_millis(10));
    assert_eq!(t.begin::<i32>(), Step::Do(Action::Create));
    t.advance::<i32>(Event::Created(Ok(())));
    assert_eq!(t.advance(Event::Armed(Err(22))), Step::Done(Err(Error::Arm(22))));
    assert_eq!(t.close(), Release::Close);

    let mut t = Interval::new(Duration::from_millis(10));
    assert_eq!(t.begin::<i32>(), Step::Do(Action::Create));
    t.advance::<i32>(Event::Created(Ok(())));
    t.advance::<i32>(Event::Armed(Ok(())));
    assert_eq!(
        t.advance(Event::Registered(Err(12))),
        Step::Done(Err(Error::Registration(12)))
    );
    assert_eq!(t.close(), Release::Close);
}
