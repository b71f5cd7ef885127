use std::time::Duration;
use tokio_os_timer::sys::{
    Action, Async, ConsumeError, Error, Event, Readiness, Release, Step, TimeSpec,
};
use tokio_os_timer::Delay;

const READABLE: Readiness = Readiness::Signaled { readable: true };

fn armed(delay: Duration) -> Delay {
    let mut t = Delay::new(delay);
    assert_eq!(t.begin::<i32>(), Step::Do(Action::Create));
    assert_eq!(
        t.advance::<i32>(Event::Created(Ok(()))),
        Step::Do(Action::Arm(TimeSpec::Timeout(delay)))
    );
    assert_eq!(t.advance::<i32>(Event::Armed(Ok(()))), Step::Do(Action::Register));
    assert_eq!(
        t.advance::<i32>(Event::Registered(Ok(()))),
        Step::Done(Ok(Async::NotReady))
    );
    t
}

#[test]
fn delay_immediate() {
    let mut delay = Delay::new(Duration::new(0, 0));
    assert_eq!(delay.begin::<i32>(), Step::Done(Ok(Async::Ready)));
    assert_eq!(delay.poll::<i32>(), Step::Done(Ok(Async::Ready)));
}

#[test]
fn delay_immediate_stays_ready_and_holds_nothing() {
    let mut delay = Delay::new(Duration::from_millis(0));
    assert_eq!(delay.poll::<i32>(), Step::Done(Ok(Async::Ready)));
    assert_eq!(delay.poll::<i32>(), Step::Done(Ok(Async::Ready)));
    assert_eq!(
        delay.advance::<i32>(Event::Created(Ok(()))),
        Step::Done(Err(Error::Protocol))
    );
    assert_eq!(delay.close(), Release::Nothing);
    assert_eq!(delay.poll::<i32>(), Step::Done(Ok(Async::Ready)));
}

#[test]
fn delay_delayed() {
    let delay = Duration::from_millis(500);
    let mut t = armed(delay);
    // right after creation the timer has not fired
    assert_eq!(t.poll::<i32>(), Step::Do(Action::PollReadable));
    assert_eq!(
        t.advance::<i32>(Event::Polled(Ok(Readiness::Pending))),
        Step::Done(Ok(Async::NotReady))
    );
    // nor has it when half the delay has passed
    assert_eq!(t.poll::<i32>(), Step::Do(Action::PollReadable));
    assert_eq!(
        t.advance::<i32>(Event::Polled(Ok(Readiness::Pending))),
        Step::Done(Ok(Async::NotReady))
    );
    // once the delay has passed the descriptor is readable and holds the expiration
    assert_eq!(t.poll::<i32>(), Step::Do(Action::PollReadable));
    assert_eq!(t.advance::<i32>(Event::Polled(Ok(READABLE))), Step::Do(Action::Consume));
    assert_eq!(
        t.advance::<i32>(Event::Consumed(Ok(()))),
        Step::Done(Ok(Async::Ready))
    );
}

#[test]
fn delay_stays_complete_without_touching_the_timer() {
    let mut t = armed(Duration::new(1, 0));
    assert_eq!(t.poll::<i32>(), Step::Do(Action::PollReadable));
    assert_eq!(t.advance::<i32>(Event::Polled(Ok(READABLE))), Step::Do(Action::Consume));
    assert_eq!(
        t.advance::<i32>(Event::Consumed(Ok(()))),
        Step::Done(Ok(Async::Ready))
    );
    assert_eq!(t.poll::<i32>(), Step::Done(Ok(Async::Ready)));
    assert_eq!(t.poll::<i32>(), Step::Done(Ok(Async::Ready)));
    assert_eq!(
        t.advance::<i32>(Event::Consumed(Ok(()))),
        Step::Done(Err(Error::Protocol))
    );
    assert_eq!(t.begin::<i32>(), Step::Done(Err(Error::Protocol)));
    assert_eq!(t.poll::<i32>(), Step::Done(Ok(Async::Ready)));
    assert_eq!(t.close(), Release::DeregisterAndClose);
    assert_eq!(t.close(), Release::Nothing);
    assert_eq!(t.poll::<i32>(), Step::Done(Ok(Async::Ready)));
}

#[test]
fn delay_spurious_wakeup_clears_readiness() {
    let mut t = armed(Duration::from_millis(5));
    assert_eq!(t.poll::<i32>(), Step::Do(Action::PollReadable));
    assert_eq!(t.advance::<i32>(Event::Polled(Ok(READABLE))), Step::Do(Action::Consume));
    assert_eq!(
        t.advance::<i32>(Event::Consumed(Err(ConsumeError::WouldBlock))),
        Step::Do(Action::ClearReadable)
    );
    assert_eq!(
        t.advance::<i32>(Event::Cleared(Ok(Readiness::Pending))),
        Step::Done(Ok(Async::NotReady))
    );
    // the delay is still armed
    assert_eq!(t.poll::<i32>(), Step::Do(Action::PollReadable));
    assert_eq!(t.advance::<i32>(Event::Polled(Ok(READABLE))), Step::Do(Action::Consume));
    assert_eq!(
        t.advance::<i32>(Event::Consumed(Ok(()))),
        Step::Done(Ok(Async::Ready))
    );
}

#[test]
fn delay_event_while_clearing_wakes_the_task() {
    let mut t = armed(Duration::from_millis(5));
    assert_eq!(t.poll::<i32>(), Step::Do(Action::PollReadable));
    assert_eq!(t.advance::<i32>(Event::Polled(Ok(READABLE))), Step::Do(Action::Consume));
    assert_eq!(
        t.advance::<i32>(Event::Consumed(Err(ConsumeError::WouldBlock))),
        Step::Do(Action::ClearReadable)
    );
    assert_eq!(t.advance::<i32>(Event::Cleared(Ok(READABLE))), Step::Do(Action::Wake));
    assert_eq!(t.advance::<i32>(Event::Woken), Step::Done(Ok(Async::NotReady)));
    // the woken task polls again
    assert_eq!(t.poll::<i32>(), Step::Do(Action::PollReadable));

    let mut t = armed(Duration::from_millis(5));
    t.poll::<i32>();
    t.advance::<i32>(Event::Polled(Ok(READABLE)));
    t.advance::<i32>(Event::Consumed(Err(ConsumeError::WouldBlock)));
    assert_eq!(
        t.advance::<i32>(Event::Cleared(Ok(Readiness::Signaled { readable: false }))),
        Step::Do(Action::Wake)
    );
    assert_eq!(t.close(), Release::DeregisterAndClose);
    assert_eq!(t.advance::<i32>(Event::Woken), Step::Done(Err(Error::Protocol)));
}

#[test]
fn delay_signaled_but_not_readable_is_not_ready() {
    let mut t = armed(Duration::from_millis(5));
    assert_eq!(t.poll::<i32>(), Step::Do(Action::PollReadable));
    assert_eq!(
        t.advance::<i32>(Event::Polled(Ok(Readiness::Signaled { readable: false }))),
        Step::Done(Ok(Async::NotReady))
    );
    assert_eq!(t.poll::<i32>(), Step::Do(Action::PollReadable));
}

#[test]
fn delay_creation_failure() {
    let mut t = Delay::new(Duration::from_millis(500));
    assert_eq!(t.begin::<i32>(), Step::Do(Action::Create));
    assert_eq!(
        t.advance(Event::Created(Err(24))),
        Step::Done(Err(Error::Creation(24)))
    );
    // nothing was created, so nothing is closed
    assert_eq!(t.close(), Release::Nothing);
}

#[test]
fn delay_arm_failure_closes_the_timer() {
    let mut t = Delay::new(Duration::from_millis(500));
    assert_eq!(t.begin::<i32>(), Step::Do(Action::Create));
    assert_eq!(
        t.advance::<i32>(Event::Created(Ok(()))),
        Step::Do(Action::Arm(TimeSpec::Timeout(Duration::from_millis(500))))
    );
    assert_eq!(t.advance(Event::Armed(Err(22))), Step::Done(Err(Error::Arm(22))));
    assert_eq!(t.poll::<i32>(), Step::Done(Err(Error::Protocol)));
    assert_eq!(t.close(), Release::Close);
    assert_eq!(t.close(), Release::Nothing);
}

#[test]
fn delay_registration_failure_closes_the_timer() {
    let mut t = Delay::new(Duration::from_millis(500));
    assert_eq!(t.begin::<i32>(), Step::Do(Action::Create));
    t.advance::<i32>(Event::Created(Ok(())));
    assert_eq!(t.advance::<i32>(Event::Armed(Ok(()))), Step::Do(Action::Register));
    assert_eq!(
        t.advance(Event::Registered(Err("no reactor"))),
        Step::Done(Err(Error::Registration("no reactor")))
    );
    assert_eq!(t.close(), Release::Close);
    assert_eq!(t.close(), Release::Nothing);
}

#[test]
fn delay_fatal_errors_are_handed_on() {
    let mut t = armed(Duration::from_millis(5));
    assert_eq!(t.poll::<i32>(), Step::Do(Action::PollReadable));
    assert_eq!(t.advance(Event::Polled(Err(5))), Step::Done(Err(Error::Io(5))));

    assert_eq!(t.poll::<i32>(), Step::Do(Action::PollReadable));
    assert_eq!(t.advance::<i32>(Event::Polled(Ok(READABLE))), Step::Do(Action::Consume));
    assert_eq!(
        t.advance(Event::Consumed(Err(ConsumeError::Io(9)))),
        Step::Done(Err(Error::Io(9)))
    );

    assert_eq!(t.poll::<i32>(), Step::Do(Action::PollReadable));
    assert_eq!(t.advance::<i32>(Event::Polled(Ok(READABLE))), Step::Do(Action::Consume));
    assert_eq!(
        t.advance::<i32>(Event::Consumed(Err(ConsumeError::Protocol))),
        Step::Done(Err(Error::Protocol))
    );

    assert_eq!(t.poll::<i32>(), Step::Do(Action::PollReadable));
    assert_eq!(t.advance::<i32>(Event::Polled(Ok(READABLE))), Step::Do(Action::Consume));
    assert_eq!(
        t.advance::<i32>(Event::Consumed(Err(ConsumeError::WouldBlock))),
        Step::Do(Action::ClearReadable)
    );
    assert_eq!(t.advance(Event::Cleared(Err(4))), Step::Done(Err(Error::Io(4))));
    assert_eq!(t.close(), Release::DeregisterAndClose);
}

#[test]
fn delay_out_of_turn_answer_changes_nothing() {
    let mut t = armed(Duration::from_millis(5));
    assert_eq!(
        t.advance::<i32>(Event::Consumed(Ok(()))),
        Step::Done(Err(Error::Protocol))
    );
    assert_eq!(t.poll::<i32>(), Step::Do(Action::PollReadable));
    assert_eq!(
        t.advance::<i32>(Event::Consumed(Ok(()))),
        Step::Done(Err(Error::Protocol))
    );
    assert_eq!(t.poll::<i32>(), Step::Done(Err(Error::Protocol)));
    assert_eq!(
        t.advance::<i32>(Event::Polled(Ok(Readiness::Pending))),
        Step::Done(Ok(Async::NotReady))
    );
}
