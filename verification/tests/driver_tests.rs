use timer_driver::driver::Reply;
use timer_driver::driver::Request;
use timer_driver::driver::Stage;
use timer_driver::time::Moment;
use timer_driver::time::Span;

fn span(secs: u64, nanos: u32) -> Span {
    Span::new(secs, nanos).unwrap()
}

fn at(secs: u64, nanos: u32) -> Moment {
    Moment::new(span(secs, nanos))
}

/// A driver thread as the tests play it: a timer with one deadline, a clock,
/// a flag and a wake token. `turn` carries out one request the way the real
/// thread would and says whether the thread could go on.
struct Played {
    stage: Stage,
    flag: bool,
    token: bool,
    pending: Option<Moment>,
    clock: Moment,
    nap_until: Option<Moment>,
    polls: u32,
    advances: u32,
    queries: u32,
}

fn played(pending: Option<Moment>, clock: Moment) -> Played {
    Played {
        stage: Stage::start(),
        flag: false,
        token: false,
        pending,
        clock,
        nap_until: None,
        polls: 0,
        advances: 0,
        queries: 0,
    }
}

fn turn(p: &mut Played) -> bool {
    let reply: Reply = match p.stage.request() {
        Request::ReadFlag => Reply::Flag(p.flag),
        Request::Poll => {
            p.polls += 1;
            Reply::Done
        }
        Request::Advance => {
            p.advances += 1;
            Reply::Done
        }
        Request::NextEvent => {
            p.queries += 1;
            Reply::NextEvent(p.pending)
        }
        Request::ReadClock => Reply::Clock(p.clock),
        Request::Park => {
            if !p.token {
                return false;
            }
            p.token = false;
            Reply::Done
        }
        Request::ParkTimeout(span) => {
            let until: Moment = match p.nap_until {
                Some(until) => until,
                None => {
                    let total: Span = p.clock.since_origin();
                    let secs: u64 = total.secs() + span.secs();
                    let until: Moment =
                        Moment::new(Span::new(secs, total.subsec_nanos() + span.subsec_nanos()).unwrap());
                    p.nap_until = Some(until);
                    until
                }
            };
            if !p.token && p.clock.is_before(&until) {
                return false;
            }
            p.token = false;
            p.nap_until = None;
            Reply::Done
        }
        Request::Exit => return false,
    };
    p.stage = p.stage.step(reply);
    true
}

fn turns(p: &mut Played) -> u32 {
    let mut n: u32 = 0;
    while turn(p) {
        n += 1;
        assert!(n < 1000);
    }
    n
}

#[test]
fn a_fresh_loop_reads_the_flag_first() {
    assert_eq!(Stage::start(), Stage::Checking);
    assert_eq!(Stage::start().request(), Request::ReadFlag);
    assert!(!Stage::start().is_stopped());
}

#[test]
fn each_stage_has_its_request() {
    assert_eq!(Stage::Checking.request(), Request::ReadFlag);
    assert_eq!(Stage::Polling.request(), Request::Poll);
    assert_eq!(Stage::Advancing.request(), Request::Advance);
    assert_eq!(Stage::Querying.request(), Request::NextEvent);
    assert_eq!(Stage::Timing(at(1, 0)).request(), Request::ReadClock);
    assert_eq!(Stage::Parked.request(), Request::Park);
    assert_eq!(Stage::Napping(span(0, 7)).request(), Request::ParkTimeout(span(0, 7)));
    assert_eq!(Stage::Stopped.request(), Request::Exit);
}

#[test]
fn an_iteration_polls_advances_and_asks_in_that_order() {
    let s: Stage = Stage::start().step(Reply::Flag(false));
    assert_eq!(s, Stage::Polling);
    let s: Stage = s.step(Reply::Done);
    assert_eq!(s, Stage::Advancing);
    let s: Stage = s.step(Reply::Done);
    assert_eq!(s, Stage::Querying);
}

#[test]
fn without_a_deadline_the_loop_parks_without_reading_the_clock() {
    let s: Stage = Stage::Querying.step(Reply::NextEvent(None));
    assert_eq!(s, Stage::Parked);
    assert_eq!(s.request(), Request::Park);
    assert_eq!(s.step(Reply::Done), Stage::Checking);
}

#[test]
fn with_a_deadline_ahead_the_loop_sleeps_for_what_remains() {
    let s: Stage = Stage::Querying.step(Reply::NextEvent(Some(at(5, 50_000_000))));
    assert_eq!(s, Stage::Timing(at(5, 50_000_000)));
    assert_eq!(s.request(), Request::ReadClock);
    let s: Stage = s.step(Reply::Clock(at(5, 0)));
    assert_eq!(s, Stage::Napping(span(0, 50_000_000)));
    assert_eq!(s.request(), Request::ParkTimeout(span(0, 50_000_000)));
    assert_eq!(s.step(Reply::Done), Stage::Checking);
}

#[test]
fn with_a_deadline_reached_the_loop_goes_round_at_once() {
    let s: Stage = Stage::Timing(at(5, 0)).step(Reply::Clock(at(5, 0)));
    assert_eq!(s, Stage::Checking);
    let s: Stage = Stage::Timing(at(5, 0)).step(Reply::Clock(at(9, 1)));
    assert_eq!(s, Stage::Checking);
}

#[test]
fn a_raised_flag_stops_the_loop_before_it_polls() {
    let s: Stage = Stage::Checking.step(Reply::Flag(true));
    assert_eq!(s, Stage::Stopped);
    assert!(s.is_stopped());
    assert_eq!(s.request(), Request::Exit);
}

#[test]
fn a_stopped_loop_stays_stopped() {
    assert_eq!(Stage::Stopped.step(Reply::Flag(false)), Stage::Stopped);
    assert_eq!(Stage::Stopped.step(Reply::Done), Stage::Stopped);
    assert_eq!(Stage::Stopped.step(Reply::NextEvent(None)), Stage::Stopped);
    assert_eq!(Stage::Stopped.step(Reply::Clock(at(1, 0))), Stage::Stopped);
}

#[test]
fn a_reply_that_answers_another_request_is_ignored() {
    assert_eq!(Stage::Checking.step(Reply::Done), Stage::Checking);
    assert_eq!(Stage::Polling.step(Reply::Flag(true)), Stage::Polling);
    assert_eq!(Stage::Advancing.step(Reply::NextEvent(None)), Stage::Advancing);
    assert_eq!(Stage::Querying.step(Reply::Done), Stage::Querying);
    assert_eq!(Stage::Timing(at(2, 0)).step(Reply::Done), Stage::Timing(at(2, 0)));
    assert_eq!(Stage::Parked.step(Reply::Flag(true)), Stage::Parked);
    assert_eq!(Stage::Napping(span(1, 0)).step(Reply::Clock(at(9, 0))), Stage::Napping(span(1, 0)));
}

#[test]
fn an_idle_loop_comes_to_rest_parked() {
    let mut p: Played = played(None, at(0, 0));
    assert_eq!(turns(&mut p), 4);
    assert_eq!(p.stage, Stage::Parked);
    assert_eq!((p.polls, p.advances, p.queries), (1, 1, 1));
    assert_eq!(turns(&mut p), 0);
    assert_eq!((p.polls, p.advances, p.queries), (1, 1, 1));
}

#[test]
fn a_wake_before_the_park_is_not_lost() {
    let mut p: Played = played(None, at(10, 0));
    assert!(turn(&mut p));
    assert!(turn(&mut p));
    assert!(turn(&mut p));
    assert!(turn(&mut p));
    assert_eq!(p.stage, Stage::Parked);
    // Work is registered and the thread woken before it has begun to block.
    p.pending = Some(at(10, 50_000_000));
    p.token = true;
    assert_eq!(turns(&mut p), 6);
    assert_eq!(p.stage, Stage::Napping(span(0, 50_000_000)));
    assert_eq!(p.queries, 2);
}

#[test]
fn a_wake_during_the_iteration_is_not_lost() {
    let mut p: Played = played(None, at(10, 0));
    assert!(turn(&mut p));
    assert!(turn(&mut p));
    assert!(turn(&mut p));
    assert_eq!(p.stage, Stage::Querying);
    assert!(turn(&mut p));
    p.pending = Some(at(11, 0));
    p.token = true;
    assert!(turn(&mut p));
    assert_eq!(p.stage, Stage::Checking);
    assert_eq!(turns(&mut p), 5);
    assert_eq!(p.stage, Stage::Napping(span(1, 0)));
}

#[test]
fn a_woken_sleeper_takes_up_the_earlier_deadline() {
    let mut p: Played = played(Some(at(60, 0)), at(0, 0));
    assert_eq!(turns(&mut p), 5);
    assert_eq!(p.stage, Stage::Napping(span(60, 0)));
    p.pending = Some(at(2, 0));
    p.clock = at(1, 0);
    p.token = true;
    assert_eq!(turns(&mut p), 6);
    assert_eq!(p.stage, Stage::Napping(span(1, 0)));
    assert_eq!(p.advances, 2);
}

#[test]
fn shutdown_stops_a_parked_loop() {
    let mut p: Played = played(None, at(0, 0));
    turns(&mut p);
    assert_eq!(p.stage, Stage::Parked);
    p.flag = true;
    p.token = true;
    assert_eq!(turns(&mut p), 2);
    assert!(p.stage.is_stopped());
    assert_eq!((p.polls, p.advances), (1, 1));
}

#[test]
fn shutdown_stops_a_loop_that_sleeps_towards_a_far_deadline() {
    let mut p: Played = played(Some(at(10, 0)), at(0, 0));
    turns(&mut p);
    assert_eq!(p.stage, Stage::Napping(span(10, 0)));
    p.flag = true;
    p.token = true;
    assert_eq!(turns(&mut p), 2);
    assert!(p.stage.is_stopped());
    assert_eq!(p.clock, at(0, 0));
    assert_eq!((p.polls, p.advances), (1, 1));
}

#[test]
fn shutdown_stops_a_loop_in_the_middle_of_an_iteration() {
    let mut p: Played = played(None, at(0, 0));
    assert!(turn(&mut p));
    assert_eq!(p.stage, Stage::Polling);
    p.flag = true;
    p.token = true;
    assert_eq!(turns(&mut p), 5);
    assert!(p.stage.is_stopped());
}

#[test]
fn shutdown_stops_a_loop_after_six_moves_at_most() {
    let mut p: Played = played(Some(at(10, 0)), at(0, 0));
    assert!(turn(&mut p));
    assert_eq!(p.stage, Stage::Polling);
    p.flag = true;
    p.token = true;
    assert_eq!(turns(&mut p), 6);
    assert!(p.stage.is_stopped());
    assert_eq!(p.clock, at(0, 0));
}

#[test]
fn a_sleeper_left_alone_wakes_at_the_deadline_and_not_before() {
    let mut p: Played = played(Some(at(3, 50_000_000)), at(3, 0));
    assert_eq!(turns(&mut p), 5);
    assert_eq!(p.stage, Stage::Napping(span(0, 50_000_000)));
    assert_eq!(p.advances, 1);
    p.clock = at(3, 49_999_999);
    assert_eq!(turns(&mut p), 0);
    assert_eq!(p.advances, 1);
    p.clock = at(3, 50_000_000);
    assert!(turn(&mut p));
    assert!(turn(&mut p));
    assert!(turn(&mut p));
    assert!(turn(&mut p));
    assert_eq!(p.advances, 2);
}
