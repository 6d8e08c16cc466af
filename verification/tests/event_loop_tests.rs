use rustix::fd::IntoRawFd;
use std::sync::atomic::{AtomicUsize, Ordering};
use std::time::{Duration, Instant};

use mio::Interest;
use xfw::event_loop::{EventLoop, Timer};
use xfw::surface::{Anchor, KeyboardInteractivity, Layer, LayerSurfaceConfig};
use xfw::{PlatformEvent, PlatformEventHandler};

fn create_pipe() -> (i32, rustix::fd::OwnedFd) {
    let (read_end, write_end) = rustix::pipe::pipe().unwrap();
    (read_end.into_raw_fd(), write_end)
}

#[test]
fn test_timer_not_ready_immediately_after_creation() {
    let timer = Timer::new(Duration::from_secs(10));
    assert!(
        !timer.is_ready(),
        "Timer should NOT be ready immediately after creation"
    );
}

#[test]
fn test_timer_zero_duration_is_ready() {
    let timer = Timer::new(Duration::ZERO);
    assert!(
        timer.is_ready(),
        "Zero duration timer should be ready immediately"
    );
}

#[test]
fn repeating_timer_not_ready_right_after_reset() {
    let mut timer = Timer::repeating(Duration::from_secs(10));
    timer.reset();
    assert!(!timer.is_ready());
    let mut zero = Timer::repeating(Duration::ZERO);
    zero.reset();
    assert!(zero.is_ready());
}

#[test]
fn test_layer_surface_config_defaults() {
    let config = LayerSurfaceConfig::default();
    assert_eq!(config.anchor, Anchor::Top);
    assert_eq!(config.layer, Layer::Top);
    assert_eq!(config.keyboard_interactivity, KeyboardInteractivity::Disabled);
    assert_eq!(config.namespace, "xfw");
    assert_eq!(config.margin, (0, 0, 0, 0));
    assert_eq!(config.width, 0);
    assert_eq!(config.height, 0);
}

#[test]
fn event_loop_tests_test_layer_surface_config_custom() {
    let config = LayerSurfaceConfig {
        anchor: Anchor::Bottom,
        layer: Layer::Overlay,
        keyboard_interactivity: KeyboardInteractivity::Exclusive,
        margin: (10, 20, 30, 40),
        namespace: "custom".to_string(),
        width: 800,
        height: 100,
    };
    assert_eq!(config.anchor, Anchor::Bottom);
    assert_eq!(config.layer, Layer::Overlay);
    assert_eq!(config.width, 800);
    assert_eq!(config.height, 100);
    assert_eq!(config.margin, (10, 20, 30, 40));
}

#[test]
fn test_event_loop_new() {
    let loop_result = EventLoop::new();
    assert!(loop_result.is_ok());
}

#[test]
fn test_fd_registration() {
    let mut event_loop = EventLoop::new().unwrap();

    let (read_end, write_end) = create_pipe();
    let token = event_loop.register_fd(read_end, Interest::READABLE);
    assert!(token.is_ok());

    let token = token.unwrap();
    let result = event_loop.unregister_fd(token);
    assert!(result.is_ok());

    drop(write_end);
}

struct CountingHandler {
    counter: AtomicUsize,
    answer: bool,
}

impl PlatformEventHandler for CountingHandler {
    fn handle_event(&self, _event: PlatformEvent) -> bool {
        self.counter.fetch_add(1, Ordering::SeqCst);
        self.answer
    }
}

#[test]
fn test_event_handler() {
    let handler = CountingHandler { counter: AtomicUsize::new(0), answer: false };

    let mut event_loop = EventLoop::new().unwrap();

    let (read_end, write_end) = create_pipe();
    let _token = event_loop
        .register_fd(read_end, Interest::READABLE)
        .unwrap();

    drop(write_end);

    let _ = event_loop.poll_events(Some(Duration::from_millis(10)), &handler);

    assert!(handler.counter.load(Ordering::SeqCst) >= 1);
}

#[test]
fn test_platform_event_mapping() {
    let mut event_loop = EventLoop::new().unwrap();

    let (read_end, write_end) = create_pipe();
    let token = event_loop
        .register_fd(read_end, Interest::READABLE)
        .unwrap();

    drop(write_end);

    assert!(token != 0);
}

#[test]
fn tokens_count_up_from_one_and_map_to_events() {
    let mut event_loop = EventLoop::new().unwrap();
    let (fd1, _w1) = create_pipe();
    let (fd2, _w2) = create_pipe();
    let t1 = event_loop.register_fd(fd1, Interest::READABLE).unwrap();
    let t2 = event_loop.register_fd(fd2, Interest::READABLE).unwrap();
    assert_eq!((t1, t2), (1, 2));
    assert_eq!(event_loop.map_event(0, false), PlatformEvent::Wayland);
    assert_eq!(event_loop.map_event(t2, true), PlatformEvent::Ipc(fd2 as usize));
    assert_eq!(event_loop.map_event(t2, false), PlatformEvent::Tick);
    assert_eq!(event_loop.map_event(9, true), PlatformEvent::Tick);
    event_loop.unregister_fd(t1).unwrap();
    assert_eq!(event_loop.map_event(t1, true), PlatformEvent::Tick);
    assert!(event_loop.unregister_fd(t1).is_ok());
}

#[test]
fn refused_descriptor_uses_up_its_token() {
    let mut event_loop = EventLoop::new().unwrap();
    assert!(event_loop.register_fd(-1, Interest::READABLE).is_err());
    let (fd, _w) = create_pipe();
    assert_eq!(event_loop.register_fd(fd, Interest::READABLE).unwrap(), 2);
}

#[test]
fn start_and_stop_toggle_running() {
    let mut event_loop = EventLoop::new().unwrap();
    assert!(!event_loop.is_running());
    event_loop.start();
    assert!(event_loop.is_running());
    event_loop.stop();
    assert!(!event_loop.is_running());
}

#[test]
fn handler_sees_every_event_while_it_continues() {
    let handler = CountingHandler { counter: AtomicUsize::new(0), answer: true };
    let mut event_loop = EventLoop::new().unwrap();
    let (fd1, w1) = create_pipe();
    let (fd2, w2) = create_pipe();
    event_loop.register_fd(fd1, Interest::READABLE).unwrap();
    event_loop.register_fd(fd2, Interest::READABLE).unwrap();
    drop(w1);
    drop(w2);
    event_loop.poll_events(Some(Duration::from_millis(50)), &handler).unwrap();
    assert_eq!(handler.counter.load(Ordering::SeqCst), 2);
}

#[test]
fn test_poll_timeout() {
    struct TimeoutHandler {
        start: Instant,
        call_count: AtomicUsize,
    }

    impl PlatformEventHandler for TimeoutHandler {
        fn handle_event(&self, _event: PlatformEvent) -> bool {
            let count = self.call_count.fetch_add(1, Ordering::SeqCst);
            if count >= 1 {
                return false;
            }
            true
        }
    }

    let handler = TimeoutHandler {
        start: Instant::now(),
        call_count: AtomicUsize::new(0),
    };

    let mut event_loop = EventLoop::new().unwrap();
    let _ = event_loop.poll_events(Some(Duration::from_millis(50)), &handler);

    let elapsed = Instant::now().duration_since(handler.start);
    assert!(elapsed.as_millis() >= 40);
}

#[test]
fn handler_that_declines_stops_the_round_after_one_event() {
    let handler = CountingHandler { counter: AtomicUsize::new(0), answer: false };
    let mut event_loop = EventLoop::new().unwrap();
    let (fd1, w1) = create_pipe();
    let (fd2, w2) = create_pipe();
    event_loop.register_fd(fd1, Interest::READABLE).unwrap();
    event_loop.register_fd(fd2, Interest::READABLE).unwrap();
    drop(w1);
    drop(w2);
    event_loop.poll_events(Some(Duration::from_millis(50)), &handler).unwrap();
    assert_eq!(handler.counter.load(Ordering::SeqCst), 1);
}

#[test]
fn map_events_keeps_order_and_maps_each_notification() {
    let mut event_loop = EventLoop::new().unwrap();
    let (fd, _w) = create_pipe();
    let t = event_loop.register_fd(fd, Interest::READABLE).unwrap();
    let ready = vec![(t, true), (0, false), (t, false), (99, true), (0, true)];
    let events = event_loop.map_events(&ready);
    assert_eq!(
        events,
        vec![
            PlatformEvent::Ipc(fd as usize),
            PlatformEvent::Wayland,
            PlatformEvent::Tick,
            PlatformEvent::Tick,
            PlatformEvent::Wayland,
        ]
    );
    assert!(event_loop.map_events(&Vec::new()).is_empty());
}

#[test]
fn timer_is_ready_exactly_once_its_duration_has_elapsed() {
    let timer = Timer::new(Duration::from_millis(100));
    assert!(!timer.is_ready_after(0));
    assert!(!timer.is_ready_after(99_999_999));
    assert!(timer.is_ready_after(100_000_000));
    assert!(timer.is_ready_after(u128::MAX));
    let zero = Timer::repeating(Duration::ZERO);
    assert!(zero.is_ready_after(0));
}
