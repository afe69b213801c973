use tilt_mouse::direction::Direction;
use tilt_mouse::led::LedPanel;
use tilt_mouse::motion::scale;
use tilt_mouse::report::HidReport;
use tilt_mouse::usb::{init_globals, send, usb_interrupt, ContextError, SharedUsbContext};

fn in_service() -> SharedUsbContext {
    let mut ctx = SharedUsbContext::new();
    assert_eq!(init_globals(&mut ctx, LedPanel::new()), Ok(()));
    ctx
}

fn lit_lamps(ctx: &SharedUsbContext) -> usize {
    ctx.leds().expect("context in service").lit_count()
}

fn shows(ctx: &SharedUsbContext, direction: Direction) -> bool {
    ctx.leds().expect("context in service").is_lit(direction)
}

#[test]
fn new_context_is_uninitialized() {
    let ctx = SharedUsbContext::new();
    assert!(!ctx.is_active());
    assert!(ctx.leds().is_none());
    assert_eq!(ctx.last_button(), None);
}

#[test]
fn init_puts_the_context_in_service() {
    let mut ctx = SharedUsbContext::new();
    let mut panel = LedPanel::new();
    panel.set(Direction::East, true);
    assert_eq!(init_globals(&mut ctx, panel), Ok(()));
    assert!(ctx.is_active());
    assert_eq!(ctx.last_button(), Some(false));
    assert!(shows(&ctx, Direction::East));
    assert_eq!(lit_lamps(&ctx), 1);
}

#[test]
fn second_init_is_refused_and_changes_nothing() {
    let mut ctx = in_service();
    assert_eq!(send(&mut ctx, true, 12, 0), Ok(Some(HidReport { button: true, dx: 0, dy: -12 })));
    assert_eq!(init_globals(&mut ctx, LedPanel::new()), Err(ContextError::AlreadyInitialized));
    assert!(ctx.is_active());
    assert_eq!(ctx.last_button(), Some(true));
    assert!(shows(&ctx, Direction::North));
    assert_eq!(lit_lamps(&ctx), 1);
}

#[test]
fn send_before_init_is_refused_and_changes_nothing() {
    let mut ctx = SharedUsbContext::new();
    assert_eq!(send(&mut ctx, true, 12, 0), Err(ContextError::Uninitialized));
    assert!(!ctx.is_active());
    assert!(ctx.leds().is_none());
    assert_eq!(ctx.last_button(), None);
    assert_eq!(init_globals(&mut ctx, LedPanel::new()), Ok(()));
    assert_eq!(ctx.last_button(), Some(false));
}

#[test]
fn interrupt_before_init_is_refused() {
    let ctx = SharedUsbContext::new();
    assert_eq!(usb_interrupt(&ctx), Err(ContextError::Uninitialized));
}

#[test]
fn interrupt_in_service_asks_for_a_poll() {
    let ctx = in_service();
    assert_eq!(usb_interrupt(&ctx), Ok(()));
    assert_eq!(usb_interrupt(&ctx), Ok(()));
}

#[test]
fn scenario_rest_with_button_released_sends_nothing() {
    let mut ctx = in_service();
    assert_eq!(ctx.last_button(), Some(false));
    assert_eq!(send(&mut ctx, false, 0, 0), Ok(None));
    assert_eq!(ctx.last_button(), Some(false));
    assert_eq!(lit_lamps(&ctx), 0);
}

#[test]
fn scenario_button_press_at_rest_sends_a_report() {
    let mut ctx = in_service();
    assert_eq!(send(&mut ctx, true, 0, 0), Ok(Some(HidReport { button: true, dx: 0, dy: 0 })));
    assert_eq!(ctx.last_button(), Some(true));
    assert_eq!(lit_lamps(&ctx), 0);
}

#[test]
fn scenario_slight_tilt_is_filtered_out() {
    let mut ctx = in_service();
    let (x, y) = (scale(200), scale(0));
    assert_eq!((x, y), (1, 0));
    assert_eq!(send(&mut ctx, false, x, y), Ok(None));
    assert_eq!(lit_lamps(&ctx), 0);
    for direction in [Direction::North, Direction::South, Direction::East, Direction::West] {
        assert!(!shows(&ctx, direction));
    }
}

#[test]
fn scenario_clear_tilt_moves_the_pointer() {
    let mut ctx = in_service();
    let (x, y) = (scale(1600), scale(0));
    assert_eq!((x, y), (12, 0));
    assert_eq!(send(&mut ctx, false, x, y), Ok(Some(HidReport { button: false, dx: 0, dy: -12 })));
    assert!(shows(&ctx, Direction::North));
    assert_eq!(lit_lamps(&ctx), 1);
}

#[test]
fn send_stores_the_button_whether_or_not_it_reports() {
    let mut ctx = in_service();
    assert_eq!(send(&mut ctx, true, 0, 0), Ok(Some(HidReport { button: true, dx: 0, dy: 0 })));
    assert_eq!(ctx.last_button(), Some(true));
    assert_eq!(send(&mut ctx, true, 0, 0), Ok(None));
    assert_eq!(ctx.last_button(), Some(true));
    assert_eq!(send(&mut ctx, true, 3, 3), Ok(None));
    assert_eq!(ctx.last_button(), Some(true));
    assert_eq!(send(&mut ctx, false, 0, 0), Ok(Some(HidReport { button: false, dx: 0, dy: 0 })));
    assert_eq!(ctx.last_button(), Some(false));
    assert_eq!(send(&mut ctx, false, 0, 0), Ok(None));
}

#[test]
fn send_filters_before_it_decides() {
    let mut ctx = in_service();
    assert_eq!(send(&mut ctx, false, 5, 4), Ok(None));
    assert_eq!(send(&mut ctx, false, -9, 0), Ok(None));
    assert_eq!(send(&mut ctx, true, 5, 4), Ok(Some(HidReport { button: true, dx: 0, dy: 0 })));
    assert_eq!(send(&mut ctx, true, 5, 5), Ok(Some(HidReport { button: true, dx: -5, dy: -5 })));
    assert!(shows(&ctx, Direction::Northwest));
}

#[test]
fn send_shows_each_direction_on_its_lamp() {
    let cases = [
        ((12i16, 0i16), Direction::North),
        ((-12, 0), Direction::South),
        ((0, 12), Direction::West),
        ((0, -12), Direction::East),
        ((8, -8), Direction::Northeast),
        ((-8, -8), Direction::Southeast),
        ((8, 8), Direction::Northwest),
        ((-8, 8), Direction::Southwest),
    ];
    let mut ctx = in_service();
    for ((x, y), direction) in cases {
        assert!(send(&mut ctx, false, x, y).is_ok());
        assert_eq!(lit_lamps(&ctx), 1);
        assert!(shows(&ctx, direction));
    }
    assert_eq!(send(&mut ctx, false, 0, 0), Ok(None));
    assert_eq!(lit_lamps(&ctx), 0);
}

#[test]
fn send_saturates_large_movements() {
    let mut ctx = in_service();
    assert_eq!(
        send(&mut ctx, false, i16::MIN, i16::MAX),
        Ok(Some(HidReport { button: false, dx: -127, dy: 127 }))
    );
    assert!(shows(&ctx, Direction::Southwest));
}

#[test]
fn polls_between_samples_leave_no_trace() {
    let samples = [(false, 12i16, 0i16), (true, 0, 0), (true, 2, 2), (false, -30, 40), (false, 0, 0)];
    let mut quiet = in_service();
    let mut polled = in_service();
    for (pressed, x, y) in samples {
        assert_eq!(usb_interrupt(&polled), Ok(()));
        let expected = send(&mut quiet, pressed, x, y);
        let outcome = send(&mut polled, pressed, x, y);
        assert_eq!(usb_interrupt(&polled), Ok(()));
        assert_eq!(outcome, expected);
        assert_eq!(polled.last_button(), quiet.last_button());
        assert_eq!(lit_lamps(&polled), lit_lamps(&quiet));
    }
}

#[test]
fn service_lasts_through_every_operation() {
    let mut ctx = in_service();
    for step in 0i16..50 {
        assert!(send(&mut ctx, step % 3 == 0, step - 25, 25 - 2 * step).is_ok());
        assert_eq!(usb_interrupt(&ctx), Ok(()));
        assert!(init_globals(&mut ctx, LedPanel::new()).is_err());
        assert!(ctx.is_active());
    }
}
