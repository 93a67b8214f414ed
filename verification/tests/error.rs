use tfc::linux_wayland::{input_event, input_id, timeval, BUS_USB};
use tfc::{
    FallibleContext, GenericError, MouseButton, MouseContext, PlatformError,
};

#[test]
fn platform_error_is_never_zero() {
    assert_eq!(PlatformError::new(0), None);
    assert_eq!(PlatformError::new(5).unwrap().code(), 5);
    assert_eq!(PlatformError::new(u32::MAX).unwrap().code(), u32::MAX);
}

#[test]
fn shown_length_drops_line_break_and_period() {
    assert_eq!(PlatformError::shown_length(0), None);
    assert_eq!(PlatformError::shown_length(1), Some(0));
    assert_eq!(PlatformError::shown_length(2), Some(0));
    assert_eq!(PlatformError::shown_length(3), Some(0));
    assert_eq!(PlatformError::shown_length(20), Some(17));
    assert_eq!(PlatformError::shown_length(u32::MAX), Some(u32::MAX - 3));
}

#[test]
fn input_records_hold_their_fields() {
    let event = input_event {
        time: timeval { tv_sec: 1, tv_usec: 2 },
        type_: 3,
        code: 4,
        value: -5,
    };
    assert_eq!(event.time.tv_sec, 1);
    assert_eq!(event.time.tv_usec, 2);
    assert_eq!((event.type_, event.code, event.value), (3, 4, -5));
    let id = input_id { bustype: BUS_USB, vendor: 1, product: 2, version: 3 };
    assert_eq!(id.bustype, 3);
}

struct Recorder {
    calls: Vec<(bool, MouseButton)>,
    fail_down: bool,
    fail_up: bool,
}

impl FallibleContext for Recorder {
    type PlatformError = u32;
}

impl MouseContext for Recorder {
    fn mouse_move_rel(&mut self, _dx: i32, _dy: i32) -> Result<(), GenericError<u32>> {
        Ok(())
    }

    fn mouse_move_abs(&mut self, _x: i32, _y: i32) -> Result<(), GenericError<u32>> {
        Ok(())
    }

    fn mouse_scroll(&mut self, _dx: i32, _dy: i32) -> Result<(), GenericError<u32>> {
        Ok(())
    }

    fn mouse_down(&mut self, button: MouseButton) -> Result<(), GenericError<u32>> {
        self.calls.push((true, button));
        if self.fail_down {
            Err(GenericError::Platform(7))
        } else {
            Ok(())
        }
    }

    fn mouse_up(&mut self, button: MouseButton) -> Result<(), GenericError<u32>> {
        self.calls.push((false, button));
        if self.fail_up {
            Err(GenericError::Unknown)
        } else {
            Ok(())
        }
    }
}

#[test]
fn trait_mouse_click_is_down_then_up() {
    let mut ctx = Recorder { calls: Vec::new(), fail_down: false, fail_up: false };
    assert_eq!(ctx.mouse_click(MouseButton::Left), Ok(()));
    assert_eq!(ctx.calls, vec![(true, MouseButton::Left), (false, MouseButton::Left)]);
}

#[test]
fn trait_mouse_click_does_not_release_after_a_failed_press() {
    let mut ctx = Recorder { calls: Vec::new(), fail_down: true, fail_up: false };
    assert_eq!(ctx.mouse_click(MouseButton::Right), Err(GenericError::Platform(7)));
    assert_eq!(ctx.calls, vec![(true, MouseButton::Right)]);
}

#[test]
fn trait_mouse_click_returns_the_error_of_the_release() {
    let mut ctx = Recorder { calls: Vec::new(), fail_down: false, fail_up: true };
    assert_eq!(ctx.mouse_click(MouseButton::Middle), Err(GenericError::Unknown));
    assert_eq!(ctx.calls, vec![(true, MouseButton::Middle), (false, MouseButton::Middle)]);
}
