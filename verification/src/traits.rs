//! The capabilities of a context that delivers events to a platform.

use vstd::prelude::*;
use crate::error::GenericError;
use crate::mouse_button::MouseButton;

verus! {

/// A context whose operations can fail with an error of the platform.
pub trait FallibleContext {
    /// The error of the platform.
    type PlatformError;
}

/// A context that supports mouse events.
pub trait MouseContext: FallibleContext + Sized {
    /// Moves the mouse by an offset from where it is. Positive `dx` moves to
    /// the right, positive `dy` moves down.
    fn mouse_move_rel(&mut self, dx: i32, dy: i32) -> Result<
        (),
        GenericError<Self::PlatformError>,
    >;

    /// Moves the mouse to a position. Zero is the left side and the top of
    /// the screen.
    fn mouse_move_abs(&mut self, x: i32, y: i32) -> Result<(), GenericError<Self::PlatformError>>;

    /// Scrolls by an offset in pixels. Positive `dx` scrolls to the right,
    /// positive `dy` scrolls down.
    fn mouse_scroll(&mut self, dx: i32, dy: i32) -> Result<(), GenericError<Self::PlatformError>>;

    /// Presses and releases a mouse button: the press comes first, and the
    /// release follows only where the press succeeded.
    ///
    /// Where the press fails, its error comes back as it is, `mouse_up` is
    /// not called, and the context is left as the press left it. Where the
    /// press succeeds, the release starts from the context as the press left
    /// it, and the result of the click is the result of the release.
    ///
    /// What a press and a release themselves do is for each context to say,
    /// in `mouse_down_spec` and `mouse_up_spec`; the contract of the click is
    /// stated over those two.
    fn mouse_click(&mut self, button: MouseButton) -> (r: Result<
        (),
        GenericError<Self::PlatformError>,
    >)
        ensures
            exists|pressed: Self, down: Result<(), GenericError<Self::PlatformError>>|
                {
                    &&& #[trigger] old(self).mouse_down_spec(button, pressed, down)
                    &&& match down {
                        Ok(()) => pressed.mouse_up_spec(button, *final(self), r),
                        Err(_) => *final(self) == pressed && r == down,
                    }
                },
    {
        let ghost before = *self;
        let down = self.mouse_down(button);
        let ghost pressed = *self;
        assert(before.mouse_down_spec(button, pressed, down));
        match down {
            Ok(()) => self.mouse_up(button),
            Err(e) => Err(e),
        }
    }

    /// Presses a mouse button.
    fn mouse_down(&mut self, button: MouseButton) -> (r: Result<
        (),
        GenericError<Self::PlatformError>,
    >)
        ensures
            old(self).mouse_down_spec(button, *final(self), r),
    ;

    /// Releases a mouse button.
    fn mouse_up(&mut self, button: MouseButton) -> (r: Result<
        (),
        GenericError<Self::PlatformError>,
    >)
        ensures
            old(self).mouse_up_spec(button, *final(self), r),
    ;

    /// Whether a press of `button` may take this context to `after` and
    /// return `result`. Each context says this of its own `mouse_down`; one
    /// that says nothing allows every outcome.
    open spec fn mouse_down_spec(
        self,
        button: MouseButton,
        after: Self,
        result: Result<(), GenericError<Self::PlatformError>>,
    ) -> bool {
        true
    }

    /// Whether a release of `button` may take this context to `after` and
    /// return `result`. Each context says this of its own `mouse_up`; one
    /// that says nothing allows every outcome.
    open spec fn mouse_up_spec(
        self,
        button: MouseButton,
        after: Self,
        result: Result<(), GenericError<Self::PlatformError>>,
    ) -> bool {
        true
    }
}

/// A context that can tell about the screen.
pub trait ScreenContext: FallibleContext {
    /// The location of the cursor in pixels: horizontal first, from the left
    /// side, then vertical, from the top.
    fn cursor_location(&self) -> Result<(i32, i32), GenericError<Self::PlatformError>>;

    /// The size of the main screen in pixels: width, then height.
    fn screen_size(&self) -> Result<(i32, i32), GenericError<Self::PlatformError>>;
}

/// A context that types characters whatever the keyboard layout is.
pub trait UnicodeKeyboardContext: FallibleContext {
    /// Presses the key for a character, with the modifiers that it needs.
    /// Fails with `UnsupportedUnicode` for a character that no key types.
    fn unicode_char_down(&mut self, ch: char) -> Result<(), GenericError<Self::PlatformError>>;

    /// Releases the key for a character, with the modifiers that it needs.
    /// Fails with `UnsupportedUnicode` for a character that no key types.
    fn unicode_char_up(&mut self, ch: char) -> Result<(), GenericError<Self::PlatformError>>;

    /// Presses and releases the key for a character.
    /// Fails with `UnsupportedUnicode` for a character that no key types.
    fn unicode_char(&mut self, ch: char) -> Result<(), GenericError<Self::PlatformError>>;

    /// Types a string. Where a character of the string is not supported, the
    /// call fails with `UnsupportedUnicode` and no key is pressed.
    fn unicode_string(&mut self, s: &str) -> Result<(), GenericError<Self::PlatformError>>;
}

} // verus!
