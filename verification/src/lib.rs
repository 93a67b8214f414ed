//! Input-action commands: closed enumerations with dense numeric codes, a
//! compact byte encoding of commands, and the bookkeeping that turns key and
//! button actions into an ordered list of primitive events for a platform sink.

pub mod byte_command;
pub mod command;
pub mod command_code;
pub mod context;
pub mod enumeration;
pub mod error;
pub mod event;
pub mod iokit;
pub mod key;
pub mod key_map;
pub mod keyboard;
pub mod linux_wayland;
pub mod mouse_button;
pub mod traits;
pub mod windows;

pub use byte_command::{parse_byte_command, serialize_byte_command, ParseByteCommandError};
pub use command::Command;
pub use command_code::CommandCode;
pub use context::{Context, Stage};
pub use enumeration::{Enum, EnumIterator};
pub use error::{GenericError, PlatformError};
pub use event::{Delivery, Event};
pub use key::Key;
pub use mouse_button::MouseButton;
pub use traits::{FallibleContext, MouseContext, ScreenContext, UnicodeKeyboardContext};
