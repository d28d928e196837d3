pub mod display;
pub mod keys;
pub mod mapper;
pub mod record;

pub use display::{KeyboardPlayer, KeyboardStep, MousePlayer, MouseStep};
pub use keys::{ButtonCode, Key, Keycode, MouseButton};
pub use mapper::{KeyboardMapper, MouseMapper};
pub use record::{
    KeyboardAction, KeyboardActionSerializable, KeyboardEv, KeyboardEvSerializable,
    KeyboardRecorder, MouseAction, MouseActionSerializable, MouseEv, MouseEvSerializable,
    MouseEventName, MouseRecorder,
};
