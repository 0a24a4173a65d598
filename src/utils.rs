pub mod camera;
pub mod frame;
pub mod shader;
pub mod texture;

pub use camera::{
    is_quit_event, process_input_event, try_keycode_as_direction, InputEvent, Keycode,
    MovementDirection, MovementRequest,
};
pub use frame::{saturating_nanos, Frame, FrameInstant};
pub use texture::{
    texture_format_for_channels, texture_format_of_color, TextureFormat, UnsupportedChannelCount,
};
pub use shader::uniform_name_with_nul;
