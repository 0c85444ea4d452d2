//! UTF-8 strings of fixed capacity.

pub mod non_nul;
pub mod strings;
pub mod u8string;

pub use self::non_nul::{
    NonNulString1024, NonNulString128, NonNulString16, NonNulString2048, NonNulString24,
    NonNulString256, NonNulString32, NonNulString40, NonNulString48, NonNulString512,
    NonNulString56, NonNulString64, NonNulString8, StaticNonNulString,
};
pub use self::strings::Strings;
pub use self::u8string::{
    StaticU8String, String1024, String128, String16, String2048, String24, String256, String32,
    String40, String48, String512, String56, String64,
};
