//! Binding layer around a dynamically loaded Japanese-to-Korean translation
//! engine: entry-point resolution, the engine's session lifecycle, and the
//! text encoding bridge. The foreign calls themselves are made by the caller,
//! which hands the outcome of each call back to this library.
pub mod session;
pub mod symbols;
pub mod text;

pub use session::{
    read_translation, Event, InitCall, InitError, Phase, Session, TranslateCall, TranslationError,
    DEFAULT_MODE, INIT_SUCCESS,
};
pub use symbols::{resolve, EntryPoint, EntryPointTable, SymbolError};
pub use text::{
    c_string, contains_nul, decode_from_engine, encode_for_engine, to_c_bytes, EncodingError,
    MAX_TEXT_LEN,
};
