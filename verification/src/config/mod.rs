pub mod repo;

use vstd::prelude::*;

verus! {

/// Why persisting a configuration failed, as the storage layer reports it.
pub struct ConfigError {
    pub message: String,
}

/// A persistable piece of configuration. Reading and writing the actual
/// bytes is the storage layer's business: implementations live beside the
/// code that owns the config directory and the on-disk format, and hand
/// absent-or-corrupt data back as `None` rather than as an error.
pub trait Config: Sized {
    /// Read the stored value, if it is present and readable.
    fn load_config() -> Option<Self>;

    /// Write the value to storage.
    fn save_config(&self) -> Result<(), ConfigError>;

    /// The value to fall back on when nothing is stored.
    fn default_config() -> Self;

    /// The stored value, or the fallback when storage has nothing usable.
    fn load_or_create_config() -> Self {
        let data = Self::load_config();
        if let Some(repo) = data {
            repo
        } else {
            Self::default_config()
        }
    }
}

} // verus!
