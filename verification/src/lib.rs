//! Data structure for managing named parameters.
//!
//! A store keeps values of different types under string names and hands each
//! back only as the type it was stored as.
//!
//! ## Example
//!
//! ```
//! use options::Options;
//!
//! let mut options = Options::new();
//!
//! options
//!     .set("foo", 42)
//!     .set("bar", "To be or not to be?")
//!     .set("baz", "Hello, world!".to_string());
//!
//! assert_eq!(options.get::<i32>("foo"), Some(42));
//! assert_eq!(options.get::<&str>("bar"), Some("To be or not to be?"));
//! assert_eq!(options.get::<String>("baz"), Some("Hello, world!".to_string()));
//! assert_eq!(options.get::<i64>("foo"), None);
//! ```

pub mod kind;
pub mod laws;
pub mod name;
pub mod store;
pub mod value;

pub use crate::kind::Datum;
pub use crate::kind::Kind;
pub use crate::name::Name;
pub use crate::store::iter::Names;
pub use crate::store::iter::Parameters;
pub use crate::store::iter::ParametersMut;
pub use crate::store::Options;
pub use crate::value::Storable;
pub use crate::value::Value;
