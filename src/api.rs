//! Addresses of the index endpoints. Each is the base URL, a path, and the
//! query string, which comes already encoded (empty, or starting with `?`).
pub mod cat_indices;
pub mod indices_exists_type;
pub mod indices_stats;
