pub mod b64;
pub mod blob;
pub mod json;
pub mod kv;
pub mod laws;
pub mod rdr;

pub use blob::Blob;
pub use blob::BlobBuilder;
pub use blob::CONTENT_ENCODING_DEFAULT;
pub use blob::CONTENT_TYPE_DEFAULT;
pub use blob::MAX_BYTES_DEFAULT;
