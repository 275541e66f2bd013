pub mod asset;
pub mod catalog;
pub mod collab;
pub mod error;
pub mod eval;
pub mod ident;
pub mod json;
pub mod mesh;
pub mod request;
pub mod scene;
pub mod sessions;
pub mod shader;
pub mod text;
pub mod validate;
