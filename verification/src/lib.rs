//! A language-server library for Unity C# scripts: it keeps the open
//! documents, finds the Unity assets that reference a script, and builds the
//! code lenses that show those references.
pub mod analyzer;
pub mod asset_detector;
pub mod capabilities;
pub mod codelens;
pub mod document_storage;
pub mod lsp;
pub mod methods;
pub mod notification;
pub mod request;
pub mod paths;
pub mod pattern;
pub mod syntax;
pub mod text;
pub mod yaml;
