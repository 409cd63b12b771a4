//! Discovery of JetBrains IDE installations and of the projects they opened
//! recently: the rules by which descriptors, configuration overrides, recent
//! project records and product aliases are interpreted, with their contracts.

pub mod aliases;
pub mod config;
pub mod environment;
pub mod ide;
pub mod index;
pub mod normalize;
pub mod options;
pub mod paths;
pub mod picker;
pub mod recent_project;
pub mod text;
pub mod timestamp;
pub mod traits;
pub mod xml;
