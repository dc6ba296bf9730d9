//! Artifact resolution and installation engine for a layered, versioned game
//! runtime: rule evaluation, version descriptors, content fetching decisions,
//! loader profile resolution, launch command synthesis and process
//! supervision, each stated as a contract over a mathematical model.

pub mod assets;
pub mod choice;
pub mod commands;
pub mod decimal;
pub mod download;
pub mod install;
pub mod instance;
pub mod java;
pub mod json;
pub mod launch;
pub mod launch_plan;
pub mod layout;
pub mod loader;
pub mod loader_download;
pub mod loader_install;
pub mod minecraft;
pub mod modrinth;
pub mod pack_install;
pub mod profile;
pub mod robust_install;
pub mod rules;
pub mod settings;
pub mod string_map;
pub mod supervisor;
pub mod text;
pub mod version;
