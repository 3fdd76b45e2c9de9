pub mod capabilities;
pub mod crash_handler;
pub mod discovery;
pub mod display;
pub mod error;
pub mod flags;
pub mod lib_support;
pub mod logging;
pub mod output;
pub mod properties;
pub mod property_kinds;
pub mod property_snapshot;
pub mod property_types;
pub mod rank;
pub mod registry;
pub mod runtime_report;
pub mod runtime_slot;
pub mod text;
pub mod updater;
pub mod version;
