//! The launcher's settings.

use vstd::prelude::*;
use vstd::string::StringExecFns;

verus! {

/// Settings that hold for every instance unless the instance overrides them.
/// Memory sizes are in megabytes.
#[derive(Debug, Clone)]
pub struct Settings {
    pub max_memory: u32,
    pub min_memory: u32,
    pub close_on_launch: bool,
    pub keep_logs_open: bool,
    pub global_java_args: String,
    pub global_java_path: Option<String>,
    pub skip_java_check: bool,
}

/// What a `Settings` holds, as plain values.
pub struct SettingsView {
    pub max_memory: u32,
    pub min_memory: u32,
    pub close_on_launch: bool,
    pub keep_logs_open: bool,
    pub global_java_args: Seq<char>,
    pub global_java_path: Option<Seq<char>>,
    pub skip_java_check: bool,
}

impl DeepView for Settings {
    type V = SettingsView;

    open spec fn deep_view(&self) -> SettingsView {
        SettingsView {
            max_memory: self.max_memory,
            min_memory: self.min_memory,
            close_on_launch: self.close_on_launch,
            keep_logs_open: self.keep_logs_open,
            global_java_args: self.global_java_args@,
            global_java_path: self.global_java_path.deep_view(),
            skip_java_check: self.skip_java_check,
        }
    }
}

/// The settings of a fresh installation.
pub open spec fn default_settings() -> SettingsView {
    SettingsView {
        max_memory: 2048,
        min_memory: 512,
        close_on_launch: false,
        keep_logs_open: true,
        global_java_args: "-XX:+UseG1GC -Dsun.stdout.encoding=UTF-8"@,
        global_java_path: None,
        skip_java_check: false,
    }
}

impl Default for Settings {
    fn default() -> (s: Settings)
        ensures
            s.deep_view() == default_settings(),
    {
        Settings {
            max_memory: 2048,
            min_memory: 512,
            close_on_launch: false,
            keep_logs_open: true,
            global_java_args: String::from_str("-XX:+UseG1GC -Dsun.stdout.encoding=UTF-8"),
            global_java_path: None,
            skip_java_check: false,
        }
    }
}

} // verus!
