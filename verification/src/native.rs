//! Codes of the native interface that belong to no other part of the
//! binding: the log levels of the driver and its packet pipelines.

use vstd::prelude::*;

verus! {

/// The log level of a message of the native driver.
#[derive(Clone, Copy, Debug, PartialEq, Eq, Structural)]
pub enum LogLevel {
    /// No logging.
    Off,
    /// Log errors only.
    Error,
    /// Log warnings and errors.
    Warning,
    /// Log info messages, warnings, and errors.
    Info,
    /// Log debug messages, info messages, warnings, and errors.
    Debug,
}

/// The severity under which a message of the driver is logged.
#[derive(Clone, Copy, Debug, PartialEq, Eq, Structural)]
pub enum Severity {
    Error,
    Warn,
    Info,
    Debug,
}

/// Where a message of the driver goes: the severity to log it under, and
/// whether its level was not that of a message, so that the message is
/// marked as one of unknown level.
#[derive(Clone, Copy, Debug, PartialEq, Eq, Structural)]
pub struct LogRoute {
    pub severity: Severity,
    pub unknown_level: bool,
}

impl LogLevel {
    /// The code by which the native driver names the level.
    pub open spec fn native_code(self) -> u32 {
        match self {
            LogLevel::Off => 0,
            LogLevel::Error => 1,
            LogLevel::Warning => 2,
            LogLevel::Info => 3,
            LogLevel::Debug => 4,
        }
    }

    /// The level that the native driver names by `code`, if there is one.
    pub open spec fn of_native(code: u32) -> Option<LogLevel> {
        if code == 0 {
            Some(LogLevel::Off)
        } else if code == 1 {
            Some(LogLevel::Error)
        } else if code == 2 {
            Some(LogLevel::Warning)
        } else if code == 3 {
            Some(LogLevel::Info)
        } else if code == 4 {
            Some(LogLevel::Debug)
        } else {
            None
        }
    }

    /// Where a message of the level given by `code` goes: errors, warnings,
    /// info and debug messages under their own severity, and a message of
    /// any other level as an error of unknown level.
    pub open spec fn route_of(code: u32) -> LogRoute {
        match Self::of_native(code) {
            Some(LogLevel::Error) => LogRoute { severity: Severity::Error, unknown_level: false },
            Some(LogLevel::Warning) => LogRoute { severity: Severity::Warn, unknown_level: false },
            Some(LogLevel::Info) => LogRoute { severity: Severity::Info, unknown_level: false },
            Some(LogLevel::Debug) => LogRoute { severity: Severity::Debug, unknown_level: false },
            _ => LogRoute { severity: Severity::Error, unknown_level: true },
        }
    }

    /// Returns the code by which the native driver names the level.
    pub fn to_native(&self) -> (code: u32)
        ensures
            code == self.native_code(),
    {
        match self {
            LogLevel::Off => 0,
            LogLevel::Error => 1,
            LogLevel::Warning => 2,
            LogLevel::Info => 3,
            LogLevel::Debug => 4,
        }
    }

    /// Decodes a level from its native code.
    pub fn from_native(code: u32) -> (level: Option<LogLevel>)
        ensures
            level == Self::of_native(code),
    {
        if code == 0 {
            Some(LogLevel::Off)
        } else if code == 1 {
            Some(LogLevel::Error)
        } else if code == 2 {
            Some(LogLevel::Warning)
        } else if code == 3 {
            Some(LogLevel::Info)
        } else if code == 4 {
            Some(LogLevel::Debug)
        } else {
            None
        }
    }

    /// Decides where a message of the driver goes, by the code of its
    /// level.
    pub fn route(code: u32) -> (route: LogRoute)
        ensures
            route == Self::route_of(code),
    {
        match Self::from_native(code) {
            Some(LogLevel::Error) => LogRoute { severity: Severity::Error, unknown_level: false },
            Some(LogLevel::Warning) => LogRoute { severity: Severity::Warn, unknown_level: false },
            Some(LogLevel::Info) => LogRoute { severity: Severity::Info, unknown_level: false },
            Some(LogLevel::Debug) => LogRoute { severity: Severity::Debug, unknown_level: false },
            _ => LogRoute { severity: Severity::Error, unknown_level: true },
        }
    }
}

/// The packet pipeline that decodes the data of a device.
#[derive(Clone, Copy, Debug, PartialEq, Eq, Structural)]
pub enum PacketPipeline {
    /// CPU packet pipeline. This is the default pipeline.
    CPU,
    /// OpenGL packet pipeline.
    OpenGL,
    /// OpenCL packet pipeline.
    OpenCL,
    /// OpenCL packet pipeline with the KDE phase unwrapping algorithm.
    OpenCLKDE,
}

impl PacketPipeline {
    /// The code by which the native driver names the pipeline.
    pub open spec fn native_code(self) -> u32 {
        match self {
            PacketPipeline::CPU => 0,
            PacketPipeline::OpenGL => 1,
            PacketPipeline::OpenCL => 2,
            PacketPipeline::OpenCLKDE => 3,
        }
    }

    /// Returns the code by which the native driver names the pipeline.
    pub fn to_native(&self) -> (code: u32)
        ensures
            code == self.native_code(),
    {
        match self {
            PacketPipeline::CPU => 0,
            PacketPipeline::OpenGL => 1,
            PacketPipeline::OpenCL => 2,
            PacketPipeline::OpenCLKDE => 3,
        }
    }
}

} // verus!
