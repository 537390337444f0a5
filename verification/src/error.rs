//! The failures the harness can meet, and how severe each one is.

use vstd::prelude::*;

verus! {

/// How far a failure reaches.
#[derive(Clone, Copy, Debug, PartialEq, Eq, Structural)]
pub enum Severity {
    /// The process cannot proceed at all.
    Fatal,
    /// The failure belongs to a single frame. The harness still stops on it:
    /// nothing is retried and no frame is skipped.
    FatalPerFrame,
}

/// Every failure the harness distinguishes.
#[derive(Clone, Copy, Debug, PartialEq, Eq, Structural)]
pub enum ErrorKind {
    /// No GPU adapter is compatible with the window's surface.
    NoAdapter,
    /// The adapter did not hand out a device and queue.
    DeviceRequest,
    /// A shader stage did not compile into a usable module.
    ShaderCompilation,
    /// The overlay could not synchronise with the window.
    PlatformIntegration,
    /// No presentable texture became available in time.
    FrameAcquisitionTimeout,
    /// The overlay could not record its draw commands.
    OverlayRender,
}

impl ErrorKind {
    /// The reach of this failure.
    pub open spec fn severity_of(self) -> Severity {
        match self {
            ErrorKind::FrameAcquisitionTimeout | ErrorKind::OverlayRender => Severity::FatalPerFrame,
            _ => Severity::Fatal,
        }
    }

    /// The text that tells this failure from the others.
    pub open spec fn message_of(self) -> Seq<char> {
        match self {
            ErrorKind::NoAdapter => "no compatible GPU adapter found"@,
            ErrorKind::DeviceRequest => "the GPU adapter did not provide a device"@,
            ErrorKind::ShaderCompilation => "shader compilation failed"@,
            ErrorKind::PlatformIntegration => "Failed to prepare frame"@,
            ErrorKind::FrameAcquisitionTimeout => "Timeout when acquiring next swap chain texture"@,
            ErrorKind::OverlayRender => "rendering failed"@,
        }
    }

    /// The reach of this failure.
    pub fn severity(self) -> (s: Severity)
        ensures
            s == self.severity_of(),
    {
        match self {
            ErrorKind::FrameAcquisitionTimeout => Severity::FatalPerFrame,
            ErrorKind::OverlayRender => Severity::FatalPerFrame,
            _ => Severity::Fatal,
        }
    }

    /// A line of text that tells the failures apart.
    pub fn message(self) -> (text: String)
        ensures
            text@ == self.message_of(),
    {
        match self {
            ErrorKind::NoAdapter => "no compatible GPU adapter found".to_string(),
            ErrorKind::DeviceRequest => "the GPU adapter did not provide a device".to_string(),
            ErrorKind::ShaderCompilation => "shader compilation failed".to_string(),
            ErrorKind::PlatformIntegration => "Failed to prepare frame".to_string(),
            ErrorKind::FrameAcquisitionTimeout => "Timeout when acquiring next swap chain texture".to_string(),
            ErrorKind::OverlayRender => "rendering failed".to_string(),
        }
    }
}

} // verus!
