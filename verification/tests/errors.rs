use render_harness::error::{ErrorKind, Severity};

#[test]
fn start_up_failures_are_fatal() {
    assert_eq!(ErrorKind::NoAdapter.severity(), Severity::Fatal);
    assert_eq!(ErrorKind::DeviceRequest.severity(), Severity::Fatal);
    assert_eq!(ErrorKind::ShaderCompilation.severity(), Severity::Fatal);
    assert_eq!(ErrorKind::PlatformIntegration.severity(), Severity::Fatal);
}

#[test]
fn frame_failures_are_fatal_per_frame() {
    assert_eq!(ErrorKind::FrameAcquisitionTimeout.severity(), Severity::FatalPerFrame);
    assert_eq!(ErrorKind::OverlayRender.severity(), Severity::FatalPerFrame);
}

#[test]
fn every_failure_has_its_own_message() {
    assert_eq!(ErrorKind::NoAdapter.message(), "no compatible GPU adapter found");
    assert_eq!(ErrorKind::DeviceRequest.message(), "the GPU adapter did not provide a device");
    assert_eq!(ErrorKind::ShaderCompilation.message(), "shader compilation failed");
    assert_eq!(ErrorKind::PlatformIntegration.message(), "Failed to prepare frame");
    assert_eq!(
        ErrorKind::FrameAcquisitionTimeout.message(),
        "Timeout when acquiring next swap chain texture"
    );
    assert_eq!(ErrorKind::OverlayRender.message(), "rendering failed");
}
