use triframe::error::{severity, RenderError, Severity};

#[test]
fn an_outdated_surface_asks_for_a_retry() {
    assert_eq!(severity(RenderError::SurfaceOutdated), Severity::Retry);
}

#[test]
fn a_failed_mapping_costs_one_frame() {
    assert_eq!(severity(RenderError::ReadMapFailed), Severity::Skip);
    assert_eq!(severity(RenderError::WriteMapFailed), Severity::Skip);
    assert_eq!(severity(RenderError::BadSlotLength), Severity::Skip);
}

#[test]
fn startup_and_memory_failures_are_fatal() {
    assert_eq!(severity(RenderError::NoAdapter), Severity::Fatal);
    assert_eq!(severity(RenderError::NoDevice), Severity::Fatal);
    assert_eq!(severity(RenderError::NoPreferredFormat), Severity::Fatal);
    assert_eq!(severity(RenderError::OutOfMemory), Severity::Fatal);
}
