use canvas::error::{error_from_surface, Error, SurfaceError};

#[test]
fn lost_surface_is_a_recoverable_context_loss() {
    let e = error_from_surface(SurfaceError::Lost, "surface lost".to_string());
    assert_eq!(e, Error::ContextLost("surface lost".to_string()));
}

#[test]
fn surface_out_of_memory_is_fatal() {
    let e = error_from_surface(SurfaceError::OutOfMemory, "no memory".to_string());
    assert_eq!(e, Error::OutOfMemory("no memory".to_string()));
}

#[test]
fn timeout_and_outdated_are_generic_backend_failures() {
    let e = error_from_surface(SurfaceError::Timeout, "timeout".to_string());
    assert_eq!(e, Error::GraphicsAPI("timeout".to_string()));
    let e = error_from_surface(SurfaceError::Outdated, "outdated".to_string());
    assert_eq!(e, Error::GraphicsAPI("outdated".to_string()));
}

#[test]
fn errors_carry_their_message() {
    let e = Error::Internal("setup failed".to_string());
    assert_eq!(e.message(), "setup failed");
    let e = Error::IO("file missing".to_string());
    assert_eq!(e.message(), "file missing");
}
