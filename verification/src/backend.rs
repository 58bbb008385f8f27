//! The capture backends: what each of them offers to its caller, and the
//! choice of one from the kind of session.

use crate::types::{CaptureType, CapturerError, OutputIdentifier};
use vstd::prelude::*;
use vstd::string::*;

verus! {

/// What a backend that captures sound offers.
pub trait AudioCaptureBackend {
    fn capture(&mut self, identifier: String) -> Result<(), CapturerError>;

    fn capture_all_outputs(&mut self) -> Result<(), CapturerError>;
}

/// What a backend that captures frames offers.
pub trait FrameCaptureBackend {
    fn capture(&mut self, identifier: OutputIdentifier, capture_type: CaptureType) -> Result<
        (),
        CapturerError,
    >;

    fn capture_all_outputs(&mut self, capture_type: CaptureType) -> Result<(), CapturerError>;

    fn stop_capture(&mut self) -> Result<(), CapturerError>;
}

/// The backend for sound. It captures nothing yet, and says so by doing
/// nothing.
#[derive(Debug, Clone, Copy, PartialEq, Eq, Structural)]
pub struct PipewireAudioCapturer;

impl AudioCaptureBackend for PipewireAudioCapturer {
    fn capture(&mut self, identifier: String) -> (r: Result<(), CapturerError>)
        ensures
            r is Ok,
    {
        Ok(())
    }

    fn capture_all_outputs(&mut self) -> (r: Result<(), CapturerError>)
        ensures
            r is Ok,
    {
        Ok(())
    }
}

/// The backends that capture frames.
#[derive(Debug, Clone, Copy, PartialEq, Eq, Structural)]
pub enum BackendKind {
    /// The screen-copy protocol of compositors built on wlroots.
    WaylandRoots,
}

impl BackendKind {
    /// The name under which the backend is listed.
    pub open spec fn spec_name(self) -> Seq<char> {
        match self {
            BackendKind::WaylandRoots => "wayland_roots"@,
        }
    }

    pub fn name(self) -> (name: String)
        ensures
            name@ == self.spec_name(),
    {
        match self {
            BackendKind::WaylandRoots => String::from_str("wayland_roots"),
        }
    }
}

/// Why no backend could be chosen.
#[derive(Debug, Clone, PartialEq, Eq)]
pub enum BackendError {
    /// The kind of session is not known.
    MissingSessionType,
    /// No backend serves this kind of session; `supported` lists the
    /// backends that there are.
    Unsupported { session_type: String, supported: Vec<String> },
}

/// The backend that serves a kind of session, if one does.
pub open spec fn backend_for(session_type: Seq<char>) -> Option<BackendKind> {
    if session_type == "wayland"@ {
        Some(BackendKind::WaylandRoots)
    } else {
        None
    }
}

/// The names of the backends that there are.
pub open spec fn supported_names() -> Seq<Seq<char>> {
    seq![BackendKind::WaylandRoots.spec_name()]
}

/// The names of the backends that there are.
pub fn display_backends() -> (names: Vec<String>)
    ensures
        names@.len() == 1,
        names@[0]@ == BackendKind::WaylandRoots.spec_name(),
{
    let mut names: Vec<String> = Vec::new();
    names.push(BackendKind::WaylandRoots.name());
    names
}

/// The entry point's choice of a backend.
#[derive(Debug, Clone, Copy, PartialEq, Eq, Structural)]
pub struct Manager {
    pub backend: BackendKind,
}

impl Manager {
    /// Chooses the backend for a kind of session. Fails where the kind is
    /// not known, and where no backend serves it; the failure then names
    /// the kind and lists the backends that there are.
    pub fn select(session_type: Option<&str>) -> (r: Result<Manager, BackendError>)
        ensures
            match session_type {
                None => r == Err::<Manager, BackendError>(BackendError::MissingSessionType),
                Some(kind) => match backend_for(kind@) {
                    Some(backend) => r == Ok::<Manager, BackendError>(Manager { backend }),
                    None => r is Err && r->Err_0 is Unsupported
                        && r->Err_0->Unsupported_session_type@ == kind@
                        && r->Err_0->Unsupported_supported@.len() == 1
                        && r->Err_0->Unsupported_supported@[0]@
                        == BackendKind::WaylandRoots.spec_name(),
                },
            },
    {
        let Some(kind) = session_type else {
            return Err(BackendError::MissingSessionType);
        };
        let given = String::from_str(kind);
        let wayland = String::from_str("wayland");
        if given == wayland {
            Ok(Manager { backend: BackendKind::WaylandRoots })
        } else {
            Err(BackendError::Unsupported { session_type: given, supported: display_backends() })
        }
    }
}

} // verus!
