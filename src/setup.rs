use vstd::prelude::*;

verus! {

/// The platform that the application was built for.
#[derive(Clone, Copy, Debug, PartialEq, Eq, Structural)]
pub enum TargetPlatform {
    Windows,
    MacOs,
    Linux,
    Android,
    Ios,
}

/// Whether `p` is a desktop platform.
pub open spec fn is_desktop(p: TargetPlatform) -> bool {
    p is Windows || p is MacOs || p is Linux
}

/// Whether the URL scheme must be registered with the operating system at
/// startup: on Windows desktops only, where the registry routes it.
pub open spec fn registers_scheme(p: TargetPlatform) -> bool {
    is_desktop(p) && p is Windows
}

/// A failure during application setup. Each is fatal: startup aborts.
#[derive(Debug, PartialEq, Eq)]
pub enum SetupError {
    /// The operating system refused to register the URL scheme; holds its message.
    Registration(String),
}

impl SetupError {
    /// The message that startup is aborted with.
    pub fn message(&self) -> (r: String)
        ensures
            match self {
                SetupError::Registration(m) => r@ == m@,
            },
    {
        match self {
            SetupError::Registration(m) => m.clone(),
        }
    }
}

impl TargetPlatform {
    /// Whether setup on this platform registers the URL scheme.
    pub fn needs_scheme_registration(self) -> (r: bool)
        ensures
            r == registers_scheme(self),
    {
        match self {
            TargetPlatform::Windows => true,
            _ => false,
        }
    }
}

/// The outcome of setup, given what the scheme registration returned (an
/// error message where the operating system refused it): setup succeeds
/// exactly when registration did, and otherwise fails with that message.
pub fn setup_result(registration: Result<(), String>) -> (r: Result<(), SetupError>)
    ensures
        r is Ok <==> registration is Ok,
        registration matches Err(m) ==> (r matches Err(SetupError::Registration(e)) && e@ == m@),
{
    match registration {
        Ok(()) => Ok(()),
        Err(m) => Err(SetupError::Registration(m)),
    }
}

} // verus!
