//! Safe building blocks for the System and Graphics modules of SFML: the error
//! type shared by all fallible operations, the value types of the graphics
//! module and the text layout engine.
//!
//! All coordinates are fixed-point numbers (see [`fixed`]), so that every layout
//! result is exact and reproducible.

use vstd::prelude::*;

pub mod fixed;
pub mod graphics;
pub mod system;

verus! {

/// An SFML operation has failed
#[derive(Clone, Copy, Debug, PartialEq, Eq, Structural)]
pub enum SfError {
    /// An string argument passed had interior nul bytes
    NulInStr,
    /// The backend could not decode or allocate a resource
    LoadFailed,
    /// Call to SFML function returned an error
    CallFailed,
}

/// Result of a fallible SFML operation
pub type SfResult<T> = Result<T, SfError>;

impl SfError {
    /// The text that describes the error.
    pub open spec fn description(self) -> Seq<char> {
        match self {
            SfError::NulInStr => "Interior nul byte in string passed to SFML"@,
            SfError::LoadFailed => "SFML could not load or create the resource"@,
            SfError::CallFailed => "Call to SFML function returned an error"@,
        }
    }

    /// The description of the error, as a borrowed string.
    pub fn message(&self) -> (text: &'static str)
        ensures
            text@ == self.description(),
    {
        match self {
            SfError::NulInStr => "Interior nul byte in string passed to SFML",
            SfError::LoadFailed => "SFML could not load or create the resource",
            SfError::CallFailed => "Call to SFML function returned an error",
        }
    }
}

/// Conversion of a backend status into an [`SfResult`].
pub trait IntoSfResult<T> {
    /// What the status converts to.
    spec fn converted(self) -> SfResult<T>;

    /// Converts the status.
    fn into_sf_result(self) -> (result: SfResult<T>)
        ensures
            result == self.converted(),
    ;
}

impl IntoSfResult<()> for bool {
    open spec fn converted(self) -> SfResult<()> {
        if self {
            Ok(())
        } else {
            Err(SfError::CallFailed)
        }
    }

    fn into_sf_result(self) -> (result: SfResult<()>) {
        if self {
            Ok(())
        } else {
            Err(SfError::CallFailed)
        }
    }
}

impl<T> IntoSfResult<T> for Option<T> {
    open spec fn converted(self) -> SfResult<T> {
        match self {
            Some(resource) => Ok(resource),
            None => Err(SfError::LoadFailed),
        }
    }

    fn into_sf_result(self) -> (result: SfResult<T>) {
        match self {
            Some(resource) => Ok(resource),
            None => Err(SfError::LoadFailed),
        }
    }
}

/// Whether a string has a nul character in it.
pub open spec fn has_nul(text: Seq<char>) -> bool {
    exists|i: int| 0 <= i < text.len() && text[i] == '\0'
}

/// Checks a string that is to be handed to SFML: one with a nul character in
/// it is refused, since SFML would take the string to end there.
pub fn check_no_nul(text: &str) -> (result: SfResult<()>)
    ensures
        has_nul(text@) ==> result == Err::<(), SfError>(SfError::NulInStr),
        !has_nul(text@) ==> result == Ok::<(), SfError>(()),
{
    for ch in it: text.chars()
        invariant
            it.seq() == text@,
            forall|i: int| 0 <= i < it.index() ==> text@[i] != '\0',
    {
        if ch == '\0' {
            return Err(SfError::NulInStr);
        }
    }
    Ok(())
}

} // verus!
