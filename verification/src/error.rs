//! Errors of the library.

use vstd::prelude::*;
use vstd::std_specs::cmp::PartialEqSpec;

verus! {

/// An error deriving filesystem enforcement facts from a permission profile.
#[derive(Debug)]
pub enum FilesystemPermissionsError {
    InvalidDenyGlob(String),
}

/// An error stands for the characters of its message.
impl View for FilesystemPermissionsError {
    type V = Seq<char>;

    open spec fn view(&self) -> Seq<char> {
        match *self {
            FilesystemPermissionsError::InvalidDenyGlob(message) => message@,
        }
    }
}

impl FilesystemPermissionsError {
    /// Returns the text that is shown to the user: the message of the error.
    pub fn message(&self) -> (text: String)
        ensures
            text@ == self@,
            *self matches FilesystemPermissionsError::InvalidDenyGlob(message) ==> text@
                == message@,
    {
        match self {
            FilesystemPermissionsError::InvalidDenyGlob(message) => message.clone(),
        }
    }
}

impl Clone for FilesystemPermissionsError {
    /// Returns an error with the same message.
    fn clone(&self) -> (copy: FilesystemPermissionsError)
        ensures
            copy == *self,
    {
        match self {
            FilesystemPermissionsError::InvalidDenyGlob(message) => {
                FilesystemPermissionsError::InvalidDenyGlob(message.clone())
            },
        }
    }
}

impl PartialEq for FilesystemPermissionsError {
    /// Returns whether the two messages are the same.
    fn eq(&self, other: &FilesystemPermissionsError) -> (same: bool) {
        match (self, other) {
            (
                FilesystemPermissionsError::InvalidDenyGlob(left),
                FilesystemPermissionsError::InvalidDenyGlob(right),
            ) => *left == *right,
        }
    }
}

impl vstd::std_specs::cmp::PartialEqSpecImpl for FilesystemPermissionsError {
    open spec fn obeys_eq_spec() -> bool {
        true
    }

    open spec fn eq_spec(&self, other: &FilesystemPermissionsError) -> bool {
        self@ == other@
    }
}

impl Eq for FilesystemPermissionsError {
}

/// An error for a glob shows the message that it was made with, and compares equal
/// exactly to the errors with the same message.
pub proof fn law_errors_are_told_by_their_messages(left: String, right: String)
    ensures
        FilesystemPermissionsError::InvalidDenyGlob(left)@ == left@,
        FilesystemPermissionsError::obeys_eq_spec(),
        FilesystemPermissionsError::InvalidDenyGlob(left).eq_spec(
            &FilesystemPermissionsError::InvalidDenyGlob(right),
        ) <==> left@ == right@,
{
}

} // verus!
