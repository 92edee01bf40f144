//! Error kinds shared by every store, swipe and match operation.
//!
//! Every failure is recoverable and leaves the store unchanged; each
//! carries enough information for a human-readable message.

use vstd::prelude::*;

verus! {

/// The input field that a validation failure names.
#[derive(Clone, Copy, Debug, PartialEq, Eq, Structural)]
pub enum ValidationField {
    Name,
    Email,
    Age,
    MinPreferredAge,
    MaxPreferredAge,
    Location,
    PreferredLocation,
    Gender,
    PreferredGender,
    Page,
    Size,
    SwipeTarget,
}

/// Why an operation on the profile store failed.
#[derive(Clone, Copy, Debug, PartialEq, Eq, Structural)]
pub enum ProfileError {
    /// A required input was missing, blank or out of its domain; names the field.
    Validation(ValidationField),
    /// No record with the given id is in the store.
    NotFound,
    /// A record with the given id is already in the store.
    AlreadyExists,
    /// The record exists but has been soft-deleted.
    Inactive,
    /// A pagination start index fell past the last record.
    OutOfRange,
}

impl ProfileError {
    /// A human-readable description of the violated condition.
    pub fn message(&self) -> (m: String)
        ensures
            m@ == self.spec_message(),
    {
        match self {
            ProfileError::Validation(field) => {
                match field {
                    ValidationField::Name => "Name is required".to_string(),
                    ValidationField::Email => "Email is required".to_string(),
                    ValidationField::Age => "Age is required".to_string(),
                    ValidationField::MinPreferredAge => {
                        "Minimum preferred age is required".to_string()
                    },
                    ValidationField::MaxPreferredAge => {
                        "Maximum preferred age is required".to_string()
                    },
                    ValidationField::Location => "Location is required".to_string(),
                    ValidationField::PreferredLocation => {
                        "Preferred location is required".to_string()
                    },
                    ValidationField::Gender => "Gender is required".to_string(),
                    ValidationField::PreferredGender => {
                        "Preferred gender is required".to_string()
                    },
                    ValidationField::Page => "Page number must be greater than 0".to_string(),
                    ValidationField::Size => "Page size must be greater than 0".to_string(),
                    ValidationField::SwipeTarget => {
                        "Swipe target must differ from the actor".to_string()
                    },
                }
            },
            ProfileError::NotFound => "Profile not found".to_string(),
            ProfileError::AlreadyExists => "User profile already exists".to_string(),
            ProfileError::Inactive => "Account is inactive".to_string(),
            ProfileError::OutOfRange => "Page number out of range".to_string(),
        }
    }

    /// The text that `message` returns for each error kind.
    pub open spec fn spec_message(self) -> Seq<char> {
        match self {
            ProfileError::Validation(field) => match field {
                ValidationField::Name => "Name is required"@,
                ValidationField::Email => "Email is required"@,
                ValidationField::Age => "Age is required"@,
                ValidationField::MinPreferredAge => "Minimum preferred age is required"@,
                ValidationField::MaxPreferredAge => "Maximum preferred age is required"@,
                ValidationField::Location => "Location is required"@,
                ValidationField::PreferredLocation => "Preferred location is required"@,
                ValidationField::Gender => "Gender is required"@,
                ValidationField::PreferredGender => "Preferred gender is required"@,
                ValidationField::Page => "Page number must be greater than 0"@,
                ValidationField::Size => "Page size must be greater than 0"@,
                ValidationField::SwipeTarget => "Swipe target must differ from the actor"@,
            },
            ProfileError::NotFound => "Profile not found"@,
            ProfileError::AlreadyExists => "User profile already exists"@,
            ProfileError::Inactive => "Account is inactive"@,
            ProfileError::OutOfRange => "Page number out of range"@,
        }
    }
}

} // verus!
