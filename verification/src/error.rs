//! What can go wrong: in a model's declaration, and when a range is used.

use vstd::prelude::*;
use vstd::string::StringExecFns;

verus! {

/// A problem found in a model's declaration.
#[derive(Clone, Debug, PartialEq, Eq)]
pub enum ValidationError {
    /// The model has generic parameters.
    GenericNotSupported,
    /// Neither a composite key nor a key field is declared.
    NoKey,
    /// More than one field is flagged as key or auto-increment key.
    MultipleFieldKeys,
    /// A composite key is declared and a field is flagged as key as well.
    CompositeAndFieldKey,
    /// A field carries more than one of the three index flags.
    ConflictingIndex { field: String },
    /// A composite key or index names a field that the model does not have.
    FieldNotFound { name: String },
    /// Two indexes of the model have the same storage name.
    DuplicateIndexName { name: String },
    /// Two indexes of the model have the same accessor.
    DuplicateAccessor { name: String },
}

/// A [`ValidationError`] as a mathematical value.
pub ghost enum ValidationErrorView {
    GenericNotSupported,
    NoKey,
    MultipleFieldKeys,
    CompositeAndFieldKey,
    ConflictingIndex { field: Seq<char> },
    FieldNotFound { name: Seq<char> },
    DuplicateIndexName { name: Seq<char> },
    DuplicateAccessor { name: Seq<char> },
}

impl View for ValidationError {
    type V = ValidationErrorView;

    open spec fn view(&self) -> ValidationErrorView {
        match self {
            ValidationError::GenericNotSupported => ValidationErrorView::GenericNotSupported,
            ValidationError::NoKey => ValidationErrorView::NoKey,
            ValidationError::MultipleFieldKeys => ValidationErrorView::MultipleFieldKeys,
            ValidationError::CompositeAndFieldKey => ValidationErrorView::CompositeAndFieldKey,
            ValidationError::ConflictingIndex { field } => ValidationErrorView::ConflictingIndex {
                field: field@,
            },
            ValidationError::FieldNotFound { name } => ValidationErrorView::FieldNotFound {
                name: name@,
            },
            ValidationError::DuplicateIndexName { name } => ValidationErrorView::DuplicateIndexName {
                name: name@,
            },
            ValidationError::DuplicateAccessor { name } => ValidationErrorView::DuplicateAccessor {
                name: name@,
            },
        }
    }
}

/// The errors of a list, each as a mathematical value.
pub open spec fn errors_view(errors: Seq<ValidationError>) -> Seq<ValidationErrorView> {
    errors.map_values(|e: ValidationError| e@)
}

impl ValidationErrorView {
    /// The sentence that describes the problem.
    pub open spec fn message(self) -> Seq<char> {
        match self {
            ValidationErrorView::GenericNotSupported => "Generic type is not supported by a model"@,
            ValidationErrorView::NoKey => "Model must have either composite key or field key"@,
            ValidationErrorView::MultipleFieldKeys => "Model cannot have more than one field key"@,
            ValidationErrorView::CompositeAndFieldKey => "Model cannot have both composite key and field key"@,
            ValidationErrorView::ConflictingIndex { field } =>
                "Field can only one of index, unique, or multi_entry attribute: "@ + field,
            ValidationErrorView::FieldNotFound { name } => "Field not found in the model: "@ + name,
            ValidationErrorView::DuplicateIndexName { name } =>
                "Index name is used more than once in the model: "@ + name,
            ValidationErrorView::DuplicateAccessor { name } =>
                "Index accessor is used more than once in the model: "@ + name,
        }
    }
}

impl ValidationError {
    /// The sentence that describes the problem.
    pub fn message(&self) -> (out: String)
        ensures
            out@ == self@.message(),
    {
        match self {
            ValidationError::GenericNotSupported => String::from_str(
                "Generic type is not supported by a model",
            ),
            ValidationError::NoKey => String::from_str(
                "Model must have either composite key or field key",
            ),
            ValidationError::MultipleFieldKeys => String::from_str(
                "Model cannot have more than one field key",
            ),
            ValidationError::CompositeAndFieldKey => String::from_str(
                "Model cannot have both composite key and field key",
            ),
            ValidationError::ConflictingIndex { field } => String::from_str(
                "Field can only one of index, unique, or multi_entry attribute: ",
            ).concat(field.as_str()),
            ValidationError::FieldNotFound { name } => String::from_str(
                "Field not found in the model: ",
            ).concat(name.as_str()),
            ValidationError::DuplicateIndexName { name } => String::from_str(
                "Index name is used more than once in the model: ",
            ).concat(name.as_str()),
            ValidationError::DuplicateAccessor { name } => String::from_str(
                "Index accessor is used more than once in the model: ",
            ).concat(name.as_str()),
        }
    }
}

/// An error of the runtime half of the crate.
#[derive(Clone, Copy, Debug, PartialEq, Eq, Structural)]
pub enum Error {
    /// A range that is open at an end, or has no bound at all, was given where
    /// only a single key or a range closed at both ends is accepted.
    FullKeyRangeNotAllowed,
}

impl Error {
    /// The sentence that describes the error.
    pub fn message(&self) -> (out: String)
        ensures
            out@ == "full key range not allowed"@,
    {
        String::from_str("full key range not allowed")
    }
}

} // verus!
