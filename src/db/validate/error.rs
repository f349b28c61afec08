//! The errors that validation reports, each with the names it concerns.
use vstd::prelude::*;
use crate::parser::{Ident, IdentV};

verus! {

#[derive(Clone, Debug)]
pub enum ValidationError {
    DuplicateField { model: Ident, field: Ident },
    UnknownFieldType { model: Ident, field: Ident, field_type: Ident },
    DuplicateQueryArgument { query: Ident, argument: Ident },
    UnknownQueryVariable { query: Ident, variable: Ident },
    AmbiguousQueryField { query: Ident, field: Ident },
    QueryUnknownModel { query: Ident, model: Ident, field: Ident },
    QueryUnknownField { query: Ident, model: Ident, field: Ident },
}

pub ghost enum ValidationErrorV {
    DuplicateField { model: IdentV, field: IdentV },
    UnknownFieldType { model: IdentV, field: IdentV, field_type: IdentV },
    DuplicateQueryArgument { query: IdentV, argument: IdentV },
    UnknownQueryVariable { query: IdentV, variable: IdentV },
    AmbiguousQueryField { query: IdentV, field: IdentV },
    QueryUnknownModel { query: IdentV, model: IdentV, field: IdentV },
    QueryUnknownField { query: IdentV, model: IdentV, field: IdentV },
}

impl View for ValidationError {
    type V = ValidationErrorV;

    open spec fn view(&self) -> ValidationErrorV {
        match self {
            ValidationError::DuplicateField { model, field } => ValidationErrorV::DuplicateField {
                model: model@,
                field: field@,
            },
            ValidationError::UnknownFieldType { model, field, field_type } => ValidationErrorV::UnknownFieldType {
                model: model@,
                field: field@,
                field_type: field_type@,
            },
            ValidationError::DuplicateQueryArgument { query, argument } => ValidationErrorV::DuplicateQueryArgument {
                query: query@,
                argument: argument@,
            },
            ValidationError::UnknownQueryVariable { query, variable } => ValidationErrorV::UnknownQueryVariable {
                query: query@,
                variable: variable@,
            },
            ValidationError::AmbiguousQueryField { query, field } => ValidationErrorV::AmbiguousQueryField {
                query: query@,
                field: field@,
            },
            ValidationError::QueryUnknownModel { query, model, field } => ValidationErrorV::QueryUnknownModel {
                query: query@,
                model: model@,
                field: field@,
            },
            ValidationError::QueryUnknownField { query, model, field } => ValidationErrorV::QueryUnknownField {
                query: query@,
                model: model@,
                field: field@,
            },
        }
    }
}

} // verus!
