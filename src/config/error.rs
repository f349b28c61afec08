//! Errors of configuration evaluation and of reading settings from it.
use vstd::prelude::*;
use crate::parser::{Ident, IdentV};

verus! {

#[derive(Debug)]
pub enum EvaluationError {
    ExpectedValue { key: String, type_: String },
    UnknownFunction { name: Ident },
    ArgumentIssue { function: String, issue: String },
    ArgumentTypeIssue { function: String, argument: String, type_: String },
    EvaluationError { function: String, message: String },
}

pub ghost enum EvaluationErrorV {
    ExpectedValue { key: Seq<char>, type_: Seq<char> },
    UnknownFunction { name: IdentV },
    ArgumentIssue { function: Seq<char>, issue: Seq<char> },
    ArgumentTypeIssue { function: Seq<char>, argument: Seq<char>, type_: Seq<char> },
    EvaluationError { function: Seq<char>, message: Seq<char> },
}

impl View for EvaluationError {
    type V = EvaluationErrorV;

    open spec fn view(&self) -> EvaluationErrorV {
        match self {
            EvaluationError::ExpectedValue { key, type_ } => EvaluationErrorV::ExpectedValue {
                key: key@,
                type_: type_@,
            },
            EvaluationError::UnknownFunction { name } => EvaluationErrorV::UnknownFunction { name: name@ },
            EvaluationError::ArgumentIssue { function, issue } => EvaluationErrorV::ArgumentIssue {
                function: function@,
                issue: issue@,
            },
            EvaluationError::ArgumentTypeIssue { function, argument, type_ } => EvaluationErrorV::ArgumentTypeIssue {
                function: function@,
                argument: argument@,
                type_: type_@,
            },
            EvaluationError::EvaluationError { function, message } => EvaluationErrorV::EvaluationError {
                function: function@,
                message: message@,
            },
        }
    }
}

/// A failure to read a section of settings from a configuration.
#[derive(Debug)]
pub enum FromConfigError {
    MissingSection { section: String },
    ExpectedItem { path: String },
    EvaluationError(EvaluationError),
    IoError(String),
    Custom(String),
}

pub ghost enum FromConfigErrorV {
    MissingSection { section: Seq<char> },
    ExpectedItem { path: Seq<char> },
    EvaluationError(EvaluationErrorV),
    IoError(Seq<char>),
    Custom(Seq<char>),
}

impl View for FromConfigError {
    type V = FromConfigErrorV;

    open spec fn view(&self) -> FromConfigErrorV {
        match self {
            FromConfigError::MissingSection { section } => FromConfigErrorV::MissingSection { section: section@ },
            FromConfigError::ExpectedItem { path } => FromConfigErrorV::ExpectedItem { path: path@ },
            FromConfigError::EvaluationError(e) => FromConfigErrorV::EvaluationError(e@),
            FromConfigError::IoError(m) => FromConfigErrorV::IoError(m@),
            FromConfigError::Custom(m) => FromConfigErrorV::Custom(m@),
        }
    }
}

impl FromConfigError {
    pub fn expected_item(path: &str) -> (r: FromConfigError)
        ensures
            r matches FromConfigError::ExpectedItem { path: p } && p@ == path@,
    {
        FromConfigError::ExpectedItem { path: String::from_str(path) }
    }

    pub fn custom(message: &str) -> (r: FromConfigError)
        ensures
            r matches FromConfigError::Custom(m) && m@ == message@,
    {
        FromConfigError::Custom(String::from_str(message))
    }
}

impl From<EvaluationError> for FromConfigError {
    fn from(e: EvaluationError) -> (r: FromConfigError) {
        FromConfigError::EvaluationError(e)
    }
}

impl vstd::std_specs::convert::FromSpecImpl<EvaluationError> for FromConfigError {
    open spec fn obeys_from_spec() -> bool {
        true
    }

    open spec fn from_spec(e: EvaluationError) -> FromConfigError {
        FromConfigError::EvaluationError(e)
    }
}

} // verus!
