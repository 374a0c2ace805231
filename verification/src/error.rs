//! The failures that an operation reports.

use vstd::prelude::*;

verus! {

/// What failed.
#[derive(Clone, Copy, Debug, PartialEq, Eq, Structural)]
pub enum ErrorKind {
    /// The provider could not be initialised or the namespace not reached.
    Connection,
    /// The provider rejected or failed the query.
    Query,
    /// The result could not be written as JSON text.
    Serialization,
}

/// The step of an operation at which something outside failed.
#[derive(Clone, Copy, Debug, PartialEq, Eq, Structural)]
pub enum Step {
    Initialize,
    Connect,
    Query,
    Serialize,
}

/// The language of an operation's messages.
#[derive(Clone, Copy, Debug, PartialEq, Eq, Structural)]
pub enum Language {
    Chinese,
    English,
}

/// A failure: its kind, and a message that ends with the text that the
/// failing side gave.
#[derive(Clone, Debug, PartialEq, Eq)]
pub struct WmiError {
    pub kind: ErrorKind,
    pub message: String,
}

/// The mathematical value of a [`WmiError`].
pub ghost struct ErrorModel {
    pub kind: ErrorKind,
    pub message: Seq<char>,
}

impl View for WmiError {
    type V = ErrorModel;

    open spec fn view(&self) -> ErrorModel {
        ErrorModel { kind: self.kind, message: self.message@ }
    }
}

impl Step {
    /// The kind of failure that a failing step gives: setting up and
    /// connecting are both failures of the connection.
    pub open spec fn kind(self) -> ErrorKind {
        match self {
            Step::Initialize => ErrorKind::Connection,
            Step::Connect => ErrorKind::Connection,
            Step::Query => ErrorKind::Query,
            Step::Serialize => ErrorKind::Serialization,
        }
    }

    /// The words that come before the outside text in a message.
    pub open spec fn phrase(self, language: Language) -> Seq<char> {
        match (language, self) {
            (Language::Chinese, Step::Initialize) => "初始化COM失败: "@,
            (Language::Chinese, Step::Connect) => "创建WMI连接失败: "@,
            (Language::Chinese, Step::Query) => "查询失败: "@,
            (Language::Chinese, Step::Serialize) => "JSON序列化失败: "@,
            (Language::English, Step::Initialize) => "Failed to initialize COM: "@,
            (Language::English, Step::Connect) => "Failed to create WMI connection: "@,
            (Language::English, Step::Query) => "Query failed: "@,
            (Language::English, Step::Serialize) => "JSON serialization failed: "@,
        }
    }

    /// The failure of this step with the outside text `upstream`.
    pub open spec fn failure(self, language: Language, upstream: Seq<char>) -> ErrorModel {
        ErrorModel { kind: self.kind(), message: self.phrase(language) + upstream }
    }
}

impl WmiError {
    /// The failure of `step`, with a message in `language` that carries the
    /// outside text `upstream` at its end.
    pub fn at(step: Step, language: Language, upstream: &str) -> (error: WmiError)
        ensures
            error@ == step.failure(language, upstream@),
    {
        let kind = match step {
            Step::Initialize => ErrorKind::Connection,
            Step::Connect => ErrorKind::Connection,
            Step::Query => ErrorKind::Query,
            Step::Serialize => ErrorKind::Serialization,
        };
        let phrase: &str = match (language, step) {
            (Language::Chinese, Step::Initialize) => "初始化COM失败: ",
            (Language::Chinese, Step::Connect) => "创建WMI连接失败: ",
            (Language::Chinese, Step::Query) => "查询失败: ",
            (Language::Chinese, Step::Serialize) => "JSON序列化失败: ",
            (Language::English, Step::Initialize) => "Failed to initialize COM: ",
            (Language::English, Step::Connect) => "Failed to create WMI connection: ",
            (Language::English, Step::Query) => "Query failed: ",
            (Language::English, Step::Serialize) => "JSON serialization failed: ",
        };
        WmiError { kind, message: String::from_str(phrase).concat(upstream) }
    }
}

} // verus!
