//! The failures a processor, a message store or a validation can report.

use vstd::prelude::*;

verus! {

/// A failure of the pipeline or of one of its collaborators. Each kind carries
/// a message for a human reader.
#[derive(Debug)]
pub enum DomainError {
    /// A stage rejected the exchange or could not complete its work.
    ProcessorError(String),
    /// The message store could not complete an operation.
    RepositoryError(String),
    /// An input did not pass validation.
    ValidationError(String),
}

/// The mathematical model of a [`DomainError`]: its kind and the characters of
/// its message.
pub enum DomainErrorView {
    ProcessorError(Seq<char>),
    RepositoryError(Seq<char>),
    ValidationError(Seq<char>),
}

impl DomainErrorView {
    /// The message the failure carries.
    pub open spec fn message(self) -> Seq<char> {
        match self {
            DomainErrorView::ProcessorError(m) => m,
            DomainErrorView::RepositoryError(m) => m,
            DomainErrorView::ValidationError(m) => m,
        }
    }

    /// The words that introduce the message when the failure is written out.
    pub open spec fn label(self) -> Seq<char> {
        match self {
            DomainErrorView::ProcessorError(_) => "Processor error: "@,
            DomainErrorView::RepositoryError(_) => "Repository error: "@,
            DomainErrorView::ValidationError(_) => "Validation error: "@,
        }
    }

    /// The failure written out for a reader: the label of its kind, then the
    /// message.
    pub open spec fn text(self) -> Seq<char> {
        self.label() + self.message()
    }
}

impl View for DomainError {
    type V = DomainErrorView;

    open spec fn view(&self) -> DomainErrorView {
        match self {
            DomainError::ProcessorError(m) => DomainErrorView::ProcessorError(m@),
            DomainError::RepositoryError(m) => DomainErrorView::RepositoryError(m@),
            DomainError::ValidationError(m) => DomainErrorView::ValidationError(m@),
        }
    }
}

impl DomainError {
    /// The message the failure carries, without the label of its kind.
    pub fn message(&self) -> (text: &str)
        ensures
            text@ == self@.message(),
    {
        match self {
            DomainError::ProcessorError(m) => m.as_str(),
            DomainError::RepositoryError(m) => m.as_str(),
            DomainError::ValidationError(m) => m.as_str(),
        }
    }

    /// Writes the failure out: `Processor error: `, `Repository error: ` or
    /// `Validation error: `, followed by the message.
    pub fn to_string(&self) -> (text: String)
        ensures
            text@ == self@.text(),
    {
        let label = match self {
            DomainError::ProcessorError(_) => "Processor error: ",
            DomainError::RepositoryError(_) => "Repository error: ",
            DomainError::ValidationError(_) => "Validation error: ",
        };
        let text = label.to_owned().concat(self.message());
        text
    }
}

} // verus!
