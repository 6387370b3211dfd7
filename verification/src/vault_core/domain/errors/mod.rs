use vstd::prelude::*;
use vstd::string::StringExecFns;

verus! {

/// Errors that the core reports to its callers.
#[derive(Debug, Clone, PartialEq)]
pub enum DomainError {
    UnsupportedFormat(String),
    InvalidStream(String),
    ValidationFailed(String),
    PipelineProcessingFailed(String),
    StorageFailed(String),
}

impl DomainError {
    /// The user-facing text of the error: a prefix naming its kind, then its detail.
    pub open spec fn spec_message(&self) -> Seq<char> {
        match self {
            DomainError::UnsupportedFormat(msg) => "Formato não suportado: "@ + msg@,
            DomainError::InvalidStream(msg) => "Stream inválido: "@ + msg@,
            DomainError::ValidationFailed(msg) => "Falha de validação: "@ + msg@,
            DomainError::PipelineProcessingFailed(msg) => "Erro no pipeline: "@ + msg@,
            DomainError::StorageFailed(msg) => "Falha no vault/armazenamento: "@ + msg@,
        }
    }

    /// Renders the error as text (what `Display` shows for it).
    pub fn message(&self) -> (r: String)
        ensures
            r@ == self.spec_message(),
    {
        let (prefix, msg) = match self {
            DomainError::UnsupportedFormat(msg) => ("Formato não suportado: ", msg),
            DomainError::InvalidStream(msg) => ("Stream inválido: ", msg),
            DomainError::ValidationFailed(msg) => ("Falha de validação: ", msg),
            DomainError::PipelineProcessingFailed(msg) => ("Erro no pipeline: ", msg),
            DomainError::StorageFailed(msg) => ("Falha no vault/armazenamento: ", msg),
        };
        let r = String::from_str(prefix).concat(msg.as_str());
        r
    }
}

} // verus!
