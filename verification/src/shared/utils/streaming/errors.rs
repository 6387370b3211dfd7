use vstd::prelude::*;
use vstd::string::StringExecFns;
use crate::shared::utils::text::{decimal, decimal_string};

verus! {

/// Errors raised while a byte stream runs through a pipeline.
#[derive(Debug, Clone)]
pub enum PipelineError {
    Io(String),
    OperatorFailed { operator_name: &'static str, reason: String },
    RetryExhausted { operator_name: &'static str, attempts: u32 },
}

impl PipelineError {
    /// The text of the error.
    pub open spec fn spec_message(&self) -> Seq<char> {
        match self {
            PipelineError::Io(msg) => "Erro de I/O: "@ + msg@,
            PipelineError::OperatorFailed { operator_name, reason } => "Operador '"@
                + operator_name@ + "' falhou: "@ + reason@,
            PipelineError::RetryExhausted { operator_name, attempts } => "Tentativas esgotadas para '"@
                + operator_name@ + "' após "@ + decimal(*attempts as nat) + " tentativas"@,
        }
    }

    /// A copy of the error.
    pub fn duplicate(&self) -> (r: Self)
        ensures
            r == *self,
    {
        match self {
            PipelineError::Io(msg) => PipelineError::Io(msg.clone()),
            PipelineError::OperatorFailed { operator_name, reason } => PipelineError::OperatorFailed {
                operator_name,
                reason: reason.clone(),
            },
            PipelineError::RetryExhausted { operator_name, attempts } => PipelineError::RetryExhausted {
                operator_name,
                attempts: *attempts,
            },
        }
    }

    /// Renders the error as text (what `Display` shows for it).
    pub fn message(&self) -> (r: String)
        ensures
            r@ == self.spec_message(),
    {
        match self {
            PipelineError::Io(msg) => String::from_str("Erro de I/O: ").concat(msg.as_str()),
            PipelineError::OperatorFailed { operator_name, reason } => {
                String::from_str("Operador '").concat(operator_name).concat("' falhou: ").concat(
                    reason.as_str(),
                )
            },
            PipelineError::RetryExhausted { operator_name, attempts } => {
                let n = decimal_string(*attempts as u64);
                String::from_str("Tentativas esgotadas para '").concat(operator_name).concat(
                    "' após ",
                ).concat(n.as_str()).concat(" tentativas")
            },
        }
    }
}

} // verus!
