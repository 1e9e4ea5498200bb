//! Errors of an exchange with the completion endpoint.

use vstd::prelude::*;
use crate::text::{decimal, decimal_text};

verus! {

/// Why an exchange with the completion endpoint produced no answer.
#[derive(Debug, Clone)]
pub enum GPTError {
    /// A well-formed success reply that holds no alternative.
    EmptyResponse,
    /// Credentials are missing, malformed or were refused (HTTP 401).
    InvalidCredential,
    /// Any other unsuccessful HTTP status, with the reply body as read.
    APIError { code: i32, description: String },
    /// Generation options outside their allowed range.
    ConfigError { description: String },
    /// The exchange failed below HTTP (connection, timeout) or the success
    /// body could not be decoded; the description is the transport's own.
    Transport { description: String },
}

impl GPTError {
    /// The human-readable description of the error.
    pub open spec fn message_spec(&self) -> Seq<char> {
        match self {
            GPTError::EmptyResponse => "Получен пустой ответ от API"@,
            GPTError::InvalidCredential => "Данные для авторизации неверные или устарели"@,
            GPTError::APIError { code, description } => "Некорректный запрос к API: "@
                + decimal_text(*code as int) + ", "@ + description@,
            GPTError::ConfigError { description } => "Некорректная конфигурация запроса GPT: "@
                + description@,
            GPTError::Transport { description } => description@,
        }
    }

    /// The human-readable description of the error.
    pub fn message(&self) -> (r: String)
        ensures
            r@ == self.message_spec(),
    {
        match self {
            GPTError::EmptyResponse => String::from_str("Получен пустой ответ от API"),
            GPTError::InvalidCredential => String::from_str(
                "Данные для авторизации неверные или устарели",
            ),
            GPTError::APIError { code, description } => {
                let head = String::from_str("Некорректный запрос к API: ");
                let r = head.concat(decimal(*code).as_str()).concat(", ").concat(
                    description.as_str(),
                );
                r
            },
            GPTError::ConfigError { description } => String::from_str(
                "Некорректная конфигурация запроса GPT: ",
            ).concat(description.as_str()),
            GPTError::Transport { description } => description.clone(),
        }
    }
}

} // verus!
