//! The errors that the launcher reports to its interface.

use vstd::prelude::*;
use crate::text::concat2;

verus! {

/// An error of a launcher command.
#[derive(Debug, PartialEq, Eq)]
pub enum AppError {
    /// The request could not be sent, or its answer could not be read.
    Network(String),
    /// No token, or a token that the server no longer accepts.
    Unauthenticated,
    /// The server refused the e-mail address and password.
    InvalidCredentials,
    /// The server answered with a status that the command does not expect.
    Unexpected(String),
    /// Something failed on this machine.
    Internal(String),
}

/// Mathematical model of [`AppError`].
pub enum ErrorView {
    Network(Seq<char>),
    Unauthenticated,
    InvalidCredentials,
    Unexpected(Seq<char>),
    Internal(Seq<char>),
}

impl View for AppError {
    type V = ErrorView;

    open spec fn view(&self) -> ErrorView {
        match self {
            AppError::Network(detail) => ErrorView::Network(detail@),
            AppError::Unauthenticated => ErrorView::Unauthenticated,
            AppError::InvalidCredentials => ErrorView::InvalidCredentials,
            AppError::Unexpected(detail) => ErrorView::Unexpected(detail@),
            AppError::Internal(detail) => ErrorView::Internal(detail@),
        }
    }
}

impl ErrorView {
    /// The text shown to the player.
    pub open spec fn message(self) -> Seq<char> {
        match self {
            ErrorView::Network(detail) => "réseau : "@ + detail,
            ErrorView::Unauthenticated => "non authentifié"@,
            ErrorView::InvalidCredentials => "identifiants invalides"@,
            ErrorView::Unexpected(detail) => "réponse inattendue du serveur : "@ + detail,
            ErrorView::Internal(detail) => "erreur interne : "@ + detail,
        }
    }
}

impl AppError {
    /// The text shown to the player; it is also what the interface receives.
    pub fn message(&self) -> (text: String)
        ensures
            text@ == self@.message(),
    {
        match self {
            AppError::Network(detail) => concat2("réseau : ", detail.as_str()),
            AppError::Unauthenticated => "non authentifié".to_owned(),
            AppError::InvalidCredentials => "identifiants invalides".to_owned(),
            AppError::Unexpected(detail) => concat2(
                "réponse inattendue du serveur : ",
                detail.as_str(),
            ),
            AppError::Internal(detail) => concat2("erreur interne : ", detail.as_str()),
        }
    }
}

/// The error view of a failed result.
pub open spec fn failure<T>(result: Result<T, AppError>) -> Option<ErrorView> {
    match result {
        Ok(_) => None,
        Err(e) => Some(e@),
    }
}

// ---- Laws ----

/// The player reads which kind of error it is, and then the whole detail, where there is one.
pub proof fn messages_name_the_kind_and_the_detail(detail: Seq<char>)
    ensures
        ErrorView::Network(detail).message() == "réseau : "@ + detail,
        ErrorView::Unexpected(detail).message() == "réponse inattendue du serveur : "@ + detail,
        ErrorView::Internal(detail).message() == "erreur interne : "@ + detail,
        ErrorView::Unauthenticated.message() == "non authentifié"@,
        ErrorView::InvalidCredentials.message() == "identifiants invalides"@,
{
}

/// Two errors that the player reads alike are one error.
pub proof fn messages_tell_errors_apart(one: ErrorView, other: ErrorView)
    ensures
        one.message() == other.message() ==> one == other,
{
    reveal_strlit("réseau : ");
    reveal_strlit("réponse inattendue du serveur : ");
    reveal_strlit("erreur interne : ");
    reveal_strlit("non authentifié");
    reveal_strlit("identifiants invalides");
    if one.message() == other.message() {
        let text = one.message();
        assert(text[0] == other.message()[0] && text[2] == other.message()[2]);
        match (one, other) {
            (ErrorView::Network(a), ErrorView::Network(b)) => {
                assert(a =~= text.skip(9));
                assert(b =~= text.skip(9));
            },
            (ErrorView::Unexpected(a), ErrorView::Unexpected(b)) => {
                assert(a =~= text.skip(32));
                assert(b =~= text.skip(32));
            },
            (ErrorView::Internal(a), ErrorView::Internal(b)) => {
                assert(a =~= text.skip(17));
                assert(b =~= text.skip(17));
            },
            _ => {},
        }
    }
}

/// A result has failed exactly when it holds an error, and with that error.
pub proof fn failures_are_the_errors<T>(value: T, error: AppError)
    ensures
        failure(Ok::<T, AppError>(value)) is None,
        failure(Err::<T, AppError>(error)) == Some(error@),
{
}

} // verus!
