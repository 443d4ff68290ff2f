//! How a request to the node is refused.
use vstd::prelude::*;

verus! {

/// A refused request.
#[derive(Debug)]
pub enum AppError {
    /// The input breaks a rule; holds the explanation.
    Validation(String),
    /// The admin password is missing or wrong.
    Unauthorized,
    /// The product does not exist.
    NotFound,
}

/// An `AppError` with its text taken as a character sequence.
pub enum AppErrorView {
    Validation(Seq<char>),
    Unauthorized,
    NotFound,
}

impl View for AppError {
    type V = AppErrorView;

    open spec fn view(&self) -> AppErrorView {
        match self {
            AppError::Validation(m) => AppErrorView::Validation(m@),
            AppError::Unauthorized => AppErrorView::Unauthorized,
            AppError::NotFound => AppErrorView::NotFound,
        }
    }
}

/// The result of a request's handling, or how it was refused.
pub type AppResult<T> = Result<T, AppError>;

/// How a result was refused, if it was.
pub open spec fn rejection<T>(r: AppResult<T>) -> Option<AppErrorView> {
    match r {
        Ok(_) => None,
        Err(e) => Some(e@),
    }
}

/// The refusal that an explanation of a broken rule gives, if there is one.
pub open spec fn invalid(problem: Option<Seq<char>>) -> Option<AppErrorView> {
    match problem {
        Some(m) => Some(AppErrorView::Validation(m)),
        None => None,
    }
}

/// The first of two explanations, in order.
pub open spec fn first_problem(a: Option<Seq<char>>, b: Option<Seq<char>>) -> Option<Seq<char>> {
    if a is Some {
        a
    } else {
        b
    }
}

} // verus!
