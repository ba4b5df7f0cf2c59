//! Error taxonomy. `CartError` is raised by the cart and purchase engine;
//! `ServiceError` is the boundary form a caller-facing service reports.

use vstd::prelude::*;

verus! {

/// Boundary-level errors, each carrying a human-readable reason.
#[derive(Debug)]
pub enum ServiceError {
    InternalError(String),
    NotFound(String),
    AlreadyExists(String),
    BadRequest(String),
}

impl ServiceError {
    pub fn internal_error(msg: &str) -> (r: Self)
        ensures
            r matches ServiceError::InternalError(m) && m@ == msg@,
    {
        ServiceError::InternalError(msg.to_owned())
    }

    pub fn not_found(msg: &str) -> (r: Self)
        ensures
            r matches ServiceError::NotFound(m) && m@ == msg@,
    {
        ServiceError::NotFound(msg.to_owned())
    }

    pub fn already_exist(msg: &str) -> (r: Self)
        ensures
            r matches ServiceError::AlreadyExists(m) && m@ == msg@,
    {
        ServiceError::AlreadyExists(msg.to_owned())
    }

    pub fn bad_request(msg: &str) -> (r: Self)
        ensures
            r matches ServiceError::BadRequest(m) && m@ == msg@,
    {
        ServiceError::BadRequest(msg.to_owned())
    }

    /// The reason carried by the error.
    pub fn message(&self) -> (r: String)
        ensures
            match self {
                ServiceError::InternalError(m) => r@ == m@,
                ServiceError::NotFound(m) => r@ == m@,
                ServiceError::AlreadyExists(m) => r@ == m@,
                ServiceError::BadRequest(m) => r@ == m@,
            },
    {
        match self {
            ServiceError::InternalError(m) => m.clone(),
            ServiceError::NotFound(m) => m.clone(),
            ServiceError::AlreadyExists(m) => m.clone(),
            ServiceError::BadRequest(m) => m.clone(),
        }
    }
}

pub type ServiceResult<T> = Result<T, ServiceError>;

/// Errors of the cart engine: a referenced line or record is absent, an
/// operation collides with a uniqueness or settlement rule, or a close-time
/// business rule rejects the cart.
#[derive(Debug)]
pub enum CartError {
    NotFound(String),
    Conflict(String),
    Rejected(String),
}

impl CartError {
    /// The reason carried by the error.
    pub fn message(&self) -> (r: String)
        ensures
            match self {
                CartError::NotFound(m) => r@ == m@,
                CartError::Conflict(m) => r@ == m@,
                CartError::Rejected(m) => r@ == m@,
            },
    {
        match self {
            CartError::NotFound(m) => m.clone(),
            CartError::Conflict(m) => m.clone(),
            CartError::Rejected(m) => m.clone(),
        }
    }
}

} // verus!
