use vstd::prelude::*;

verus! {

/// HTTP status: the client sent data that cannot be used.
pub const STATUS_BAD_REQUEST: u16 = 400;

/// HTTP status: the requested record does not exist.
pub const STATUS_NOT_FOUND: u16 = 404;

/// HTTP status: the store failed.
pub const STATUS_INTERNAL_SERVER_ERROR: u16 = 500;

/// Marks the error types of the application.
pub trait ApplicationError {}

/// Marks the records that an error may carry as the data that caused it.
pub trait ErrorObject {}

/// A failure inside the library's own computations, with the function it
/// happened in and, where it helps, the data involved.
#[derive(Debug)]
pub struct ProcessError<T> {
    /// What went wrong.
    pub message: String,
    /// The function in which it went wrong.
    pub name_of_function: String,
    /// The data that played a part, if any.
    pub bad_data: Option<T>,
}

impl<T> ProcessError<T> {
    pub fn new(message: String, name_of_function: String, bad_data: Option<T>) -> (r: Self)
        ensures
            r.message == message,
            r.name_of_function == name_of_function,
            r.bad_data == bad_data,
    {
        ProcessError { message, name_of_function, bad_data }
    }
}

impl<T> ApplicationError for ProcessError<T> {}

/// A failure of a query against the store, with the HTTP status it answers to.
#[derive(Debug)]
pub struct DatabaseQueryError<T> {
    /// What went wrong.
    pub message: String,
    /// The data that was sent or received, if it is worth returning.
    pub received_data: Option<T>,
    /// The HTTP status code of the failure.
    pub status_code: u16,
}

impl<T> DatabaseQueryError<T> {
    pub fn new(message: String, received_data: Option<T>, status_code: u16) -> (r: Self)
        ensures
            r.message == message,
            r.received_data == received_data,
            r.status_code == status_code,
    {
        DatabaseQueryError { message, received_data, status_code }
    }

    /// Carries the error over to a request of another kind: message and status
    /// stay, and where the error held data it now holds `data` instead.
    pub fn relabel<U>(self, data: U) -> (r: DatabaseQueryError<U>)
        ensures
            r.message == self.message,
            r.status_code == self.status_code,
            r.received_data == (if self.received_data is Some {
                Some(data)
            } else {
                None::<U>
            }),
    {
        let received_data = match self.received_data {
            Some(_) => Some(data),
            None => None,
        };
        DatabaseQueryError { message: self.message, received_data, status_code: self.status_code }
    }

    /// Carries the error over to a request of another kind: message and status
    /// stay, and the error now holds `data`.
    pub fn attach<U>(self, data: U) -> (r: DatabaseQueryError<U>)
        ensures
            r.message == self.message,
            r.status_code == self.status_code,
            r.received_data == Some(data),
    {
        DatabaseQueryError {
            message: self.message,
            received_data: Some(data),
            status_code: self.status_code,
        }
    }
}

impl<T> ApplicationError for DatabaseQueryError<T> {}

/// A request whose data a client got wrong.
#[derive(Debug)]
pub struct BadClientRequest<T> {
    /// What the client did wrong.
    pub message: String,
    /// The data that was refused.
    pub bad_data: T,
}

impl<T> BadClientRequest<T> {
    /// The HTTP status of such a request.
    pub const STATUS_CODE: u16 = STATUS_BAD_REQUEST;

    pub fn new(message: String, bad_data: T) -> (r: Self)
        ensures
            r.message == message,
            r.bad_data == bad_data,
    {
        BadClientRequest { message, bad_data }
    }
}

impl<T> ApplicationError for BadClientRequest<T> {}

/// A chat message that was refused, with the reason.
#[derive(Debug)]
pub struct InvalidMessageError {
    pub message: String,
    /// The message that was refused.
    pub origin_message: crate::chat::ChatMessage,
}

impl ApplicationError for InvalidMessageError {}

} // verus!
