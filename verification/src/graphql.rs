//! The shapes of the request/response exchange with the query endpoint.

use vstd::prelude::*;

verus! {

/// One request: a document, its variables and the operation's name.
#[derive(Debug)]
pub struct GraphQLRequest<T> {
    pub query: String,
    pub variables: T,
    pub operation_name: String,
}

/// One response: data, errors, or both.
#[derive(Debug)]
pub struct GraphQLResponse<T> {
    pub data: Option<T>,
    pub errors: Option<Vec<GraphQLError>>,
}

/// One error of a response.
#[derive(Debug)]
pub struct GraphQLError {
    pub message: String,
    pub locations: Option<Vec<ErrorLocation>>,
    pub path: Option<Vec<String>>,
}

/// A place in a document.
#[derive(Debug, Clone, Copy, PartialEq, Eq, Structural)]
pub struct ErrorLocation {
    pub line: i32,
    pub column: i32,
}

/// The operation that creates a message.
#[derive(Debug, Clone, Copy, PartialEq, Eq, Structural)]
pub struct CreateMessage;

/// The operation that lists the messages.
#[derive(Debug, Clone, Copy, PartialEq, Eq, Structural)]
pub struct ListMessages;

/// The variables of the mutation that creates a message.
#[derive(Debug)]
pub struct CreateMessageVariables {
    pub content: String,
    pub receiver_username: String,
}

/// The variables of the mutation that updates a user's status.
#[derive(Debug)]
pub struct UpdateUserStatusVariables {
    pub username: String,
    pub status: String,
}

/// The variables of the mutation that creates a user.
#[derive(Debug)]
pub struct CreateUserVariables {
    pub username: String,
    pub email: String,
}

/// What a response comes down to.
#[derive(Debug)]
pub enum Answer<T> {
    /// The data, whatever errors came with it.
    Data(T),
    /// No data, and the message of the first error.
    Failed(String),
    /// Neither data nor errors.
    Empty,
}

impl<T> GraphQLResponse<T> {
    /// Whether the response can be answered: one that has no data does not
    /// come with an empty list of errors.
    pub open spec fn answerable(self) -> bool {
        self.data is None ==> match self.errors {
            Some(errors) => errors@.len() > 0,
            None => true,
        }
    }

    /// What the response comes down to: its data where it has any, else the
    /// message of its first error, else nothing.
    pub open spec fn answer_of(self) -> Answer<T> {
        match self.data {
            Some(data) => Answer::Data(data),
            None => match self.errors {
                Some(errors) => Answer::Failed(errors@[0].message),
                None => Answer::Empty,
            },
        }
    }

    /// Reads the response: data first, then the first error.
    pub fn answer(self) -> (r: Answer<T>)
        requires
            self.answerable(),
        ensures
            r == self.answer_of(),
    {
        match self.data {
            Some(data) => Answer::Data(data),
            None => match self.errors {
                Some(errors) => {
                    let mut errors = errors;
                    let first = errors.remove(0);
                    Answer::Failed(first.message)
                },
                None => Answer::Empty,
            },
        }
    }
}

} // verus!
