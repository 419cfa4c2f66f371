//! Validated value objects: the identifier and the title of a todo.
//! Both are their input with surrounding white space removed, and never empty.

use vstd::prelude::*;
use crate::errors::AppError;
use crate::model::ValueObject;
use crate::text::{trim, trimmed};

verus! {

/// A text is acceptable as an identifier or title when it is already trimmed and not empty.
pub open spec fn is_trimmed_nonempty(s: Seq<char>) -> bool {
    s.len() > 0 && trimmed(s) == s
}

/// The message of the error returned for an identifier that is empty once trimmed.
pub open spec fn empty_id_message() -> Seq<char> {
    "todo id cannot be empty"@
}

/// The message of the error returned for a title that is empty once trimmed.
pub open spec fn empty_title_message() -> Seq<char> {
    "todo title cannot be empty"@
}

/// The identifier of a todo.
#[derive(Debug, PartialEq, Eq, Hash)]
pub struct TodoId(String);

impl View for TodoId {
    type V = Seq<char>;

    closed spec fn view(&self) -> Seq<char> {
        self.0@
    }
}

impl TodoId {
    #[verifier::type_invariant]
    spec fn inv(&self) -> bool {
        is_trimmed_nonempty(self.0@)
    }

    /// Validates `value`: it is trimmed, and refused with a validation error when nothing is left.
    pub fn new(value: &str) -> (r: Result<Self, AppError>)
        ensures
            match r {
                Ok(id) => trimmed(value@).len() > 0 && id@ == trimmed(value@),
                Err(e) => trimmed(value@).len() == 0 && e is Validation && e.message_view()
                    == empty_id_message(),
            },
    {
        let t = trim(value);
        if t.as_str().is_empty() {
            return Err(AppError::Validation { message: String::from_str("todo id cannot be empty") });
        }
        proof {
            crate::text::lemma_trim_idempotent(value@);
        }
        Ok(TodoId(t))
    }

    /// The identifier as text.
    pub fn as_str(&self) -> (s: &str)
        ensures
            s@ == self@,
            is_trimmed_nonempty(s@),
    {
        proof {
            use_type_invariant(self);
        }
        self.0.as_str()
    }
}

impl TodoId {
    /// The identifier as an owned-string reference.
    pub fn as_string(&self) -> (s: &String)
        ensures
            s@ == self@,
    {
        &self.0
    }
}

impl Clone for TodoId {
    fn clone(&self) -> (r: Self)
        ensures
            r == *self,
    {
        proof {
            use_type_invariant(self);
        }
        TodoId(self.0.clone())
    }
}

impl ValueObject for TodoId {}

/// The title of a todo.
#[derive(Debug, PartialEq, Eq, Hash)]
pub struct TodoTitle(String);

impl View for TodoTitle {
    type V = Seq<char>;

    closed spec fn view(&self) -> Seq<char> {
        self.0@
    }
}

impl TodoTitle {
    #[verifier::type_invariant]
    spec fn inv(&self) -> bool {
        is_trimmed_nonempty(self.0@)
    }

    /// Validates `value`: it is trimmed, and refused with a validation error when nothing is left.
    pub fn new(value: &str) -> (r: Result<Self, AppError>)
        ensures
            match r {
                Ok(t) => trimmed(value@).len() > 0 && t@ == trimmed(value@),
                Err(e) => trimmed(value@).len() == 0 && e is Validation && e.message_view()
                    == empty_title_message(),
            },
    {
        let t = trim(value);
        if t.as_str().is_empty() {
            return Err(AppError::Validation { message: String::from_str("todo title cannot be empty") });
        }
        proof {
            crate::text::lemma_trim_idempotent(value@);
        }
        Ok(TodoTitle(t))
    }

    /// The title as text.
    pub fn as_str(&self) -> (s: &str)
        ensures
            s@ == self@,
            is_trimmed_nonempty(s@),
    {
        proof {
            use_type_invariant(self);
        }
        self.0.as_str()
    }
}

impl Clone for TodoTitle {
    fn clone(&self) -> (r: Self)
        ensures
            r == *self,
    {
        proof {
            use_type_invariant(self);
        }
        TodoTitle(self.0.clone())
    }
}

impl ValueObject for TodoTitle {}

} // verus!
