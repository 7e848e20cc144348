use vstd::prelude::*;

verus! {

/// A success value or an error value, used where errors are passed around
/// as plain values.
#[derive(Clone, Debug)]
pub enum Result<T, E> {
    Success(T),
    Failure(E),
}

impl<T, E> Result<T, E> {
    pub fn is_ok(&self) -> (r: bool)
        ensures
            r == (*self is Success),
    {
        match self {
            Result::Success(_) => true,
            Result::Failure(_) => false,
        }
    }

    pub fn is_err(&self) -> (r: bool)
        ensures
            r == (*self is Failure),
    {
        match self {
            Result::Success(_) => false,
            Result::Failure(_) => true,
        }
    }

    /// Borrows the contents.
    pub fn as_ref(&self) -> (r: Result<&T, &E>)
        ensures
            match self {
                Result::Success(t) => r matches Result::Success(x) && *x == *t,
                Result::Failure(e) => r matches Result::Failure(x) && *x == *e,
            },
    {
        match self {
            Result::Success(t) => Result::Success(t),
            Result::Failure(e) => Result::Failure(e),
        }
    }

    /// Applies `op` to a success value; an error passes through.
    pub fn map<U, F: FnOnce(T) -> U>(self, op: F) -> (r: Result<U, E>)
        requires
            self matches Result::Success(t) ==> op.requires((t,)),
        ensures
            match self {
                Result::Success(t) => r matches Result::Success(u) && op.ensures((t,), u),
                Result::Failure(e) => r == Result::<U, E>::Failure(e),
            },
    {
        match self {
            Result::Success(t) => Result::Success(op(t)),
            Result::Failure(e) => Result::Failure(e),
        }
    }

    /// Applies `op` to an error value; a success passes through.
    pub fn map_err<F, O: FnOnce(E) -> F>(self, op: O) -> (r: Result<T, F>)
        requires
            self matches Result::Failure(e) ==> op.requires((e,)),
        ensures
            match self {
                Result::Success(t) => r == Result::<T, F>::Success(t),
                Result::Failure(e) => r matches Result::Failure(f) && op.ensures((e,), f),
            },
    {
        match self {
            Result::Success(t) => Result::Success(t),
            Result::Failure(e) => Result::Failure(op(e)),
        }
    }

    /// The success value; only for a success.
    pub fn unwrap(self) -> (r: T)
        requires
            self is Success,
        ensures
            self == Result::<T, E>::Success(r),
    {
        match self {
            Result::Success(t) => t,
            Result::Failure(_) => unreached(),
        }
    }

    /// The success value, or `default` for an error.
    pub fn unwrap_or(self, default: T) -> (r: T)
        ensures
            match self {
                Result::Success(t) => r == t,
                Result::Failure(_) => r == default,
            },
    {
        match self {
            Result::Success(t) => t,
            Result::Failure(_) => default,
        }
    }

    /// The success value, or `op` applied to the error.
    pub fn unwrap_or_else<F: FnOnce(E) -> T>(self, op: F) -> (r: T)
        requires
            self matches Result::Failure(e) ==> op.requires((e,)),
        ensures
            match self {
                Result::Success(t) => r == t,
                Result::Failure(e) => op.ensures((e,), r),
            },
    {
        match self {
            Result::Success(t) => t,
            Result::Failure(e) => op(e),
        }
    }

    /// The success value as an option; `err` is not used.
    pub fn ok_or(self, err: E) -> (r: Option<T>)
        ensures
            match self {
                Result::Success(t) => r == Some(t),
                Result::Failure(_) => r is None,
            },
    {
        match self {
            Result::Success(t) => Some(t),
            Result::Failure(_) => None,
        }
    }

    /// Continues with `op` after a success; an error passes through.
    pub fn and_then<U, F: FnOnce(T) -> Result<U, E>>(self, op: F) -> (r: Result<U, E>)
        requires
            self matches Result::Success(t) ==> op.requires((t,)),
        ensures
            match self {
                Result::Success(t) => op.ensures((t,), r),
                Result::Failure(e) => r == Result::<U, E>::Failure(e),
            },
    {
        match self {
            Result::Success(t) => op(t),
            Result::Failure(e) => Result::Failure(e),
        }
    }

    /// Recovers with `op` after an error; a success passes through.
    pub fn or_else<F: FnOnce(E) -> Result<T, E>>(self, op: F) -> (r: Result<T, E>)
        requires
            self matches Result::Failure(e) ==> op.requires((e,)),
        ensures
            match self {
                Result::Success(t) => r == Result::<T, E>::Success(t),
                Result::Failure(e) => op.ensures((e,), r),
            },
    {
        match self {
            Result::Success(t) => Result::Success(t),
            Result::Failure(e) => op(e),
        }
    }

    /// The same outcome as a standard `Result`.
    pub fn into_std(self) -> (r: std::result::Result<T, E>)
        ensures
            match self {
                Result::Success(t) => r == std::result::Result::<T, E>::Ok(t),
                Result::Failure(e) => r == std::result::Result::<T, E>::Err(e),
            },
    {
        match self {
            Result::Success(t) => std::result::Result::Ok(t),
            Result::Failure(e) => std::result::Result::Err(e),
        }
    }

    /// The success value as an option; every error gives `None`.
    pub fn ok_or_default(self) -> (r: Option<T>)
        ensures
            match self {
                Result::Success(t) => r == Some(t),
                Result::Failure(_) => r is None,
            },
    {
        match self {
            Result::Success(t) => Some(t),
            Result::Failure(_) => None,
        }
    }
}

/// Conversion from a standard `Result`.
pub trait IntoResult<T, E> {
    fn into_result(self) -> Result<T, E>;
}

impl<T, E> IntoResult<T, E> for std::result::Result<T, E> {
    fn into_result(self) -> (r: Result<T, E>)
        ensures
            match self {
                std::result::Result::Ok(t) => r == Result::<T, E>::Success(t),
                std::result::Result::Err(e) => r == Result::<T, E>::Failure(e),
            },
    {
        match self {
            std::result::Result::Ok(t) => Result::Success(t),
            std::result::Result::Err(e) => Result::Failure(e),
        }
    }
}

} // verus!
