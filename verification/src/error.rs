use vstd::prelude::*;

verus! {

/// Validation errors.
#[derive(Debug, PartialEq, Eq)]
pub struct ValidationErrors<E>(Vec<E>);

impl<E> View for ValidationErrors<E> {
    type V = Seq<E>;

    /// The errors, in order.
    closed spec fn view(&self) -> Seq<E> {
        self.0@
    }
}

impl<E> ValidationErrors<E> {
    /// Constructs validation errors from a vector of errors, keeping their order.
    pub fn from_vec(errors: Vec<E>) -> (r: Self)
        ensures
            r@ == errors@,
    {
        ValidationErrors(errors)
    }

    /// The errors as a vector.
    pub fn as_vec(&self) -> (r: &Vec<E>)
        ensures
            r@ == self@,
    {
        &self.0
    }

    /// Consumes the errors and returns them as a vector.
    pub fn into_vec(self) -> (r: Vec<E>)
        ensures
            r@ == self@,
    {
        self.0
    }

    /// The number of errors.
    pub fn len(&self) -> (r: usize)
        ensures
            r == self@.len(),
    {
        self.0.len()
    }

    /// Whether there are no errors.
    pub fn is_empty(&self) -> (r: bool)
        ensures
            r == (self@.len() == 0),
    {
        self.0.len() == 0
    }
}

impl<E> core::ops::Deref for ValidationErrors<E> {
    type Target = Vec<E>;

    fn deref(&self) -> (r: &Vec<E>)
        ensures
            r@ == self@,
    {
        &self.0
    }
}

impl<E> vstd::std_specs::convert::FromSpecImpl<Vec<E>> for ValidationErrors<E> {
    open spec fn obeys_from_spec() -> bool {
        true
    }

    closed spec fn from_spec(v: Vec<E>) -> Self {
        ValidationErrors(v)
    }
}

impl<E> From<Vec<E>> for ValidationErrors<E> {
    fn from(value: Vec<E>) -> (r: Self)
        ensures
            r@ == value@,
    {
        ValidationErrors(value)
    }
}

impl<E> FromIterator<E> for ValidationErrors<E> {
    /// `Vec::from_iter`: the errors that the iterator yields, in order. Nothing is stated of
    /// them, since the iterator is opaque here.
    #[verifier::external_body]
    fn from_iter<I: IntoIterator<Item = E>>(iter: I) -> Self {
        ValidationErrors(Vec::from_iter(iter))
    }
}

/// Validation error with index.
#[derive(Debug, PartialEq, Eq)]
pub struct IndexedValidationError<E> {
    /// The index.
    pub index: usize,
    /// The error.
    pub error: E,
}

impl<E> IndexedValidationError<E> {
    /// Constructs a new [`IndexedValidationError`].
    pub fn new(index: usize, error: E) -> (r: Self)
        ensures
            r.index == index,
            r.error == error,
    {
        IndexedValidationError { index, error }
    }
}

/// Validation error with key.
#[derive(Debug, PartialEq, Eq)]
pub struct KeyedValidationError<K, E> {
    /// The key.
    pub key: K,
    /// The error.
    pub error: E,
}

impl<K, E> KeyedValidationError<K, E> {
    /// Constructs a new [`KeyedValidationError`].
    pub fn new(key: K, error: E) -> (r: Self)
        ensures
            r.key == key,
            r.error == error,
    {
        KeyedValidationError { key, error }
    }
}

} // verus!
