use vstd::prelude::*;

verus! {

/// A value held in secret-shared form for the duration of one circuit
/// invocation.
///
/// The wrapped plaintext is accessible in two ways only: circuits inside this
/// crate (the secure computation context) may operate on it, and the caller may
/// cross the privacy boundary through the explicit [`SecretShared::disclose`]
/// step. The view of a `SecretShared<T>` is the plaintext it stands for, so
/// contracts can speak about the hidden value without the executable interface
/// leaking it.
pub struct SecretShared<T> {
    value: T,
}

impl<T> View for SecretShared<T> {
    type V = T;

    closed spec fn view(&self) -> T {
        self.value
    }
}

impl<T> SecretShared<T> {
    /// Materializes a secret-shared value from plaintext.
    ///
    /// This stands for the share production that happens outside the
    /// computation context, and equally for the fact that a value computed
    /// from secret shares is itself still secret until disclosed.
    pub fn share(value: T) -> (shared: Self)
        ensures
            shared@ == value,
    {
        SecretShared { value }
    }

    /// The explicit reveal step: the single sanctioned crossing of the privacy
    /// boundary, and the only public way to turn a secret-shared value back
    /// into plaintext.
    pub fn disclose(self) -> (plain: T)
        ensures
            plain == self@,
    {
        self.value
    }

    /// Plaintext-equivalent access inside the secure computation context.
    /// Deliberately crate-private: callers outside the circuit set cannot
    /// reach the hidden value this way.
    pub(crate) fn expose(self) -> (plain: T)
        ensures
            plain == self@,
    {
        self.value
    }
}

} // verus!
