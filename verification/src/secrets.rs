use vstd::prelude::*;

verus! {

use crate::table::{assoc_lookup, lookup};

#[derive(Clone, Copy, PartialEq, Eq, Structural, Debug)]
pub enum SecretError {
    MissingSecret,
}

/// Resolves named credential values.  Each implementation fixes, through
/// `secret`, which keys it can resolve and to what; `get` succeeds exactly
/// on those keys.
pub trait SecretProvider: Sized {
    /// The value this provider resolves `key` to, if any.  The default
    /// leaves it unspecified; a deterministic implementation overrides it.
    open spec fn secret(&self, key: Seq<char>) -> Option<Seq<char>> {
        vstd::pervasive::arbitrary()
    }

    fn get(&self, key: &str) -> (r: Result<String, SecretError>)
        ensures
            match r {
                Ok(v) => self.secret(key@) == Some(v@),
                Err(e) => self.secret(key@) is None && e == SecretError::MissingSecret,
            },
    ;
}

/// The in-memory variant: a map filled by the caller, for deterministic
/// tests and for callers that resolve credentials themselves.
pub struct InMemorySecretProvider {
    entries: Vec<(String, String)>,
}

impl InMemorySecretProvider {
    /// The key/value entries held, later entries overriding earlier ones.
    pub closed spec fn table(&self) -> Seq<(Seq<char>, Seq<char>)> {
        self.entries.deep_view()
    }

    pub fn new() -> (r: InMemorySecretProvider)
        ensures
            r.table().len() == 0,
    {
        InMemorySecretProvider { entries: Vec::new() }
    }

    /// Stores `value` under `key`, overriding any earlier entry for `key`.
    pub fn add(&mut self, key: String, value: String)
        ensures
            final(self).table() == old(self).table().push((key@, value@)),
    {
        self.entries.push((key, value));
        proof {
            assert(self.entries.deep_view() =~= old(self).entries.deep_view().push((
                key@,
                value@,
            )));
        }
    }
}

impl SecretProvider for InMemorySecretProvider {
    open spec fn secret(&self, key: Seq<char>) -> Option<Seq<char>> {
        assoc_lookup(self.table(), key)
    }

    fn get(&self, key: &str) -> (r: Result<String, SecretError>) {
        match lookup(&self.entries, key) {
            Some(v) => Ok(v),
            None => Err(SecretError::MissingSecret),
        }
    }
}

} // verus!
