//! The key used to sign JWT access tokens, read from a file whose path is
//! configured. A blank path or a blank file means no key.

use vstd::prelude::*;

use crate::text::{trim, trim_str};

verus! {

/// A validated JWT signing key, if one is configured.
#[derive(Debug)]
pub struct WebserverJwtKey(Option<String>);

/// Why a JWT key could not be loaded.
#[derive(Debug)]
pub enum WebserverJwtKeyError {
    /// The file could not be read; carries the reason.
    BadFileLoad(String),
}

impl View for WebserverJwtKey {
    type V = Option<Seq<char>>;

    closed spec fn view(&self) -> Option<Seq<char>> {
        match self.0 {
            Some(k) => Some(k@),
            None => None,
        }
    }
}

/// `n` asterisks.
pub open spec fn stars(n: nat) -> Seq<char> {
    Seq::new(n, |i: int| '*')
}

/// How a key is shown in logs: one `*` per character, or `<None>`.
pub open spec fn masked(k: Option<Seq<char>>) -> Seq<char> {
    match k {
        Some(key) => stars(key.len()),
        None => "<None>"@,
    }
}

impl Clone for WebserverJwtKey {
    fn clone(&self) -> (r: Self)
        ensures
            r@ == self@,
            r == *self,
    {
        match &self.0 {
            Some(k) => WebserverJwtKey(Some(k.clone())),
            None => WebserverJwtKey(None),
        }
    }
}

impl WebserverJwtKeyError {
    /// The human-readable description of the error.
    pub fn message(&self) -> (r: &'static str)
        ensures
            r@ == "database connection string could not be loaded from file"@,
    {
        "database connection string could not be loaded from file"
    }
}

impl WebserverJwtKey {
    /// The path to read: the configured path without surrounding whitespace,
    /// or `None` when that is empty (no key is configured then).
    pub fn file_path(raw_jwt_key_file: &str) -> (r: Option<String>)
        ensures
            if trim(raw_jwt_key_file@).len() == 0 {
                r is None
            } else {
                r matches Some(p) && p@ == trim(raw_jwt_key_file@)
            },
    {
        let trimmed = trim_str(raw_jwt_key_file);
        if trimmed.unicode_len() == 0 {
            None
        } else {
            Some(String::from_str(trimmed))
        }
    }

    /// The key from the outcome of reading the file: a read failure is
    /// `BadFileLoad` with its reason, a blank file is no key, and otherwise
    /// the contents without surrounding whitespace.
    pub fn from_file_contents(read: Result<String, String>) -> (r: Result<
        Self,
        WebserverJwtKeyError,
    >)
        ensures
            match read {
                Err(e) => r matches Err(WebserverJwtKeyError::BadFileLoad(m)) && m@ == e@,
                Ok(c) => if trim(c@).len() == 0 {
                    r matches Ok(k) && k@ is None
                } else {
                    r matches Ok(k) && k@ == Some(trim(c@))
                },
            },
    {
        match read {
            Err(e) => Err(WebserverJwtKeyError::BadFileLoad(e)),
            Ok(contents) => {
                let trimmed = trim_str(contents.as_str());
                if trimmed.unicode_len() == 0 {
                    Ok(WebserverJwtKey(None))
                } else {
                    Ok(WebserverJwtKey(Some(String::from_str(trimmed))))
                }
            },
        }
    }

    /// No key.
    pub fn default() -> (r: Self)
        ensures
            r@ is None,
    {
        WebserverJwtKey(None)
    }

    /// The key, if any.
    pub fn get(&self) -> (r: Option<&str>)
        ensures
            match r {
                Some(k) => self@ == Some(k@),
                None => self@ is None,
            },
    {
        match &self.0 {
            Some(k) => Some(k.as_str()),
            None => None,
        }
    }

    /// The key as shown in logs: never the key itself, but one `*` per
    /// character of it, or `<None>` when there is no key.
    pub fn to_display_string(&self) -> (r: String)
        ensures
            r@ == masked(self@),
    {
        match &self.0 {
            Some(key) => {
                let n = key.as_str().unicode_len();
                let mut out = String::new();
                let mut i: usize = 0;
                while i < n
                    invariant
                        0 <= i <= n,
                        out@ == stars(i as nat),
                    decreases n - i,
                {
                    proof {
                        reveal_strlit("*");
                    }
                    out.append("*");
                    assert(out@ =~= stars((i + 1) as nat));
                    i = i + 1;
                }
                out
            },
            None => String::from_str("<None>"),
        }
    }
}

/// Whatever the key, what is shown in logs holds no character of it other
/// than `*` (and is `<None>` when there is no key).
pub proof fn lemma_masked_hides_key(k: Option<Seq<char>>)
    ensures
        k is Some ==> forall|i: int| 0 <= i < masked(k).len() ==> masked(k)[i] == '*',
        k matches Some(key) ==> masked(k).len() == key.len(),
        k is None ==> masked(k) == "<None>"@,
{
}

} // verus!
