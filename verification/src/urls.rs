//! A parsed URL, backed by the `url` crate.
//!
//! A `url::Url` is fully determined by its serialization (`Url::as_str`): its
//! other fields are offsets into that string, and two `Url`s are equal exactly
//! when their serializations are. `ParsedUrl` therefore carries the serialization
//! as a plain string next to the `url::Url`, and every reading or writing
//! operation of the `url` crate is described, below, by a named function of the
//! serialization and the plain arguments of the call.

use vstd::prelude::*;
use vstd::string::*;

use crate::text::split_on;

verus! {

#[verifier::external_type_specification]
#[verifier::external_body]
pub struct ExUrl(url::Url);

/// The outcome of `url::Url::parse(input)`: the serialization of the parsed URL,
/// or the text (`Display`) of the parse error.
pub uninterp spec fn url_parse_outcome(input: Seq<char>) -> Result<Seq<char>, Seq<char>>;

/// `url::Url::scheme` of the URL with serialization `ser`: the text before the
/// first `:` (a serialization starts with the scheme and the `:` after it, and a
/// scheme holds no `:`).
pub open spec fn url_scheme_of(ser: Seq<char>) -> Seq<char> {
    split_on(ser, seq![':'])[0]
}

/// `url::Url::host`, rendered with `Display`, of the URL with serialization `ser`.
pub uninterp spec fn url_host_of(ser: Seq<char>) -> Option<Seq<char>>;

/// `url::Url::path` of the URL with serialization `ser`.
pub uninterp spec fn url_path_of(ser: Seq<char>) -> Seq<char>;

/// `url::Url::username` of the URL with serialization `ser`.
pub uninterp spec fn url_username_of(ser: Seq<char>) -> Seq<char>;

/// `url::Url::password` of the URL with serialization `ser`.
pub uninterp spec fn url_password_of(ser: Seq<char>) -> Option<Seq<char>>;

/// The serialization after `url::Url::set_host(Some(host))` on the URL with
/// serialization `ser`, or `None` when that call fails.
pub uninterp spec fn url_set_host_outcome(ser: Seq<char>, host: Seq<char>) -> Option<Seq<char>>;

/// The serialization after `url::Url::set_path(path)` on the URL with
/// serialization `ser`.
pub uninterp spec fn url_set_path_outcome(ser: Seq<char>, path: Seq<char>) -> Seq<char>;

/// The serialization after `url::Url::set_username(name)` on the URL with
/// serialization `ser`, or `None` when that call fails.
pub uninterp spec fn url_set_username_outcome(ser: Seq<char>, name: Seq<char>) -> Option<
    Seq<char>,
>;

/// The serialization after `url::Url::set_password(Some(password))` on the URL
/// with serialization `ser`, or `None` when that call fails.
pub uninterp spec fn url_set_password_outcome(ser: Seq<char>, password: Seq<char>) -> Option<
    Seq<char>,
>;

/// A setter of the `url` crate rebuilds the serialization and stores offsets into
/// it as `u32`, unwrapping the conversion: it panics when the new serialization
/// would be longer than `u32::MAX` bytes. The new serialization holds at most the
/// old one (at most 4 bytes a character), the argument encoded and a few
/// separators. Percent-encoding takes at most 12 bytes a character; the IDNA
/// form of a special host maps a character to at most 18 (NFKC) and encodes each
/// in a few punycode digits, well below 256 bytes a character in all. This bound
/// keeps clear of the limit.
pub open spec fn setter_fits(ser: Seq<char>, arg: Seq<char>) -> bool {
    4 * ser.len() + 256 * arg.len() + 64 <= u32::MAX
}

/// A URL parsed by the `url` crate, with its serialization.
pub struct ParsedUrl {
    inner: url::Url,
    serialization: String,
}

impl View for ParsedUrl {
    type V = Seq<char>;

    /// The serialization of the URL.
    closed spec fn view(&self) -> Seq<char> {
        self.serialization@
    }
}

impl ParsedUrl {
    /// Calls `url::Url::parse`. The contract claims that the outcome is the named
    /// function of the input, and that the scheme of a parsed URL is not empty
    /// (the parser requires a scheme that starts with a letter).
    #[verifier::external_body]
    pub fn parse(input: &str) -> (r: Result<ParsedUrl, String>)
        ensures
            match r {
                Ok(u) => url_parse_outcome(input@) == Ok::<Seq<char>, Seq<char>>(u@),
                Err(e) => url_parse_outcome(input@) == Err::<Seq<char>, Seq<char>>(e@),
            },
            r matches Ok(u) ==> url_scheme_of(u@).len() > 0,
    {
        match url::Url::parse(input) {
            Ok(u) => {
                let serialization = u.as_str().to_string();
                Ok(ParsedUrl { inner: u, serialization })
            },
            Err(e) => Err(e.to_string()),
        }
    }

    /// The serialization of the URL (`url::Url::as_str`).
    pub fn as_string(&self) -> (s: String)
        ensures
            s@ == self@,
    {
        self.serialization.clone()
    }

    /// Whether a setter with argument `arg` stays within the `url` crate's
    /// length limit on this URL.
    pub fn fits_setter(&self, arg: &str) -> (b: bool)
        ensures
            b == setter_fits(self@, arg@),
    {
        let n = self.serialization.as_str().unicode_len() as u64;
        let a = arg.unicode_len() as u64;
        let limit: u64 = 0xffff_ffff;
        if n > limit || a > limit {
            false
        } else {
            4 * n + 256 * a + 64 <= limit
        }
    }

    /// Calls `url::Url::scheme`; the contract claims that it is the text of the
    /// serialization before its first `:`.
    #[verifier::external_body]
    pub fn scheme(&self) -> (s: String)
        ensures
            s@ == url_scheme_of(self@),
    {
        self.inner.scheme().to_string()
    }

    /// Calls `url::Url::host` and renders the host with `Display`; the contract
    /// claims the named result.
    #[verifier::external_body]
    pub fn host(&self) -> (h: Option<String>)
        ensures
            match h {
                Some(s) => url_host_of(self@) == Some(s@),
                None => url_host_of(self@) is None,
            },
    {
        self.inner.host().map(|h| h.to_string())
    }

    /// Calls `url::Url::path`; the contract claims the named result.
    #[verifier::external_body]
    pub fn path(&self) -> (p: String)
        ensures
            p@ == url_path_of(self@),
    {
        self.inner.path().to_string()
    }

    /// Calls `url::Url::username`; the contract claims the named result.
    #[verifier::external_body]
    pub fn username(&self) -> (u: String)
        ensures
            u@ == url_username_of(self@),
    {
        self.inner.username().to_string()
    }

    /// Calls `url::Url::password`; the contract claims the named result.
    #[verifier::external_body]
    pub fn password(&self) -> (p: Option<String>)
        ensures
            match p {
                Some(s) => url_password_of(self@) == Some(s@),
                None => url_password_of(self@) is None,
            },
    {
        self.inner.password().map(|p| p.to_string())
    }

    /// Calls `url::Url::set_host(Some(host))`. The contract claims the named
    /// outcome, and that a failed call leaves the URL as it was (each failure of
    /// `set_host` returns before the serialization is touched).
    #[verifier::external_body]
    pub fn set_host(&mut self, host: &str) -> (r: Result<(), ()>)
        requires
            setter_fits(old(self)@, host@),
        ensures
            match url_set_host_outcome(old(self)@, host@) {
                Some(s) => r is Ok && final(self)@ == s,
                None => r is Err && final(self)@ == old(self)@,
            },
    {
        let r = self.inner.set_host(Some(host)).map_err(|_| ());
        self.serialization = self.inner.as_str().to_string();
        r
    }

    /// Calls `url::Url::set_path(path)`; the contract claims the named outcome.
    #[verifier::external_body]
    pub fn set_path(&mut self, path: &str)
        requires
            setter_fits(old(self)@, path@),
        ensures
            final(self)@ == url_set_path_outcome(old(self)@, path@),
    {
        self.inner.set_path(path);
        self.serialization = self.inner.as_str().to_string();
    }

    /// Calls `url::Url::set_username(name)`. The contract claims the named
    /// outcome, and that a failed call leaves the URL as it was.
    #[verifier::external_body]
    pub fn set_username(&mut self, name: &str) -> (r: Result<(), ()>)
        requires
            setter_fits(old(self)@, name@),
        ensures
            match url_set_username_outcome(old(self)@, name@) {
                Some(s) => r is Ok && final(self)@ == s,
                None => r is Err && final(self)@ == old(self)@,
            },
    {
        let r = self.inner.set_username(name);
        self.serialization = self.inner.as_str().to_string();
        r
    }

    /// Calls `url::Url::set_password(Some(password))`. The contract claims the
    /// named outcome, and that a failed call leaves the URL as it was.
    #[verifier::external_body]
    pub fn set_password(&mut self, password: &str) -> (r: Result<(), ()>)
        requires
            setter_fits(old(self)@, password@),
        ensures
            match url_set_password_outcome(old(self)@, password@) {
                Some(s) => r is Ok && final(self)@ == s,
                None => r is Err && final(self)@ == old(self)@,
            },
    {
        let r = self.inner.set_password(Some(password));
        self.serialization = self.inner.as_str().to_string();
        r
    }
}

} // verus!
