//! Authentication for the client.
//!
//! Two flavours are supported: a `user:pass` pair and Bitcoin Core's `.cookie`
//! file. The cookie file is read once, by the caller that builds the client,
//! and its contents are handed to [`Auth::resolve`], so the credentials are
//! fixed for the lifetime of the client.

use vstd::prelude::*;

use crate::client_async::error::{ConfigError, Error};
use crate::client_async::text::{chars_of, string_from_chars};

verus! {

/// How the client authenticates against `bitcoind`.
///
/// Use [`Auth::NoAuth`] only against a node that has been deliberately
/// configured to allow unauthenticated access; all default Bitcoin Core
/// configurations require authentication.
#[derive(Clone, Debug, Hash, Eq, PartialEq, Ord, PartialOrd)]
pub enum Auth {
    /// No authentication. Only safe for unauthenticated test daemons.
    NoAuth,
    /// Static `(user, password)` credentials.
    UserPass(String, String),
    /// Path to Bitcoin Core's `.cookie` file.
    CookieFile(String),
}

/// Resolved credentials, ready to be applied to a transport.
#[derive(Clone, Debug)]
pub struct ResolvedAuth {
    pub user: String,
    pub pass: Option<String>,
}

/// `l` without one trailing carriage return.
pub open spec fn strip_cr(l: Seq<char>) -> Seq<char> {
    if l.len() > 0 && l.last() == '\r' {
        l.drop_last()
    } else {
        l
    }
}

/// The first line of `s` as `str::lines` yields it: up to the first `\n`
/// (a `\r` right before it is dropped), the whole of `s` when it holds no
/// `\n`, and nothing at all when `s` is empty.
pub open spec fn first_line(s: Seq<char>) -> Option<Seq<char>> {
    if s.len() == 0 {
        None
    } else {
        match s.index_of_first('\n') {
            Some(i) => Some(strip_cr(s.take(i))),
            None => Some(s),
        }
    }
}

/// The `(user, pass)` pair a cookie file with contents `s` holds: its first
/// line split at the first `:`. `None` when there is no line or no `:`.
pub open spec fn cookie_credentials(s: Seq<char>) -> Option<(Seq<char>, Seq<char>)> {
    match first_line(s) {
        None => None,
        Some(l) => match l.index_of_first(':') {
            None => None,
            Some(c) => Some((l.take(c), l.skip(c + 1))),
        },
    }
}

/// What resolving `auth` yields, the cookie file's read outcome being
/// `cookie` (consulted for [`Auth::CookieFile`] only).
pub open spec fn resolve_spec(auth: Auth, cookie: Result<String, String>) -> Result<
    Option<(Seq<char>, Option<Seq<char>>)>,
    ConfigError,
> {
    match auth {
        Auth::NoAuth => Ok(None),
        Auth::UserPass(u, p) => Ok(Some((u@, Some(p@)))),
        Auth::CookieFile(path) => match cookie {
            Err(source) => Err(ConfigError::CookieFileIo { path, source }),
            Ok(contents) => match cookie_credentials(contents@) {
                None => Err(ConfigError::CookieFileMalformed { path }),
                Some((u, p)) => Ok(Some((u, Some(p)))),
            },
        },
    }
}

impl ResolvedAuth {
    /// The credentials as plain character sequences.
    pub open spec fn pair(self) -> (Seq<char>, Option<Seq<char>>) {
        (
            self.user@,
            match self.pass {
                Some(p) => Some(p@),
                None => None,
            },
        )
    }
}

/// The credentials of a resolution, as character sequences.
pub open spec fn resolved_pair(o: Option<ResolvedAuth>) -> Option<(Seq<char>, Option<Seq<char>>)> {
    match o {
        None => None,
        Some(a) => Some(a.pair()),
    }
}

/// Index of the first `c` in `v`, if any.
fn find_char(v: &Vec<char>, c: char) -> (r: Option<usize>)
    ensures
        match r {
            Some(i) => v@.index_of_first(c) == Some(i as int) && i < v@.len(),
            None => v@.index_of_first(c) is None,
        },
{
    proof {
        v@.index_of_first_ensures(c);
    }
    let mut i: usize = 0;
    while i < v.len()
        invariant
            i <= v@.len(),
            forall|j: int| 0 <= j < i ==> v@[j] != c,
            match v@.index_of_first(c) {
                Some(index) => {
                    &&& v@.contains(c)
                    &&& 0 <= index < v@.len()
                    &&& v@[index] == c
                    &&& forall|j: int| 0 <= j < index < v@.len() ==> v@[j] != c
                },
                None => !v@.contains(c),
            },
        decreases v@.len() - i,
    {
        if v[i] == c {
            return Some(i);
        }
        i = i + 1;
    }
    None
}

/// Splits the contents of a cookie file into `(user, pass)`.
pub fn parse_cookie(contents: &str) -> (r: Option<(String, String)>)
    ensures
        match r {
            Some((u, p)) => cookie_credentials(contents@) == Some((u@, p@)),
            None => cookie_credentials(contents@) is None,
        },
{
    let v = chars_of(contents);
    if v.len() == 0 {
        return None;
    }
    // The first line, as a range of `v`.
    let end = match find_char(&v, '\n') {
        Some(nl) => {
            if nl > 0 && v[nl - 1] == '\r' {
                assert(v@.take(nl as int).drop_last() =~= v@.subrange(0, nl - 1));
                nl - 1
            } else {
                assert(v@.take(nl as int) =~= v@.subrange(0, nl as int));
                nl
            }
        },
        None => {
            assert(v@ =~= v@.subrange(0, v@.len() as int));
            v.len()
        },
    };
    let ghost line = v@.subrange(0, end as int);
    assert(first_line(contents@) == Some(line));
    let mut colon: usize = 0;
    while colon < end && v[colon] != ':'
        invariant
            end <= v@.len(),
            colon <= end,
            line == v@.subrange(0, end as int),
            forall|j: int| 0 <= j < colon ==> line[j] != ':',
        decreases end - colon,
    {
        colon = colon + 1;
    }
    proof {
        line.index_of_first_ensures(':');
    }
    if colon == end {
        assert(!line.contains(':'));
        return None;
    }
    assert(line.index_of_first(':') == Some(colon as int)) by {
        let f = line.index_of_first(':');
        assert(line[colon as int] == ':');
        assert(line.contains(':'));
        if f.unwrap() < colon {
            assert(line[f.unwrap()] != ':');
        }
        if f.unwrap() > colon {
            assert(line[colon as int] != ':');
        }
    }
    let user = string_from_chars(&v, 0, colon);
    let pass = string_from_chars(&v, colon + 1, end);
    assert(user@ =~= line.take(colon as int));
    assert(pass@ =~= line.skip(colon + 1));
    Some((user, pass))
}

impl Auth {
    /// Resolves this `Auth` into credentials.
    ///
    /// `cookie` is the outcome of reading the cookie file named by
    /// [`Auth::CookieFile`]: its contents, or the reason it could not be read.
    /// It is not consulted for the other variants. Errors are returned as
    /// [`Error::Config`].
    pub fn resolve(self, cookie: Result<String, String>) -> (r: Result<Option<ResolvedAuth>, Error>)
        ensures
            match resolve_spec(self, cookie) {
                Ok(creds) => r is Ok && resolved_pair(r->Ok_0) == creds,
                Err(c) => r == Err::<Option<ResolvedAuth>, Error>(Error::Config(c)),
            },
    {
        match self {
            Auth::NoAuth => Ok(None),
            Auth::UserPass(user, pass) => Ok(Some(ResolvedAuth { user, pass: Some(pass) })),
            Auth::CookieFile(path) => match cookie {
                Err(source) => Err(Error::Config(ConfigError::CookieFileIo { path, source })),
                Ok(contents) => match parse_cookie(contents.as_str()) {
                    None => Err(Error::Config(ConfigError::CookieFileMalformed { path })),
                    Some((user, pass)) => Ok(Some(ResolvedAuth { user, pass: Some(pass) })),
                },
            },
        }
    }
}

/// A cookie file whose first line is `user:pass` resolves to exactly that
/// pair (Bitcoin Core writes `__cookie__:<secret>`), with or without a line
/// ending after it; the user name holds no `:`, since the first `:` splits.
pub proof fn lemma_cookie_round_trip(user: Seq<char>, pass: Seq<char>, rest: Seq<char>)
    requires
        !user.contains(':'),
        !user.contains('\n'),
        !pass.contains('\n'),
        rest.len() == 0 || rest[0] == '\n',
        rest.len() > 0 ==> pass.len() == 0 || pass.last() != '\r',
    ensures
        cookie_credentials(user + seq![':'] + pass + rest) == Some((user, pass)),
{
    let line = user + seq![':'] + pass;
    let s = line + rest;
    let c = user.len() as int;
    assert(s.len() > 0);
    assert(forall|i: int| 0 <= i < line.len() ==> s[i] == line[i]);
    assert(forall|i: int| 0 <= i < c ==> line[i] == user[i]);
    assert(line[c] == ':');
    assert(forall|i: int| c < i < line.len() ==> line[i] == pass[i - c - 1]);
    assert(!line.contains('\n')) by {
        if line.contains('\n') {
            let i = choose|i: int| 0 <= i < line.len() && line[i] == '\n';
            if i < c {
                assert(user[i] == '\n');
            } else if i > c {
                assert(pass[i - c - 1] == '\n');
            }
        }
    }
    s.index_of_first_ensures('\n');
    if rest.len() == 0 {
        assert(s =~= line);
        assert(first_line(s) == Some(line));
    } else {
        assert(s[line.len() as int] == '\n');
        assert(s.contains('\n'));
        let i = s.index_of_first('\n').unwrap();
        if i < line.len() {
            assert(line[i] == '\n');
        }
        assert(i == line.len());
        assert(s.take(i) =~= line);
        if pass.len() > 0 {
            assert(line.last() == pass.last());
        }
        assert(first_line(s) == Some(line));
    }
    line.index_of_first_ensures(':');
    assert(line.contains(':'));
    let j = line.index_of_first(':').unwrap();
    if j < c {
        assert(user[j] == ':');
    }
    assert(j == c);
    assert(line.take(c) =~= user);
    assert(line.skip(c + 1) =~= pass);
}

/// How each authentication strategy resolves: no authentication gives no
/// credentials; a user/password pair gives exactly that pair; a cookie file
/// that could not be read is an I/O error naming its path and the reason;
/// a cookie file with no `:` anywhere in it is malformed.
pub proof fn lemma_resolution_outcomes(auth: Auth, cookie: Result<String, String>)
    ensures
        auth is NoAuth ==> resolve_spec(auth, cookie) == Ok::<
            Option<(Seq<char>, Option<Seq<char>>)>,
            ConfigError,
        >(None),
        auth matches Auth::UserPass(u, p) ==> resolve_spec(auth, cookie) == Ok::<
            Option<(Seq<char>, Option<Seq<char>>)>,
            ConfigError,
        >(Some((u@, Some(p@)))),
        auth matches Auth::CookieFile(path) ==> (cookie matches Err(why) ==> resolve_spec(auth, cookie)
            == Err::<Option<(Seq<char>, Option<Seq<char>>)>, ConfigError>(
            ConfigError::CookieFileIo { path, source: why },
        )),
        auth matches Auth::CookieFile(path) ==> (cookie matches Ok(contents) && !contents@.contains(':')
            ==> resolve_spec(auth, cookie) == Err::<Option<(Seq<char>, Option<Seq<char>>)>, ConfigError>(
            ConfigError::CookieFileMalformed { path },
        )),
{
    if let Auth::CookieFile(path) = auth {
        if let Ok(contents) = cookie {
            let s = contents@;
            if !s.contains(':') {
                match first_line(s) {
                    None => {},
                    Some(l) => {
                        assert(!l.contains(':')) by {
                            if l.contains(':') {
                                let k = choose|k: int| 0 <= k < l.len() && l[k] == ':';
                                match s.index_of_first('\n') {
                                    Some(i) => {
                                        s.index_of_first_ensures('\n');
                                        assert(l[k] == s.take(i)[k]);
                                        assert(s[k] == ':');
                                    },
                                    None => {
                                        assert(s[k] == ':');
                                    },
                                }
                            }
                        }
                        l.index_of_first_ensures(':');
                    },
                }
            }
        }
    }
}

} // verus!
