//! Gateway configuration: the remote-connection scope, the optional
//! credential string, the optional unit allowlist, and the bind address.
//! The surrounding application reads the raw environment values; building
//! the configuration out of them is decided here.

use crate::text::{
    find_comma, lemma_split_commas_first, lemma_split_commas_len, lemma_split_commas_none,
    seq_contains_str, seq_eq_ci, split_commas, str_eq, str_eq_ci, trim_ws, trim_ws_spec,
    vec_contains_str,
};
use vstd::prelude::*;
use vstd::string::StrSliceExecFns;

verus! {

/// Which bus the remote connection is made on.
#[derive(Debug, Clone, Copy, PartialEq, Eq, Structural)]
pub enum DbusScope {
    Session,
    System,
}

/// What can be wrong with the configuration. Any of these is fatal at
/// startup: the gateway must never start serving partially initialized.
#[derive(Debug, Clone, Copy, PartialEq, Eq, Structural)]
pub enum ConfigError {
    /// Authentication is enabled but no credential was given.
    MissingAuthToken,
    /// The connection scope is neither `session` nor `system`.
    UnknownScope,
    /// The configured credential does not parse as a tagged hash.
    InvalidCredential,
}

impl ConfigError {
    pub open spec fn spec_message(self) -> Seq<char> {
        match self {
            ConfigError::MissingAuthToken => "Auth is enabled and no auth token was configured"@,
            ConfigError::UnknownScope => "Unknown dbus scope"@,
            ConfigError::InvalidCredential => "Failed to read token hash"@,
        }
    }

    pub fn message(&self) -> (r: String)
        ensures
            r@ == self.spec_message(),
    {
        match self {
            ConfigError::MissingAuthToken => "Auth is enabled and no auth token was configured".to_owned(),
            ConfigError::UnknownScope => "Unknown dbus scope".to_owned(),
            ConfigError::InvalidCredential => "Failed to read token hash".to_owned(),
        }
    }
}

impl DbusScope {
    /// Scope names are matched without regard to ASCII case.
    pub open spec fn spec_parse(s: Seq<char>) -> Result<DbusScope, ConfigError> {
        if seq_eq_ci(s, "session"@) {
            Ok(DbusScope::Session)
        } else if seq_eq_ci(s, "system"@) {
            Ok(DbusScope::System)
        } else {
            Err(ConfigError::UnknownScope)
        }
    }

    pub fn parse(s: &str) -> (r: Result<DbusScope, ConfigError>)
        ensures
            r == DbusScope::spec_parse(s@),
    {
        if str_eq_ci(s, "session") {
            Ok(DbusScope::Session)
        } else if str_eq_ci(s, "system") {
            Ok(DbusScope::System)
        } else {
            Err(ConfigError::UnknownScope)
        }
    }
}

/// The gateway's configuration, built once at startup.
pub struct Config {
    pub bind_address: String,
    /// The configured credential hash text; absence means auth is disabled.
    pub auth_token: Option<String>,
    /// The allowed unit names; absence means every name is allowed.
    pub allowlist: Option<Vec<String>>,
    pub dbus_scope: DbusScope,
}

/// Authentication is on unless the flag reads exactly `false`. Anything
/// unreadable counts as enabled: failing closed.
pub open spec fn spec_auth_enabled(v: Option<String>) -> bool {
    match v {
        None => true,
        Some(s) => !(s@ == "false"@),
    }
}

pub fn parse_auth_enabled(v: &str) -> (r: bool)
    ensures
        r == !(v@ == "false"@),
{
    !str_eq(v, "false")
}

/// `x` is one of the configured allowlist entries: a comma-separated
/// segment of `v`, taken without surrounding whitespace, and non-empty.
pub open spec fn spec_allowlist_member(v: Seq<char>, x: Seq<char>) -> bool {
    x.len() > 0 && exists|j: int|
        0 <= j < split_commas(v).len() && trim_ws_spec(#[trigger] split_commas(v)[j]) == x
}

/// Splits the configured list on commas, trims each entry, and drops
/// empties and duplicates. Membership in the result is exactly
/// `spec_allowlist_member`.
pub fn parse_allowlist(v: &str) -> (r: Vec<String>)
    ensures
        forall|x: Seq<char>| #[trigger]
            seq_contains_str(r@, x) <==> spec_allowlist_member(v@, x),
        forall|i: int, j: int| 0 <= i < j < r@.len() ==> r@[i]@ != r@[j]@,
{
    let ghost segs = split_commas(v@);
    let mut out: Vec<String> = Vec::new();
    let mut rem: &str = v;
    let mut more = true;
    let ghost mut done: int = 0;
    proof {
        lemma_split_commas_len(v@);
        assert(segs.subrange(0, segs.len() as int) =~= segs);
    }
    while more
        invariant
            segs == split_commas(v@),
            more ==> 0 <= done < segs.len(),
            more ==> split_commas(rem@) == segs.subrange(done, segs.len() as int),
            !more ==> done == segs.len(),
            forall|x: Seq<char>| #[trigger]
                seq_contains_str(out@, x) <==> (x.len() > 0 && exists|j: int|
                    0 <= j < done && trim_ws_spec(#[trigger] segs[j]) == x),
            forall|i: int, j: int| 0 <= i < j < out@.len() ==> out@[i]@ != out@[j]@,
        decreases rem@.len(), (if more {
            1int
        } else {
            0int
        }),
    {
        let rem_len = rem.unicode_len();
        let next = find_comma(rem);
        let seg: &str = match next {
            Some(k) => rem.substring_char(0, k),
            None => rem,
        };
        proof {
            lemma_split_commas_len(rem@);
            match next {
                Some(k) => {
                    lemma_split_commas_first(rem@, k as int);
                },
                None => {
                    lemma_split_commas_none(rem@);
                },
            }
            assert(split_commas(rem@)[0] == seg@);
            assert(segs.subrange(done, segs.len() as int)[0] == segs[done]);
            assert(seg@ == segs[done]);
        }
        let t = trim_ws(seg);
        let keep = t.unicode_len() > 0 && !vec_contains_str(&out, t.as_str());
        let ghost old_out = out@;
        if keep {
            out.push(t);
        }
        proof {
            assert forall|x: Seq<char>| #[trigger]
                seq_contains_str(out@, x) <==> (x.len() > 0 && exists|j: int|
                    0 <= j < done + 1 && trim_ws_spec(#[trigger] segs[j]) == x) by {
                if seq_contains_str(out@, x) {
                    let i = choose|i: int| 0 <= i < out@.len() && out@[i]@ == x;
                    if i < old_out.len() {
                        assert(seq_contains_str(old_out, x));
                    } else {
                        assert(x == trim_ws_spec(segs[done]));
                    }
                }
                if x.len() > 0 && exists|j: int|
                    0 <= j < done + 1 && trim_ws_spec(#[trigger] segs[j]) == x {
                    let j = choose|j: int|
                        0 <= j < done + 1 && trim_ws_spec(#[trigger] segs[j]) == x;
                    if j < done {
                        assert(seq_contains_str(old_out, x));
                        let i = choose|i: int| 0 <= i < old_out.len() && old_out[i]@ == x;
                        assert(out@[i]@ == x);
                    } else {
                        if keep {
                            assert(out@[out@.len() - 1]@ == x);
                        } else {
                            assert(seq_contains_str(old_out, x) || x.len() == 0);
                        }
                    }
                }
            }
        }
        match next {
            Some(k) => {
                let new_rem = rem.substring_char(k + 1, rem_len);
                proof {
                    lemma_split_commas_len(new_rem@);
                    assert(split_commas(rem@).subrange(
                        1,
                        split_commas(rem@).len() as int,
                    ) =~= split_commas(new_rem@));
                    assert(segs.subrange(done, segs.len() as int).subrange(
                        1,
                        (segs.len() - done) as int,
                    ) =~= segs.subrange(done + 1, segs.len() as int));
                    assert(split_commas(new_rem@) == segs.subrange(done + 1, segs.len() as int));
                }
                rem = new_rem;
            },
            None => {
                proof {
                    assert(segs.subrange(done, segs.len() as int).len() == 1);
                }
                more = false;
            },
        }
        proof {
            done = done + 1;
        }
    }
    out
}

impl Config {
    /// Builds the configuration from the raw environment values, each
    /// `None` when its variable is unset. Fails when authentication is
    /// enabled without a credential, or the scope name is unknown; the
    /// credential check comes first, as the original order of evaluation
    /// has it.
    pub fn build(
        bind_address: Option<String>,
        auth_enabled: Option<String>,
        auth_token: Option<String>,
        allowlist: Option<String>,
        dbus_scope: Option<String>,
    ) -> (r: Result<Config, ConfigError>)
        ensures
            r is Err <==> ((spec_auth_enabled(auth_enabled) && auth_token is None) || (
            dbus_scope is Some && DbusScope::spec_parse(dbus_scope.unwrap()@) is Err)),
            match r {
                Ok(c) => {
                    &&& match bind_address {
                        Some(b) => c.bind_address@ == b@,
                        None => c.bind_address@ == "127.0.0.1:8008"@,
                    }
                    &&& c.auth_token == (if spec_auth_enabled(auth_enabled) {
                        auth_token
                    } else {
                        None::<String>
                    })
                    &&& match allowlist {
                        Some(al) => {
                            &&& c.allowlist is Some
                            &&& forall|x: Seq<char>| #[trigger]
                                seq_contains_str(c.allowlist.unwrap()@, x)
                                    <==> spec_allowlist_member(al@, x)
                        },
                        None => c.allowlist is None,
                    }
                    &&& match dbus_scope {
                        Some(sc) => DbusScope::spec_parse(sc@) == Ok::<DbusScope, ConfigError>(
                            c.dbus_scope,
                        ),
                        None => c.dbus_scope == DbusScope::Session,
                    }
                },
                Err(e) => {
                    &&& (spec_auth_enabled(auth_enabled) && auth_token is None) || (
                    dbus_scope is Some && DbusScope::spec_parse(dbus_scope.unwrap()@) is Err)
                    &&& e == (if spec_auth_enabled(auth_enabled) && auth_token is None {
                        ConfigError::MissingAuthToken
                    } else {
                        ConfigError::UnknownScope
                    })
                },
            },
    {
        let bind = match bind_address {
            Some(b) => b,
            None => "127.0.0.1:8008".to_owned(),
        };
        let enabled = match &auth_enabled {
            None => true,
            Some(v) => parse_auth_enabled(v.as_str()),
        };
        let token = if enabled {
            match auth_token {
                Some(t) => Some(t),
                None => {
                    return Err(ConfigError::MissingAuthToken);
                },
            }
        } else {
            None
        };
        let allow = match allowlist {
            Some(v) => Some(parse_allowlist(v.as_str())),
            None => None,
        };
        let scope = match dbus_scope {
            Some(sc) => match DbusScope::parse(sc.as_str()) {
                Ok(s) => s,
                Err(e) => {
                    return Err(e);
                },
            },
            None => DbusScope::Session,
        };
        Ok(Config { bind_address: bind, auth_token: token, allowlist: allow, dbus_scope: scope })
    }
}

} // verus!
