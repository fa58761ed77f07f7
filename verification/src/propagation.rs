//! The configuration-propagation protocol: publishing a configuration into a
//! key-value channel for downstream build units, and recovering one from the
//! channel, either under a caller-supplied link name or automatically from
//! the two conventional upstream sources.

use vstd::prelude::*;
use vstd::string::StringExecFns;

use crate::config::Config;
use crate::config::cfg_eq;
use crate::errors::ConfigFromEnvError;
use crate::errors::ExportError;
use crate::record::deserialize_config;
use crate::record::encode;
use crate::record::lemma_encode_injective;
use crate::record::serialize_config;
use crate::table::StrTable;
use crate::text::ascii_upper;
use crate::text::spec_upper;

verus! {

/// Whether a channel payload is the record of some configuration.
pub open spec fn record_valid(s: Seq<char>) -> bool {
    exists|c: Config| encode(c) == s
}

/// The channel key under which a build unit with the given link name
/// publishes its configuration: the link name upper-cased, namespaced with
/// the dependency prefix, and suffixed with the fixed configuration-key
/// token.
pub open spec fn spec_dep_key(links_value: Seq<char>) -> Seq<char> {
    "DEP_"@ + spec_upper(links_value) + "_WDK_CONFIG"@
}

/// Derives the channel key for a link name.
pub fn dep_key(links_value: &str) -> (r: String)
    ensures
        r@ == spec_dep_key(links_value@),
{
    let mut s = "DEP_".to_owned();
    let upper = ascii_upper(links_value);
    s.append(upper.as_str());
    s.append("_WDK_CONFIG");
    assert(s@ =~= spec_dep_key(links_value@));
    s
}

/// The outcome, if any, that automatic recovery settles on when it succeeds:
/// the record both present sources share, or the record of the single
/// present source.  `None` stands for every failing combination.
pub open spec fn auto_found(a: Option<Seq<char>>, b: Option<Seq<char>>) -> Option<Seq<char>> {
    match (a, b) {
        (Some(sa), Some(sb)) => if record_valid(sa) && record_valid(sb) && sa == sb {
            Some(sa)
        } else {
            None
        },
        (Some(sa), None) => if record_valid(sa) {
            Some(sa)
        } else {
            None
        },
        (None, Some(sb)) => if record_valid(sb) {
            Some(sb)
        } else {
            None
        },
        (None, None) => None,
    }
}

/// Whether automatic recovery finds two valid records that disagree.
pub open spec fn auto_mismatch(a: Option<Seq<char>>, b: Option<Seq<char>>) -> bool {
    &&& a matches Some(sa) && record_valid(sa)
    &&& b matches Some(sb) && record_valid(sb)
    &&& a != b
}

/// Whether automatic recovery runs into a present but malformed record.
pub open spec fn auto_bad_record(a: Option<Seq<char>>, b: Option<Seq<char>>) -> bool {
    ||| a matches Some(sa) && !record_valid(sa)
    ||| b matches Some(sb) && !record_valid(sb)
}

impl Config {
    /// Recovers the configuration a dependency published under
    /// `links_value`.  Returns the configuration whose record stands in the
    /// channel under the derived key; fails if the entry is absent or is not
    /// a record.
    pub fn from_env(links_value: &str, env: &StrTable) -> (r: Result<Config, ConfigFromEnvError>)
        ensures
            ({
                let entry = env.spec_get(spec_dep_key(links_value@));
                match r {
                    Ok(c) => entry == Some(encode(c)),
                    Err(ConfigFromEnvError::EnvError { key }) => key@ == spec_dep_key(
                        links_value@,
                    ) && entry is None,
                    Err(ConfigFromEnvError::DeserializeError) => entry matches Some(s)
                        && !record_valid(s),
                    Err(_) => false,
                }
            }),
            forall|c: Config|
                env.spec_get(spec_dep_key(links_value@)) == Some(encode(c)) ==> (r matches Ok(x)
                    && cfg_eq(x, c)),
    {
        let key = dep_key(links_value);
        match env.get(&key) {
            None => Err(ConfigFromEnvError::EnvError { key }),
            Some(payload) => match deserialize_config(payload.as_str()) {
                Some(c) => {
                    proof {
                        assert forall|c2: Config|
                            env.spec_get(spec_dep_key(links_value@)) == Some(encode(c2))
                            implies cfg_eq(c, c2) by {
                            lemma_encode_injective(c, c2);
                        }
                    }
                    Ok(c)
                },
                None => {
                    proof {
                        assert(!record_valid(payload@)) by {
                            if record_valid(payload@) {
                                let c2 = choose|c2: Config| encode(c2) == payload@;
                                assert(false);
                            }
                        }
                    }
                    Err(ConfigFromEnvError::DeserializeError)
                },
            },
        }
    }

    /// Recovers a configuration from the two conventional upstream sources.
    /// With both sources present and agreeing, or exactly one present, the
    /// published configuration is returned; two valid but differing records
    /// are a mismatch carrying both configurations and their source keys; a
    /// present but malformed record fails at once; two absent sources mean
    /// no configuration was found.
    pub fn from_env_auto(env: &StrTable) -> (r: Result<Config, ConfigFromEnvError>)
        ensures
            ({
                let a = env.spec_get("DEP_WDK_WDK_CONFIG"@);
                let b = env.spec_get("DEP_WDK-SYS_WDK_CONFIG"@);
                &&& r matches Ok(c) ==> auto_found(a, b) == Some(encode(c))
                &&& auto_found(a, b) matches Some(s) ==> r matches Ok(c) && encode(c) == s
                &&& r matches Err(ConfigFromEnvError::ConfigMismatch {
                    config_1,
                    config_1_source,
                    config_2,
                    config_2_source,
                }) ==> {
                    &&& auto_mismatch(a, b)
                    &&& a == Some(encode(config_1))
                    &&& config_1_source@ == "DEP_WDK_WDK_CONFIG"@
                    &&& b == Some(encode(config_2))
                    &&& config_2_source@ == "DEP_WDK-SYS_WDK_CONFIG"@
                }
                &&& auto_mismatch(a, b) ==> (r matches Err(e) && e is ConfigMismatch)
                &&& (r matches Err(e) && e is ConfigNotFound) <==> (a is None && b is None)
                &&& (r matches Err(e) && e is DeserializeError) <==> auto_bad_record(a, b)
                &&& !(r matches Err(e) && e is EnvError)
            }),
    {
        let key_a = "DEP_WDK_WDK_CONFIG".to_owned();
        let key_b = "DEP_WDK-SYS_WDK_CONFIG".to_owned();
        let entry_a = env.get(&key_a);
        let entry_b = env.get(&key_b);
        match (entry_a, entry_b) {
            (Some(sa), Some(sb)) => {
                let ca = match deserialize_config(sa.as_str()) {
                    Some(c) => c,
                    None => {
                        proof {
                            lemma_not_valid(sa@);
                        }
                        return Err(ConfigFromEnvError::DeserializeError);
                    },
                };
                let cb = match deserialize_config(sb.as_str()) {
                    Some(c) => c,
                    None => {
                        proof {
                            lemma_not_valid(sb@);
                        }
                        return Err(ConfigFromEnvError::DeserializeError);
                    },
                };
                if ca == cb {
                    assert(encode(ca) == encode(cb));
                    Ok(ca)
                } else {
                    proof {
                        if sa@ == sb@ {
                            lemma_encode_injective(ca, cb);
                            assert(false);
                        }
                    }
                    Err(ConfigFromEnvError::ConfigMismatch {
                        config_1: ca,
                        config_1_source: key_a,
                        config_2: cb,
                        config_2_source: key_b,
                    })
                }
            },
            (Some(sa), None) => match deserialize_config(sa.as_str()) {
                Some(c) => Ok(c),
                None => {
                    proof {
                        lemma_not_valid(sa@);
                    }
                    Err(ConfigFromEnvError::DeserializeError)
                },
            },
            (None, Some(sb)) => match deserialize_config(sb.as_str()) {
                Some(c) => Ok(c),
                None => {
                    proof {
                        lemma_not_valid(sb@);
                    }
                    Err(ConfigFromEnvError::DeserializeError)
                },
            },
            (None, None) => Err(ConfigFromEnvError::ConfigNotFound),
        }
    }

    /// Publishes this configuration for downstream build units.  Requires
    /// the publishing unit to have a link name declared in the channel;
    /// without one, nothing is published.  On success the channel holds this
    /// configuration's record under the key derived from the link name, no
    /// other entry changes, and the directive line announcing the record is
    /// returned for the build orchestrator.
    pub fn export_config(&self, env: &mut StrTable) -> (r: Result<String, ExportError>)
        ensures
            ({
                match r {
                    Ok(line) => match old(env).spec_get("CARGO_MANIFEST_LINKS"@) {
                        Some(links) => {
                            &&& final(env).spec_get(spec_dep_key(links)) == Some(encode(*self))
                            &&& forall|k: Seq<char>|
                                k != spec_dep_key(links) ==> final(env).spec_get(k) == old(
                                    env,
                                ).spec_get(k)
                            &&& line@ == "cargo:wdk_config="@ + encode(*self)
                        },
                        None => false,
                    },
                    Err(ExportError::MissingLinksValue) => old(env).spec_get(
                        "CARGO_MANIFEST_LINKS"@,
                    ) is None && *final(env) == *old(env),
                }
            }),
    {
        let links_key = "CARGO_MANIFEST_LINKS".to_owned();
        match env.get(&links_key) {
            None => Err(ExportError::MissingLinksValue),
            Some(links) => {
                let key = dep_key(links.as_str());
                let payload = serialize_config(self);
                let mut line = "cargo:wdk_config=".to_owned();
                line.append(payload.as_str());
                env.set(key, payload);
                Ok(line)
            },
        }
    }
}

/// A record that the parser refuses is the record of no configuration.
proof fn lemma_not_valid(s: Seq<char>)
    requires
        forall|c: Config| encode(c) != s,
    ensures
        !record_valid(s),
{
}

/// Automatic recovery is symmetric in which single upstream source is
/// present: with exactly one valid record published, under either key, the
/// recovered configuration is the one that record carries.
pub proof fn lemma_auto_single_source_symmetric(s: Seq<char>)
    requires
        record_valid(s),
    ensures
        auto_found(Some(s), None) == Some(s),
        auto_found(None, Some(s)) == Some(s),
{
}

/// With both upstream sources present and valid, automatic recovery returns
/// the shared configuration exactly when the two agree on every field, and
/// reports the two configurations as a mismatch otherwise.
pub proof fn lemma_auto_both_sources(c1: Config, c2: Config)
    ensures
        cfg_eq(c1, c2) ==> auto_found(Some(encode(c1)), Some(encode(c2))) == Some(encode(c1)),
        !cfg_eq(c1, c2) ==> auto_mismatch(Some(encode(c1)), Some(encode(c2))),
{
    assert(record_valid(encode(c1)));
    assert(record_valid(encode(c2)));
    if cfg_eq(c1, c2) {
        assert(encode(c1) == encode(c2));
    } else {
        if encode(c1) == encode(c2) {
            lemma_encode_injective(c1, c2);
            assert(false);
        }
    }
}

/// Round-trip law: publishing a configuration and then recovering by the
/// same link name yields a structurally equal configuration.  Publication
/// leaves the configuration's record in the channel, keyed recovery returns
/// a configuration whose record is that channel entry, and a record
/// determines its configuration.
pub proof fn lemma_publish_recover_roundtrip(published: Config, recovered: Config)
    requires
        encode(recovered) == encode(published),
    ensures
        cfg_eq(recovered, published),
{
    lemma_encode_injective(recovered, published);
}

} // verus!
