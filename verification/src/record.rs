//! The propagation record: a textual, self-describing, round-trippable
//! encoding of a build configuration, used as the payload of the
//! configuration-propagation channel.
//!
//! The encoding is `wdk-config/<ARCH>/<KIND>/<ROOT>`, where `<ARCH>` is
//! `AMD64` or `ARM64`, `<KIND>` is `WDM` or `KMDF-mmm.nnn` or `UMDF-mmm.nnn`
//! with three-digit version numbers, and `<ROOT>` is the content root, taken
//! verbatim to the end of the record.  The serializer emits exactly this
//! shape and the parser accepts nothing else, so a record determines its
//! configuration uniquely.

use vstd::prelude::*;
use vstd::string::StrSliceExecFns;
use vstd::string::StringExecFns;

use crate::config::CPUArchitecture;
use crate::config::Config;
use crate::config::DriverConfig;
use crate::config::KMDFConfig;
use crate::config::UMDFConfig;
use crate::config::cfg_eq;
use crate::text::append_dec3;
use crate::text::dec3;
use crate::text::match_at;
use crate::text::match_lit;

verus! {

/// The record segment naming the architecture.
pub open spec fn arch_tag(a: CPUArchitecture) -> Seq<char> {
    match a {
        CPUArchitecture::AMD64 => "AMD64/"@,
        CPUArchitecture::ARM64 => "ARM64/"@,
    }
}

/// The record segment naming the driver kind and, where one exists, its
/// framework version pair.
pub open spec fn kind_tag(k: DriverConfig) -> Seq<char> {
    match k {
        DriverConfig::WDM() => "WDM/"@,
        DriverConfig::KMDFConfig(v) => "KMDF-"@ + dec3(v.kmdf_version_major) + "."@ + dec3(
            v.kmdf_version_minor,
        ) + "/"@,
        DriverConfig::UMDFConfig(v) => "UMDF-"@ + dec3(v.umdf_version_major) + "."@ + dec3(
            v.umdf_version_minor,
        ) + "/"@,
    }
}

/// The full record text of a configuration.
pub open spec fn encode(c: Config) -> Seq<char> {
    "wdk-config/"@ + arch_tag(c.cpu_architecture) + kind_tag(c.driver_config)
        + c.wdk_content_root@
}

/// Unfolds a record into its four regions at concrete character positions:
/// the format marker at 0, the architecture tag at 11, the kind tag at 17,
/// and the content root after the kind tag.
proof fn lemma_encode_parts(c: Config)
    ensures
        arch_tag(c.cpu_architecture).len() == 6,
        encode(c).len() == 17 + kind_tag(c.driver_config).len() + c.wdk_content_root@.len(),
        encode(c).subrange(0, 11) == "wdk-config/"@,
        encode(c).subrange(11, 17) == arch_tag(c.cpu_architecture),
        encode(c).subrange(17, 17 + kind_tag(c.driver_config).len() as int) == kind_tag(
            c.driver_config,
        ),
        encode(c).subrange(
            17 + kind_tag(c.driver_config).len() as int,
            encode(c).len() as int,
        ) == c.wdk_content_root@,
        c.driver_config matches DriverConfig::WDM() ==> kind_tag(c.driver_config).len() == 4,
        c.driver_config matches DriverConfig::KMDFConfig(v) ==> {
            &&& kind_tag(c.driver_config).len() == 13
            &&& encode(c).subrange(17, 22) == "KMDF-"@
            &&& encode(c).subrange(22, 25) == dec3(v.kmdf_version_major)
            &&& encode(c).subrange(25, 26) == "."@
            &&& encode(c).subrange(26, 29) == dec3(v.kmdf_version_minor)
            &&& encode(c).subrange(29, 30) == "/"@
        },
        c.driver_config matches DriverConfig::UMDFConfig(v) ==> {
            &&& kind_tag(c.driver_config).len() == 13
            &&& encode(c).subrange(17, 22) == "UMDF-"@
            &&& encode(c).subrange(22, 25) == dec3(v.umdf_version_major)
            &&& encode(c).subrange(25, 26) == "."@
            &&& encode(c).subrange(26, 29) == dec3(v.umdf_version_minor)
            &&& encode(c).subrange(29, 30) == "/"@
        },
{
    reveal_strlit("wdk-config/");
    reveal_strlit("AMD64/");
    reveal_strlit("ARM64/");
    reveal_strlit("WDM/");
    reveal_strlit("KMDF-");
    reveal_strlit("UMDF-");
    reveal_strlit(".");
    reveal_strlit("/");
    match c.cpu_architecture {
        CPUArchitecture::AMD64 => assert(arch_tag(c.cpu_architecture).len() == 6),
        CPUArchitecture::ARM64 => assert(arch_tag(c.cpu_architecture).len() == 6),
    }
    let e = encode(c);
    let kl = kind_tag(c.driver_config).len() as int;
    match c.driver_config {
        DriverConfig::WDM() => assert(kl == 4),
        DriverConfig::KMDFConfig(v) => assert(kl == 13),
        DriverConfig::UMDFConfig(v) => assert(kl == 13),
    }
    assert(e.subrange(0, 11) =~= "wdk-config/"@);
    assert(e.subrange(11, 17) =~= arch_tag(c.cpu_architecture));
    assert(e.subrange(17, 17 + kl) =~= kind_tag(c.driver_config));
    assert(e.subrange(17 + kl, e.len() as int) =~= c.wdk_content_root@);
    match c.driver_config {
        DriverConfig::WDM() => {},
        DriverConfig::KMDFConfig(v) => {
            assert(e.subrange(17, 22) =~= "KMDF-"@);
            assert(e.subrange(22, 25) =~= dec3(v.kmdf_version_major));
            assert(e.subrange(25, 26) =~= "."@);
            assert(e.subrange(26, 29) =~= dec3(v.kmdf_version_minor));
            assert(e.subrange(29, 30) =~= "/"@);
        },
        DriverConfig::UMDFConfig(v) => {
            assert(e.subrange(17, 22) =~= "UMDF-"@);
            assert(e.subrange(22, 25) =~= dec3(v.umdf_version_major));
            assert(e.subrange(25, 26) =~= "."@);
            assert(e.subrange(26, 29) =~= dec3(v.umdf_version_minor));
            assert(e.subrange(29, 30) =~= "/"@);
        },
    }
}

/// A record determines its configuration: two configurations with the same
/// record text agree on every field.
pub proof fn lemma_encode_injective(c1: Config, c2: Config)
    requires
        encode(c1) == encode(c2),
    ensures
        cfg_eq(c1, c2),
{
    reveal_strlit("AMD64/");
    reveal_strlit("ARM64/");
    reveal_strlit("WDM/");
    reveal_strlit("KMDF-");
    reveal_strlit("UMDF-");
    lemma_encode_parts(c1);
    lemma_encode_parts(c2);
    let e = encode(c1);
    assert(arch_tag(c1.cpu_architecture) == arch_tag(c2.cpu_architecture));
    if c1.cpu_architecture != c2.cpu_architecture {
        assert(arch_tag(c1.cpu_architecture)[1] != arch_tag(c2.cpu_architecture)[1]);
        assert(false);
    }
    let k1 = kind_tag(c1.driver_config);
    let k2 = kind_tag(c2.driver_config);
    assert(e[17] == k1[0] && e[17] == k2[0]);
    match (c1.driver_config, c2.driver_config) {
        (DriverConfig::WDM(), DriverConfig::WDM()) => {},
        (DriverConfig::KMDFConfig(v1), DriverConfig::KMDFConfig(v2)) => {
            assert(dec3(v1.kmdf_version_major) == dec3(v2.kmdf_version_major));
            assert(dec3(v1.kmdf_version_minor) == dec3(v2.kmdf_version_minor));
            lemma_dec3_injective(v1.kmdf_version_major, v2.kmdf_version_major);
            lemma_dec3_injective(v1.kmdf_version_minor, v2.kmdf_version_minor);
        },
        (DriverConfig::UMDFConfig(v1), DriverConfig::UMDFConfig(v2)) => {
            assert(dec3(v1.umdf_version_major) == dec3(v2.umdf_version_major));
            assert(dec3(v1.umdf_version_minor) == dec3(v2.umdf_version_minor));
            lemma_dec3_injective(v1.umdf_version_major, v2.umdf_version_major);
            lemma_dec3_injective(v1.umdf_version_minor, v2.umdf_version_minor);
        },
        _ => {
            assert(k1[0] != k2[0]);
            assert(false);
        },
    }
    assert(kind_tag(c1.driver_config).len() == kind_tag(c2.driver_config).len());
    assert(c1.wdk_content_root@ == c2.wdk_content_root@);
}

/// Three-digit renderings of distinct bytes are distinct.
proof fn lemma_dec3_injective(v: u8, w: u8)
    requires
        dec3(v) == dec3(w),
    ensures
        v == w,
{
    assert(dec3(v)[0] == dec3(w)[0] && dec3(v)[1] == dec3(w)[1] && dec3(v)[2] == dec3(w)[2]);
    assert(v as int / 100 == w as int / 100 && (v as int / 10) % 10 == (w as int / 10) % 10
        && v as int % 10 == w as int % 10);
    assert(v as int == 100 * (v as int / 100) + 10 * ((v as int / 10) % 10) + v as int % 10)
        by (nonlinear_arith);
    assert(w as int == 100 * (w as int / 100) + 10 * ((w as int / 10) % 10) + w as int % 10)
        by (nonlinear_arith);
}

/// Renders the record text of a configuration.
pub fn serialize_config(c: &Config) -> (r: String)
    ensures
        r@ == encode(*c),
{
    let mut s = "wdk-config/".to_owned();
    match c.cpu_architecture {
        CPUArchitecture::AMD64 => s.append("AMD64/"),
        CPUArchitecture::ARM64 => s.append("ARM64/"),
    }
    match &c.driver_config {
        DriverConfig::WDM() => s.append("WDM/"),
        DriverConfig::KMDFConfig(v) => {
            s.append("KMDF-");
            append_dec3(&mut s, v.kmdf_version_major);
            s.append(".");
            append_dec3(&mut s, v.kmdf_version_minor);
            s.append("/");
        },
        DriverConfig::UMDFConfig(v) => {
            s.append("UMDF-");
            append_dec3(&mut s, v.umdf_version_major);
            s.append(".");
            append_dec3(&mut s, v.umdf_version_minor);
            s.append("/");
        },
    }
    s.append(c.wdk_content_root.as_str());
    assert(s@ =~= encode(*c));
    s
}

/// Reads three digit characters at position `i` as a byte value.  Succeeds
/// exactly when `s` is long enough, all three characters are digits, and the
/// value fits in a byte; the value read is the one whose rendering stands
/// there.
fn read_dec3(s: &str, i: usize) -> (r: Option<u8>)
    requires
        i <= s@.len(),
        i + 3 < usize::MAX,
    ensures
        r matches Some(v) ==> i + 3 <= s@.len() && s@.subrange(i as int, i + 3) == dec3(v),
        forall|v: u8|
            i + 3 <= s@.len() && s@.subrange(i as int, i + 3) == dec3(v) ==> r == Some(v),
{
    let n = s.unicode_len();
    if n - i < 3 {
        return None;
    }
    let u1 = s.get_char(i) as u32;
    let u2 = s.get_char(i + 1) as u32;
    let u3 = s.get_char(i + 2) as u32;
    if u1 < 48 || u1 > 57 || u2 < 48 || u2 > 57 || u3 < 48 || u3 > 57 {
        proof {
            assert forall|v: u8| s@.subrange(i as int, i + 3) == dec3(v) implies false by {
                assert(s@[i as int] == dec3(v)[0] && s@[i + 1] == dec3(v)[1] && s@[i + 2]
                    == dec3(v)[2]);
            }
        }
        return None;
    }
    let val: u32 = (u1 - 48) * 100 + (u2 - 48) * 10 + (u3 - 48);
    if val > 255 {
        proof {
            assert forall|v: u8| s@.subrange(i as int, i + 3) == dec3(v) implies false by {
                assert(s@[i as int] == dec3(v)[0] && s@[i + 1] == dec3(v)[1] && s@[i + 2]
                    == dec3(v)[2]);
                lemma_dec3_value(v);
                assert(u1 - 48 == v as int / 100 && u2 - 48 == (v as int / 10) % 10 && u3 - 48
                    == v as int % 10);
            }
        }
        return None;
    }
    let v = val as u8;
    proof {
        lemma_dec3_value(v);
        assert((u1 - 48) < 10 && (u2 - 48) < 10 && (u3 - 48) < 10);
        assert(v as int / 100 == u1 - 48 && (v as int / 10) % 10 == u2 - 48 && v as int % 10 == u3
            - 48) by (nonlinear_arith)
            requires
                v as int == (u1 - 48) * 100 + (u2 - 48) * 10 + (u3 - 48),
                0 <= u1 - 48 < 10,
                0 <= u2 - 48 < 10,
                0 <= u3 - 48 < 10,
        ;
        assert(s@.subrange(i as int, i + 3) =~= dec3(v));
        assert forall|w: u8| s@.subrange(i as int, i + 3) == dec3(w) implies Some(v) == Some(
            w,
        ) by {
            lemma_dec3_injective(v, w);
        }
    }
    Some(v)
}

/// The three digit values of a byte's rendering rebuild the byte.
proof fn lemma_dec3_value(v: u8)
    ensures
        v as int == (v as int / 100) * 100 + ((v as int / 10) % 10) * 10 + v as int % 10,
        0 <= v as int / 100 < 10,
        0 <= (v as int / 10) % 10 < 10,
        0 <= v as int % 10 < 10,
{
    assert(v as int == (v as int / 100) * 100 + ((v as int / 10) % 10) * 10 + v as int % 10)
        by (nonlinear_arith);
    assert(0 <= v as int / 100 < 10 && 0 <= (v as int / 10) % 10 < 10 && 0 <= v as int % 10 < 10)
        by (nonlinear_arith);
}

/// Parses a record text back into a configuration.  Returns the
/// configuration whose record the input is, and nothing on any input that is
/// not the record of some configuration.
#[verifier::rlimit(100)]
pub fn deserialize_config(s: &str) -> (r: Option<Config>)
    ensures
        r matches Some(c) ==> encode(c) == s@,
        forall|c: Config| encode(c) == s@ ==> r is Some,
{
    proof {
        reveal_strlit("wdk-config/");
        reveal_strlit("AMD64/");
        reveal_strlit("ARM64/");
        reveal_strlit("WDM/");
        reveal_strlit("KMDF-");
        reveal_strlit("UMDF-");
        reveal_strlit(".");
        reveal_strlit("/");
    }
    let n = s.unicode_len();
    if !match_lit(s, 0, "wdk-config/") {
        proof {
            assert forall|c: Config| encode(c) != s@ by {
                if encode(c) == s@ {
                    lemma_encode_parts(c);
                    assert(match_at(s@, 0, "wdk-config/"@));
                }
            }
        }
        return None;
    }
    let arch = if match_lit(s, 11, "AMD64/") {
        CPUArchitecture::AMD64
    } else if match_lit(s, 11, "ARM64/") {
        CPUArchitecture::ARM64
    } else {
        proof {
            assert forall|c: Config| encode(c) != s@ by {
                if encode(c) == s@ {
                    lemma_encode_parts(c);
                    assert(match_at(s@, 11, arch_tag(c.cpu_architecture)));
                    match c.cpu_architecture {
                        CPUArchitecture::AMD64 => assert(match_at(s@, 11, "AMD64/"@)),
                        CPUArchitecture::ARM64 => assert(match_at(s@, 11, "ARM64/"@)),
                    }
                }
            }
        }
        return None;
    };
    assert(s@.subrange(11, 17) == arch_tag(arch));
    if match_lit(s, 17, "WDM/") {
        let root = s.substring_char(21, n).to_owned();
        let c = Config { wdk_content_root: root, driver_config: DriverConfig::WDM(), cpu_architecture: arch };
        proof {
            lemma_encode_parts(c);
            assert(encode(c) =~= s@);
        }
        return Some(c);
    }
    let is_kmdf = match_lit(s, 17, "KMDF-");
    let is_umdf = match_lit(s, 17, "UMDF-");
    if !is_kmdf && !is_umdf {
        proof {
            assert forall|c: Config| encode(c) != s@ by {
                if encode(c) == s@ {
                    lemma_encode_parts(c);
                    match c.driver_config {
                        DriverConfig::WDM() => assert(match_at(s@, 17, "WDM/"@)),
                        DriverConfig::KMDFConfig(v) => assert(match_at(s@, 17, "KMDF-"@)),
                        DriverConfig::UMDFConfig(v) => assert(match_at(s@, 17, "UMDF-"@)),
                    }
                }
            }
        }
        return None;
    }
    // A record of any other driver kind would carry a different character at
    // position 17, so from here only the matched framework kind can fit.
    let ghost framework_fits = |c: Config|
        match c.driver_config {
            DriverConfig::WDM() => false,
            DriverConfig::KMDFConfig(v) => is_kmdf,
            DriverConfig::UMDFConfig(v) => is_umdf,
        };
    proof {
        assert forall|c: Config| encode(c) == s@ implies framework_fits(c) by {
            lemma_encode_parts(c);
            match c.driver_config {
                DriverConfig::WDM() => {
                    assert(s@.subrange(17, 21) == "WDM/"@);
                    assert(s@[17] == 'W');
                    assert(s@.subrange(17, 22)[0] == s@[17]);
                    assert(false);
                },
                DriverConfig::KMDFConfig(v) => {
                    assert(s@.subrange(17, 22) == "KMDF-"@);
                    if !is_kmdf {
                        assert(match_at(s@, 17, "KMDF-"@));
                        assert(false);
                    }
                },
                DriverConfig::UMDFConfig(v) => {
                    assert(s@.subrange(17, 22) == "UMDF-"@);
                    if !is_umdf {
                        assert(match_at(s@, 17, "UMDF-"@));
                        assert(false);
                    }
                },
            }
        }
    }
    let major = match read_dec3(s, 22) {
        Some(v) => v,
        None => {
            proof {
                assert forall|c: Config| encode(c) != s@ by {
                    if encode(c) == s@ {
                        lemma_encode_parts(c);
                        assert(framework_fits(c));
                    }
                }
            }
            return None;
        },
    };
    if !match_lit(s, 25, ".") {
        proof {
            assert forall|c: Config| encode(c) != s@ by {
                if encode(c) == s@ {
                    lemma_encode_parts(c);
                    assert(framework_fits(c));
                    assert(match_at(s@, 25, "."@));
                }
            }
        }
        return None;
    }
    let minor = match read_dec3(s, 26) {
        Some(v) => v,
        None => {
            proof {
                assert forall|c: Config| encode(c) != s@ by {
                    if encode(c) == s@ {
                        lemma_encode_parts(c);
                        assert(framework_fits(c));
                    }
                }
            }
            return None;
        },
    };
    if !match_lit(s, 29, "/") {
        proof {
            assert forall|c: Config| encode(c) != s@ by {
                if encode(c) == s@ {
                    lemma_encode_parts(c);
                    assert(framework_fits(c));
                    assert(match_at(s@, 29, "/"@));
                }
            }
        }
        return None;
    }
    let root = s.substring_char(30, n).to_owned();
    let driver_config = if is_kmdf {
        DriverConfig::KMDFConfig(KMDFConfig { kmdf_version_major: major, kmdf_version_minor: minor })
    } else {
        DriverConfig::UMDFConfig(UMDFConfig { umdf_version_major: major, umdf_version_minor: minor })
    };
    let c = Config { wdk_content_root: root, driver_config, cpu_architecture: arch };
    proof {
        lemma_encode_parts(c);
        assert(encode(c) =~= s@);
    }
    Some(c)
}

} // verus!
