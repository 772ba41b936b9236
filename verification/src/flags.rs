use vstd::prelude::*;
use crate::cfg::{cfg_expr_matches, cfg_key_matches, preds_view, CfgPred, CfgPredV};
use crate::kinds::CompileKind;
use crate::strutil;
use crate::strutil::env_tokens_spec;

verus! {

/// The two families of extra flags that can be configured: those passed to
/// the compiler and those passed to the documentation generator.
#[derive(Clone, Copy, PartialEq, Eq, Structural, Debug)]
pub enum FlagFamily {
    Rustflags,
    Rustdocflags,
}

/// The configuration entries scoped to one platform short name.
#[derive(Debug)]
pub struct TargetConfig {
    pub rustflags: Option<Vec<String>>,
    pub rustdocflags: Option<Vec<String>>,
}

/// One predicate-scoped configuration section, keyed by a `cfg(..)`
/// expression kept in its textual form.
#[derive(Debug)]
pub struct CfgSection {
    pub key: String,
    pub rustflags: Option<Vec<String>>,
    pub rustdocflags: Option<Vec<String>>,
}

/// The slice of the layered configuration store that flag resolution reads:
/// the two environment overrides (present even when set to an empty string),
/// per-platform entries, predicate-scoped sections, and the global fallback.
#[derive(Debug)]
pub struct Config {
    pub env_rustflags: Option<String>,
    pub env_rustdocflags: Option<String>,
    pub target_configs: Vec<(String, TargetConfig)>,
    pub cfg_sections: Vec<CfgSection>,
    pub build_rustflags: Option<Vec<String>>,
    pub build_rustdocflags: Option<Vec<String>>,
}

pub open spec fn opt_flags(o: Option<Vec<String>>) -> Seq<Seq<char>> {
    match o {
        Option::Some(v) => v.deep_view(),
        Option::None => Seq::empty(),
    }
}

pub open spec fn opt_list_view(o: Option<Vec<String>>) -> Option<Seq<Seq<char>>> {
    match o {
        Option::Some(v) => Option::Some(v.deep_view()),
        Option::None => Option::None,
    }
}

pub open spec fn family_env(c: Config, fam: FlagFamily) -> Option<String> {
    match fam {
        FlagFamily::Rustflags => c.env_rustflags,
        FlagFamily::Rustdocflags => c.env_rustdocflags,
    }
}

pub open spec fn family_target_flags(tc: TargetConfig, fam: FlagFamily) -> Option<Vec<String>> {
    match fam {
        FlagFamily::Rustflags => tc.rustflags,
        FlagFamily::Rustdocflags => tc.rustdocflags,
    }
}

pub open spec fn family_section_flags(s: CfgSection, fam: FlagFamily) -> Option<Vec<String>> {
    match fam {
        FlagFamily::Rustflags => s.rustflags,
        FlagFamily::Rustdocflags => s.rustdocflags,
    }
}

pub open spec fn family_build_flags(c: Config, fam: FlagFamily) -> Option<Vec<String>> {
    match fam {
        FlagFamily::Rustflags => c.build_rustflags,
        FlagFamily::Rustdocflags => c.build_rustdocflags,
    }
}

/// The first per-platform entry whose key is `short`.
pub open spec fn tc_lookup(tcs: Seq<(String, TargetConfig)>, short: Seq<char>) -> Option<
    TargetConfig,
>
    decreases tcs.len(),
{
    if tcs.len() == 0 {
        Option::None
    } else if tcs[0].0@ == short {
        Option::Some(tcs[0].1)
    } else {
        tc_lookup(tcs.drop_first(), short)
    }
}

/// The flags contributed by the per-platform entry for `short`.
pub open spec fn direct_flags(c: Config, short: Seq<char>, fam: FlagFamily) -> Seq<Seq<char>> {
    match tc_lookup(c.target_configs@, short) {
        Option::Some(tc) => opt_flags(family_target_flags(tc, fam)),
        Option::None => Seq::empty(),
    }
}

/// The flags contributed by every predicate-scoped section whose `cfg(..)`
/// key matches the predicate list, in section order.
pub open spec fn section_flags(
    ss: Seq<CfgSection>,
    preds: Seq<CfgPredV>,
    fam: FlagFamily,
) -> Seq<Seq<char>>
    decreases ss.len(),
{
    if ss.len() == 0 {
        Seq::empty()
    } else {
        (match family_section_flags(ss[0], fam) {
            Option::Some(v) => if cfg_key_matches(ss[0].key@, preds) {
                v.deep_view()
            } else {
                Seq::empty()
            },
            Option::None => Seq::empty(),
        }) + section_flags(ss.drop_first(), preds, fam)
    }
}

/// The per-platform entry unioned with the matching predicate-scoped
/// entries; the predicate-scoped layer is consulted only when a predicate
/// list is available.
pub open spec fn combined_config_flags(
    c: Config,
    short: Seq<char>,
    preds: Option<Seq<CfgPredV>>,
    fam: FlagFamily,
) -> Seq<Seq<char>> {
    direct_flags(c, short, fam) + (match preds {
        Option::Some(ps) => section_flags(c.cfg_sections@, ps, fam),
        Option::None => Seq::empty(),
    })
}

/// The layered flag-resolution precedence, first match wins: the
/// cross-compilation guard, then the environment override, then the
/// per-platform entry unioned with matching predicate-scoped entries, then
/// the global fallback.
pub open spec fn resolved_flags_spec(
    c: Config,
    requested: CompileKind,
    host: Seq<char>,
    preds: Option<Seq<CfgPredV>>,
    kind: CompileKind,
    fam: FlagFamily,
) -> Seq<Seq<char>> {
    if !requested.is_host_spec() && kind.is_host_spec() {
        Seq::empty()
    } else {
        match family_env(c, fam) {
            Option::Some(e) => env_tokens_spec(e@),
            Option::None => {
                let comb = combined_config_flags(c, kind.short_name_spec(host), preds, fam);
                if comb.len() > 0 {
                    comb
                } else {
                    opt_flags(family_build_flags(c, fam))
                }
            },
        }
    }
}

/// Appends a copy of every string in `src` to `dst`, in order.
pub fn extend_strings(dst: &mut Vec<String>, src: &Vec<String>)
    ensures
        final(dst).deep_view() == old(dst).deep_view() + src.deep_view(),
{
    let ghost orig = dst.deep_view();
    let n = src.len();
    let mut k: usize = 0;
    proof {
        assert(dst.deep_view() =~= orig + src.deep_view().take(0));
    }
    while k < n
        invariant
            0 <= k <= n,
            n == src@.len(),
            dst.deep_view() == orig + src.deep_view().take(k as int),
        decreases n - k,
    {
        let ghost pre = dst@;
        dst.push(src[k].clone());
        proof {
            assert(dst@ == pre.push(src@[k as int]));
            assert(dst.deep_view() =~~= (orig + src.deep_view().take(k as int)).push(
                src@[k as int].deep_view(),
            ));
            assert((orig + src.deep_view().take(k as int)).push(src@[k as int].deep_view())
                =~~= orig + src.deep_view().take(k + 1 as int));
        }
        k = k + 1;
    }
    proof {
        assert(src.deep_view().take(n as int) =~= src.deep_view());
    }
}

/// The first per-platform config entry for the short name, if there is one.
fn lookup_target_config<'a>(tcs: &'a Vec<(String, TargetConfig)>, short: &str) -> (r: Option<
    &'a TargetConfig,
>)
    ensures
        match r {
            Option::Some(tc) => tc_lookup(tcs@, short@) == Option::Some(*tc),
            Option::None => tc_lookup(tcs@, short@) is None,
        },
{
    let n = tcs.len();
    let mut i: usize = 0;
    proof {
        assert(tcs@.skip(0) =~= tcs@);
    }
    while i < n
        invariant
            0 <= i <= n,
            n == tcs@.len(),
            tc_lookup(tcs@, short@) == tc_lookup(tcs@.skip(i as int), short@),
        decreases n - i,
    {
        proof {
            assert(tcs@.skip(i as int)[0] == tcs@[i as int]);
            assert(tcs@.skip(i as int).drop_first() =~= tcs@.skip(i + 1 as int));
        }
        if strutil::str_eq(tcs[i].0.as_str(), short) {
            return Some(&tcs[i].1);
        }
        i = i + 1;
    }
    proof {
        assert(tcs@.skip(n as int) =~= Seq::<(String, TargetConfig)>::empty());
    }
    None
}

impl Config {
    /// The per-platform config snapshot for the given short name; empty when
    /// the store has no entry for it.
    pub fn target_cfg_triple(&self, short: &str) -> (r: TargetConfig)
        ensures
            match tc_lookup(self.target_configs@, short@) {
                Option::Some(tc) => opt_list_view(r.rustflags) == opt_list_view(tc.rustflags)
                    && opt_list_view(r.rustdocflags) == opt_list_view(tc.rustdocflags),
                Option::None => r.rustflags is None && r.rustdocflags is None,
            },
    {
        match lookup_target_config(&self.target_configs, short) {
            Some(tc) => TargetConfig {
                rustflags: clone_opt_list(&tc.rustflags),
                rustdocflags: clone_opt_list(&tc.rustdocflags),
            },
            None => TargetConfig { rustflags: None, rustdocflags: None },
        }
    }
}

/// A copy of an optional flag list.
pub fn clone_opt_list(o: &Option<Vec<String>>) -> (r: Option<Vec<String>>)
    ensures
        opt_list_view(r) == opt_list_view(*o),
{
    match o {
        Some(v) => {
            let mut c: Vec<String> = Vec::new();
            extend_strings(&mut c, v);
            proof {
                assert(c.deep_view() =~= v.deep_view());
            }
            Some(c)
        },
        None => None,
    }
}

/// Resolves the extra flags of one family for the platform `kind`, layer by
/// layer: nothing when a named target was requested but the host is being
/// resolved; otherwise the environment override if set; otherwise the
/// per-platform entry unioned with the matching predicate-scoped entries, if
/// that union is not empty; otherwise the global fallback.
pub fn env_args(
    config: &Config,
    requested_kind: &CompileKind,
    host_triple: &str,
    target_cfg: Option<&Vec<CfgPred>>,
    kind: &CompileKind,
    family: FlagFamily,
) -> (r: Vec<String>)
    ensures
        r.deep_view() == resolved_flags_spec(
            *config,
            *requested_kind,
            host_triple@,
            match target_cfg {
                Option::Some(v) => Option::Some(preds_view(v@)),
                Option::None => Option::None,
            },
            *kind,
            family,
        ),
{
    let ghost predsg: Option<Seq<CfgPredV>> = match target_cfg {
        Option::Some(v) => Option::Some(preds_view(v@)),
        Option::None => Option::None,
    };
    if !requested_kind.is_host() && kind.is_host() {
        let r: Vec<String> = Vec::new();
        proof {
            assert(r.deep_view() =~= Seq::<Seq<char>>::empty());
        }
        return r;
    }
    let env_val: &Option<String> = match family {
        FlagFamily::Rustflags => &config.env_rustflags,
        FlagFamily::Rustdocflags => &config.env_rustdocflags,
    };
    match env_val {
        Some(s) => {
            return strutil::split_tokens(s.as_str());
        },
        None => {},
    }
    let short: &str = match kind {
        CompileKind::Host => host_triple,
        CompileKind::Target(t) => t.short_name(),
    };
    proof {
        assert(short@ == kind.short_name_spec(host_triple@));
    }
    let mut flags: Vec<String> = Vec::new();
    match lookup_target_config(&config.target_configs, short) {
        Some(tc) => {
            let fam_list: &Option<Vec<String>> = match family {
                FlagFamily::Rustflags => &tc.rustflags,
                FlagFamily::Rustdocflags => &tc.rustdocflags,
            };
            match fam_list {
                Some(list) => {
                    extend_strings(&mut flags, list);
                    proof {
                        assert(flags.deep_view() =~= direct_flags(*config, short@, family));
                    }
                },
                None => {
                    proof {
                        assert(flags.deep_view() =~= direct_flags(*config, short@, family));
                    }
                },
            }
        },
        None => {
            proof {
                assert(flags.deep_view() =~= direct_flags(*config, short@, family));
            }
        },
    }
    match target_cfg {
        Some(preds) => {
            let ghost psv = preds_view(preds@);
            let ghost direct = flags.deep_view();
            let m = config.cfg_sections.len();
            let mut j: usize = 0;
            proof {
                assert(config.cfg_sections@.skip(0) =~= config.cfg_sections@);
                assert(flags.deep_view() + section_flags(config.cfg_sections@, psv, family)
                    =~= direct + section_flags(config.cfg_sections@.skip(0), psv, family));
            }
            while j < m
                invariant
                    0 <= j <= m,
                    m == config.cfg_sections@.len(),
                    psv == preds_view(preds@),
                    direct + section_flags(config.cfg_sections@, psv, family)
                        == flags.deep_view() + section_flags(
                        config.cfg_sections@.skip(j as int),
                        psv,
                        family,
                    ),
                decreases m - j,
            {
                proof {
                    assert(config.cfg_sections@.skip(j as int)[0] == config.cfg_sections@[j as int]);
                    assert(config.cfg_sections@.skip(j as int).drop_first() =~= config.cfg_sections@.skip(
                        j + 1 as int,
                    ));
                }
                let sec = &config.cfg_sections[j];
                let ghost before = flags.deep_view();
                let sec_list: &Option<Vec<String>> = match family {
                    FlagFamily::Rustflags => &sec.rustflags,
                    FlagFamily::Rustdocflags => &sec.rustdocflags,
                };
                match sec_list {
                    Some(list) => {
                        if cfg_expr_matches(sec.key.as_str(), preds) {
                            extend_strings(&mut flags, list);
                        }
                    },
                    None => {},
                }
                proof {
                    let sec_part = match family_section_flags(config.cfg_sections@[j as int], family) {
                        Option::Some(v) => if cfg_key_matches(config.cfg_sections@[j as int].key@, psv) {
                            v.deep_view()
                        } else {
                            Seq::<Seq<char>>::empty()
                        },
                        Option::None => Seq::<Seq<char>>::empty(),
                    };
                    assert(flags.deep_view() =~= before + sec_part);
                    assert(section_flags(config.cfg_sections@.skip(j as int), psv, family)
                        == sec_part + section_flags(config.cfg_sections@.skip(j + 1 as int), psv, family));
                    assert(before + (sec_part + section_flags(
                        config.cfg_sections@.skip(j + 1 as int),
                        psv,
                        family,
                    )) =~= (before + sec_part) + section_flags(
                        config.cfg_sections@.skip(j + 1 as int),
                        psv,
                        family,
                    ));
                }
                j = j + 1;
            }
            proof {
                assert(config.cfg_sections@.skip(m as int) =~= Seq::<CfgSection>::empty());
                assert(section_flags(config.cfg_sections@.skip(m as int), psv, family)
                    =~= Seq::<Seq<char>>::empty());
                assert(flags.deep_view() =~= direct + section_flags(
                    config.cfg_sections@,
                    psv,
                    family,
                ));
                assert(flags.deep_view() =~= combined_config_flags(
                    *config,
                    short@,
                    predsg,
                    family,
                ));
            }
        },
        None => {
            proof {
                assert(flags.deep_view() =~= combined_config_flags(
                    *config,
                    short@,
                    predsg,
                    family,
                ));
            }
        },
    }
    if flags.len() > 0 {
        proof {
            assert(flags.deep_view().len() == flags@.len());
        }
        return flags;
    }
    proof {
        assert(flags.deep_view().len() == flags@.len());
        assert(combined_config_flags(*config, short@, predsg, family).len() == 0);
    }
    let build_list: &Option<Vec<String>> = match family {
        FlagFamily::Rustflags => &config.build_rustflags,
        FlagFamily::Rustdocflags => &config.build_rustdocflags,
    };
    match build_list {
        Some(list) => {
            let mut r: Vec<String> = Vec::new();
            extend_strings(&mut r, list);
            proof {
                assert(r.deep_view() =~= list.deep_view());
            }
            r
        },
        None => {
            let r: Vec<String> = Vec::new();
            proof {
                assert(r.deep_view() =~= Seq::<Seq<char>>::empty());
            }
            r
        },
    }
}

// ---------------------------------------------------------------------------
// Laws of the precedence algorithm
// ---------------------------------------------------------------------------

/// Requesting a named target while resolving flags for the host always
/// yields an empty list, whatever the configuration holds.
pub proof fn lemma_cross_compilation_guard(
    c: Config,
    requested: CompileKind,
    host: Seq<char>,
    preds: Option<Seq<CfgPredV>>,
    kind: CompileKind,
    fam: FlagFamily,
)
    requires
        !requested.is_host_spec(),
        kind.is_host_spec(),
    ensures
        resolved_flags_spec(c, requested, host, preds, kind, fam) == Seq::<Seq<char>>::empty(),
{
}

/// With an environment override set, configuration entries are never
/// consulted: two stores with the same override resolve to the same list
/// (the override's tokens, wherever the guard does not empty the result),
/// however their config entries differ.
pub proof fn lemma_env_override_ignores_config(
    c1: Config,
    c2: Config,
    requested: CompileKind,
    host: Seq<char>,
    preds: Option<Seq<CfgPredV>>,
    kind: CompileKind,
    fam: FlagFamily,
)
    requires
        family_env(c1, fam) is Some,
        family_env(c2, fam) is Some,
        family_env(c1, fam)->0@ == family_env(c2, fam)->0@,
    ensures
        resolved_flags_spec(c1, requested, host, preds, kind, fam) == resolved_flags_spec(
            c2,
            requested,
            host,
            preds,
            kind,
            fam,
        ),
        !(!requested.is_host_spec() && kind.is_host_spec()) ==> resolved_flags_spec(
            c1,
            requested,
            host,
            preds,
            kind,
            fam,
        ) == env_tokens_spec(family_env(c1, fam)->0@),
{
}

/// Predicate-scoped entries are unioned only with the direct per-platform
/// entry, and only when a predicate list is available; the global fallback
/// is skipped exactly when that union is not empty.
pub proof fn lemma_config_union_and_fallback(
    c: Config,
    requested: CompileKind,
    host: Seq<char>,
    preds: Option<Seq<CfgPredV>>,
    kind: CompileKind,
    fam: FlagFamily,
)
    requires
        !(!requested.is_host_spec() && kind.is_host_spec()),
        family_env(c, fam) is None,
    ensures
        combined_config_flags(c, kind.short_name_spec(host), preds, fam).len() > 0
            ==> resolved_flags_spec(c, requested, host, preds, kind, fam)
            == combined_config_flags(c, kind.short_name_spec(host), preds, fam),
        combined_config_flags(c, kind.short_name_spec(host), preds, fam).len() == 0
            ==> resolved_flags_spec(c, requested, host, preds, kind, fam) == opt_flags(
            family_build_flags(c, fam),
        ),
        preds is None ==> combined_config_flags(c, kind.short_name_spec(host), preds, fam)
            =~= direct_flags(c, kind.short_name_spec(host), fam),
{
}

} // verus!
