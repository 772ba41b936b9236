use vstd::prelude::*;
use vstd::string::StringExecFns;
use crate::cfg::{cfg_expr_matches, cfg_key_matches, preds_view, CfgPred};
use crate::errors::ProbeError;
use crate::flags::{opt_list_view, tc_lookup, Config, TargetConfig};
use crate::kinds::{CompileKind, CompileTarget, Dependency, PlatformSpec, ProcessOutcome, Rustc};
use crate::probe::{probe_ok_spec, ti_model, TargetInfo, TargetInfoV};
use crate::strutil;

verus! {

/// The first platform information recorded under the triple `name`.
pub open spec fn info_lookup(s: Seq<(CompileTarget, TargetInfo)>, name: Seq<char>) -> Option<
    TargetInfo,
>
    decreases s.len(),
{
    if s.len() == 0 {
        Option::None
    } else if s[0].0.name@ == name {
        Option::Some(s[0].1)
    } else {
        info_lookup(s.drop_first(), name)
    }
}

/// The first config snapshot recorded under the triple `name`.
pub open spec fn config_lookup(s: Seq<(CompileTarget, TargetConfig)>, name: Seq<char>) -> Option<
    TargetConfig,
>
    decreases s.len(),
{
    if s.len() == 0 {
        Option::None
    } else if s[0].0.name@ == name {
        Option::Some(s[0].1)
    } else {
        config_lookup(s.drop_first(), name)
    }
}

/// Everything the planner asks about the toolchain and the platforms it
/// compiles for: one host `TargetInfo`, and one per requested target, with
/// the matching config snapshots.
pub struct RustcTargetData {
    /// What is known about the toolchain binary itself.
    pub rustc: Rustc,
    /// The config snapshot for the host platform.
    pub host_config: TargetConfig,
    /// The host platform's information, probed without target selection.
    pub host_info: TargetInfo,
    /// The config snapshot per requested target; empty for host-only
    /// requests, and holding exactly the requested target otherwise.
    pub target_config: Vec<(CompileTarget, TargetConfig)>,
    /// The platform information per requested target, keyed as
    /// `target_config` is.
    pub target_info: Vec<(CompileTarget, TargetInfo)>,
}

impl RustcTargetData {
    /// The platform information held for `kind`, if any.
    pub open spec fn info_view(&self, kind: CompileKind) -> Option<TargetInfoV> {
        match kind {
            CompileKind::Host => Option::Some(self.host_info@),
            CompileKind::Target(t) => match info_lookup(self.target_info@, t.name@) {
                Option::Some(ti) => Option::Some(ti@),
                Option::None => Option::None,
            },
        }
    }

    /// The config snapshot held for `kind`, as flag-list views, if any.
    pub open spec fn config_view(&self, kind: CompileKind) -> Option<
        (Option<Seq<Seq<char>>>, Option<Seq<Seq<char>>>),
    > {
        match kind {
            CompileKind::Host => Option::Some(
                (
                    opt_list_view(self.host_config.rustflags),
                    opt_list_view(self.host_config.rustdocflags),
                ),
            ),
            CompileKind::Target(t) => match config_lookup(self.target_config@, t.name@) {
                Option::Some(tc) => Option::Some(
                    (opt_list_view(tc.rustflags), opt_list_view(tc.rustdocflags)),
                ),
                Option::None => Option::None,
            },
        }
    }

    pub open spec fn has_info(&self, kind: CompileKind) -> bool {
        self.info_view(kind) is Some
    }

    pub open spec fn has_config(&self, kind: CompileKind) -> bool {
        self.config_view(kind) is Some
    }

    /// Whether a dependency restricted to `platform` is active when
    /// compiling for `kind`: unrestricted dependencies always are; a named
    /// restriction must equal the platform's short name; a `cfg(..)`
    /// restriction must match the platform's predicate list.
    pub open spec fn dep_activated_spec(&self, dep: Dependency, kind: CompileKind) -> bool {
        match dep.platform {
            Option::None => true,
            Option::Some(PlatformSpec::Name(n)) => n@ == kind.short_name_spec(self.rustc.host@),
            Option::Some(PlatformSpec::CfgKey(k)) => cfg_key_matches(
                k@,
                self.info_view(kind)->0.cfg,
            ),
        }
    }

    /// Builds the platform data for the requested platform from the
    /// captured probe outcomes: always the host probe, and exactly one
    /// target probe when a named target was requested. Every target key in
    /// the info map has its key in the config map, and vice versa.
    #[verifier::loop_isolation(false)]
    pub fn new(
        config: &Config,
        rustc: Rustc,
        requested_kind: &CompileKind,
        host_os_windows: bool,
        host_probe: &ProcessOutcome,
        host_bitcode_ok: bool,
        target_probe: Option<&ProcessOutcome>,
    ) -> (r: Result<RustcTargetData, ProbeError>)
        requires
            requested_kind.is_host_spec() <==> target_probe is None,
        ensures
            r is Ok <==> ({
                &&& host_probe matches ProcessOutcome::Success { stdout, stderr }
                &&& probe_ok_spec(stdout@, stderr@)
                &&& match target_probe {
                    Option::Some(tp) => tp matches ProcessOutcome::Success { stdout, stderr }
                        && probe_ok_spec(stdout@, stderr@),
                    Option::None => true,
                }
            }),
            r matches Ok(d) ==> ({
                &&& d.rustc.path@ == rustc.path@
                &&& d.rustc.host@ == rustc.host@
                &&& (host_probe matches ProcessOutcome::Success { stdout, stderr }
                    ==> d.info_view(CompileKind::Host) == Option::Some(
                    ti_model(
                        *config,
                        *requested_kind,
                        rustc.path@,
                        rustc.host@,
                        host_os_windows,
                        CompileKind::Host,
                        stdout@,
                        stderr@,
                        Option::Some(host_bitcode_ok),
                    ),
                ))
                &&& d.config_view(CompileKind::Host) == Option::Some(
                    (
                        match tc_lookup(config.target_configs@, rustc.host@) {
                            Option::Some(tc) => opt_list_view(tc.rustflags),
                            Option::None => Option::None,
                        },
                        match tc_lookup(config.target_configs@, rustc.host@) {
                            Option::Some(tc) => opt_list_view(tc.rustdocflags),
                            Option::None => Option::None,
                        },
                    ),
                )
                &&& (match (requested_kind, target_probe) {
                    (CompileKind::Target(t), Option::Some(tp)) => ({
                        &&& d.has_info(*requested_kind)
                        &&& d.config_view(*requested_kind) == Option::Some(
                            (
                                match tc_lookup(config.target_configs@, t.name@) {
                                    Option::Some(tc) => opt_list_view(tc.rustflags),
                                    Option::None => Option::None,
                                },
                                match tc_lookup(config.target_configs@, t.name@) {
                                    Option::Some(tc) => opt_list_view(tc.rustdocflags),
                                    Option::None => Option::None,
                                },
                            ),
                        )
                        &&& (tp matches ProcessOutcome::Success { stdout, stderr }
                            ==> d.info_view(*requested_kind) == Option::Some(
                            ti_model(
                                *config,
                                *requested_kind,
                                rustc.path@,
                                rustc.host@,
                                host_os_windows,
                                *requested_kind,
                                stdout@,
                                stderr@,
                                Option::None,
                            ),
                        ))
                    }),
                    _ => true,
                })
                &&& (forall|k: CompileKind|
                    #[trigger] d.has_info(k) <==> #[trigger] d.has_config(k) || k
                        matches CompileKind::Host)
                &&& (requested_kind matches CompileKind::Host ==> forall|u: CompileTarget|
                    !(#[trigger] d.has_info(CompileKind::Target(u))))
                &&& (match requested_kind {
                    CompileKind::Target(t) => forall|u: CompileTarget|
                        #[trigger] d.has_info(CompileKind::Target(u)) ==> u.name@ == t.name@,
                    CompileKind::Host => true,
                })
            }),
    {
        let host_config = config.target_cfg_triple(rustc.host.as_str());
        let host_info = match TargetInfo::new(
            config,
            requested_kind,
            &rustc,
            &CompileKind::Host,
            host_os_windows,
            host_probe,
            Some(host_bitcode_ok),
        ) {
            Ok(x) => x,
            Err(e) => {
                return Err(e);
            },
        };
        let mut target_config: Vec<(CompileTarget, TargetConfig)> = Vec::new();
        let mut target_info: Vec<(CompileTarget, TargetInfo)> = Vec::new();
        match requested_kind {
            CompileKind::Host => {},
            CompileKind::Target(t) => {
                let tp = match target_probe {
                    Some(tp) => tp,
                    None => {
                        proof {
                            assert(false);
                        }
                        host_probe
                    },
                };
                let tcfg = config.target_cfg_triple(t.short_name());
                let tinfo = match TargetInfo::new(
                    config,
                    requested_kind,
                    &rustc,
                    requested_kind,
                    host_os_windows,
                    tp,
                    None,
                ) {
                    Ok(x) => x,
                    Err(e) => {
                        return Err(e);
                    },
                };
                let key1 = CompileTarget { name: String::from_str(t.short_name()) };
                let key2 = CompileTarget { name: String::from_str(t.short_name()) };
                target_config.push((key1, tcfg));
                target_info.push((key2, tinfo));
            },
        }
        let d = RustcTargetData { rustc, host_config, host_info, target_config, target_info };
        proof {
            match requested_kind {
                CompileKind::Host => {
                    assert(forall|k: CompileKind|
                        d.has_info(k) <==> d.has_config(k) || k matches CompileKind::Host);
                    assert forall|u: CompileTarget|
                        !(#[trigger] d.has_info(CompileKind::Target(u))) by {
                        assert(info_lookup(d.target_info@, u.name@) is None);
                    }
                },
                CompileKind::Target(t) => {
                    assert(d.target_info@[0].0.name@ == t.name@);
                    assert(info_lookup(d.target_info@, t.name@) == Option::Some(
                        d.target_info@[0].1,
                    ));
                    assert(config_lookup(d.target_config@, t.name@) == Option::Some(
                        d.target_config@[0].1,
                    ));
                    assert forall|u: CompileTarget|
                        #[trigger] d.has_info(CompileKind::Target(u)) implies u.name@
                        == t.name@ by {
                        if u.name@ != t.name@ {
                            reveal_with_fuel(info_lookup, 2);
                            assert(d.target_info@.drop_first() =~= Seq::<
                                (CompileTarget, TargetInfo),
                            >::empty());
                            assert(info_lookup(d.target_info@, u.name@) is None);
                        }
                    }
                    assert forall|k: CompileKind|
                        #[trigger] d.has_info(k) <==> #[trigger] d.has_config(k) || k
                            matches CompileKind::Host by {
                        match k {
                            CompileKind::Host => {},
                            CompileKind::Target(u) => {
                                if u.name@ != t.name@ {
                                    reveal_with_fuel(info_lookup, 2);
                                    reveal_with_fuel(config_lookup, 2);
                                    assert(d.target_info@.drop_first() =~= Seq::<
                                        (CompileTarget, TargetInfo),
                                    >::empty());
                                    assert(d.target_config@.drop_first() =~= Seq::<
                                        (CompileTarget, TargetConfig),
                                    >::empty());
                                    assert(info_lookup(d.target_info@, u.name@) is None);
                                    assert(config_lookup(d.target_config@, u.name@) is None);
                                }
                            },
                        }
                    }
                },
            }
        }
        Ok(d)
    }

    /// The short name of the platform `kind`: the host triple, or the
    /// target's own triple.
    pub fn short_name<'a>(&'a self, kind: &'a CompileKind) -> (r: &'a str)
        ensures
            r@ == kind.short_name_spec(self.rustc.host@),
    {
        match kind {
            CompileKind::Host => self.rustc.host.as_str(),
            CompileKind::Target(t) => t.short_name(),
        }
    }

    /// Whether the dependency is active when compiling for `kind`.
    pub fn dep_platform_activated(&self, dep: &Dependency, kind: &CompileKind) -> (r: bool)
        requires
            self.has_info(*kind),
        ensures
            r == self.dep_activated_spec(*dep, *kind),
    {
        match &dep.platform {
            None => true,
            Some(PlatformSpec::Name(n)) => strutil::str_eq(n.as_str(), self.short_name(kind)),
            Some(PlatformSpec::CfgKey(k)) => cfg_expr_matches(k.as_str(), self.cfg(kind)),
        }
    }

    /// The predicate list of the platform `kind`.
    pub fn cfg(&self, kind: &CompileKind) -> (r: &Vec<CfgPred>)
        requires
            self.has_info(*kind),
        ensures
            preds_view(r@) == self.info_view(*kind)->0.cfg,
    {
        self.info(kind).cfg()
    }

    /// The platform information held for `kind`.
    #[verifier::loop_isolation(false)]
    pub fn info(&self, kind: &CompileKind) -> (r: &TargetInfo)
        requires
            self.has_info(*kind),
        ensures
            r@ == self.info_view(*kind)->0,
    {
        match kind {
            CompileKind::Host => &self.host_info,
            CompileKind::Target(t) => {
                let n = self.target_info.len();
                let mut i: usize = 0;
                proof {
                    assert(self.target_info@.skip(0) =~= self.target_info@);
                }
                while i < n
                    invariant
                        0 <= i <= n,
                        n == self.target_info@.len(),
                        info_lookup(self.target_info@, t.name@) == info_lookup(
                            self.target_info@.skip(i as int),
                            t.name@,
                        ),
                    decreases n - i,
                {
                    proof {
                        assert(self.target_info@.skip(i as int)[0] == self.target_info@[i as int]);
                        assert(self.target_info@.skip(i as int).drop_first()
                            =~= self.target_info@.skip(i + 1 as int));
                    }
                    if strutil::str_eq(self.target_info[i].0.name.as_str(), t.short_name()) {
                        return &self.target_info[i].1;
                    }
                    i = i + 1;
                }
                proof {
                    assert(self.target_info@.skip(n as int) =~= Seq::<
                        (CompileTarget, TargetInfo),
                    >::empty());
                    assert(false);
                }
                &self.host_info
            },
        }
    }

    /// The config snapshot held for `kind`.
    #[verifier::loop_isolation(false)]
    pub fn target_config(&self, kind: &CompileKind) -> (r: &TargetConfig)
        requires
            self.has_config(*kind),
        ensures
            Option::Some((opt_list_view(r.rustflags), opt_list_view(r.rustdocflags)))
                == self.config_view(*kind),
    {
        match kind {
            CompileKind::Host => &self.host_config,
            CompileKind::Target(t) => {
                let n = self.target_config.len();
                let mut i: usize = 0;
                proof {
                    assert(self.target_config@.skip(0) =~= self.target_config@);
                }
                while i < n
                    invariant
                        0 <= i <= n,
                        n == self.target_config@.len(),
                        config_lookup(self.target_config@, t.name@) == config_lookup(
                            self.target_config@.skip(i as int),
                            t.name@,
                        ),
                    decreases n - i,
                {
                    proof {
                        assert(self.target_config@.skip(i as int)[0]
                            == self.target_config@[i as int]);
                        assert(self.target_config@.skip(i as int).drop_first()
                            =~= self.target_config@.skip(i + 1 as int));
                    }
                    if strutil::str_eq(self.target_config[i].0.name.as_str(), t.short_name()) {
                        return &self.target_config[i].1;
                    }
                    i = i + 1;
                }
                proof {
                    assert(self.target_config@.skip(n as int) =~= Seq::<
                        (CompileTarget, TargetConfig),
                    >::empty());
                    assert(false);
                }
                &self.host_config
            },
        }
    }
}

} // verus!
