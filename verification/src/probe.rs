use vstd::prelude::*;
use vstd::string::StringExecFns;
use crate::cfg;
use crate::cfg::{cfg_of_line, not_user_specific_spec, preds_view, CfgPred, CfgPredV};
use crate::errors::{err_info_spec, output_err_info, ProbeError};
use crate::flags::{env_args, extend_strings, resolved_flags_spec, Config, FlagFamily};
use crate::kinds::{CompileKind, ProcessOutcome, Rustc, TargetKind};
use crate::naming::{
    bad_delim_msg, file_plan, missing_line_msg, naming_of_line, parse_crate_type, plan_spec,
    unsupported_spec, FileFlavor, FileType,
};
use crate::strutil;
use crate::strutil::{join_spaces, lines_spec};

verus! {

/// One memoized naming answer: the crate type name, and its prefix/suffix
/// pair, or absence when the platform does not support the type.
pub type CrateTypeEntry = (String, Option<(String, String)>);

/// The mathematical value of one naming answer.
pub type CrateTypeEntryV = (Seq<char>, Option<(Seq<char>, Seq<char>)>);

pub open spec fn entry_view(e: CrateTypeEntry) -> CrateTypeEntryV {
    (
        e.0@,
        match e.1 {
            Option::Some(ps) => Option::Some((ps.0@, ps.1@)),
            Option::None => Option::None,
        },
    )
}

pub open spec fn entries_view(es: Seq<CrateTypeEntry>) -> Seq<CrateTypeEntryV> {
    es.map_values(|e: CrateTypeEntry| entry_view(e))
}

/// The first memoized answer for the crate type `ct`, if any.
pub open spec fn ct_lookup(es: Seq<CrateTypeEntryV>, ct: Seq<char>) -> Option<
    Option<(Seq<char>, Seq<char>)>,
>
    decreases es.len(),
{
    if es.len() == 0 {
        Option::None
    } else if es[0].0 == ct {
        Option::Some(es[0].1)
    } else {
        ct_lookup(es.drop_first(), ct)
    }
}

pub open spec fn no_dup_keys(es: Seq<CrateTypeEntryV>) -> bool {
    forall|i: int, j: int| 0 <= i < j < es.len() ==> es[i].0 != es[j].0
}

proof fn lemma_ct_lookup_none_all(es: Seq<CrateTypeEntryV>, ct: Seq<char>)
    requires
        ct_lookup(es, ct) is None,
    ensures
        forall|i: int| 0 <= i < es.len() ==> es[i].0 != ct,
    decreases es.len(),
{
    if es.len() > 0 {
        lemma_ct_lookup_none_all(es.drop_first(), ct);
        assert(es[0].0 != ct);
        assert forall|i: int| 0 <= i < es.len() implies es[i].0 != ct by {
            if i >= 1 {
                assert(es.drop_first()[i - 1] == es[i]);
            }
        }
    }
}

/// A naming answer recorded for a type the cache did not hold becomes the
/// answer every later lookup of that type finds: the second of two
/// sequential queries is served from the cache.
pub proof fn lemma_cache_memoized(
    es: Seq<CrateTypeEntryV>,
    ct: Seq<char>,
    naming: Option<(Seq<char>, Seq<char>)>,
)
    requires
        ct_lookup(es, ct) is None,
    ensures
        ct_lookup(es.push((ct, naming)), ct) == Option::Some(naming),
    decreases es.len(),
{
    reveal_with_fuel(ct_lookup, 2);
    if es.len() == 0 {
        assert(es.push((ct, naming))[0] == (ct, naming));
    } else {
        assert(es.push((ct, naming))[0] == es[0]);
        assert(es.push((ct, naming)).drop_first() =~= es.drop_first().push((ct, naming)));
        lemma_cache_memoized(es.drop_first(), ct, naming);
    }
}

// ---------------------------------------------------------------------------
// The fixed well-known crate types and the batch parse over them.
// ---------------------------------------------------------------------------

/// The well-known crate types probed up front, in the order they are asked
/// for and answered.
pub open spec fn known_types_spec() -> Seq<Seq<char>> {
    seq!["bin"@, "rlib"@, "dylib"@, "cdylib"@, "staticlib"@, "proc-macro"@]
}

/// The well-known crate types, as strings.
pub fn known_crate_types() -> (r: Vec<String>)
    ensures
        r.deep_view() == known_types_spec(),
{
    let mut r: Vec<String> = Vec::new();
    r.push(String::from_str("bin"));
    r.push(String::from_str("rlib"));
    r.push(String::from_str("dylib"));
    r.push(String::from_str("cdylib"));
    r.push(String::from_str("staticlib"));
    r.push(String::from_str("proc-macro"));
    proof {
        assert(r.deep_view() =~~= known_types_spec());
    }
    r
}

/// How many stdout lines the first `j` well-known crate types consume: one
/// for each type that stderr does not flag as unsupported.
pub open spec fn consumed_count(err: Seq<char>, j: int) -> int
    decreases j,
{
    if j <= 0 {
        0
    } else {
        consumed_count(err, j - 1) + if unsupported_spec(err, known_types_spec()[j - 1]) {
            0int
        } else {
            1int
        }
    }
}

pub proof fn lemma_consumed_count_bounds(err: Seq<char>, j: int)
    requires
        j >= 0,
    ensures
        0 <= consumed_count(err, j) <= j,
    decreases j,
{
    if j > 0 {
        lemma_consumed_count_bounds(err, j - 1);
    }
}

/// Whether every well-known crate type can be decoded from the captured
/// output: each type is either flagged unsupported or has its own naming
/// line, in order, starting at `start`.
pub open spec fn batch_ok(err: Seq<char>, ls: Seq<Seq<char>>, start: int) -> bool {
    forall|j: int|
        0 <= j < 6 ==> (unsupported_spec(err, known_types_spec()[j]) || (start + consumed_count(
            err,
            j,
        ) < ls.len() && naming_of_line(ls[start + consumed_count(err, j)]) is Some))
}

/// The naming answers of the batch probe: the `j`-th well-known type is
/// unsupported, or takes its rule from the line consumed after the supported
/// types before it — no line is skipped or duplicated.
pub open spec fn batch_entries(err: Seq<char>, ls: Seq<Seq<char>>, start: int) -> Seq<
    CrateTypeEntryV,
> {
    Seq::new(
        6,
        |j: int|
            (
                known_types_spec()[j],
                if unsupported_spec(err, known_types_spec()[j]) {
                    Option::None
                } else {
                    match naming_of_line(ls[start + consumed_count(err, j)]) {
                        Option::Some(ps) => Option::Some(ps),
                        Option::None => Option::None,
                    }
                },
            ),
    )
}

/// Decodes the naming answers for all well-known crate types, in the order
/// they were requested, advancing the cursor by exactly one line per
/// supported type.
pub fn parse_known_crate_types(
    cmd: &str,
    output: &str,
    error: &str,
    lines: &Vec<String>,
    start_cursor: usize,
) -> (r: Result<(Vec<CrateTypeEntry>, usize), ProbeError>)
    requires
        start_cursor + 6 <= usize::MAX,
    ensures
        r is Ok <==> batch_ok(error@, lines.deep_view(), start_cursor as int),
        r matches Ok(es) ==> ({
            &&& entries_view(es.0@) == batch_entries(error@, lines.deep_view(), start_cursor as int)
            &&& es.1 == start_cursor + consumed_count(error@, 6)
            &&& no_dup_keys(entries_view(es.0@))
        }),
        r matches Err(e) ==> (e matches ProbeError::MissingCrateTypeLine { .. } || e matches
            ProbeError::BadNamingDelimiter { .. }),
{
    let mut cursor: usize = start_cursor;
    let ghost start = start_cursor as int;
    let ghost lsv = lines.deep_view();
    let kts = known_crate_types();
    proof {
        assert(lsv == lines.deep_view());
        assert(kts@.len() == kts.deep_view().len());
        assert(lsv.len() == lines@.len());
        assert(forall|q: int| 0 <= q < lsv.len() ==> lsv[q] == #[trigger] lines@[q]@);
    }
    let mut out: Vec<CrateTypeEntry> = Vec::new();
    let mut j: usize = 0;
    while j < 6
        invariant
            0 <= j <= 6,
            kts.deep_view() == known_types_spec(),
            kts@.len() == 6,
            lsv == lines.deep_view(),
            start == start_cursor as int,
            out@.len() == j,
            cursor == start + consumed_count(error@, j as int),
            start + 6 <= usize::MAX,
            start >= 0,
            forall|q: int|
                0 <= q < j ==> (unsupported_spec(error@, known_types_spec()[q]) || (start
                    + consumed_count(error@, q) < lsv.len() && naming_of_line(
                    lsv[start + consumed_count(error@, q)],
                ) is Some)),
            forall|q: int|
                0 <= q < j ==> entries_view(out@)[q] == batch_entries(error@, lsv, start)[q],
        decreases 6 - j,
    {
        proof {
            lemma_consumed_count_bounds(error@, j as int);
        }
        let ghost pre_cursor = cursor as int;
        let ghost pre_out = out@;
        let res = parse_crate_type(kts[j].as_str(), cmd, output, error, lines, &mut cursor);
        proof {
            assert(kts@[j as int]@ == known_types_spec()[j as int]);
            assert(lsv.len() == lines@.len());
            if pre_cursor < lsv.len() {
                assert(lsv[pre_cursor] == lines@[pre_cursor]@);
            }
        }
        match res {
            Ok(naming) => {
                let key = kts[j].clone();
                out.push((key, naming));
                proof {
                    assert(entries_view(out@) =~~= entries_view(pre_out).push(
                        entry_view(out@[j as int]),
                    ));
                    assert(consumed_count(error@, j + 1 as int) == consumed_count(error@, j as int)
                        + if unsupported_spec(error@, known_types_spec()[j as int]) {
                        0int
                    } else {
                        1int
                    });
                    if unsupported_spec(error@, known_types_spec()[j as int]) {
                        assert(entries_view(out@)[j as int] == batch_entries(error@, lsv, start)[j as int]);
                    } else {
                        assert(entries_view(out@)[j as int] == batch_entries(error@, lsv, start)[j as int]);
                    }
                }
            },
            Err(e) => {
                proof {
                    if unsupported_spec(error@, known_types_spec()[j as int]) {
                        assert(false);
                    }
                    assert(start + consumed_count(error@, j as int) == pre_cursor);
                    assert(!(unsupported_spec(error@, known_types_spec()[j as int]) || (start
                        + consumed_count(error@, j as int) < lsv.len() && naming_of_line(
                        lsv[start + consumed_count(error@, j as int)],
                    ) is Some)));
                    if pre_cursor >= lsv.len() {
                        assert(!batch_ok(error@, lsv, start));
                    } else {
                        assert(lsv[pre_cursor] == lines@[pre_cursor]@);
                        if naming_of_line(lsv[pre_cursor]) is Some {
                            assert(false);
                        }
                        assert(!batch_ok(error@, lsv, start));
                    }
                }
                return Err(e);
            },
        }
        j = j + 1;
    }
    proof {
        assert(batch_ok(error@, lsv, start));
        assert(entries_view(out@) =~~= batch_entries(error@, lsv, start));
        assert forall|a: int, b: int| 0 <= a < b < 6 implies batch_entries(error@, lsv, start)[a].0
            != batch_entries(error@, lsv, start)[b].0 by {
            reveal_strlit("bin");
            reveal_strlit("rlib");
            reveal_strlit("dylib");
            reveal_strlit("cdylib");
            reveal_strlit("staticlib");
            reveal_strlit("proc-macro");
        }
    }
    Ok((out, cursor))
}

// ---------------------------------------------------------------------------
// Probe invocation argument lists
// ---------------------------------------------------------------------------

/// The probe command line before any target selection: the toolchain path,
/// the synthetic-source and file-name-printing arguments, then the
/// preliminary compile flags (resolved without predicates, which are not
/// known before this very probe runs).
pub open spec fn probe_pre_target_spec(
    c: Config,
    requested: CompileKind,
    rustc_path: Seq<char>,
    host: Seq<char>,
    kind: CompileKind,
) -> Seq<Seq<char>> {
    seq![rustc_path, "-"@, "--crate-name"@, "___"@, "--print=file-names"@] + resolved_flags_spec(
        c,
        requested,
        host,
        Option::None,
        kind,
        FlagFamily::Rustflags,
    )
}

/// The saved naming-probe template: the pre-target command line, plus the
/// target-selection argument when a named target is probed.
pub open spec fn probe_base_spec(
    c: Config,
    requested: CompileKind,
    rustc_path: Seq<char>,
    host: Seq<char>,
    kind: CompileKind,
) -> Seq<Seq<char>> {
    probe_pre_target_spec(c, requested, rustc_path, host, kind) + (match kind {
        CompileKind::Host => Seq::empty(),
        CompileKind::Target(t) => seq!["--target"@, t.name@],
    })
}

fn push_str(v: &mut Vec<String>, s: &str)
    ensures
        final(v).deep_view() == old(v).deep_view().push(s@),
{
    v.push(String::from_str(s));
    proof {
        assert(v.deep_view() =~~= old(v).deep_view().push(s@));
    }
}

/// Builds the naming-probe template for one platform: the command line kept
/// for lazy per-crate-type discovery.
pub fn probe_base_args(
    config: &Config,
    requested_kind: &CompileKind,
    rustc: &Rustc,
    kind: &CompileKind,
) -> (r: Vec<String>)
    ensures
        r.deep_view() == probe_base_spec(
            *config,
            *requested_kind,
            rustc.path@,
            rustc.host@,
            *kind,
        ),
{
    let mut v: Vec<String> = Vec::new();
    proof {
        assert(v.deep_view() =~~= Seq::<Seq<char>>::empty());
    }
    v.push(rustc.path.clone());
    proof {
        assert(v.deep_view() =~~= seq![rustc.path@]);
    }
    push_str(&mut v, "-");
    push_str(&mut v, "--crate-name");
    push_str(&mut v, "___");
    push_str(&mut v, "--print=file-names");
    let fl = env_args(
        config,
        requested_kind,
        rustc.host.as_str(),
        None,
        kind,
        FlagFamily::Rustflags,
    );
    extend_strings(&mut v, &fl);
    proof {
        assert(v.deep_view() =~~= probe_pre_target_spec(
            *config,
            *requested_kind,
            rustc.path@,
            rustc.host@,
            *kind,
        ));
    }
    match kind {
        CompileKind::Host => {
            proof {
                assert(v.deep_view() =~~= probe_base_spec(
                    *config,
                    *requested_kind,
                    rustc.path@,
                    rustc.host@,
                    *kind,
                ));
            }
        },
        CompileKind::Target(t) => {
            let ghost mid = v.deep_view();
            push_str(&mut v, "--target");
            let tn = String::from_str(t.rustc_target());
            v.push(tn);
            proof {
                assert(v.deep_view() =~~= mid.push("--target"@).push(t.name@));
                assert(v.deep_view() =~~= probe_base_spec(
                    *config,
                    *requested_kind,
                    rustc.path@,
                    rustc.host@,
                    *kind,
                ));
            }
        },
    }
    v
}

/// Builds the command line for the host-only capability probe: the
/// pre-target command line with the one extra capability flag appended.
pub fn bitcode_probe_args(
    config: &Config,
    requested_kind: &CompileKind,
    rustc: &Rustc,
    kind: &CompileKind,
) -> (r: Vec<String>)
    ensures
        r.deep_view() == probe_pre_target_spec(
            *config,
            *requested_kind,
            rustc.path@,
            rustc.host@,
            *kind,
        ).push("-Cbitcode-in-rlib"@),
{
    let mut v: Vec<String> = Vec::new();
    v.push(rustc.path.clone());
    proof {
        assert(v.deep_view() =~~= seq![rustc.path@]);
    }
    push_str(&mut v, "-");
    push_str(&mut v, "--crate-name");
    push_str(&mut v, "___");
    push_str(&mut v, "--print=file-names");
    let fl = env_args(
        config,
        requested_kind,
        rustc.host.as_str(),
        None,
        kind,
        FlagFamily::Rustflags,
    );
    extend_strings(&mut v, &fl);
    proof {
        assert(v.deep_view() =~~= probe_pre_target_spec(
            *config,
            *requested_kind,
            rustc.path@,
            rustc.host@,
            *kind,
        ));
    }
    push_str(&mut v, "-Cbitcode-in-rlib");
    v
}

/// The crate-type arguments of the batch probe, two per well-known type.
pub open spec fn crate_type_args(ts: Seq<Seq<char>>) -> Seq<Seq<char>>
    decreases ts.len(),
{
    if ts.len() == 0 {
        Seq::empty()
    } else {
        seq!["--crate-type"@, ts[0]] + crate_type_args(ts.drop_first())
    }
}

/// The full batch-probe command line: the template, one crate-type argument
/// pair per well-known type, then the requests to print the install root and
/// the predicate list.
pub open spec fn batch_args_spec(base: Seq<Seq<char>>) -> Seq<Seq<char>> {
    base + crate_type_args(known_types_spec()) + seq!["--print=sysroot"@, "--print=cfg"@]
}

/// Extends the naming-probe template into the batch-probe command line.
pub fn batch_probe_args(base: &Vec<String>) -> (r: Vec<String>)
    ensures
        r.deep_view() == batch_args_spec(base.deep_view()),
{
    let mut v: Vec<String> = Vec::new();
    extend_strings(&mut v, base);
    let kts = known_crate_types();
    let n = kts.len();
    let mut i: usize = 0;
    proof {
        assert(v.deep_view() =~~= base.deep_view());
        assert(known_types_spec().skip(0) =~= known_types_spec());
        assert(v.deep_view() + crate_type_args(known_types_spec()) =~= base.deep_view()
            + crate_type_args(known_types_spec().skip(0)));
    }
    while i < n
        invariant
            0 <= i <= n,
            n == kts@.len(),
            kts.deep_view() == known_types_spec(),
            base.deep_view() + crate_type_args(known_types_spec()) == v.deep_view()
                + crate_type_args(known_types_spec().skip(i as int)),
        decreases n - i,
    {
        proof {
            assert(known_types_spec().skip(i as int)[0] == known_types_spec()[i as int]);
            assert(known_types_spec().skip(i as int).drop_first() =~= known_types_spec().skip(
                i + 1 as int,
            ));
        }
        let ghost before = v.deep_view();
        push_str(&mut v, "--crate-type");
        let kt = kts[i].clone();
        proof {
            assert(kt@ == kts.deep_view()[i as int]);
        }
        v.push(kt);
        proof {
            assert(v.deep_view() =~~= before.push("--crate-type"@).push(
                known_types_spec()[i as int],
            ));
            assert(v.deep_view() =~~= before + seq![
                "--crate-type"@,
                known_types_spec()[i as int],
            ]);
            assert(before + (seq!["--crate-type"@, known_types_spec()[i as int]] + crate_type_args(
                known_types_spec().skip(i + 1 as int),
            )) =~= (before + seq!["--crate-type"@, known_types_spec()[i as int]])
                + crate_type_args(known_types_spec().skip(i + 1 as int)));
        }
        i = i + 1;
    }
    proof {
        assert(known_types_spec().skip(6) =~= Seq::<Seq<char>>::empty());
        assert(crate_type_args(known_types_spec().skip(6)) =~= Seq::<Seq<char>>::empty());
        assert(v.deep_view() =~~= base.deep_view() + crate_type_args(known_types_spec()));
    }
    push_str(&mut v, "--print=sysroot");
    push_str(&mut v, "--print=cfg");
    proof {
        assert(v.deep_view() =~~= batch_args_spec(base.deep_view()));
    }
    v
}

/// Renders a command line for diagnostics: the arguments joined with single
/// spaces.
pub fn render_cmd(args: &Vec<String>) -> (r: String)
    ensures
        r@ == join_spaces(args.deep_view()),
{
    if args.len() == 0 {
        let r = String::new();
        return r;
    }
    let mut s = args[0].clone();
    let n = args.len();
    let mut i: usize = 1;
    proof {
        reveal_strlit(" ");
        assert(args.deep_view().take(1) =~= seq![args@[0]@]);
        assert(s@ == join_spaces(args.deep_view().take(1)));
    }
    while i < n
        invariant
            1 <= i <= n,
            n == args@.len(),
            s@ == join_spaces(args.deep_view().take(i as int)),
            " "@ == seq![' '],
        decreases n - i,
    {
        s.append(" ");
        s.append(args[i].as_str());
        proof {
            assert(args.deep_view().take(i + 1 as int).drop_last() =~= args.deep_view().take(
                i as int,
            ));
            assert(args.deep_view().take(i + 1 as int).last() == args@[i as int]@);
        }
        i = i + 1;
    }
    proof {
        assert(args.deep_view().take(n as int) =~= args.deep_view());
    }
    s
}


// ---------------------------------------------------------------------------
// Decoding the predicate printout
// ---------------------------------------------------------------------------

/// The predicates parsed from the lines at and after `from`, keeping only
/// real platform facts.
pub open spec fn parsed_cfgs_from(ls: Seq<Seq<char>>, from: int) -> Seq<CfgPredV>
    decreases ls.len() - from + 1,
{
    if from < 0 || from >= ls.len() {
        Seq::empty()
    } else {
        (match cfg_of_line(ls[from]) {
            Option::Some(p) => if not_user_specific_spec(p) {
                seq![p]
            } else {
                Seq::empty()
            },
            Option::None => Seq::empty(),
        }) + parsed_cfgs_from(ls, from + 1)
    }
}

/// Whether every line at and after `from` parses as a predicate.
pub open spec fn cfgs_ok(ls: Seq<Seq<char>>, from: int) -> bool {
    forall|i: int| from <= i < ls.len() ==> cfg_of_line(ls[i]) is Some
}

// ---------------------------------------------------------------------------
// TargetInfo: everything learned about one platform from probing
// ---------------------------------------------------------------------------

/// The mathematical value of a `TargetInfo`.
#[verifier::ext_equal]
pub ghost struct TargetInfoV {
    pub crate_type_process: Seq<Seq<char>>,
    pub crate_types: Seq<CrateTypeEntryV>,
    pub cfg: Seq<CfgPredV>,
    pub sysroot: Seq<char>,
    pub sysroot_host_libdir: Seq<char>,
    pub sysroot_target_libdir: Seq<char>,
    pub rustflags: Seq<Seq<char>>,
    pub rustdocflags: Seq<Seq<char>>,
    pub supports_bitcode_in_rlib: Option<bool>,
}

/// Information about a platform, learned by probing the toolchain once; only
/// the crate-type naming cache changes afterwards, and it only grows.
#[derive(Debug)]
pub struct TargetInfo {
    /// The saved naming-probe template, replayed to discover naming for
    /// crate types outside the well-known set.
    crate_type_process: Vec<String>,
    /// Memoized naming answers by crate type, unique keys.
    crate_types: Vec<CrateTypeEntry>,
    /// The platform's predicate list.
    cfg: Vec<CfgPred>,
    /// The toolchain install root.
    pub sysroot: String,
    /// The directory holding the toolchain's own shared libraries.
    pub sysroot_host_libdir: String,
    /// The directory holding the libraries linked into target code.
    pub sysroot_target_libdir: String,
    /// Resolved extra compiler flags.
    pub rustflags: Vec<String>,
    /// Resolved extra documentation-generator flags.
    pub rustdocflags: Vec<String>,
    /// Whether the toolchain accepts the bitcode-in-rlib flag; probed only
    /// for the host platform.
    pub supports_bitcode_in_rlib: Option<bool>,
}

impl View for TargetInfo {
    type V = TargetInfoV;

    closed spec fn view(&self) -> TargetInfoV {
        TargetInfoV {
            crate_type_process: self.crate_type_process.deep_view(),
            crate_types: entries_view(self.crate_types@),
            cfg: preds_view(self.cfg@),
            sysroot: self.sysroot@,
            sysroot_host_libdir: self.sysroot_host_libdir@,
            sysroot_target_libdir: self.sysroot_target_libdir@,
            rustflags: self.rustflags.deep_view(),
            rustdocflags: self.rustdocflags.deep_view(),
            supports_bitcode_in_rlib: self.supports_bitcode_in_rlib,
        }
    }
}

/// Whether the captured batch-probe output decodes completely: every
/// well-known crate type, then the install-root line, then only well-formed
/// predicate lines.
pub open spec fn probe_ok_spec(stdout: Seq<char>, stderr: Seq<char>) -> bool {
    let ls = lines_spec(stdout);
    let cc = consumed_count(stderr, 6);
    batch_ok(stderr, ls, 0) && cc < ls.len() && cfgs_ok(ls, cc + 1)
}

/// The full batch-probe command line, rendered for diagnostics.
pub open spec fn batch_cmd_spec(
    c: Config,
    requested: CompileKind,
    rustc_path: Seq<char>,
    host: Seq<char>,
    kind: CompileKind,
) -> Seq<char> {
    join_spaces(batch_args_spec(probe_base_spec(c, requested, rustc_path, host, kind)))
}

/// The diagnostic for a batch probe that could not be run.
pub open spec fn probe_invocation_msg(message: Seq<char>) -> Seq<char> {
    "failed to run `rustc` to learn about target-specific information: "@ + message
}

/// The diagnostic for a batch probe whose install-root line is missing.
pub open spec fn missing_sysroot_msg(
    cmd: Seq<char>,
    stdout: Seq<char>,
    stderr: Seq<char>,
) -> Seq<char> {
    "output of --print=sysroot missing when learning about target-specific information from rustc\n"@
        + err_info_spec(cmd, stdout, stderr)
}

/// The diagnostic for a predicate line that does not parse; it quotes the
/// whole probe stdout.
pub open spec fn bad_cfg_msg(stdout: Seq<char>) -> Seq<char> {
    "failed to parse the cfg from `rustc --print=cfg`, got:\n"@ + stdout
}

/// The discovery command line for one crate type, rendered for diagnostics.
pub open spec fn discover_cmd_spec(template: Seq<Seq<char>>, ct: Seq<char>) -> Seq<char> {
    join_spaces(template + seq!["--crate-type"@, ct])
}

/// The diagnostic for a discovery probe that could not be run.
pub open spec fn discover_invocation_msg(ct: Seq<char>, message: Seq<char>) -> Seq<char> {
    "failed to run `rustc` to learn about crate-type "@ + ct + " information: "@ + message
}

/// The platform information a successful batch probe yields.
pub open spec fn ti_model(
    c: Config,
    requested: CompileKind,
    rustc_path: Seq<char>,
    host: Seq<char>,
    host_os_windows: bool,
    kind: CompileKind,
    stdout: Seq<char>,
    stderr: Seq<char>,
    bitcode: Option<bool>,
) -> TargetInfoV {
    let ls = lines_spec(stdout);
    let cc = consumed_count(stderr, 6);
    let root = ls[cc];
    let cfgs = parsed_cfgs_from(ls, cc + 1);
    TargetInfoV {
        crate_type_process: probe_base_spec(c, requested, rustc_path, host, kind),
        crate_types: batch_entries(stderr, ls, 0),
        cfg: cfgs,
        sysroot: root,
        sysroot_host_libdir: root + if host_os_windows {
            "/bin"@
        } else {
            "/lib"@
        },
        sysroot_target_libdir: root + "/lib/rustlib/"@ + kind.short_name_spec(host) + "/lib"@,
        rustflags: resolved_flags_spec(
            c,
            requested,
            host,
            Option::Some(cfgs),
            kind,
            FlagFamily::Rustflags,
        ),
        rustdocflags: resolved_flags_spec(
            c,
            requested,
            host,
            Option::Some(cfgs),
            kind,
            FlagFamily::Rustdocflags,
        ),
        supports_bitcode_in_rlib: bitcode,
    }
}

impl TargetInfo {
    /// The cache never holds two answers for one crate type.
    pub open spec fn wf(&self) -> bool {
        no_dup_keys(self@.crate_types)
    }

    /// The platform's predicate list.
    pub fn cfg(&self) -> (r: &Vec<CfgPred>)
        ensures
            preds_view(r@) == self@.cfg,
    {
        &self.cfg
    }

    /// Builds the platform information from the captured output of the
    /// batch probe that `probe_base_args` and `batch_probe_args` describe,
    /// decoding it in strict order: one naming answer per well-known crate
    /// type, one install-root line, then the predicate list.
    ///
    /// `host_os_windows` says whether the machine running the planner is of
    /// the operating-system family whose toolchain keeps its own shared
    /// libraries under a `bin` directory rather than `lib`; `bitcode_probe_ok`
    /// carries the capability probe's outcome, present exactly for host
    /// probes.
    #[verifier::loop_isolation(false)]
    pub fn new(
        config: &Config,
        requested_kind: &CompileKind,
        rustc: &Rustc,
        kind: &CompileKind,
        host_os_windows: bool,
        probe: &ProcessOutcome,
        bitcode_probe_ok: Option<bool>,
    ) -> (r: Result<TargetInfo, ProbeError>)
        requires
            bitcode_probe_ok is Some <==> kind.is_host_spec(),
        ensures
            match probe {
                ProcessOutcome::Success { stdout, stderr } => ({
                    let ls = lines_spec(stdout@);
                    let cc = consumed_count(stderr@, 6);
                    &&& (r is Ok <==> probe_ok_spec(stdout@, stderr@))
                    &&& (r matches Ok(ti) ==> ti@ == ti_model(
                        *config,
                        *requested_kind,
                        rustc.path@,
                        rustc.host@,
                        host_os_windows,
                        *kind,
                        stdout@,
                        stderr@,
                        bitcode_probe_ok,
                    ) && ti.wf())
                    &&& (!batch_ok(stderr@, ls, 0) ==> ({
                        &&& r matches Err(e)
                        &&& (e matches ProbeError::MissingCrateTypeLine { .. } || e matches
                            ProbeError::BadNamingDelimiter { .. })
                    }))
                    &&& (batch_ok(stderr@, ls, 0) && cc >= ls.len() ==> ({
                        &&& r matches Err(e)
                        &&& e matches ProbeError::MissingSysrootLine { detail }
                        &&& detail@ == missing_sysroot_msg(
                            batch_cmd_spec(
                                *config,
                                *requested_kind,
                                rustc.path@,
                                rustc.host@,
                                *kind,
                            ),
                            stdout@,
                            stderr@,
                        )
                    }))
                    &&& (batch_ok(stderr@, ls, 0) && cc < ls.len() && !cfgs_ok(ls, cc + 1) ==> ({
                        &&& r matches Err(e)
                        &&& e matches ProbeError::BadCfgLine { detail }
                        &&& detail@ == bad_cfg_msg(stdout@)
                    }))
                }),
                ProcessOutcome::Failure { message } => ({
                    &&& r matches Err(e)
                    &&& e matches ProbeError::Invocation { message: m }
                    &&& m@ == probe_invocation_msg(message@)
                }),
            },
    {
        let base = probe_base_args(config, requested_kind, rustc, kind);
        match probe {
            ProcessOutcome::Failure { message } => {
                let mut msg = String::from_str(
                    "failed to run `rustc` to learn about target-specific information: ",
                );
                msg.append(message.as_str());
                Err(ProbeError::Invocation { message: msg })
            },
            ProcessOutcome::Success { stdout, stderr } => {
                let full = batch_probe_args(&base);
                let cmdline = render_cmd(&full);
                let lines = strutil::split_lines(stdout.as_str());
                let ghost ls = lines_spec(stdout@);
                proof {
                    assert(lines.deep_view() == ls);
                    assert(lines.deep_view().len() == lines@.len());
                }
                let parsed = parse_known_crate_types(
                    cmdline.as_str(),
                    stdout.as_str(),
                    stderr.as_str(),
                    &lines,
                    0,
                );
                let (map, cursor) = match parsed {
                    Ok(p) => p,
                    Err(e) => {
                        return Err(e);
                    },
                };
                if cursor >= lines.len() {
                    let info = output_err_info(cmdline.as_str(), stdout.as_str(), stderr.as_str());
                    let mut msg = String::from_str(
                        "output of --print=sysroot missing when learning about target-specific information from rustc\n",
                    );
                    msg.append(info.as_str());
                    return Err(ProbeError::MissingSysrootLine { detail: msg });
                }
                let sysroot = lines[cursor].clone();
                proof {
                    assert(sysroot@ == ls[consumed_count(stderr@, 6)]);
                }
                let mut host_libdir = sysroot.clone();
                if host_os_windows {
                    host_libdir.append("/bin");
                } else {
                    host_libdir.append("/lib");
                }
                let mut target_libdir = sysroot.clone();
                target_libdir.append("/lib/rustlib/");
                match kind {
                    CompileKind::Host => target_libdir.append(rustc.host.as_str()),
                    CompileKind::Target(t) => target_libdir.append(t.short_name()),
                }
                target_libdir.append("/lib");
                let ghost cfg_start = cursor + 1 as int;
                let mut cfgv: Vec<CfgPred> = Vec::new();
                let n = lines.len();
                let mut i: usize = cursor + 1;
                proof {
                    assert(ls.skip(0) =~= ls);
                    assert(preds_view(cfgv@) =~= Seq::<CfgPredV>::empty());
                    assert(parsed_cfgs_from(ls, cfg_start) =~= preds_view(cfgv@)
                        + parsed_cfgs_from(ls, i as int));
                }
                while i < n
                    invariant
                        cfg_start <= i <= n,
                        n == lines@.len(),
                        n == ls.len(),
                        ls == lines.deep_view(),
                        ls == lines_spec(stdout@),
                        cfg_start >= 1,
                        cfg_start == consumed_count(stderr@, 6) + 1,
                        batch_ok(stderr@, ls, 0),
                        consumed_count(stderr@, 6) < n,
                        parsed_cfgs_from(ls, cfg_start) == preds_view(cfgv@) + parsed_cfgs_from(
                            ls,
                            i as int,
                        ),
                        forall|q: int| cfg_start <= q < i ==> cfg_of_line(ls[q]) is Some,
                    decreases n - i,
                {
                    proof {
                        assert(ls[i as int] == lines@[i as int]@);
                    }
                    let parsed_line = cfg::parse_cfg_line(lines[i].as_str());
                    match parsed_line {
                        Err(_) => {
                            let mut msg = String::from_str(
                                "failed to parse the cfg from `rustc --print=cfg`, got:\n",
                            );
                            msg.append(stdout.as_str());
                            proof {
                                assert(!cfgs_ok(ls, cfg_start));
                                assert(!probe_ok_spec(stdout@, stderr@));
                            }
                            return Err(ProbeError::BadCfgLine { detail: msg });
                        },
                        Ok(p) => {
                            let ghost pre = cfgv@;
                            let keep = cfg::not_user_specific_cfg(&p);
                            if keep {
                                cfgv.push(p);
                                proof {
                                    assert(preds_view(cfgv@) =~~= preds_view(pre).push(p@));
                                }
                            }
                            proof {
                                let piece = match cfg_of_line(ls[i as int]) {
                                    Option::Some(q) => if not_user_specific_spec(q) {
                                        seq![q]
                                    } else {
                                        Seq::<CfgPredV>::empty()
                                    },
                                    Option::None => Seq::<CfgPredV>::empty(),
                                };
                                assert(parsed_cfgs_from(ls, i as int) == piece + parsed_cfgs_from(
                                    ls,
                                    i + 1 as int,
                                ));
                                assert(preds_view(cfgv@) =~~= preds_view(pre) + piece);
                                assert(preds_view(pre) + (piece + parsed_cfgs_from(ls, i + 1 as int))
                                    =~= (preds_view(pre) + piece) + parsed_cfgs_from(
                                    ls,
                                    i + 1 as int,
                                ));
                            }
                        },
                    }
                    i = i + 1;
                }
                proof {
                    assert(parsed_cfgs_from(ls, n as int) =~= Seq::<CfgPredV>::empty());
                    assert(preds_view(cfgv@) =~= parsed_cfgs_from(ls, cfg_start));
                    assert(cfgs_ok(ls, cfg_start));
                    assert(probe_ok_spec(stdout@, stderr@));
                }
                let rustflags = env_args(
                    config,
                    requested_kind,
                    rustc.host.as_str(),
                    Some(&cfgv),
                    kind,
                    FlagFamily::Rustflags,
                );
                let rustdocflags = env_args(
                    config,
                    requested_kind,
                    rustc.host.as_str(),
                    Some(&cfgv),
                    kind,
                    FlagFamily::Rustdocflags,
                );
                let ti = TargetInfo {
                    crate_type_process: base,
                    crate_types: map,
                    cfg: cfgv,
                    sysroot,
                    sysroot_host_libdir: host_libdir,
                    sysroot_target_libdir: target_libdir,
                    rustflags,
                    rustdocflags,
                    supports_bitcode_in_rlib: bitcode_probe_ok,
                };
                proof {
                    assert(ti@ =~~= ti_model(
                        *config,
                        *requested_kind,
                        rustc.path@,
                        rustc.host@,
                        host_os_windows,
                        *kind,
                        stdout@,
                        stderr@,
                        bitcode_probe_ok,
                    ));
                }
                Ok(ti)
            },
        }
    }
}


// ---------------------------------------------------------------------------
// Artifact file-plan queries and lazy crate-type discovery
// ---------------------------------------------------------------------------

/// The answer to a file-plan query: the plan (or absence, for an
/// unsupported type) when the naming is already cached, or the probe command
/// line the caller must run and hand back through `record_crate_type`.
pub enum FileTypesReply {
    Known(Option<Vec<FileType>>),
    NeedsProbe(Vec<String>),
}

pub open spec fn opt_naming_view(n: Option<(String, String)>) -> Option<(Seq<char>, Seq<char>)> {
    match n {
        Option::Some(ps) => Option::Some((ps.0@, ps.1@)),
        Option::None => Option::None,
    }
}

fn lookup_ct<'a>(es: &'a Vec<CrateTypeEntry>, ct: &str) -> (r: Option<
    &'a Option<(String, String)>,
>)
    ensures
        match r {
            Option::Some(n) => ct_lookup(entries_view(es@), ct@) == Option::Some(
                opt_naming_view(*n),
            ),
            Option::None => ct_lookup(entries_view(es@), ct@) is None,
        },
{
    let n = es.len();
    let mut i: usize = 0;
    proof {
        assert(entries_view(es@).skip(0) =~= entries_view(es@));
    }
    while i < n
        invariant
            0 <= i <= n,
            n == es@.len(),
            entries_view(es@).len() == n,
            ct_lookup(entries_view(es@), ct@) == ct_lookup(
                entries_view(es@).skip(i as int),
                ct@,
            ),
        decreases n - i,
    {
        proof {
            assert(entries_view(es@).skip(i as int)[0] == entries_view(es@)[i as int]);
            assert(entries_view(es@)[i as int] == entry_view(es@[i as int]));
            assert(entries_view(es@).skip(i as int).drop_first() =~= entries_view(es@).skip(
                i + 1 as int,
            ));
        }
        if strutil::str_eq(es[i].0.as_str(), ct) {
            return Some(&es[i].1);
        }
        i = i + 1;
    }
    proof {
        assert(entries_view(es@).skip(n as int) =~= Seq::<CrateTypeEntryV>::empty());
    }
    None
}

/// What recording one discovery probe outcome yields: the naming answer, or
/// nothing when the captured output cannot be decoded.
pub open spec fn discovery_result(stdout: Seq<char>, stderr: Seq<char>, ct: Seq<char>) -> Option<
    Option<(Seq<char>, Seq<char>)>,
> {
    if unsupported_spec(stderr, ct) {
        Option::Some(Option::None)
    } else {
        let ls = lines_spec(stdout);
        if ls.len() == 0 {
            Option::None
        } else {
            match naming_of_line(ls[0]) {
                Option::Some(ps) => Option::Some(Option::Some(ps)),
                Option::None => Option::None,
            }
        }
    }
}

/// Everything but the naming cache is the same in the two values.
pub open spec fn same_but_cache(a: TargetInfoV, b: TargetInfoV) -> bool {
    &&& b.crate_type_process == a.crate_type_process
    &&& b.cfg == a.cfg
    &&& b.sysroot == a.sysroot
    &&& b.sysroot_host_libdir == a.sysroot_host_libdir
    &&& b.sysroot_target_libdir == a.sysroot_target_libdir
    &&& b.rustflags == a.rustflags
    &&& b.rustdocflags == a.rustdocflags
    &&& b.supports_bitcode_in_rlib == a.supports_bitcode_in_rlib
}

impl TargetInfo {
    /// The file entries generated for the crate type, served from the
    /// naming cache; a type not yet discovered yields the probe command
    /// line to run instead, so one cached type never triggers a second
    /// invocation.
    pub fn file_types(
        &self,
        crate_type: &str,
        flavor: FileFlavor,
        kind: &TargetKind,
        target_triple: &str,
    ) -> (r: FileTypesReply)
        ensures
            match ct_lookup(self@.crate_types, crate_type@) {
                Option::Some(naming) => ({
                    &&& r matches FileTypesReply::Known(ft)
                    &&& match naming {
                        Option::None => ft is None,
                        Option::Some(ps) => ft matches Some(v) && v.deep_view() == plan_spec(
                            ps.0,
                            ps.1,
                            crate_type@,
                            flavor,
                            *kind,
                            target_triple@,
                        ),
                    }
                }),
                Option::None => ({
                    &&& r matches FileTypesReply::NeedsProbe(args)
                    &&& args.deep_view() == self@.crate_type_process + seq![
                        "--crate-type"@,
                        crate_type@,
                    ]
                }),
            },
    {
        match lookup_ct(&self.crate_types, crate_type) {
            Some(naming) => match naming {
                Some(ps) => {
                    let plan = file_plan(&ps.0, &ps.1, crate_type, flavor, kind, target_triple);
                    FileTypesReply::Known(Some(plan))
                },
                None => FileTypesReply::Known(None),
            },
            None => {
                let mut args: Vec<String> = Vec::new();
                extend_strings(&mut args, &self.crate_type_process);
                push_str(&mut args, "--crate-type");
                let ghost mid = args.deep_view();
                args.push(String::from_str(crate_type));
                proof {
                    assert(args.deep_view() =~~= mid.push(crate_type@));
                    assert(args.deep_view() =~~= self@.crate_type_process + seq![
                        "--crate-type"@,
                        crate_type@,
                    ]);
                }
                FileTypesReply::NeedsProbe(args)
            },
        }
    }

    /// Records the outcome of one discovery probe for a crate type. A type
    /// already cached is left as it is, whatever the outcome: the cache only
    /// grows, and never changes a recorded answer.
    pub fn record_crate_type(&mut self, crate_type: &str, outcome: &ProcessOutcome) -> (r: Result<
        (),
        ProbeError,
    >)
        requires
            old(self).wf(),
        ensures
            final(self).wf(),
            same_but_cache(old(self)@, final(self)@),
            match ct_lookup(old(self)@.crate_types, crate_type@) {
                Option::Some(_) => r is Ok && final(self)@ == old(self)@,
                Option::None => match outcome {
                    ProcessOutcome::Failure { message } => ({
                        &&& r matches Err(e)
                        &&& e matches ProbeError::Invocation { message: m }
                        &&& m@ == discover_invocation_msg(crate_type@, message@)
                        &&& final(self)@ == old(self)@
                    }),
                    ProcessOutcome::Success { stdout, stderr } => match discovery_result(
                        stdout@,
                        stderr@,
                        crate_type@,
                    ) {
                        Option::None => ({
                            let dcmd = discover_cmd_spec(
                                old(self)@.crate_type_process,
                                crate_type@,
                            );
                            &&& final(self)@ == old(self)@
                            &&& r matches Err(e)
                            &&& (lines_spec(stdout@).len() == 0 ==> ({
                                &&& e matches ProbeError::MissingCrateTypeLine { detail }
                                &&& detail@ == missing_line_msg(crate_type@, dcmd, stdout@, stderr@)
                            }))
                            &&& (lines_spec(stdout@).len() > 0 ==> ({
                                &&& e matches ProbeError::BadNamingDelimiter { detail }
                                &&& detail@ == bad_delim_msg(dcmd, stdout@, stderr@)
                            }))
                        }),
                        Option::Some(naming) => ({
                            &&& r is Ok
                            &&& final(self)@.crate_types == old(self)@.crate_types.push(
                                (crate_type@, naming),
                            )
                            &&& ct_lookup(final(self)@.crate_types, crate_type@)
                                == Option::Some(naming)
                        }),
                    },
                },
            },
    {
        let cached = match lookup_ct(&self.crate_types, crate_type) {
            Some(_) => true,
            None => false,
        };
        if cached {
            return Ok(());
        }
        match outcome {
            ProcessOutcome::Failure { message } => {
                let mut msg = String::from_str("failed to run `rustc` to learn about crate-type ");
                msg.append(crate_type);
                msg.append(" information: ");
                msg.append(message.as_str());
                Err(ProbeError::Invocation { message: msg })
            },
            ProcessOutcome::Success { stdout, stderr } => {
                let mut args: Vec<String> = Vec::new();
                extend_strings(&mut args, &self.crate_type_process);
                push_str(&mut args, "--crate-type");
                let ghost mid = args.deep_view();
                args.push(String::from_str(crate_type));
                proof {
                    assert(args.deep_view() =~~= mid.push(crate_type@));
                    assert(args.deep_view() =~~= old(self)@.crate_type_process + seq![
                        "--crate-type"@,
                        crate_type@,
                    ]);
                }
                let cmdline = render_cmd(&args);
                proof {
                    assert(cmdline@ == discover_cmd_spec(
                        old(self)@.crate_type_process,
                        crate_type@,
                    ));
                }
                let lines = strutil::split_lines(stdout.as_str());
                let mut cursor: usize = 0;
                proof {
                    assert(lines.deep_view().len() == lines@.len());
                    if lines@.len() > 0 {
                        assert(lines.deep_view()[0] == lines@[0]@);
                    }
                }
                let parsed = parse_crate_type(
                    crate_type,
                    cmdline.as_str(),
                    stdout.as_str(),
                    stderr.as_str(),
                    &lines,
                    &mut cursor,
                );
                match parsed {
                    Err(e) => Err(e),
                    Ok(naming) => {
                        let ghost pre = entries_view(self.crate_types@);
                        let key = String::from_str(crate_type);
                        self.crate_types.push((key, naming));
                        proof {
                            assert(entries_view(self.crate_types@) =~~= pre.push(
                                (crate_type@, opt_naming_view(naming)),
                            ));
                            lemma_cache_memoized(
                                pre,
                                crate_type@,
                                opt_naming_view(naming),
                            );
                            lemma_ct_lookup_none_all(pre, crate_type@);
                            assert forall|a: int, b: int|
                                0 <= a < b < entries_view(self.crate_types@).len() implies
                                entries_view(self.crate_types@)[a].0 != entries_view(
                                self.crate_types@,
                            )[b].0 by {
                                if b < pre.len() {
                                    assert(entries_view(self.crate_types@)[a] == pre[a]);
                                    assert(entries_view(self.crate_types@)[b] == pre[b]);
                                } else {
                                    assert(entries_view(self.crate_types@)[a] == pre[a]);
                                    assert(entries_view(self.crate_types@)[b].0 == crate_type@);
                                }
                            }
                        }
                        Ok(())
                    },
                }
            },
        }
    }
}

} // verus!
