use vstd::prelude::*;
use crate::strutil;

verus! {

/// One conditional-compilation fact about a platform: a bare name like
/// `unix`, or a name with a quoted value like `target_os="linux"`.
#[derive(Clone, Debug)]
pub struct CfgPred {
    pub name: String,
    pub value: Option<String>,
}

/// The mathematical value of a predicate: its name and optional value.
pub type CfgPredV = (Seq<char>, Option<Seq<char>>);

impl View for CfgPred {
    type V = CfgPredV;

    open spec fn view(&self) -> CfgPredV {
        (
            self.name@,
            match self.value {
                Option::Some(v) => Option::Some(v@),
                Option::None => Option::None,
            },
        )
    }
}

/// The values of a predicate list.
pub open spec fn preds_view(ps: Seq<CfgPred>) -> Seq<CfgPredV> {
    ps.map_values(|p: CfgPred| p@)
}

/// What `cargo_platform::Cfg::from_str` yields for one line of the
/// toolchain's predicate printout: the parsed name and optional value, or
/// nothing when the line is not a well-formed predicate. The result depends
/// on the line alone.
pub uninterp spec fn cfg_of_line(line: Seq<char>) -> Option<CfgPredV>;

/// Relies on `cargo_platform::Cfg::from_str`: parses one predicate line of
/// the shape `name` or `name="value"`. Only the identifier's name is kept;
/// its raw flag affects display alone, never equality or matching.
#[verifier::external_body]
pub fn parse_cfg_line(line: &str) -> (r: Result<CfgPred, String>)
    ensures
        match r {
            Ok(p) => cfg_of_line(line@) == Some(p@),
            Err(_) => cfg_of_line(line@) == None::<CfgPredV>,
        },
{
    match <cargo_platform::Cfg as std::str::FromStr>::from_str(line) {
        Ok(cargo_platform::Cfg::Name(id)) => Ok(CfgPred { name: id.name, value: None }),
        Ok(cargo_platform::Cfg::KeyPair(id, v)) => Ok(
            CfgPred { name: id.name, value: Some(v) },
        ),
        Err(e) => Err(format!("{}", e)),
    }
}

/// What `cargo_platform::CfgExpr::matches_key` returns: whether the
/// configuration key `key` (of the shape `cfg(<expr>)`) matches the
/// predicate list; false for a key of any other shape. The result depends on
/// the key and the predicates alone.
pub uninterp spec fn cfg_key_matches(key: Seq<char>, preds: Seq<CfgPredV>) -> bool;

/// Relies on `cargo_platform::CfgExpr::matches_key`: evaluates the
/// `cfg(..)` expression carried by `key` against the predicate list. The
/// predicates are rebuilt as plain (non-raw) identifiers; `Ident` equality
/// ignores the raw flag, so matching sees no difference.
#[verifier::external_body]
pub fn cfg_expr_matches(key: &str, preds: &Vec<CfgPred>) -> (r: bool)
    ensures
        r == cfg_key_matches(key@, preds_view(preds@)),
{
    let cfgs: Vec<cargo_platform::Cfg> = preds
        .iter()
        .map(|p| {
            let id = cargo_platform::Ident { name: p.name.clone(), raw: false };
            match &p.value {
                None => cargo_platform::Cfg::Name(id),
                Some(v) => cargo_platform::Cfg::KeyPair(id, v.clone()),
            }
        })
        .collect();
    cargo_platform::CfgExpr::matches_key(key, &cfgs)
}

/// Whether a probed predicate is a real platform fact. The bare `proc_macro`
/// marker only reports that the probe itself was compiled as a macro crate,
/// so it is dropped. The `debug_assertions` marker arguably deserves the same
/// treatment, but dropping it caused regressions, so it stays.
pub open spec fn not_user_specific_spec(p: CfgPredV) -> bool {
    !(p.1 is None && p.0 == "proc_macro"@)
}

/// Whether a probed predicate should be kept in the platform's predicate
/// list.
pub fn not_user_specific_cfg(p: &CfgPred) -> (r: bool)
    ensures
        r == not_user_specific_spec(p@),
{
    match &p.value {
        Some(_) => true,
        None => !strutil::str_eq(p.name.as_str(), "proc_macro"),
    }
}

} // verus!
