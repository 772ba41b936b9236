use vstd::prelude::*;
use vstd::string::StringExecFns;
use crate::errors::{err_info_spec, output_err_info, ProbeError};
use crate::kinds::TargetKind;
use crate::strutil;
use crate::strutil::{
    contains_at, contains_seq, dash_underscore, ends_with_spec, find_spec, lines_spec,
    starts_with_spec, trim_spec,
};

verus! {

/// Kind of each file generated for one compiled unit, part of `FileType`.
#[derive(Clone, Copy, PartialEq, Eq, Structural, Debug)]
pub enum FileFlavor {
    /// Not a special file type.
    Normal,
    /// Like `Normal`, but not directly executable.
    Auxiliary,
    /// Something that can be linked against (e.g., a library).
    Linkable { rmeta: bool },
    /// Piece of external debug information (e.g., `.dSYM`/`.pdb` file).
    DebugInfo,
}

/// The mathematical value of a `FileType`.
#[verifier::ext_equal]
pub ghost struct FileTypeV {
    pub flavor: FileFlavor,
    pub suffix: Seq<char>,
    pub prefix: Seq<char>,
    pub should_replace_hyphens: bool,
}

/// Type of each file generated for one compiled unit.
#[derive(Clone, Debug)]
pub struct FileType {
    /// The kind of file.
    pub flavor: FileFlavor,
    /// The suffix for the file (for example, `.rlib`). Empty for executables
    /// on Unix-like platforms.
    pub suffix: String,
    /// The prefix for the file (for example, `lib`). Empty for things like
    /// executables.
    pub prefix: String,
    /// Whether the file stem has each hyphen rewritten to an underscore.
    /// Binary targets for the wasm family generate a second file whose stem
    /// uses underscores where the declared name uses hyphens, so the two
    /// names differ exactly there.
    pub should_replace_hyphens: bool,
}

impl View for FileType {
    type V = FileTypeV;

    open spec fn view(&self) -> FileTypeV {
        FileTypeV {
            flavor: self.flavor,
            suffix: self.suffix@,
            prefix: self.prefix@,
            should_replace_hyphens: self.should_replace_hyphens,
        }
    }
}

impl DeepView for FileType {
    type V = FileTypeV;

    open spec fn deep_view(&self) -> FileTypeV {
        self.view()
    }
}

impl FileType {
    /// The file name this entry gives to a unit with the given stem: prefix,
    /// then the stem (hyphens rewritten if the entry asks for it), then the
    /// suffix.
    pub fn filename(&self, stem: &str) -> (r: String)
        ensures
            r@ == self.prefix@ + (if self.should_replace_hyphens {
                dash_underscore(stem@)
            } else {
                stem@
            }) + self.suffix@,
    {
        let mid = if self.should_replace_hyphens {
            strutil::replace_dashes(stem)
        } else {
            String::from_str(stem)
        };
        let mut r = self.prefix.clone();
        r.append(mid.as_str());
        r.append(self.suffix.as_str());
        r
    }
}

// ---------------------------------------------------------------------------
// The artifact file plan: the primary entry from the discovered naming rule,
// then auxiliary entries for a closed set of platform exceptions, in a fixed
// order.
// ---------------------------------------------------------------------------

/// The ordered file entries produced for one crate type whose naming rule is
/// (`prefix`, `suffix`), compiled as `kind` for the platform `triple`.
pub open spec fn plan_spec(
    prefix: Seq<char>,
    suffix: Seq<char>,
    crate_type: Seq<char>,
    flavor: FileFlavor,
    kind: TargetKind,
    triple: Seq<char>,
) -> Seq<FileTypeV> {
    let base = seq![
        FileTypeV { flavor, suffix, prefix, should_replace_hyphens: false },
    ];
    let with_implib = if ends_with_spec(triple, "-windows-msvc"@) && ends_with_spec(
        crate_type,
        "dylib"@,
    ) && suffix == ".dll"@ {
        base.push(
            FileTypeV {
                flavor: FileFlavor::Normal,
                suffix: ".dll.lib"@,
                prefix,
                should_replace_hyphens: false,
            },
        )
    } else {
        base
    };
    let with_wasm = if starts_with_spec(triple, "wasm32-"@) && crate_type == "bin"@ && suffix
        == ".js"@ {
        with_implib.push(
            FileTypeV {
                flavor: FileFlavor::Auxiliary,
                suffix: ".wasm"@,
                prefix,
                should_replace_hyphens: true,
            },
        )
    } else {
        with_implib
    };
    let is_apple = contains_seq(triple, "-apple-"@);
    if kind == TargetKind::Bin || (kind == TargetKind::ExampleBin && is_apple) {
        if is_apple {
            with_wasm.push(
                FileTypeV {
                    flavor: FileFlavor::DebugInfo,
                    suffix: ".dSYM"@,
                    prefix,
                    should_replace_hyphens: false,
                },
            )
        } else if ends_with_spec(triple, "-msvc"@) {
            with_wasm.push(
                FileTypeV {
                    flavor: FileFlavor::DebugInfo,
                    suffix: ".pdb"@,
                    prefix,
                    should_replace_hyphens: true,
                },
            )
        } else {
            with_wasm
        }
    } else {
        with_wasm
    }
}

/// Expands one discovered naming rule into the ordered file entries for the
/// given crate type, build-target kind and platform triple.
pub fn file_plan(
    prefix: &String,
    suffix: &String,
    crate_type: &str,
    flavor: FileFlavor,
    kind: &TargetKind,
    target_triple: &str,
) -> (r: Vec<FileType>)
    ensures
        r.deep_view() == plan_spec(prefix@, suffix@, crate_type@, flavor, *kind, target_triple@),
{
    let mut r: Vec<FileType> = Vec::new();
    r.push(
        FileType {
            flavor,
            suffix: suffix.clone(),
            prefix: prefix.clone(),
            should_replace_hyphens: false,
        },
    );
    if strutil::str_ends_with(target_triple, "-windows-msvc") && strutil::str_ends_with(
        crate_type,
        "dylib",
    ) && strutil::str_eq(suffix.as_str(), ".dll") {
        r.push(
            FileType {
                flavor: FileFlavor::Normal,
                suffix: String::from_str(".dll.lib"),
                prefix: prefix.clone(),
                should_replace_hyphens: false,
            },
        );
    }
    if strutil::str_starts_with(target_triple, "wasm32-") && strutil::str_eq(crate_type, "bin")
        && strutil::str_eq(suffix.as_str(), ".js") {
        r.push(
            FileType {
                flavor: FileFlavor::Auxiliary,
                suffix: String::from_str(".wasm"),
                prefix: prefix.clone(),
                should_replace_hyphens: true,
            },
        );
    }
    let is_apple = strutil::str_contains(target_triple, "-apple-");
    if *kind == TargetKind::Bin || (*kind == TargetKind::ExampleBin && is_apple) {
        if is_apple {
            r.push(
                FileType {
                    flavor: FileFlavor::DebugInfo,
                    suffix: String::from_str(".dSYM"),
                    prefix: prefix.clone(),
                    should_replace_hyphens: false,
                },
            );
        } else if strutil::str_ends_with(target_triple, "-msvc") {
            r.push(
                FileType {
                    flavor: FileFlavor::DebugInfo,
                    suffix: String::from_str(".pdb"),
                    prefix: prefix.clone(),
                    should_replace_hyphens: true,
                },
            );
        }
    }
    proof {
        assert(r.deep_view() =~~= plan_spec(
            prefix@,
            suffix@,
            crate_type@,
            flavor,
            *kind,
            target_triple@,
        ));
    }
    r
}

/// Debug-symbol entries never appear for test targets: whatever the platform
/// triple, a plan computed for the `Test` kind holds no `DebugInfo` entry
/// beyond what the caller put in the primary flavor.
pub proof fn lemma_no_debug_entries_for_tests(
    prefix: Seq<char>,
    suffix: Seq<char>,
    crate_type: Seq<char>,
    flavor: FileFlavor,
    triple: Seq<char>,
)
    requires
        flavor != FileFlavor::DebugInfo,
    ensures
        forall|i: int|
            0 <= i < plan_spec(prefix, suffix, crate_type, flavor, TargetKind::Test, triple).len()
                ==> plan_spec(prefix, suffix, crate_type, flavor, TargetKind::Test, triple)[i].flavor
                != FileFlavor::DebugInfo,
{
}

// ---------------------------------------------------------------------------
// Decoding one crate type's naming line from toolchain output.
// ---------------------------------------------------------------------------

/// Whether one stderr line reports the crate type as unsupported.
pub open spec fn line_flags_unsupported(line: Seq<char>, crate_type: Seq<char>) -> bool {
    (contains_seq(line, "unsupported crate type"@) || contains_seq(line, "unknown crate type"@))
        && contains_seq(line, "crate type `"@ + crate_type + "`"@)
}

/// Whether the captured stderr reports the crate type as unsupported.
pub open spec fn unsupported_spec(error: Seq<char>, crate_type: Seq<char>) -> bool {
    exists|i: int|
        0 <= i < lines_spec(error).len() && line_flags_unsupported(lines_spec(error)[i], crate_type)
}

/// The naming rule one stdout line carries: the part before the first
/// triple-underscore delimiter is the prefix, the part between the first and
/// the second delimiter (or the end) is the suffix; a line without the
/// delimiter carries no rule.
pub open spec fn naming_of_line(line: Seq<char>) -> Option<(Seq<char>, Seq<char>)> {
    let t = trim_spec(line);
    match find_spec(t, "___"@, 0) {
        Option::None => Option::None,
        Option::Some(i) => {
            let end = match find_spec(t, "___"@, i + 3) {
                Option::Some(j) => j,
                Option::None => t.len() as int,
            };
            Option::Some((t.take(i), t.subrange(i + 3, end)))
        },
    }
}

/// The diagnostic for a missing naming line.
pub open spec fn missing_line_msg(
    crate_type: Seq<char>,
    cmd: Seq<char>,
    output: Seq<char>,
    error: Seq<char>,
) -> Seq<char> {
    "malformed output when learning about crate-type "@ + crate_type + " information\n"@
        + err_info_spec(cmd, output, error)
}

/// The diagnostic for a naming line without the delimiter.
pub open spec fn bad_delim_msg(cmd: Seq<char>, output: Seq<char>, error: Seq<char>) -> Seq<char> {
    "output of --print=file-names has changed in the compiler, cannot parse\n"@ + err_info_spec(
        cmd,
        output,
        error,
    )
}

/// Decodes the naming rule for one crate type from captured toolchain
/// output. When stderr reports the type as unsupported, no stdout line is
/// consumed and the absence result is returned; otherwise exactly one line at
/// the cursor is consumed and split on the delimiter.
pub fn parse_crate_type(
    crate_type: &str,
    cmd: &str,
    output: &str,
    error: &str,
    lines: &Vec<String>,
    cursor: &mut usize,
) -> (r: Result<Option<(String, String)>, ProbeError>)
    ensures
        unsupported_spec(error@, crate_type@) ==> ({
            &&& *final(cursor) == *old(cursor)
            &&& r matches Ok(n)
            &&& n is None
        }),
        !unsupported_spec(error@, crate_type@) && *old(cursor) >= lines@.len() ==> ({
            &&& *final(cursor) == *old(cursor)
            &&& r matches Err(e)
            &&& e matches ProbeError::MissingCrateTypeLine { detail }
            &&& detail@ == missing_line_msg(crate_type@, cmd@, output@, error@)
        }),
        !unsupported_spec(error@, crate_type@) && *old(cursor) < lines@.len() && naming_of_line(
            lines@[*old(cursor) as int]@,
        ) is None ==> ({
            &&& *final(cursor) == *old(cursor)
            &&& r matches Err(e)
            &&& e matches ProbeError::BadNamingDelimiter { detail }
            &&& detail@ == bad_delim_msg(cmd@, output@, error@)
        }),
        !unsupported_spec(error@, crate_type@) && *old(cursor) < lines@.len() && naming_of_line(
            lines@[*old(cursor) as int]@,
        ) is Some ==> ({
            &&& *final(cursor) == *old(cursor) + 1
            &&& r matches Ok(n)
            &&& n matches Some((p, s))
            &&& (p@, s@) == naming_of_line(lines@[*old(cursor) as int]@)->0
        }),
{
    // scan stderr for a line reporting this crate type as unsupported
    let elines = strutil::split_lines(error);
    let n1 = strutil::str_chars("unsupported crate type");
    let n2 = strutil::str_chars("unknown crate type");
    let mut ct_needle = String::from_str("crate type `");
    ct_needle.append(crate_type);
    ct_needle.append("`");
    let nct = strutil::str_chars(ct_needle.as_str());
    let en = elines.len();
    let mut i: usize = 0;
    while i < en
        invariant
            0 <= i <= en,
            en == elines@.len(),
            elines.deep_view() == lines_spec(error@),
            n1@ == "unsupported crate type"@,
            n2@ == "unknown crate type"@,
            nct@ == "crate type `"@ + crate_type@ + "`"@,
            forall|k: int|
                0 <= k < i ==> !line_flags_unsupported(lines_spec(error@)[k], crate_type@),
        decreases en - i,
    {
        let lc = strutil::str_chars(elines[i].as_str());
        proof {
            assert(lc@ == lines_spec(error@)[i as int]);
        }
        if (strutil::contains_sub(&lc, &n1) || strutil::contains_sub(&lc, &n2))
            && strutil::contains_sub(&lc, &nct) {
            proof {
                assert(line_flags_unsupported(lines_spec(error@)[i as int], crate_type@));
                assert(unsupported_spec(error@, crate_type@));
            }
            return Ok(None);
        }
        i = i + 1;
    }
    proof {
        assert(lines_spec(error@).len() == en);
        assert(!unsupported_spec(error@, crate_type@));
    }
    let idx: usize = *cursor;
    if idx >= lines.len() {
        let info = output_err_info(cmd, output, error);
        let mut msg = String::from_str("malformed output when learning about crate-type ");
        msg.append(crate_type);
        msg.append(" information\n");
        msg.append(info.as_str());
        return Err(ProbeError::MissingCrateTypeLine { detail: msg });
    }
    let lc = strutil::str_chars(lines[idx].as_str());
    let t = strutil::trimmed(&lc);
    let delim = strutil::str_chars("___");
    let first = strutil::find_sub_from(&t, &delim, 0);
    match first {
        None => {
            let info = output_err_info(cmd, output, error);
            let mut msg = String::from_str(
                "output of --print=file-names has changed in the compiler, cannot parse\n",
            );
            msg.append(info.as_str());
            Err(ProbeError::BadNamingDelimiter { detail: msg })
        },
        Some(fi) => {
            proof {
                reveal_strlit("___");
                strutil::lemma_find_spec_props(t@, "___"@, 0);
                assert(contains_at(t@, fi as int, "___"@));
                assert(fi + 3 <= t@.len());
            }
            let tn = t.len();
            let end = match strutil::find_sub_from(&t, &delim, fi + 3) {
                Some(j) => {
                    proof {
                        strutil::lemma_find_spec_props(t@, "___"@, fi + 3);
                        assert(contains_at(t@, j as int, "___"@));
                    }
                    j
                },
                None => tn,
            };
            let pc = strutil::copy_range(&t, 0, fi);
            let sc = strutil::copy_range(&t, fi + 3, end);
            let prefix = strutil::chars_str(&pc);
            let suffix = strutil::chars_str(&sc);
            proof {
                assert(t@.take(fi as int) =~= t@.subrange(0, fi as int));
            }
            *cursor = idx + 1;
            Ok(Some((prefix, suffix)))
        },
    }
}

} // verus!
