//! Where the build step looks for manifests, how it reads their format,
//! and the summary it prints.

use vstd::prelude::*;
use crate::text::{
    owned, push_str, push_char, chars_of, chars_eq_str, str_eq, split_on, split_exec, string_of, dec_text,
    push_decimal, pad_right, push_padded,
};

verus! {

broadcast use vstd::string::group_string_axioms;

/// The directories searched for manifests: the `:`-separated list of the
/// discovery setting, or the current directory when it is not set.
pub open spec fn discovery_roots(setting: Option<Seq<char>>) -> Seq<Seq<char>> {
    match setting {
        Some(s) => split_on(s, ':'),
        None => seq!["./"@],
    }
}

/// The directories searched for manifests; see `discovery_roots`.
pub fn discovery_paths(setting: Option<&str>) -> (r: Vec<String>)
    ensures
        r@.map_values(|s: String| s@) == discovery_roots(match setting { Some(s) => Some(s@), None => None }),
{
    match setting {
        Some(s) => {
            let parts = split_exec(&chars_of(s), ':');
            let mut r: Vec<String> = Vec::new();
            let mut i: usize = 0;
            while i < parts.len()
                invariant
                    i <= parts@.len(),
                    r@.map_values(|s: String| s@) == parts@.map_values(|v: Vec<char>| v@).take(i as int),
                decreases parts@.len() - i,
            {
                let ghost before = r@.map_values(|s: String| s@);
                let ghost pv = parts@.map_values(|v: Vec<char>| v@);
                assert(pv.take(i as int + 1) =~= pv.take(i as int).push(parts@[i as int]@));
                r.push(string_of(&parts[i]));
                assert(r@.map_values(|s: String| s@) =~= before.push(parts@[i as int]@));
                assert(r@.map_values(|s: String| s@) =~= parts@.map_values(|v: Vec<char>| v@).take(i as int + 1));
                i = i + 1;
            }
            assert(parts@.map_values(|v: Vec<char>| v@).take(parts@.len() as int) =~= parts@.map_values(|v: Vec<char>| v@));
            r
        },
        None => {
            let mut r: Vec<String> = Vec::new();
            r.push(owned("./"));
            assert(r@.map_values(|s: String| s@) =~= seq!["./"@]);
            r
        },
    }
}

/// A directory name under which manifests are not collected.
pub open spec fn is_excluded_dir(name: Seq<char>) -> bool {
    name == "tests"@ || name == "test_data"@ || name == "examples"@
}

/// A file that the build step reads as a manifest: a `.yaml`, `.yml` or
/// `.json` file with no `tests`, `test_data` or `examples` component in
/// its path.
pub open spec fn is_manifest_file(components: Seq<Seq<char>>, extension: Option<Seq<char>>) -> bool {
    &&& forall|k: int| 0 <= k < components.len() ==> !is_excluded_dir(#[trigger] components[k])
    &&& extension matches Some(e) && (e == "yaml"@ || e == "yml"@ || e == "json"@)
}

/// Whether a file is read as a manifest; see `is_manifest_file`.
pub fn is_manifest_path(components: &Vec<String>, extension: Option<&str>) -> (r: bool)
    ensures
        r == is_manifest_file(components@.map_values(|s: String| s@), match extension { Some(e) => Some(e@), None => None }),
{
    let ghost cv = components@.map_values(|s: String| s@);
    let mut k: usize = 0;
    while k < components.len()
        invariant
            k <= components@.len(),
            cv == components@.map_values(|s: String| s@),
            forall|m: int| 0 <= m < k ==> !is_excluded_dir(#[trigger] cv[m]),
        decreases components@.len() - k,
    {
        let c = components[k].as_str();
        if str_eq(c, "tests") || str_eq(c, "test_data") || str_eq(c, "examples") {
            assert(is_excluded_dir(cv[k as int]));
            return false;
        }
        k = k + 1;
    }
    match extension {
        Some(e) => str_eq(e, "yaml") || str_eq(e, "yml") || str_eq(e, "json"),
        None => false,
    }
}

/// How a manifest file is read.
#[derive(Debug, PartialEq, Eq, Structural)]
pub enum ManifestFormat {
    /// YAML, for `.yaml` and `.yml` files.
    Yaml,
    /// JSON, for `.json` files.
    Json,
}

/// The format of a manifest file with the given extension, or why it cannot be read.
pub open spec fn format_of(extension: Option<Seq<char>>, display: Seq<char>) -> Result<ManifestFormat, Seq<char>> {
    match extension {
        None => Err("File has no extension: "@ + display),
        Some(e) => if e == "yaml"@ || e == "yml"@ {
            Ok(ManifestFormat::Yaml)
        } else if e == "json"@ {
            Ok(ManifestFormat::Json)
        } else {
            Err("Unsupported file extension '"@ + e + "' for file: "@ + display)
        },
    }
}

/// The format of a manifest file; `display` is how its path is shown.
pub fn manifest_format(extension: Option<&str>, display: &str) -> (r: Result<ManifestFormat, String>)
    ensures
        match r {
            Ok(f) => format_of(match extension { Some(e) => Some(e@), None => None }, display@) == Ok::<ManifestFormat, Seq<char>>(f),
            Err(m) => format_of(match extension { Some(e) => Some(e@), None => None }, display@) == Err::<ManifestFormat, Seq<char>>(m@),
        },
{
    match extension {
        None => {
            let mut m = owned("File has no extension: ");
            push_str(&mut m, display);
            Err(m)
        },
        Some(e) => if str_eq(e, "yaml") || str_eq(e, "yml") {
            Ok(ManifestFormat::Yaml)
        } else if str_eq(e, "json") {
            Ok(ManifestFormat::Json)
        } else {
            let mut m = owned("Unsupported file extension '");
            push_str(&mut m, e);
            push_str(&mut m, "' for file: ");
            push_str(&mut m, display);
            Err(m)
        },
    }
}

/// The line listing one manifest file (`unknown` when it has no name).
pub open spec fn file_line(name: Option<Seq<char>>) -> Seq<char> {
    "\u{2551}    - "@ + pad_right(match name { Some(n) => n, None => "unknown"@ }, 50) + " \u{2551}"@ + "\n"@
}

/// The lines listing the given manifest files.
pub open spec fn file_lines(names: Seq<Option<Seq<char>>>) -> Seq<char>
    decreases names.len(),
{
    if names.len() == 0 {
        Seq::<char>::empty()
    } else {
        file_lines(names.drop_last()) + file_line(names.last())
    }
}

/// The closing lines of the summary.
pub open spec fn summary_tail() -> Seq<char> {
    "\u{2551}  Lookup time: ~80ns (zero runtime overhead)             \u{2551}\n\u{2551}                                                          \u{2551}\n\u{2551}  \u{2705} You did NOT need to write build.rs                  \u{2551}\n\u{2551}  \u{2705} YAML parsed at compile-time                         \u{2551}\n\u{2551}  \u{2705} Command registry ready                              \u{2551}\n\u{2551}                                                          \u{2551}\n\u{2551}  Docs: https://docs.rs/unilang                          \u{2551}\n\u{255a}\u{2550}\u{2550}\u{2550}\u{2550}\u{2550}\u{2550}\u{2550}\u{2550}\u{2550}\u{2550}\u{2550}\u{2550}\u{2550}\u{2550}\u{2550}\u{2550}\u{2550}\u{2550}\u{2550}\u{2550}\u{2550}\u{2550}\u{2550}\u{2550}\u{2550}\u{2550}\u{2550}\u{2550}\u{2550}\u{2550}\u{2550}\u{2550}\u{2550}\u{2550}\u{2550}\u{2550}\u{2550}\u{2550}\u{2550}\u{2550}\u{2550}\u{2550}\u{2550}\u{2550}\u{2550}\u{2550}\u{2550}\u{2550}\u{2550}\u{2550}\u{2550}\u{2550}\u{2550}\u{2550}\u{2550}\u{2550}\u{2550}\u{2550}\u{255d}\n\n"@
}

/// The opening lines of the summary.
pub open spec fn summary_head() -> Seq<char> {
    "\n\u{2554}\u{2550}\u{2550}\u{2550}\u{2550}\u{2550}\u{2550}\u{2550}\u{2550}\u{2550}\u{2550}\u{2550}\u{2550}\u{2550}\u{2550}\u{2550}\u{2550}\u{2550}\u{2550}\u{2550}\u{2550}\u{2550}\u{2550}\u{2550}\u{2550}\u{2550}\u{2550}\u{2550}\u{2550}\u{2550}\u{2550}\u{2550}\u{2550}\u{2550}\u{2550}\u{2550}\u{2550}\u{2550}\u{2550}\u{2550}\u{2550}\u{2550}\u{2550}\u{2550}\u{2550}\u{2550}\u{2550}\u{2550}\u{2550}\u{2550}\u{2550}\u{2550}\u{2550}\u{2550}\u{2550}\u{2550}\u{2550}\u{2550}\u{2550}\u{2557}\n\u{2551}  Unilang: Compile-Time Command Registry                 \u{2551}\n\u{255f}\u{2500}\u{2500}\u{2500}\u{2500}\u{2500}\u{2500}\u{2500}\u{2500}\u{2500}\u{2500}\u{2500}\u{2500}\u{2500}\u{2500}\u{2500}\u{2500}\u{2500}\u{2500}\u{2500}\u{2500}\u{2500}\u{2500}\u{2500}\u{2500}\u{2500}\u{2500}\u{2500}\u{2500}\u{2500}\u{2500}\u{2500}\u{2500}\u{2500}\u{2500}\u{2500}\u{2500}\u{2500}\u{2500}\u{2500}\u{2500}\u{2500}\u{2500}\u{2500}\u{2500}\u{2500}\u{2500}\u{2500}\u{2500}\u{2500}\u{2500}\u{2500}\u{2500}\u{2500}\u{2500}\u{2500}\u{2500}\u{2500}\u{2500}\u{2562}\n"@
}

/// The summary the build step prints after generating a table from the
/// given manifest files (their names) and number of commands: nothing
/// without files; at most five files are listed.
pub open spec fn summary_text(names: Seq<Option<Seq<char>>>, count: nat) -> Seq<char> {
    if names.len() == 0 {
        Seq::<char>::empty()
    } else {
        summary_head() + "\u{2551}  Found "@ + dec_text(names.len()) + " YAML "@
            + pad_right(if names.len() == 1 { "file"@ } else { "files"@ }, 46) + "\u{2551}"@ + "\n"@
            + file_lines(names.take(if names.len() > 5 { 5 } else { names.len() as int }))
            + (if names.len() > 5 {
                "\u{2551}    ... and "@ + dec_text((names.len() - 5) as nat) + " more "@ + pad_right(Seq::<char>::empty(), 38)
                    + "\u{2551}"@ + "\n"@
            } else {
                Seq::<char>::empty()
            })
            + "\u{2551}  Generated PHF map with "@ + dec_text(count) + " "@
            + pad_right(if count == 1 { "command"@ } else { "commands"@ }, 32) + "\u{2551}"@ + "\n"@ + summary_tail()
    }
}

/// The summary printed after generation; see `summary_text`.
pub fn build_summary(names: &Vec<Option<String>>, count: u64) -> (r: String)
    ensures
        r@ == summary_text(names@.map_values(|n: Option<String>| match n { Some(s) => Some(s@), None => None }), count as nat),
{
    let ghost nv = names@.map_values(|n: Option<String>| match n { Some(s) => Some(s@), None => None });
    let mut out = String::new();
    if names.len() == 0 {
        return out;
    }
    push_str(&mut out, "\n\u{2554}\u{2550}\u{2550}\u{2550}\u{2550}\u{2550}\u{2550}\u{2550}\u{2550}\u{2550}\u{2550}\u{2550}\u{2550}\u{2550}\u{2550}\u{2550}\u{2550}\u{2550}\u{2550}\u{2550}\u{2550}\u{2550}\u{2550}\u{2550}\u{2550}\u{2550}\u{2550}\u{2550}\u{2550}\u{2550}\u{2550}\u{2550}\u{2550}\u{2550}\u{2550}\u{2550}\u{2550}\u{2550}\u{2550}\u{2550}\u{2550}\u{2550}\u{2550}\u{2550}\u{2550}\u{2550}\u{2550}\u{2550}\u{2550}\u{2550}\u{2550}\u{2550}\u{2550}\u{2550}\u{2550}\u{2550}\u{2550}\u{2550}\u{2550}\u{2557}\n\u{2551}  Unilang: Compile-Time Command Registry                 \u{2551}\n\u{255f}\u{2500}\u{2500}\u{2500}\u{2500}\u{2500}\u{2500}\u{2500}\u{2500}\u{2500}\u{2500}\u{2500}\u{2500}\u{2500}\u{2500}\u{2500}\u{2500}\u{2500}\u{2500}\u{2500}\u{2500}\u{2500}\u{2500}\u{2500}\u{2500}\u{2500}\u{2500}\u{2500}\u{2500}\u{2500}\u{2500}\u{2500}\u{2500}\u{2500}\u{2500}\u{2500}\u{2500}\u{2500}\u{2500}\u{2500}\u{2500}\u{2500}\u{2500}\u{2500}\u{2500}\u{2500}\u{2500}\u{2500}\u{2500}\u{2500}\u{2500}\u{2500}\u{2500}\u{2500}\u{2500}\u{2500}\u{2500}\u{2500}\u{2500}\u{2562}\n");
    let ghost s0 = out@;
    push_str(&mut out, "\u{2551}  Found ");
    push_decimal(&mut out, names.len() as u64);
    push_str(&mut out, " YAML ");
    push_padded(&mut out, if names.len() == 1 { "file" } else { "files" }, 46);
    push_str(&mut out, "\u{2551}");
    push_str(&mut out, "\n");
    let ghost s1 = out@;
    let shown: usize = if names.len() > 5 { 5 } else { names.len() };
    let mut i: usize = 0;
    assert(nv.take(0) =~= Seq::<Option<Seq<char>>>::empty());
    while i < shown
        invariant
            i <= shown <= names@.len(),
            nv == names@.map_values(|n: Option<String>| match n { Some(s) => Some(s@), None => None }),
            out@ == s1 + file_lines(nv.take(i as int)),
        decreases shown - i,
    {
        assert(nv.take(i as int + 1).drop_last() =~= nv.take(i as int));
        push_str(&mut out, "\u{2551}    - ");
        let name = match &names[i] {
            Some(s) => s.as_str(),
            None => "unknown",
        };
        push_padded(&mut out, name, 50);
        push_str(&mut out, " \u{2551}");
        push_str(&mut out, "\n");
        i = i + 1;
        assert(out@ =~= s1 + file_lines(nv.take(i as int)));
    }
    let ghost s2 = out@;
    if names.len() > 5 {
        push_str(&mut out, "\u{2551}    ... and ");
        push_decimal(&mut out, (names.len() - 5) as u64);
        push_str(&mut out, " more ");
        push_padded(&mut out, "", 38);
        push_str(&mut out, "\u{2551}");
        push_str(&mut out, "\n");
    }
    let ghost s3 = out@;
    push_str(&mut out, "\u{2551}  Generated PHF map with ");
    push_decimal(&mut out, count);
    push_str(&mut out, " ");
    push_padded(&mut out, if count == 1 { "command" } else { "commands" }, 32);
    push_str(&mut out, "\u{2551}");
    push_str(&mut out, "\n");
    push_str(&mut out, "\u{2551}  Lookup time: ~80ns (zero runtime overhead)             \u{2551}\n\u{2551}                                                          \u{2551}\n\u{2551}  \u{2705} You did NOT need to write build.rs                  \u{2551}\n\u{2551}  \u{2705} YAML parsed at compile-time                         \u{2551}\n\u{2551}  \u{2705} Command registry ready                              \u{2551}\n\u{2551}                                                          \u{2551}\n\u{2551}  Docs: https://docs.rs/unilang                          \u{2551}\n\u{255a}\u{2550}\u{2550}\u{2550}\u{2550}\u{2550}\u{2550}\u{2550}\u{2550}\u{2550}\u{2550}\u{2550}\u{2550}\u{2550}\u{2550}\u{2550}\u{2550}\u{2550}\u{2550}\u{2550}\u{2550}\u{2550}\u{2550}\u{2550}\u{2550}\u{2550}\u{2550}\u{2550}\u{2550}\u{2550}\u{2550}\u{2550}\u{2550}\u{2550}\u{2550}\u{2550}\u{2550}\u{2550}\u{2550}\u{2550}\u{2550}\u{2550}\u{2550}\u{2550}\u{2550}\u{2550}\u{2550}\u{2550}\u{2550}\u{2550}\u{2550}\u{2550}\u{2550}\u{2550}\u{2550}\u{2550}\u{2550}\u{2550}\u{2550}\u{255d}\n\n");
    proof {
        reveal_strlit("");
        reveal_strlit("file");
        reveal_strlit("files");
        reveal_strlit("command");
        reveal_strlit("commands");
    }
    assert(out@ =~= summary_text(nv, count as nat));
    out
}

} // verus!
