//! File templates for new projects.

use vstd::prelude::*;
use crate::text::{ owned, push_str };

verus! {

/// The part of the manifest template after the license name.
pub open spec fn cargo_toml_tail() -> Seq<char> {
    "\"\n\n[dependencies]\n# Unilang with default features (Approach #2: Multi-YAML Build-Time Static)\n# Fix(outdated-version): Version updated from 0.33 to 0.46 to match published crates.io version\n# Root cause: Hardcoded version string was never updated when unilang published newer versions,\n# causing all generated projects to fail compilation with \"failed to select a version\" error\n# Pitfall: Any scaffolding tool with hardcoded versions needs tests verifying generated artifacts\n# compile successfully, not just that templates contain expected strings. Consider reading version\n# from Cargo.toml at compile time to prevent future desynchronization.\nunilang = \"0.46\"\n\n# \u{26a0}\u{fe0f}  IMPORTANT: Do NOT add these - unilang already provides them:\n# \u{274c} serde_yaml (via yaml_parser feature)\n# \u{274c} walkdir (via multi_file feature)\n# \u{274c} phf (via static_registry feature)\n#\n# \u{26a0}\u{fe0f}  IMPORTANT: Do NOT create build.rs\n# Unilang already provides build.rs that handles everything.\n#\n# If you see warnings during cargo build, that's unilang working!\n# It's processing your YAML files at compile-time.\n"@
}

/// The authors line of the manifest: empty without an author.
pub open spec fn author_line(author: Option<Seq<char>>) -> Seq<char> {
    match author {
        Some(a) => "authors = [ \""@ + a + "\" ]\n"@,
        None => Seq::<char>::empty(),
    }
}

/// The manifest of a new project: its name, version 0.1.0, edition 2021,
/// the author when given, the license (MIT unless given) and the framework
/// dependency with guidance on what not to add.
pub open spec fn cargo_toml_text(name: Seq<char>, author: Option<Seq<char>>, license: Option<Seq<char>>) -> Seq<char> {
    "[package]\nname = \""@ + name + "\"\nversion = \"0.1.0\"\nedition = \"2021\"\n"@ + author_line(author)
        + "license = \""@ + (match license {
        Some(l) => l,
        None => "MIT"@,
    }) + cargo_toml_tail()
}

/// Generates the manifest of a new project; see `cargo_toml_text`.
pub fn cargo_toml(project_name: &str, author: Option<&str>, license: Option<&str>) -> (r: String)
    ensures
        r@ == cargo_toml_text(
            project_name@,
            match author { Some(a) => Some(a@), None => None },
            match license { Some(l) => Some(l@), None => None },
        ),
{
    let mut out = owned("[package]\nname = \"");
    push_str(&mut out, project_name);
    push_str(&mut out, "\"\nversion = \"0.1.0\"\nedition = \"2021\"\n");
    match author {
        Some(a) => {
            push_str(&mut out, "authors = [ \"");
            push_str(&mut out, a);
            push_str(&mut out, "\" ]\n");
        },
        None => {},
    }
    push_str(&mut out, "license = \"");
    match license {
        Some(l) => push_str(&mut out, l),
        None => push_str(&mut out, "MIT"),
    }
    push_str(&mut out, "\"\n\n[dependencies]\n# Unilang with default features (Approach #2: Multi-YAML Build-Time Static)\n# Fix(outdated-version): Version updated from 0.33 to 0.46 to match published crates.io version\n# Root cause: Hardcoded version string was never updated when unilang published newer versions,\n# causing all generated projects to fail compilation with \"failed to select a version\" error\n# Pitfall: Any scaffolding tool with hardcoded versions needs tests verifying generated artifacts\n# compile successfully, not just that templates contain expected strings. Consider reading version\n# from Cargo.toml at compile time to prevent future desynchronization.\nunilang = \"0.46\"\n\n# \u{26a0}\u{fe0f}  IMPORTANT: Do NOT add these - unilang already provides them:\n# \u{274c} serde_yaml (via yaml_parser feature)\n# \u{274c} walkdir (via multi_file feature)\n# \u{274c} phf (via static_registry feature)\n#\n# \u{26a0}\u{fe0f}  IMPORTANT: Do NOT create build.rs\n# Unilang already provides build.rs that handles everything.\n#\n# If you see warnings during cargo build, that's unilang working!\n# It's processing your YAML files at compile-time.\n");
    assert(out@ =~= cargo_toml_text(
        project_name@,
        match author { Some(a) => Some(a@), None => None },
        match license { Some(l) => Some(l@), None => None },
    ));
    out
}

} // verus!
