//! Parameters of the tool's commands and their parsing.

use vstd::prelude::*;
use crate::debug_text::{ to_lowercase, lowercase_text };
use crate::text::{
    chars_of, owned, push_str, chars_eq_str, parse_u8, parse_u8_text, dec_text, push_decimal,
    is_first_occurrence, contains, find_exec, subvec, string_of, is_ascii_alnum,
};

verus! {

broadcast use vstd::string::group_string_axioms;

/// A result whose text is taken as characters.
pub open spec fn res_view<T>(r: Result<T, String>) -> Result<T, Seq<char>> {
    match r {
        Ok(v) => Ok(v),
        Err(m) => Err(m@),
    }
}

/// What a verbosity level reads as: a number from 0 to 5.
pub open spec fn verbosity_of(level: Seq<char>) -> Result<u8, Seq<char>> {
    match parse_u8_text(level) {
        Some(n) => if n <= 5 {
            Ok(n)
        } else {
            Err("Verbosity must be 0-5, got "@ + dec_text(n as nat))
        },
        None => Err("Invalid verbosity '"@ + level + "', must be 0-5"@),
    }
}

/// Reads a verbosity level from 0 to 5.
pub fn validate_verbosity(level: &str) -> (r: Result<u8, String>)
    ensures
        res_view(r) == verbosity_of(level@),
{
    match parse_u8(level) {
        Some(n) => if n <= 5 {
            Ok(n)
        } else {
            let mut m = owned("Verbosity must be 0-5, got ");
            push_decimal(&mut m, n as u64);
            Err(m)
        },
        None => {
            let mut m = owned("Invalid verbosity '");
            push_str(&mut m, level);
            push_str(&mut m, "', must be 0-5");
            Err(m)
        },
    }
}

/// What a boolean parameter reads as, compared in its Unicode lower-case
/// form: `true`, `1`, `yes` or `false`, `0`, `no`.
pub open spec fn bool_of(value: Seq<char>) -> Result<bool, Seq<char>> {
    let l = lowercase_text(value);
    if l == "true"@ || l == "1"@ || l == "yes"@ {
        Ok(true)
    } else if l == "false"@ || l == "0"@ || l == "no"@ {
        Ok(false)
    } else {
        Err("Invalid boolean '"@ + value + "', must be 'true' or 'false'"@)
    }
}

/// Reads a boolean parameter; see `bool_of`.
pub fn parse_bool(value: &str) -> (r: Result<bool, String>)
    ensures
        res_view(r) == bool_of(value@),
{
    let lower = to_lowercase(value);
    let l = chars_of(lower.as_str());
    if chars_eq_str(&l, "true") || chars_eq_str(&l, "1") || chars_eq_str(&l, "yes") {
        Ok(true)
    } else if chars_eq_str(&l, "false") || chars_eq_str(&l, "0") || chars_eq_str(&l, "no") {
        Ok(false)
    } else {
        let mut m = owned("Invalid boolean '");
        push_str(&mut m, value);
        push_str(&mut m, "', must be 'true' or 'false'");
        Err(m)
    }
}

/// Parameters of the `.check` command.
#[derive(Debug)]
pub struct CheckParams {
    /// Directory of the project to check.
    pub path: String,
    /// Output detail, 0 (silent) to 5.
    pub verbosity: u8,
    /// Whether fixes are requested.
    pub fix: bool,
}

/// The value of check parameters.
pub struct CheckParamsView {
    pub path: Seq<char>,
    pub verbosity: u8,
    pub fix: bool,
}

/// The `(key, value)` pairs taken as characters.
pub open spec fn pairs_view(v: Seq<(String, String)>) -> Seq<(Seq<char>, Seq<char>)> {
    v.map_values(|p: (String, String)| (p.0@, p.1@))
}

/// Applies one `key::value` parameter.
pub open spec fn apply_check_param(p: CheckParamsView, key: Seq<char>, value: Seq<char>) -> Result<CheckParamsView, Seq<char>> {
    if key == "path"@ || key == "p"@ {
        Ok(CheckParamsView { path: value, ..p })
    } else if key == "verbosity"@ || key == "v"@ {
        match verbosity_of(value) {
            Ok(n) => Ok(CheckParamsView { verbosity: n, ..p }),
            Err(m) => Err(m),
        }
    } else if key == "fix"@ || key == "f"@ {
        match bool_of(value) {
            Ok(b) => Ok(CheckParamsView { fix: b, ..p }),
            Err(m) => Err(m),
        }
    } else {
        Err("Unknown parameter: "@ + key)
    }
}

/// The parameters that a list of pairs gives, applied in order from the
/// defaults: path `.`, verbosity 2, no fix; the first bad pair fails.
pub open spec fn check_params_of(args: Seq<(Seq<char>, Seq<char>)>) -> Result<CheckParamsView, Seq<char>>
    decreases args.len(),
{
    if args.len() == 0 {
        Ok(CheckParamsView { path: "."@, verbosity: 2, fix: false })
    } else {
        match check_params_of(args.drop_last()) {
            Ok(p) => apply_check_param(p, args.last().0, args.last().1),
            Err(m) => Err(m),
        }
    }
}

impl CheckParams {
    /// The value of these parameters.
    pub open spec fn view_of(&self) -> CheckParamsView {
        CheckParamsView { path: self.path@, verbosity: self.verbosity, fix: self.fix }
    }

    /// Reads the `.check` parameters from `(key, value)` pairs: `path`/`p`,
    /// `verbosity`/`v` (0 to 5) and `fix`/`f` (a boolean). The directory is
    /// not looked at here; the caller checks that it can be read.
    pub fn parse(args: &Vec<(String, String)>) -> (r: Result<CheckParams, String>)
        ensures
            match r {
                Ok(p) => check_params_of(pairs_view(args@)) == Ok::<CheckParamsView, Seq<char>>(p.view_of()),
                Err(m) => check_params_of(pairs_view(args@)) == Err::<CheckParamsView, Seq<char>>(m@),
            },
    {
        proof {
            reveal_strlit(".");
        }
        let mut p = CheckParams { path: owned("."), verbosity: 2, fix: false };
        let mut i: usize = 0;
        while i < args.len()
            invariant
                i <= args@.len(),
                check_params_of(pairs_view(args@).take(i as int)) == Ok::<CheckParamsView, Seq<char>>(p.view_of()),
            decreases args@.len() - i,
        {
            let ghost pv = pairs_view(args@);
            assert(pv.take(i as int + 1).drop_last() =~= pv.take(i as int));
            assert(pv.take(i as int + 1).last() == (args@[i as int].0@, args@[i as int].1@));
            let key = chars_of(args[i].0.as_str());
            let value = args[i].1.as_str();
            if chars_eq_str(&key, "path") || chars_eq_str(&key, "p") {
                p.path = owned(value);
            } else if chars_eq_str(&key, "verbosity") || chars_eq_str(&key, "v") {
                match validate_verbosity(value) {
                    Ok(n) => {
                        p.verbosity = n;
                    },
                    Err(m) => {
                        proof {
                            lemma_check_params_err(pv, i as int + 1);
                        }
                        return Err(m);
                    },
                }
            } else if chars_eq_str(&key, "fix") || chars_eq_str(&key, "f") {
                match parse_bool(value) {
                    Ok(b) => {
                        p.fix = b;
                    },
                    Err(m) => {
                        proof {
                            lemma_check_params_err(pv, i as int + 1);
                        }
                        return Err(m);
                    },
                }
            } else {
                let mut m = owned("Unknown parameter: ");
                push_str(&mut m, args[i].0.as_str());
                proof {
                    lemma_check_params_err(pv, i as int + 1);
                }
                return Err(m);
            }
            i = i + 1;
        }
        assert(pairs_view(args@).take(args@.len() as int) =~= pairs_view(args@));
        Ok(p)
    }
}

/// Once a prefix of the pairs fails, the whole list fails with the same message.
proof fn lemma_check_params_err(args: Seq<(Seq<char>, Seq<char>)>, n: int)
    requires
        0 <= n <= args.len(),
        check_params_of(args.take(n)) is Err,
    ensures
        check_params_of(args) == check_params_of(args.take(n)),
    decreases args.len() - n,
{
    if n < args.len() {
        assert(args.take(n + 1).drop_last() =~= args.take(n));
        lemma_check_params_err(args, n + 1);
    } else {
        assert(args.take(n) =~= args);
    }
}

/// The first position at which `::` occurs in `s`.
pub open spec fn param_sep(s: Seq<char>) -> int {
    choose|i: int| is_first_occurrence(s, "::"@, i)
}

/// What a list of command-line parameters reads as: each must hold `::`,
/// which splits it into key and value at its first occurrence.
pub open spec fn params_of(args: Seq<Seq<char>>) -> Result<Seq<(Seq<char>, Seq<char>)>, Seq<char>>
    decreases args.len(),
{
    if args.len() == 0 {
        Ok(Seq::<(Seq<char>, Seq<char>)>::empty())
    } else {
        match params_of(args.drop_last()) {
            Ok(ps) => {
                let a = args.last();
                if contains(a, "::"@) {
                    let i = param_sep(a);
                    Ok(ps.push((a.subrange(0, i), a.subrange(i + 2, a.len() as int))))
                } else {
                    Err("Invalid parameter format '"@ + a + "'. Use param::value format"@)
                }
            },
            Err(m) => Err(m),
        }
    }
}

proof fn lemma_params_err(args: Seq<Seq<char>>, n: int)
    requires
        0 <= n <= args.len(),
        params_of(args.take(n)) is Err,
    ensures
        params_of(args) == params_of(args.take(n)),
    decreases args.len() - n,
{
    if n < args.len() {
        assert(args.take(n + 1).drop_last() =~= args.take(n));
        lemma_params_err(args, n + 1);
    } else {
        assert(args.take(n) =~= args);
    }
}

/// Splits each `key::value` parameter at its first `::`; the first
/// parameter without `::` is rejected.
pub fn parse_params(args: &Vec<String>) -> (r: Result<Vec<(String, String)>, String>)
    ensures
        match r {
            Ok(ps) => params_of(args@.map_values(|s: String| s@)) == Ok::<Seq<(Seq<char>, Seq<char>)>, Seq<char>>(pairs_view(ps@)),
            Err(m) => params_of(args@.map_values(|s: String| s@)) == Err::<Seq<(Seq<char>, Seq<char>)>, Seq<char>>(m@),
        },
{
    let ghost av = args@.map_values(|s: String| s@);
    let sep = chars_of("::");
    proof {
        reveal_strlit("::");
    }
    let mut params: Vec<(String, String)> = Vec::new();
    assert(pairs_view(params@) =~= Seq::<(Seq<char>, Seq<char>)>::empty());
    assert(av.take(0) =~= Seq::<Seq<char>>::empty());
    let mut i: usize = 0;
    while i < args.len()
        invariant
            i <= args@.len(),
            av == args@.map_values(|s: String| s@),
            sep@ == "::"@,
            sep@.len() == 2,
            params_of(av.take(i as int)) == Ok::<Seq<(Seq<char>, Seq<char>)>, Seq<char>>(pairs_view(params@)),
        decreases args@.len() - i,
    {
        assert(av.take(i as int + 1).drop_last() =~= av.take(i as int));
        assert(av.take(i as int + 1).last() == args@[i as int]@);
        let a = chars_of(args[i].as_str());
        match find_exec(&a, &sep) {
            Some(idx) => {
                proof {
                    let j = param_sep(a@);
                    assert(is_first_occurrence(a@, "::"@, idx as int));
                    if j != idx as int {
                        if j < idx as int {
                        } else {
                        }
                    }
                    assert(j == idx as int);
                    assert(idx + 2 <= a@.len());
                }
                let alen = a.len();
                assert(idx + 2 <= alen);
                let key = string_of(&subvec(&a, 0, idx));
                let value = string_of(&subvec(&a, idx + 2, a.len()));
                let ghost before = pairs_view(params@);
                params.push((key, value));
                assert(pairs_view(params@) =~= before.push((a@.subrange(0, idx as int), a@.subrange(idx + 2, a@.len() as int))));
            },
            None => {
                let mut m = owned("Invalid parameter format '");
                push_str(&mut m, args[i].as_str());
                push_str(&mut m, "'. Use param::value format");
                proof {
                    lemma_params_err(av, i as int + 1);
                }
                return Err(m);
            },
        }
        i = i + 1;
    }
    assert(av.take(args@.len() as int) =~= av);
    Ok(params)
}

/// A character allowed in a project name: ASCII letter or digit, `_`, `-`.
pub open spec fn is_project_char(c: char) -> bool {
    is_ascii_alnum(c) || c == '_' || c == '-'
}

/// What a project name check gives, checked in this order: an empty name,
/// a name over 64 characters, a name with `..`, `/` or `\`, a name with
/// another character than letters, digits, `_` and `-`, and a name that
/// does not start with a letter or `_`.
pub open spec fn project_name_check(name: Seq<char>) -> Result<(), Seq<char>> {
    if name.len() == 0 {
        Err("Project name cannot be empty"@)
    } else if name.len() > 64 {
        Err("Project name is too long (maximum 64 characters)"@)
    } else if contains(name, ".."@) || name.contains('/') || name.contains('\\') {
        Err("Project name cannot contain path separators or '..'"@)
    } else if exists|k: int| 0 <= k < name.len() && !is_project_char(#[trigger] name[k]) {
        Err("Project name may only contain ASCII letters, digits, '_' and '-'"@)
    } else if !(('a' <= name[0] && name[0] <= 'z') || ('A' <= name[0] && name[0] <= 'Z') || name[0] == '_') {
        Err("Project name must start with a letter or '_'"@)
    } else {
        Ok(())
    }
}

/// Checks that a project name is safe to use as a directory and crate name.
pub fn validate_project_name(name: &str) -> (r: Result<(), String>)
    ensures
        res_view(r) == project_name_check(name@),
{
    let v = chars_of(name);
    if v.len() == 0 {
        return Err(owned("Project name cannot be empty"));
    }
    if v.len() > 64 {
        return Err(owned("Project name is too long (maximum 64 characters)"));
    }
    let dots = chars_of("..");
    if crate::text::contains_exec(&v, &dots) || crate::text::contains_char(&v, '/') || crate::text::contains_char(&v, '\\') {
        proof {
            reveal_strlit("..");
        }
        return Err(owned("Project name cannot contain path separators or '..'"));
    }
    proof {
        reveal_strlit("..");
    }
    let mut k: usize = 0;
    while k < v.len()
        invariant
            k <= v@.len(),
            v@ == name@,
            0 < name@.len() <= 64,
            !(contains(name@, ".."@) || name@.contains('/') || name@.contains('\\')),
            forall|m: int| 0 <= m < k ==> is_project_char(#[trigger] v@[m]),
        decreases v@.len() - k,
    {
        let c = v[k];
        let ok = ('a' <= c && c <= 'z') || ('A' <= c && c <= 'Z') || ('0' <= c && c <= '9') || c == '_' || c == '-';
        if !ok {
            assert(!is_project_char(v@[k as int]));
            return Err(owned("Project name may only contain ASCII letters, digits, '_' and '-'"));
        }
        k = k + 1;
    }
    let c = v[0];
    if !(('a' <= c && c <= 'z') || ('A' <= c && c <= 'Z') || c == '_') {
        return Err(owned("Project name must start with a letter or '_'"));
    }
    Ok(())
}

} // verus!
