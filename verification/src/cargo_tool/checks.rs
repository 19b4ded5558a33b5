//! The checks run on a project and the rendering of their report.

use vstd::prelude::*;
use crate::text::{ chars_of, owned, push_str, push_char, contains, contains_exec, dec_text, push_decimal };

verus! {

broadcast use vstd::string::group_string_axioms;

/// The outcome of one check: passed, or failed with an explanation.
#[derive(Debug)]
pub struct CheckResult {
    /// Whether the check passed.
    pub passed: bool,
    /// Short name of the problem found.
    pub issue_type: String,
    /// Where the problem is.
    pub location: String,
    /// What is wrong.
    pub issue: String,
    /// How to fix it.
    pub fix: String,
    /// Where to read more.
    pub docs_url: String,
}

/// The value of a check outcome.
pub struct CheckView {
    pub passed: bool,
    pub issue_type: Seq<char>,
    pub location: Seq<char>,
    pub issue: Seq<char>,
    pub fix: Seq<char>,
    pub docs_url: Seq<char>,
}

impl View for CheckResult {
    type V = CheckView;

    open spec fn view(&self) -> CheckView {
        CheckView {
            passed: self.passed,
            issue_type: self.issue_type@,
            location: self.location@,
            issue: self.issue@,
            fix: self.fix@,
            docs_url: self.docs_url@,
        }
    }
}

/// A passed outcome: no explanation.
pub open spec fn passed_view() -> CheckView {
    CheckView {
        passed: true,
        issue_type: Seq::<char>::empty(),
        location: Seq::<char>::empty(),
        issue: Seq::<char>::empty(),
        fix: Seq::<char>::empty(),
        docs_url: Seq::<char>::empty(),
    }
}

impl CheckResult {
    /// A passed check.
    pub fn passed() -> (r: Self)
        ensures
            r.passed,
            r@ == passed_view(),
    {
        CheckResult {
            passed: true,
            issue_type: String::new(),
            location: String::new(),
            issue: String::new(),
            fix: String::new(),
            docs_url: String::new(),
        }
    }

    /// A failed check with its explanation.
    pub fn failed(issue_type: &str, location: String, issue: &str, fix: &str, docs_url: &str) -> (r: Self)
        ensures
            r@ == (CheckView {
                passed: false,
                issue_type: issue_type@,
                location: location@,
                issue: issue@,
                fix: fix@,
                docs_url: docs_url@,
            }),
    {
        CheckResult {
            passed: false,
            issue_type: owned(issue_type),
            location,
            issue: owned(issue),
            fix: owned(fix),
            docs_url: owned(docs_url),
        }
    }
}

/// How often `c` occurs in `s`.
pub open spec fn count_char(s: Seq<char>, c: char) -> nat
    decreases s.len(),
{
    if s.len() == 0 {
        0
    } else {
        count_char(s.drop_last(), c) + if s.last() == c { 1nat } else { 0nat }
    }
}

/// The number of lines in a text, as `str::lines` counts them: a final
/// line break does not start another line.
pub open spec fn line_count(s: Seq<char>) -> nat {
    if s.len() == 0 {
        0
    } else if s.last() == '\n' {
        count_char(s, '\n')
    } else {
        count_char(s, '\n') + 1
    }
}

/// Whether a build script's text does work that the framework's own build
/// step does: YAML reading, perfect-hash generation or directory walking.
pub open spec fn duplicates_framework_build(content: Seq<char>) -> bool {
    contains(content, "serde_yaml"@) || contains(content, "yaml"@) || contains(content, "commands.yaml"@)
        || contains(content, "phf_codegen"@) || contains(content, "phf"@) || contains(content, "walkdir"@)
}

/// The location reported for a build script of `n` lines.
pub open spec fn build_rs_location(n: nat) -> Seq<char> {
    "./build.rs ("@ + dec_text(n) + " lines)"@
}

proof fn lemma_count_le(s: Seq<char>, c: char)
    ensures
        count_char(s, c) <= s.len(),
    decreases s.len(),
{
    if s.len() > 0 {
        lemma_count_le(s.drop_last(), c);
    }
}

/// The number of lines in a text.
pub fn count_lines(s: &str) -> (r: u64)
    ensures
        r == line_count(s@),
{
    let v = chars_of(s);
    let mut n: u64 = 0;
    let mut i: usize = 0;
    while i < v.len()
        invariant
            i <= v@.len(),
            n == count_char(v@.take(i as int), '\n'),
            n <= i,
        decreases v@.len() - i,
    {
        assert(v@.take(i as int + 1).drop_last() =~= v@.take(i as int));
        if v[i] == '\n' {
            n = n + 1;
        }
        i = i + 1;
    }
    assert(v@.take(v@.len() as int) =~= v@);
    proof {
        if v@.len() > 0 {
            lemma_count_le(v@.drop_last(), '\n');
        }
    }
    if v.len() > 0 && v[v.len() - 1] != '\n' {
        n + 1
    } else {
        n
    }
}

/// Checks the text of a project's build script: one that reads YAML,
/// generates perfect-hash tables or walks directories duplicates the
/// framework's build step and fails the check.
pub fn check_build_rs_content(content: &str) -> (r: CheckResult)
    ensures
        r.passed == !duplicates_framework_build(content@),
        r.passed ==> r@ == passed_view(),
        !r.passed ==> r@ == (CheckView {
            passed: false,
            issue_type: "Custom build.rs found"@,
            location: build_rs_location(line_count(content@)),
            issue: "Duplicates unilang's built-in build system"@,
            fix: "Delete build.rs - unilang provides this automatically"@,
            docs_url: "https://docs.rs/unilang/latest/unilang/#anti-patterns"@,
        }),
{
    let v = chars_of(content);
    let has_yaml = contains_exec(&v, &chars_of("serde_yaml")) || contains_exec(&v, &chars_of("yaml"))
        || contains_exec(&v, &chars_of("commands.yaml"));
    let has_phf = contains_exec(&v, &chars_of("phf_codegen")) || contains_exec(&v, &chars_of("phf"));
    let has_walkdir = contains_exec(&v, &chars_of("walkdir"));
    if has_yaml || has_phf || has_walkdir {
        let mut location = owned("./build.rs (");
        push_decimal(&mut location, count_lines(content));
        push_str(&mut location, " lines)");
        CheckResult::failed(
            "Custom build.rs found",
            location,
            "Duplicates unilang's built-in build system",
            "Delete build.rs - unilang provides this automatically",
            "https://docs.rs/unilang/latest/unilang/#anti-patterns",
        )
    } else {
        CheckResult::passed()
    }
}

/// Checks a project's build script, given its text when the project has
/// one that can be read: no script passes; see `check_build_rs_content`.
pub fn check_build_rs(build_rs: Option<&str>) -> (r: CheckResult)
    ensures
        match build_rs {
            Some(content) => r@ == check_build_rs_content_spec(content@),
            None => r@ == passed_view(),
        },
{
    match build_rs {
        Some(content) => check_build_rs_content(content),
        None => CheckResult::passed(),
    }
}

/// The outcome of checking a build script's text; see `check_build_rs_content`.
pub open spec fn check_build_rs_content_spec(content: Seq<char>) -> CheckView {
    if duplicates_framework_build(content) {
        CheckView {
            passed: false,
            issue_type: "Custom build.rs found"@,
            location: build_rs_location(line_count(content)),
            issue: "Duplicates unilang's built-in build system"@,
            fix: "Delete build.rs - unilang provides this automatically"@,
            docs_url: "https://docs.rs/unilang/latest/unilang/#anti-patterns"@,
        }
    } else {
        passed_view()
    }
}

/// The values of check outcomes.
pub open spec fn checks_view(v: Seq<CheckResult>) -> Seq<CheckView> {
    v.map_values(|c: CheckResult| c@)
}

/// The failed outcomes, in order.
pub open spec fn failed_only(v: Seq<CheckView>) -> Seq<CheckView> {
    v.filter(|c: CheckView| !c.passed)
}

/// Keeps the failed outcomes, in order.
pub fn collect_issues(results: Vec<CheckResult>) -> (r: Vec<CheckResult>)
    ensures
        checks_view(r@) == failed_only(checks_view(results@)),
{
    let ghost all = checks_view(results@);
    let ghost n = all.len();
    let mut out: Vec<CheckResult> = Vec::new();
    let mut rest = results;
    proof {
        assert(all.take(0) =~= Seq::<CheckView>::empty());
        assert(failed_only(Seq::<CheckView>::empty()) =~= Seq::<CheckView>::empty());
        assert(checks_view(out@) =~= Seq::<CheckView>::empty());
        assert(checks_view(rest@) =~= all.skip(0));
    }
    while rest.len() > 0
        invariant
            rest@.len() <= n,
            n == all.len(),
            checks_view(rest@) == all.skip(n - rest@.len()),
            checks_view(out@) == failed_only(all.take(n - rest@.len())),
        decreases rest@.len(),
    {
        let ghost done = n - rest@.len();
        let ghost before_rest = rest@;
        let c = rest.remove(0);
        assert(checks_view(before_rest)[0] == all.skip(done)[0]);
        assert(c@ == all[done]);
        assert forall|k: int| 0 <= k < rest@.len() implies (#[trigger] rest@[k])@ == all.skip(done + 1)[k] by {
            assert(rest@[k] == before_rest[k + 1]);
            assert(checks_view(before_rest)[k + 1] == all.skip(done)[k + 1]);
        }
        assert(checks_view(rest@) =~= all.skip(done + 1));
        assert(all.take(done + 1).drop_last() =~= all.take(done));
        reveal(Seq::filter);
        if !c.passed {
            let ghost before = checks_view(out@);
            out.push(c);
            assert(checks_view(out@) =~= before.push(all[done]));
        }
    }
    assert(all.take(n as int) =~= all);
    out
}

/// The exit status of a check run: 0 when nothing was found, 1 otherwise.
pub fn exit_code(issues: &Vec<CheckResult>) -> (r: i32)
    ensures
        r == (if issues@.len() == 0 { 0i32 } else { 1i32 }),
{
    if issues.len() == 0 { 0 } else { 1 }
}

/// The report lines of the `i`-th (1-based) issue.
pub open spec fn issue_block(i: nat, c: CheckView) -> Seq<char> {
    "  "@ + dec_text(i) + ". "@ + c.issue_type + "\n"@
        + "     Location: "@ + c.location + "\n"@
        + "     Issue: "@ + c.issue + "\n"@
        + "     Fix: "@ + c.fix + "\n"@
        + "     Docs: "@ + c.docs_url + "\n"@
        + "\n"@
}

/// The report lines of all issues, numbered from 1.
pub open spec fn issue_blocks(v: Seq<CheckView>) -> Seq<char>
    decreases v.len(),
{
    if v.len() == 0 {
        Seq::<char>::empty()
    } else {
        issue_blocks(v.drop_last()) + issue_block(v.len(), v.last())
    }
}

/// What a check run prints on standard output at a verbosity level.
///
/// Level 0 prints nothing, level 1 one summary line, higher levels the
/// project path and each issue with its location, explanation, fix and
/// documentation link.
pub open spec fn report_text(verbosity: u8, path: Seq<char>, issues: Seq<CheckView>) -> Seq<char> {
    if verbosity == 0 {
        Seq::<char>::empty()
    } else if verbosity == 1 {
        if issues.len() == 0 {
            "\u{2705} All checks passed\n"@
        } else {
            "\u{274c} "@ + dec_text(issues.len()) + " issue(s) found\n"@
        }
    } else {
        "Checking unilang project: "@ + path + "\n"@ + if issues.len() == 0 {
            "\u{2705} All checks passed\n"@
        } else {
            "\n\u{274c} PROBLEMS DETECTED:\n\n"@ + issue_blocks(issues) + "Summary: "@ + dec_text(issues.len())
                + " issue(s) found\n"@
        }
    }
}

/// Appends the report lines of the `i`-th issue.
fn push_issue_block(out: &mut String, i: u64, c: &CheckResult)
    ensures
        final(out)@ == old(out)@ + issue_block(i as nat, c@),
{
    push_str(out, "  ");
    push_decimal(out, i);
    push_str(out, ". ");
    push_str(out, c.issue_type.as_str());
    push_str(out, "\n");
    push_str(out, "     Location: ");
    push_str(out, c.location.as_str());
    push_str(out, "\n");
    push_str(out, "     Issue: ");
    push_str(out, c.issue.as_str());
    push_str(out, "\n");
    push_str(out, "     Fix: ");
    push_str(out, c.fix.as_str());
    push_str(out, "\n");
    push_str(out, "     Docs: ");
    push_str(out, c.docs_url.as_str());
    push_str(out, "\n");
    push_str(out, "\n");
    assert(out@ =~= old(out)@ + issue_block(i as nat, c@));
}

/// Renders what a check run prints on standard output; see `report_text`.
pub fn render_report(verbosity: u8, path: &str, issues: &Vec<CheckResult>) -> (r: String)
    ensures
        r@ == report_text(verbosity, path@, checks_view(issues@)),
{
    let ghost iv = checks_view(issues@);
    if verbosity == 0 {
        return String::new();
    }
    if verbosity == 1 {
        if issues.len() == 0 {
            return owned("\u{2705} All checks passed\n");
        }
        let mut out = owned("\u{274c} ");
        push_decimal(&mut out, issues.len() as u64);
        push_str(&mut out, " issue(s) found\n");
        return out;
    }
    let mut out = owned("Checking unilang project: ");
    push_str(&mut out, path);
    push_str(&mut out, "\n");
    let ghost head = out@;
    if issues.len() == 0 {
        push_str(&mut out, "\u{2705} All checks passed\n");
        return out;
    }
    push_str(&mut out, "\n\u{274c} PROBLEMS DETECTED:\n\n");
    let ghost start = out@;
    assert(iv.take(0) =~= Seq::<CheckView>::empty());
    let mut i: usize = 0;
    while i < issues.len()
        invariant
            i <= issues@.len(),
            iv == checks_view(issues@),
            out@ == start + issue_blocks(iv.take(i as int)),
        decreases issues@.len() - i,
    {
        let c = &issues[i];
        assert(iv.take(i as int + 1).drop_last() =~= iv.take(i as int));
        assert(iv.take(i as int + 1).last() == c@);
        push_issue_block(&mut out, (i + 1) as u64, c);
        i = i + 1;
        assert(out@ =~= start + issue_blocks(iv.take(i as int)));
    }
    assert(iv.take(issues@.len() as int) =~= iv);
    push_str(&mut out, "Summary: ");
    push_decimal(&mut out, issues.len() as u64);
    push_str(&mut out, " issue(s) found\n");
    assert(out@ =~= report_text(verbosity, path@, iv));
    out
}

} // verus!
