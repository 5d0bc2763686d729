//! LimeLint — the law linter for plugin UI and DSP source.
//!
//! The checks decide on file contents alone; walking the tree and printing the
//! findings happen in the command-line front end.

use vstd::prelude::*;
use vstd::string::StringSliceAdditionalSpecFns;
use crate::text::{contains_bytes, str_contains, str_eq};

verus! {

/// A law violation found at a line of a file.
pub struct Violation {
    pub message: String,
    pub rule: String,
    pub line: usize,
}

/// Collects violations while walking the syntax of one file.
pub struct LimeVisitor<'a> {
    pub violations: Vec<Violation>,
    pub file_path: &'a str,
}

/// The calls that must not occur on the real-time thread, in the order they are reported.
pub open spec fn realtime_violations(tokens: Seq<u8>) -> Seq<Seq<char>> {
    (if contains_bytes(tokens, "println!".spec_bytes()) { seq!["println!"@] } else { seq![] })
    + (if contains_bytes(tokens, "Mutex::lock".spec_bytes()) { seq!["Mutex::lock"@] } else { seq![] })
    + (if contains_bytes(tokens, "Vec::push".spec_bytes()) { seq!["Vec::push"@] } else { seq![] })
}

/// The forbidden real-time calls that occur in `tokens`.
pub fn check_realtime_safety(tokens: &str) -> (bad_calls: Vec<String>)
    ensures
        bad_calls@.map_values(|s: String| s@) == realtime_violations(tokens.spec_bytes()),
{
    let mut bad_calls: Vec<String> = Vec::new();
    let a = str_contains(tokens, "println!");
    if a {
        bad_calls.push(String::from_str("println!"));
    }
    let b = str_contains(tokens, "Mutex::lock");
    if b {
        bad_calls.push(String::from_str("Mutex::lock"));
    }
    let c = str_contains(tokens, "Vec::push");
    if c {
        bad_calls.push(String::from_str("Vec::push"));
    }
    proof {
        assert(bad_calls@.map_values(|s: String| s@) =~= realtime_violations(tokens.spec_bytes()));
    }
    bad_calls
}

/// One finding of the file lint: what is wrong and which law it breaks.
pub struct LintFinding {
    pub message: String,
    pub rule: String,
}

/// The findings of a file lint and how many of them count as violations.
pub struct LintOutcome {
    pub findings: Vec<LintFinding>,
    pub count: usize,
}

/// The (message, rule) of each finding in `content`, in report order.
pub open spec fn lint_findings(content: Seq<u8>) -> Seq<(Seq<char>, Seq<char>)> {
    (if contains_bytes(content, ".shadow(true)".spec_bytes()) {
        seq![("Forbidden: .shadow(true) is not allowed in Lime HIG v3.0."@, "Matte Rule 2.1"@)]
    } else {
        seq![]
    }) + (if contains_bytes(content, ".glow(".spec_bytes()) {
        seq![("Forbidden: .glow(...) is a crime against clarity."@, "Matte Rule 2.1"@)]
    } else {
        seq![]
    }) + (if contains_bytes(content, "Color::rgb(".spec_bytes()) {
        seq![("Warning: Raw RGB detected. Use Oklab constants for perceptual uniformity."@, "Color Rule 2.3"@)]
    } else {
        seq![]
    })
}

/// How many findings count: shadows and glows always, raw RGB only in strict mode.
pub open spec fn lint_count(content: Seq<u8>, strict: bool) -> int {
    (if contains_bytes(content, ".shadow(true)".spec_bytes()) { 1int } else { 0 })
    + (if contains_bytes(content, ".glow(".spec_bytes()) { 1int } else { 0 })
    + (if strict && contains_bytes(content, "Color::rgb(".spec_bytes()) { 1int } else { 0 })
}

fn finding(message: &str, rule: &str) -> (f: LintFinding)
    ensures
        f.message@ == message@,
        f.rule@ == rule@,
{
    LintFinding { message: String::from_str(message), rule: String::from_str(rule) }
}

/// Checks one file's contents against the visual laws (matte surfaces, Oklab colour).
pub fn lint_file(content: &str, strict: bool) -> (out: LintOutcome)
    ensures
        out.findings@.map_values(|f: LintFinding| (f.message@, f.rule@)) == lint_findings(content.spec_bytes()),
        out.count as int == lint_count(content.spec_bytes(), strict),
        strict ==> out.count == out.findings@.len(),
{
    let mut findings: Vec<LintFinding> = Vec::new();
    let mut count: usize = 0;
    if str_contains(content, ".shadow(true)") {
        findings.push(finding("Forbidden: .shadow(true) is not allowed in Lime HIG v3.0.", "Matte Rule 2.1"));
        count = count + 1;
    }
    if str_contains(content, ".glow(") {
        findings.push(finding("Forbidden: .glow(...) is a crime against clarity.", "Matte Rule 2.1"));
        count = count + 1;
    }
    if str_contains(content, "Color::rgb(") {
        findings.push(finding(
            "Warning: Raw RGB detected. Use Oklab constants for perceptual uniformity.",
            "Color Rule 2.3",
        ));
        if strict {
            count = count + 1;
        }
    }
    proof {
        assert(findings@.map_values(|f: LintFinding| (f.message@, f.rule@)) =~= lint_findings(
            content.spec_bytes(),
        ));
        lemma_lint_checks_independent(content.spec_bytes());
    }
    LintOutcome { findings, count }
}

/// The explanation line printed under a violation. In dramatic mode the matte rule
/// gets its own verdict and every other message is read out as a crime; in clinical
/// mode the message is printed as it is.
pub open spec fn violation_detail(message: Seq<char>, rule_bytes: Seq<u8>, dramatic: bool) -> Seq<char> {
    if dramatic {
        if rule_bytes == "Matte Rule 2.1".spec_bytes() {
            "Your UI has chosen chaos. Theatrical lighting is a moral failure."@
        } else {
            "CRIME: "@ + message
        }
    } else {
        message
    }
}

/// The explanation line of a reported violation.
pub fn violation_detail_text(message: &str, rule: &str, dramatic: bool) -> (s: String)
    ensures
        s@ == violation_detail(message@, rule.spec_bytes(), dramatic),
{
    if dramatic {
        if str_eq(rule, "Matte Rule 2.1") {
            String::from_str("Your UI has chosen chaos. Theatrical lighting is a moral failure.")
        } else {
            String::from_str("CRIME: ").concat(message)
        }
    } else {
        String::from_str(message)
    }
}

/// Law: the three visual checks are independent of one another. Each finding is
/// reported exactly when its pattern occurs in the content, whatever else is found;
/// nothing else is reported; in strict mode every finding counts, otherwise all but
/// the raw-RGB warning do.
pub proof fn lemma_lint_checks_independent(content: Seq<u8>)
    ensures
        ({
            let f = lint_findings(content);
            let shadow = ("Forbidden: .shadow(true) is not allowed in Lime HIG v3.0."@, "Matte Rule 2.1"@);
            let glow = ("Forbidden: .glow(...) is a crime against clarity."@, "Matte Rule 2.1"@);
            let rgb = ("Warning: Raw RGB detected. Use Oklab constants for perceptual uniformity."@, "Color Rule 2.3"@);
            let has_rgb = contains_bytes(content, "Color::rgb(".spec_bytes());
            &&& f.contains(shadow) == contains_bytes(content, ".shadow(true)".spec_bytes())
            &&& f.contains(glow) == contains_bytes(content, ".glow(".spec_bytes())
            &&& f.contains(rgb) == has_rgb
            &&& forall|i: int| 0 <= i < f.len() ==> f[i] == shadow || f[i] == glow || f[i] == rgb
            &&& lint_count(content, true) == f.len()
            &&& lint_count(content, false) == f.len() - (if has_rgb { 1int } else { 0 })
        }),
{
    reveal_strlit("Forbidden: .shadow(true) is not allowed in Lime HIG v3.0.");
    reveal_strlit("Forbidden: .glow(...) is a crime against clarity.");
    reveal_strlit("Warning: Raw RGB detected. Use Oklab constants for perceptual uniformity.");
    let f = lint_findings(content);
    let shadow = ("Forbidden: .shadow(true) is not allowed in Lime HIG v3.0."@, "Matte Rule 2.1"@);
    let glow = ("Forbidden: .glow(...) is a crime against clarity."@, "Matte Rule 2.1"@);
    let rgb = ("Warning: Raw RGB detected. Use Oklab constants for perceptual uniformity."@, "Color Rule 2.3"@);
    assert(shadow.0[12] != glow.0[12]);
    assert(shadow.0[0] != rgb.0[0]);
    assert(glow.0[0] != rgb.0[0]);
    let a: Seq<(Seq<char>, Seq<char>)> = if contains_bytes(content, ".shadow(true)".spec_bytes()) { seq![shadow] } else { seq![] };
    let b: Seq<(Seq<char>, Seq<char>)> = if contains_bytes(content, ".glow(".spec_bytes()) { seq![glow] } else { seq![] };
    let c: Seq<(Seq<char>, Seq<char>)> = if contains_bytes(content, "Color::rgb(".spec_bytes()) { seq![rgb] } else { seq![] };
    assert(f == a + b + c);
    assert forall|i: int| 0 <= i < f.len() implies f[i] == shadow || f[i] == glow || f[i] == rgb by {
        if i < a.len() {
            assert(f[i] == a[i]);
        } else if i < a.len() + b.len() {
            assert(f[i] == b[i - a.len()]);
        } else {
            assert(f[i] == c[i - a.len() - b.len()]);
        }
    }
    if contains_bytes(content, ".shadow(true)".spec_bytes()) {
        assert(f[0] == shadow);
    }
    if contains_bytes(content, ".glow(".spec_bytes()) {
        assert(f[a.len() as int] == glow);
    }
    if contains_bytes(content, "Color::rgb(".spec_bytes()) {
        assert(f[(a.len() + b.len()) as int] == rgb);
    }
}

} // verus!
