//! Model formulas: their LaTeX sources, the plain-text reading of that LaTeX, and the
//! notes shown beside a formula.

use vstd::prelude::*;
use crate::family::{clamp_nat, spec_from_rational_degree, CurveFamily};
use crate::i18n::{spec_tr, tr, UiLanguage};
use crate::model_catalog::{model_min_points, rational_family, spec_model_min_points, spec_resolve, ModelChoice};
use crate::text::{decimal_text, push_char, push_chars, push_decimal, str_to_chars};

verus! {

/// Whether the characters are those of a string slice.
pub fn chars_equal_str(chars: &[char], text: &str) -> (equal: bool)
    ensures
        equal == (chars@ == text@),
{
    let other = str_to_chars(text);
    if chars.len() != other.len() {
        return false;
    }
    let mut k: usize = 0;
    while k < chars.len()
        invariant
            k <= chars.len() == other.len(),
            other@ == text@,
            chars@.subrange(0, k as int) == other@.subrange(0, k as int),
        decreases chars.len() - k,
    {
        if chars[k] != other[k] {
            proof {
                assert(chars@[k as int] != other@[k as int]);
            }
            return false;
        }
        proof {
            assert(chars@.subrange(0, k + 1) =~= chars@.subrange(0, k as int).push(chars@[k as int]));
            assert(other@.subrange(0, k + 1) =~= other@.subrange(0, k as int).push(other@[k as int]));
        }
        k = k + 1;
    }
    proof {
        assert(chars@ =~= chars@.subrange(0, k as int));
        assert(other@ =~= other@.subrange(0, k as int));
    }
    true
}

pub open spec fn spec_is_ascii_alphabetic(c: char) -> bool {
    ('a' <= c && c <= 'z') || ('A' <= c && c <= 'Z')
}

/// The end of the run of ASCII letters starting at `i`.
pub open spec fn alpha_end(s: Seq<char>, i: int) -> int
    decreases s.len() - i,
{
    if 0 <= i < s.len() && spec_is_ascii_alphabetic(s[i]) {
        alpha_end(s, i + 1)
    } else {
        i
    }
}

/// The position of the `}` that closes a group read from `i` at nesting `depth`, or the end
/// of the text when the group is never closed.
pub open spec fn group_close(s: Seq<char>, i: int, depth: nat) -> int
    decreases s.len() - i,
{
    if i < 0 || i >= s.len() {
        s.len() as int
    } else if s[i] == '{' {
        group_close(s, i + 1, depth + 1)
    } else if s[i] == '}' {
        if depth <= 1 {
            i
        } else {
            group_close(s, i + 1, (depth - 1) as nat)
        }
    } else {
        group_close(s, i + 1, depth)
    }
}

/// Where reading resumes after a group closed at `close`.
pub open spec fn after_close(s: Seq<char>, close: int) -> int {
    if close < s.len() {
        close + 1
    } else {
        s.len() as int
    }
}

pub proof fn lemma_alpha_end_bounds(s: Seq<char>, i: int)
    requires
        0 <= i <= s.len(),
    ensures
        i <= alpha_end(s, i) <= s.len(),
    decreases s.len() - i,
{
    if i < s.len() && spec_is_ascii_alphabetic(s[i]) {
        lemma_alpha_end_bounds(s, i + 1);
    }
}

pub proof fn lemma_group_close_bounds(s: Seq<char>, i: int, depth: nat)
    requires
        0 <= i <= s.len(),
    ensures
        i <= group_close(s, i, depth) <= s.len(),
    decreases s.len() - i,
{
    if i < s.len() {
        if s[i] == '{' {
            lemma_group_close_bounds(s, i + 1, depth + 1);
        } else if s[i] == '}' {
            if depth > 1 {
                lemma_group_close_bounds(s, i + 1, (depth - 1) as nat);
            }
        } else {
            lemma_group_close_bounds(s, i + 1, depth);
        }
    }
}

/// The plain-text symbol of a LaTeX command, if it has one.
pub open spec fn spec_latex_symbol(command: Seq<char>) -> Option<Seq<char>> {
    if command == "alpha"@ {
        Some("α"@)
    } else if command == "beta"@ {
        Some("β"@)
    } else if command == "gamma"@ {
        Some("γ"@)
    } else if command == "delta"@ {
        Some("δ"@)
    } else if command == "epsilon"@ {
        Some("ε"@)
    } else if command == "zeta"@ {
        Some("ζ"@)
    } else if command == "eta"@ {
        Some("η"@)
    } else if command == "theta"@ {
        Some("θ"@)
    } else if command == "iota"@ {
        Some("ι"@)
    } else if command == "kappa"@ {
        Some("κ"@)
    } else if command == "lambda"@ {
        Some("λ"@)
    } else if command == "mu"@ {
        Some("μ"@)
    } else if command == "nu"@ {
        Some("ν"@)
    } else if command == "xi"@ {
        Some("ξ"@)
    } else if command == "pi"@ {
        Some("π"@)
    } else if command == "rho"@ {
        Some("ρ"@)
    } else if command == "sigma"@ {
        Some("σ"@)
    } else if command == "tau"@ {
        Some("τ"@)
    } else if command == "upsilon"@ {
        Some("υ"@)
    } else if command == "phi"@ {
        Some("φ"@)
    } else if command == "chi"@ {
        Some("χ"@)
    } else if command == "psi"@ {
        Some("ψ"@)
    } else if command == "omega"@ {
        Some("ω"@)
    } else if command == "Gamma"@ {
        Some("Γ"@)
    } else if command == "Delta"@ {
        Some("Δ"@)
    } else if command == "Theta"@ {
        Some("Θ"@)
    } else if command == "Lambda"@ {
        Some("Λ"@)
    } else if command == "Xi"@ {
        Some("Ξ"@)
    } else if command == "Pi"@ {
        Some("Π"@)
    } else if command == "Sigma"@ {
        Some("Σ"@)
    } else if command == "Upsilon"@ {
        Some("Υ"@)
    } else if command == "Phi"@ {
        Some("Φ"@)
    } else if command == "Psi"@ {
        Some("Ψ"@)
    } else if command == "Omega"@ {
        Some("Ω"@)
    } else if command == "cdot"@ {
        Some("·"@)
    } else if command == "times"@ {
        Some("×"@)
    } else if command == "pm"@ {
        Some("±"@)
    } else if command == "leq"@ {
        Some("≤"@)
    } else if command == "geq"@ {
        Some("≥"@)
    } else if command == "infty"@ {
        Some("∞"@)
    } else if command == "exp"@ {
        Some("exp"@)
    } else if command == "ln"@ {
        Some("ln"@)
    } else if command == "sin"@ {
        Some("sin"@)
    } else if command == "tanh"@ {
        Some("tanh"@)
    } else if command == "arctan"@ {
        Some("arctan"@)
    } else {
        None
    }
}

/// The plain-text symbol of a LaTeX command (`alpha` gives `α`, `cdot` gives `·`), if any.
pub fn latex_symbol(command: &[char]) -> (symbol: Option<&'static str>)
    ensures
        symbol matches Some(text) ==> spec_latex_symbol(command@) == Some(text@),
        symbol is None ==> spec_latex_symbol(command@) is None,
{
    if chars_equal_str(command, "alpha") {
        Some("α")
    } else if chars_equal_str(command, "beta") {
        Some("β")
    } else if chars_equal_str(command, "gamma") {
        Some("γ")
    } else if chars_equal_str(command, "delta") {
        Some("δ")
    } else if chars_equal_str(command, "epsilon") {
        Some("ε")
    } else if chars_equal_str(command, "zeta") {
        Some("ζ")
    } else if chars_equal_str(command, "eta") {
        Some("η")
    } else if chars_equal_str(command, "theta") {
        Some("θ")
    } else if chars_equal_str(command, "iota") {
        Some("ι")
    } else if chars_equal_str(command, "kappa") {
        Some("κ")
    } else if chars_equal_str(command, "lambda") {
        Some("λ")
    } else if chars_equal_str(command, "mu") {
        Some("μ")
    } else if chars_equal_str(command, "nu") {
        Some("ν")
    } else if chars_equal_str(command, "xi") {
        Some("ξ")
    } else if chars_equal_str(command, "pi") {
        Some("π")
    } else if chars_equal_str(command, "rho") {
        Some("ρ")
    } else if chars_equal_str(command, "sigma") {
        Some("σ")
    } else if chars_equal_str(command, "tau") {
        Some("τ")
    } else if chars_equal_str(command, "upsilon") {
        Some("υ")
    } else if chars_equal_str(command, "phi") {
        Some("φ")
    } else if chars_equal_str(command, "chi") {
        Some("χ")
    } else if chars_equal_str(command, "psi") {
        Some("ψ")
    } else if chars_equal_str(command, "omega") {
        Some("ω")
    } else if chars_equal_str(command, "Gamma") {
        Some("Γ")
    } else if chars_equal_str(command, "Delta") {
        Some("Δ")
    } else if chars_equal_str(command, "Theta") {
        Some("Θ")
    } else if chars_equal_str(command, "Lambda") {
        Some("Λ")
    } else if chars_equal_str(command, "Xi") {
        Some("Ξ")
    } else if chars_equal_str(command, "Pi") {
        Some("Π")
    } else if chars_equal_str(command, "Sigma") {
        Some("Σ")
    } else if chars_equal_str(command, "Upsilon") {
        Some("Υ")
    } else if chars_equal_str(command, "Phi") {
        Some("Φ")
    } else if chars_equal_str(command, "Psi") {
        Some("Ψ")
    } else if chars_equal_str(command, "Omega") {
        Some("Ω")
    } else if chars_equal_str(command, "cdot") {
        Some("·")
    } else if chars_equal_str(command, "times") {
        Some("×")
    } else if chars_equal_str(command, "pm") {
        Some("±")
    } else if chars_equal_str(command, "leq") {
        Some("≤")
    } else if chars_equal_str(command, "geq") {
        Some("≥")
    } else if chars_equal_str(command, "infty") {
        Some("∞")
    } else if chars_equal_str(command, "exp") {
        Some("exp")
    } else if chars_equal_str(command, "ln") {
        Some("ln")
    } else if chars_equal_str(command, "sin") {
        Some("sin")
    } else if chars_equal_str(command, "tanh") {
        Some("tanh")
    } else if chars_equal_str(command, "arctan") {
        Some("arctan")
    } else {
        None
    }
}

/// The plain-text reading of LaTeX from position `i` on.
///
/// `\frac{a}{b}` reads `(a)∕(b)`, `\sqrt{a}` reads `√(a)`, `\text{a}` reads `a`, `\quad` a
/// space, `\\` a line break, known commands their symbol, `^{a}` and `_{a}` `^a` and `_a`,
/// `&` nothing, and `\begin{..}` and `\end{..}` nothing; groups are read recursively. An
/// unknown command stays as written, and a `\frac`, `\text` or `\sqrt` without its group
/// keeps its name and drops the next character.
pub open spec fn plain_from(s: Seq<char>, i: int) -> Seq<char>
    decreases s.len(), s.len() - i,
{
    if i < 0 || i >= s.len() {
        seq![]
    } else {
        let ch = s[i];
        if ch == '\\' {
            proof {
                lemma_alpha_end_bounds(s, i + 1);
            }
            let ce = alpha_end(s, i + 1);
            let command = s.subrange(i + 1, ce);
            let skip_next = if ce < s.len() {
                ce + 1
            } else {
                s.len() as int
            };
            let opens_group = ce < s.len() && s[ce] == '{';
            if command.len() == 0 {
                if ce < s.len() && s[ce] == '\\' {
                    seq!['\n'] + plain_from(s, ce + 1)
                } else {
                    seq!['\\'] + plain_from(s, i + 1)
                }
            } else if command == "frac"@ {
                if opens_group {
                    proof {
                        lemma_group_close_bounds(s, ce + 1, 1);
                    }
                    let c1 = group_close(s, ce + 1, 1);
                    let numerator = s.subrange(ce + 1, c1);
                    let k = after_close(s, c1);
                    if k < s.len() && s[k] == '{' {
                        proof {
                            lemma_group_close_bounds(s, k + 1, 1);
                        }
                        let c2 = group_close(s, k + 1, 1);
                        let denominator = s.subrange(k + 1, c2);
                        seq!['('] + plain_from(numerator, 0) + seq![')', '\u{2215}', '(']
                            + plain_from(denominator, 0) + seq![')'] + plain_from(
                            s,
                            after_close(s, c2),
                        )
                    } else {
                        "\\frac{"@ + numerator + plain_from(
                            s,
                            if k < s.len() {
                                k + 1
                            } else {
                                s.len() as int
                            },
                        )
                    }
                } else {
                    "\\frac"@ + plain_from(s, skip_next)
                }
            } else if command == "quad"@ {
                seq![' '] + plain_from(s, ce)
            } else if command == "text"@ {
                if opens_group {
                    proof {
                        lemma_group_close_bounds(s, ce + 1, 1);
                    }
                    let c = group_close(s, ce + 1, 1);
                    plain_from(s.subrange(ce + 1, c), 0) + plain_from(s, after_close(s, c))
                } else {
                    "\\text"@ + plain_from(s, skip_next)
                }
            } else if command == "sqrt"@ {
                if opens_group {
                    proof {
                        lemma_group_close_bounds(s, ce + 1, 1);
                    }
                    let c = group_close(s, ce + 1, 1);
                    seq!['\u{221a}', '('] + plain_from(s.subrange(ce + 1, c), 0) + seq![')']
                        + plain_from(s, after_close(s, c))
                } else {
                    seq!['\u{221a}'] + plain_from(s, skip_next)
                }
            } else if (command == "begin"@ || command == "end"@) && opens_group {
                proof {
                    lemma_group_close_bounds(s, ce + 1, 1);
                }
                plain_from(s, after_close(s, group_close(s, ce + 1, 1)))
            } else {
                match spec_latex_symbol(command) {
                    Some(symbol) => symbol + plain_from(s, ce),
                    None => seq!['\\'] + command + plain_from(s, ce),
                }
            }
        } else if (ch == '^' || ch == '_') && i + 1 < s.len() && s[i + 1] == '{' {
            proof {
                lemma_group_close_bounds(s, i + 2, 1);
            }
            let c = group_close(s, i + 2, 1);
            seq![ch] + plain_from(s.subrange(i + 2, c), 0) + plain_from(s, after_close(s, c))
        } else if ch == '&' {
            plain_from(s, i + 1)
        } else {
            seq![ch] + plain_from(s, i + 1)
        }
    }
}

/// The plain-text reading of LaTeX.
pub open spec fn spec_latex_to_plain_text(s: Seq<char>) -> Seq<char> {
    plain_from(s, 0)
}


/// The end of the LaTeX command name (ASCII letters) starting at `start`.
pub fn read_latex_command(chars: &[char], start: usize) -> (end: usize)
    requires
        start <= chars.len(),
    ensures
        end == alpha_end(chars@, start as int),
        start <= end <= chars.len(),
{
    let mut end = start;
    while end < chars.len() && (('a' <= chars[end] && chars[end] <= 'z') || ('A' <= chars[end]
        && chars[end] <= 'Z'))
        invariant
            start <= end <= chars.len(),
            alpha_end(chars@, end as int) == alpha_end(chars@, start as int),
        decreases chars.len() - end,
    {
        end = end + 1;
    }
    end
}

/// Reads a `{...}` group whose opening brace precedes `start`: the group's content, nested
/// braces included, and the position after its closing brace (the end of the text when the
/// group is never closed).
pub fn read_braced_group(chars: &[char], start: usize) -> (group: (Vec<char>, usize))
    requires
        start <= chars.len(),
    ensures
        group.0@ == chars@.subrange(start as int, group_close(chars@, start as int, 1)),
        group.1 == after_close(chars@, group_close(chars@, start as int, 1)),
        start <= group_close(chars@, start as int, 1) <= chars.len(),
{
    proof {
        lemma_group_close_bounds(chars@, start as int, 1);
    }
    let mut depth: u128 = 1;
    let mut content: Vec<char> = Vec::new();
    let mut index = start;
    while index < chars.len()
        invariant
            start <= index <= chars.len(),
            1 <= depth <= index - start + 1,
            group_close(chars@, index as int, depth as nat) == group_close(chars@, start as int, 1),
            content@ == chars@.subrange(start as int, index as int),
            start <= group_close(chars@, start as int, 1) <= chars.len(),
            index <= group_close(chars@, start as int, 1),
        decreases chars.len() - index,
    {
        let ch = chars[index];
        if ch == '{' {
            depth = depth + 1;
        } else if ch == '}' {
            if depth <= 1 {
                return (content, index + 1);
            }
            depth = depth - 1;
        }
        proof {
            lemma_group_close_bounds(chars@, index + 1, if ch == '{' { depth as nat } else { depth as nat });
        }
        content.push(ch);
        index = index + 1;
    }
    (content, chars.len())
}

/// A copy of `chars[start..end]`.
fn copy_range(chars: &[char], start: usize, end: usize) -> (copy: Vec<char>)
    requires
        start <= end <= chars.len(),
    ensures
        copy@ == chars@.subrange(start as int, end as int),
{
    let mut copy: Vec<char> = Vec::new();
    let mut k = start;
    while k < end
        invariant
            start <= k <= end <= chars.len(),
            copy@ == chars@.subrange(start as int, k as int),
        decreases end - k,
    {
        copy.push(chars[k]);
        k = k + 1;
    }
    copy
}

/// Appends the characters of a string slice.
fn append_str(out: &mut Vec<char>, text: &str)
    ensures
        final(out)@ == old(out)@ + text@,
{
    let chars = str_to_chars(text);
    append_chars(out, &chars);
}

/// Appends characters.
fn append_chars(out: &mut Vec<char>, chars: &[char])
    ensures
        final(out)@ == old(out)@ + chars@,
{
    let mut k: usize = 0;
    while k < chars.len()
        invariant
            k <= chars.len(),
            out@ == old(out)@ + chars@.subrange(0, k as int),
        decreases chars.len() - k,
    {
        out.push(chars[k]);
        k = k + 1;
        proof {
            assert(chars@.subrange(0, k as int) =~= chars@.subrange(0, k - 1).push(chars@[k - 1]));
        }
    }
    proof {
        assert(chars@.subrange(0, chars.len() as int) =~= chars@);
    }
}

/// The plain-text reading of LaTeX characters; see [`plain_from`].
#[verifier::rlimit(50)]
#[verifier::spinoff_prover]
pub fn latex_plain_chars(s: &[char]) -> (out: Vec<char>)
    ensures
        out@ == spec_latex_to_plain_text(s@),
    decreases s.len(),
{
    let ghost full = plain_from(s@, 0);
    let mut out: Vec<char> = Vec::new();
    let mut i: usize = 0;
    while i < s.len()
        invariant
            i <= s.len(),
            full == plain_from(s@, 0),
            out@ + plain_from(s@, i as int) == full,
        decreases s.len() - i,
    {
        let ghost before = out@;
        let ch = s[i];
        if ch == '\\' {
            let ce = read_latex_command(s, i + 1);
            let skip_next = if ce < s.len() {
                ce + 1
            } else {
                s.len()
            };
            let opens_group = ce < s.len() && s[ce] == '{';
            let command = copy_range(s, i + 1, ce);
            if ce == i + 1 {
                if ce < s.len() && s[ce] == '\\' {
                    out.push('\n');
                    i = ce + 1;
                } else {
                    out.push('\\');
                    i = i + 1;
                }
            } else if chars_equal_str(&command, "frac") {
                if opens_group {
                    let (numerator, k) = read_braced_group(s, ce + 1);
                    if k < s.len() && s[k] == '{' {
                        let (denominator, next) = read_braced_group(s, k + 1);
                        out.push('(');
                        let numerator_text = latex_plain_chars(&numerator);
                        append_chars(&mut out, &numerator_text);
                        out.push(')');
                        out.push('\u{2215}');
                        out.push('(');
                        let denominator_text = latex_plain_chars(&denominator);
                        append_chars(&mut out, &denominator_text);
                        out.push(')');
                        proof {
                            assert(out@ =~= before + (seq!['('] + plain_from(numerator@, 0) + seq![
                                ')',
                                '\u{2215}',
                                '(',
                            ] + plain_from(denominator@, 0) + seq![')']));
                        }
                        i = next;
                    } else {
                        append_str(&mut out, "\\frac{");
                        append_chars(&mut out, &numerator);
                        proof {
                            reveal_strlit("\\frac{");
                        }
                        i = if k < s.len() {
                            k + 1
                        } else {
                            s.len()
                        };
                    }
                } else {
                    append_str(&mut out, "\\frac");
                    i = skip_next;
                }
            } else if chars_equal_str(&command, "quad") {
                out.push(' ');
                i = ce;
            } else if chars_equal_str(&command, "text") {
                if opens_group {
                    let (content, next) = read_braced_group(s, ce + 1);
                    let content_text = latex_plain_chars(&content);
                    append_chars(&mut out, &content_text);
                    i = next;
                } else {
                    append_str(&mut out, "\\text");
                    i = skip_next;
                }
            } else if chars_equal_str(&command, "sqrt") {
                if opens_group {
                    let (radicand, next) = read_braced_group(s, ce + 1);
                    out.push('\u{221a}');
                    out.push('(');
                    let radicand_text = latex_plain_chars(&radicand);
                    append_chars(&mut out, &radicand_text);
                    out.push(')');
                    proof {
                        assert(out@ =~= before + (seq!['\u{221a}', '('] + plain_from(radicand@, 0)
                            + seq![')']));
                    }
                    i = next;
                } else {
                    out.push('\u{221a}');
                    i = skip_next;
                }
            } else if (chars_equal_str(&command, "begin") || chars_equal_str(&command, "end"))
                && opens_group {
                let (_environment, next) = read_braced_group(s, ce + 1);
                i = next;
            } else {
                match latex_symbol(&command) {
                    Some(symbol) => append_str(&mut out, symbol),
                    None => {
                        out.push('\\');
                        append_chars(&mut out, &command);
                    },
                }
                i = ce;
            }
        } else if (ch == '^' || ch == '_') && i + 1 < s.len() && s[i + 1] == '{' {
            let (group, next) = read_braced_group(s, i + 2);
            out.push(ch);
            let group_text = latex_plain_chars(&group);
            append_chars(&mut out, &group_text);
            i = next;
        } else if ch == '&' {
            i = i + 1;
        } else {
            out.push(ch);
            i = i + 1;
        }
    }
    out
}

/// The plain-text reading of a LaTeX formula.
pub fn latex_to_plain_text(text: &str) -> (plain: String)
    ensures
        plain@ == spec_latex_to_plain_text(text@),
{
    let chars = str_to_chars(text);
    let out = latex_plain_chars(&chars);
    let mut plain = String::new();
    push_chars(&mut plain, &out);
    plain
}

/// The LaTeX of the models whose formula does not depend on a degree.
pub open spec fn spec_fixed_formula_latex(model: ModelChoice) -> Option<Seq<char>> {
    match model {
        ModelChoice::Arrhenius => Some("y = A \\cdot \\exp(\\frac{B}{x})"@),
        ModelChoice::Inverse => Some("y = A + \\frac{B}{x}"@),
        ModelChoice::Logistic => Some("y = \\frac{A}{1 + \\exp(-B \\cdot (x - C))}"@),
        ModelChoice::Gompertz => Some("y = A \\cdot \\exp(-\\exp(-B \\cdot (x - C)))"@),
        ModelChoice::BiExponential => Some("y = a_{1} \\cdot \\exp(-k_{1} \\cdot x) + a_{2} \\cdot \\exp(-k_{2} \\cdot x) + c"@),
        ModelChoice::DampedSinusoid => Some("y = A \\cdot \\exp(-k \\cdot x) \\cdot \\sin(\\omega \\cdot x + \\phi) + c"@),
        ModelChoice::Lorentzian => Some("y = C + \\frac{A}{1 + (\\frac{x - x_0}{\\gamma})^{2}}"@),
        ModelChoice::NaturalLog => Some("y = A \\cdot \\ln(\\frac{x}{B})"@),
        ModelChoice::FourPl => Some("y = d + \\frac{a - d}{1 + (\\frac{x}{c})^{b}}"@),
        ModelChoice::FivePl => Some("y = d + \\frac{a - d}{(1 + (\\frac{x}{c})^{b})^{m}}"@),
        ModelChoice::MichaelisMenten => Some("y = \\frac{V_{\\text{max}} \\cdot x}{K_{m} + x}"@),
        ModelChoice::ExponentialBasic => Some("y = a + b \\cdot \\exp(-c \\cdot x)"@),
        ModelChoice::ExponentialLinear => Some("y = a \\cdot \\exp(b \\cdot x) + c \\cdot x + d"@),
        ModelChoice::ExponentialHalfLife => Some("y = a + \\frac{b}{2^{\\frac{x}{c}}}"@),
        ModelChoice::FallingExponential => Some("y = Y_{0} - \\frac{V_{0}}{K} \\cdot (1 - \\exp(-K \\cdot x))"@),
        ModelChoice::HyperbolicTangent => Some("y = a \\cdot \\tanh(b \\cdot (x - c)) + d"@),
        ModelChoice::ArctangentStep => Some("y = a \\cdot \\arctan(b \\cdot (x - c)) + d"@),
        ModelChoice::Softplus => Some("y = a \\cdot \\ln(1 + \\exp(b \\cdot (x - c))) + d"@),
        ModelChoice::Power => Some("y = a \\cdot x^{b}"@),
        ModelChoice::Gaussian => Some("y = a \\cdot \\exp(-\\frac{(x - b)^{2}}{2 \\cdot c^{2}})"@),
        ModelChoice::Emg => Some("y = c + \\frac{a}{2 \\cdot \\tau} \\cdot \\exp(\\frac{\\sigma^{2}}{2 \\cdot \\tau^{2}} - \\frac{x - \\mu}{\\tau}) \\cdot \\text{erfc}(\\frac{1}{\\sqrt{2}}(\\frac{\\sigma}{|\\tau|} - \\frac{x - \\mu}{\\sigma}))"@),
        ModelChoice::PseudoVoigt => Some("\\begin{aligned}\ny &= c + a \\cdot (\\eta \\cdot G(x; x_0, \\sigma) + (1-\\eta) \\cdot L(x; x_0, \\gamma)) \\\\ \n\\eta &= \\text{sigmoid}(\\eta_{\\text{raw}}) \\\\\nG(x; x_0, \\sigma) &= \\exp(-\\frac{(x - x_0)^{2}}{2 \\cdot \\sigma^{2}}) \\\\\nL(x; x_0, \\gamma) &= \\frac{1}{1 + (\\frac{x - x_0}{\\gamma})^{2}}\n\\end{aligned}"@),
        ModelChoice::LinearSpline => Some("y(x) = y_{i} + \\frac{y_{i+1} - y_{i}}{x_{i+1} - x_{i}} \\cdot (x - x_{i})"@),
        ModelChoice::MonotoneCubicSpline => Some("y(x) = \\text{Hermite}(y_{i}, y_{i+1}, m_{i}, m_{i+1}), m_{i} \\text{ by Fritsch-Carlson}"@),
        ModelChoice::NaturalCubicSpline => Some("\\begin{aligned}\n            y(x) &= \\text{cubic spline}, \\\\\n            S''(x_{0}) &= S''(x_{n}) = 0\n            \\end{aligned}"@),
        ModelChoice::AkimaSpline => Some("y(x) = \\text{Hermite}(y_{i}, y_{i+1}, m_{i}, m_{i+1}), m_{i} \\text{ by Akima weights}"@),
        _ => None,
    }
}

/// The LaTeX of the models whose formula does not depend on a degree.
pub fn fixed_formula_latex(model: ModelChoice) -> (latex: Option<&'static str>)
    ensures
        latex matches Some(text) ==> spec_fixed_formula_latex(model) == Some(text@),
        latex is None ==> spec_fixed_formula_latex(model) is None,
{
    match model {
        ModelChoice::Arrhenius => Some("y = A \\cdot \\exp(\\frac{B}{x})"),
        ModelChoice::Inverse => Some("y = A + \\frac{B}{x}"),
        ModelChoice::Logistic => Some("y = \\frac{A}{1 + \\exp(-B \\cdot (x - C))}"),
        ModelChoice::Gompertz => Some("y = A \\cdot \\exp(-\\exp(-B \\cdot (x - C)))"),
        ModelChoice::BiExponential => Some("y = a_{1} \\cdot \\exp(-k_{1} \\cdot x) + a_{2} \\cdot \\exp(-k_{2} \\cdot x) + c"),
        ModelChoice::DampedSinusoid => Some("y = A \\cdot \\exp(-k \\cdot x) \\cdot \\sin(\\omega \\cdot x + \\phi) + c"),
        ModelChoice::Lorentzian => Some("y = C + \\frac{A}{1 + (\\frac{x - x_0}{\\gamma})^{2}}"),
        ModelChoice::NaturalLog => Some("y = A \\cdot \\ln(\\frac{x}{B})"),
        ModelChoice::FourPl => Some("y = d + \\frac{a - d}{1 + (\\frac{x}{c})^{b}}"),
        ModelChoice::FivePl => Some("y = d + \\frac{a - d}{(1 + (\\frac{x}{c})^{b})^{m}}"),
        ModelChoice::MichaelisMenten => Some("y = \\frac{V_{\\text{max}} \\cdot x}{K_{m} + x}"),
        ModelChoice::ExponentialBasic => Some("y = a + b \\cdot \\exp(-c \\cdot x)"),
        ModelChoice::ExponentialLinear => Some("y = a \\cdot \\exp(b \\cdot x) + c \\cdot x + d"),
        ModelChoice::ExponentialHalfLife => Some("y = a + \\frac{b}{2^{\\frac{x}{c}}}"),
        ModelChoice::FallingExponential => Some("y = Y_{0} - \\frac{V_{0}}{K} \\cdot (1 - \\exp(-K \\cdot x))"),
        ModelChoice::HyperbolicTangent => Some("y = a \\cdot \\tanh(b \\cdot (x - c)) + d"),
        ModelChoice::ArctangentStep => Some("y = a \\cdot \\arctan(b \\cdot (x - c)) + d"),
        ModelChoice::Softplus => Some("y = a \\cdot \\ln(1 + \\exp(b \\cdot (x - c))) + d"),
        ModelChoice::Power => Some("y = a \\cdot x^{b}"),
        ModelChoice::Gaussian => Some("y = a \\cdot \\exp(-\\frac{(x - b)^{2}}{2 \\cdot c^{2}})"),
        ModelChoice::Emg => Some("y = c + \\frac{a}{2 \\cdot \\tau} \\cdot \\exp(\\frac{\\sigma^{2}}{2 \\cdot \\tau^{2}} - \\frac{x - \\mu}{\\tau}) \\cdot \\text{erfc}(\\frac{1}{\\sqrt{2}}(\\frac{\\sigma}{|\\tau|} - \\frac{x - \\mu}{\\sigma}))"),
        ModelChoice::PseudoVoigt => Some("\\begin{aligned}\ny &= c + a \\cdot (\\eta \\cdot G(x; x_0, \\sigma) + (1-\\eta) \\cdot L(x; x_0, \\gamma)) \\\\ \n\\eta &= \\text{sigmoid}(\\eta_{\\text{raw}}) \\\\\nG(x; x_0, \\sigma) &= \\exp(-\\frac{(x - x_0)^{2}}{2 \\cdot \\sigma^{2}}) \\\\\nL(x; x_0, \\gamma) &= \\frac{1}{1 + (\\frac{x - x_0}{\\gamma})^{2}}\n\\end{aligned}"),
        ModelChoice::LinearSpline => Some("y(x) = y_{i} + \\frac{y_{i+1} - y_{i}}{x_{i+1} - x_{i}} \\cdot (x - x_{i})"),
        ModelChoice::MonotoneCubicSpline => Some("y(x) = \\text{Hermite}(y_{i}, y_{i+1}, m_{i}, m_{i+1}), m_{i} \\text{ by Fritsch-Carlson}"),
        ModelChoice::NaturalCubicSpline => Some("\\begin{aligned}\n            y(x) &= \\text{cubic spline}, \\\\\n            S''(x_{0}) &= S''(x_{n}) = 0\n            \\end{aligned}"),
        ModelChoice::AkimaSpline => Some("y(x) = \\text{Hermite}(y_{i}, y_{i+1}, m_{i}, m_{i+1}), m_{i} \\text{ by Akima weights}"),
        _ => None,
    }
}

/// The hand-written plain text of the pseudo-Voigt formula, whose aligned LaTeX does not
/// read well mechanically.
pub open spec fn spec_pseudo_voigt_plain_text() -> Seq<char> {
    "y = c + a·(η·G(x; x_0, σ) + (1-η)·L(x; x_0, γ)), η = sigmoid(η_raw)\nG(x; x_0, σ) = exp(-((x - x_0)^2)∕(2·σ^2))\nL(x; x_0, γ) = 1∕(1 + ((x - x_0)∕γ)^2)"@
}

fn pseudo_voigt_plain_text() -> (text: &'static str)
    ensures
        text@ == spec_pseudo_voigt_plain_text(),
{
    "y = c + a·(η·G(x; x_0, σ) + (1-η)·L(x; x_0, γ)), η = sigmoid(η_raw)\nG(x; x_0, σ) = exp(-((x - x_0)^2)∕(2·σ^2))\nL(x; x_0, γ) = 1∕(1 + ((x - x_0)∕γ)^2)"
}

/// The note on a model's behavior: the rational models of degree 1 and 2 have notes of
/// their own.
pub open spec fn spec_model_ml_note(language: UiLanguage, model: ModelChoice, rational_degree: nat) -> Seq<char> {
    if model == ModelChoice::Rational && spec_from_rational_degree(rational_degree) == CurveFamily::Rational11 {
        spec_tr(
            language,
            "Compact rational model with one linear pole term."@,
            "Компактная рациональная модель с линейным полюсом."@,
        )
    } else if model == ModelChoice::Rational && spec_from_rational_degree(rational_degree)
        == CurveFamily::Rational22 {
        spec_tr(
            language,
            "Flexible rational model with quadratic numerator/denominator."@,
            "Гибкая рациональная модель с квадратами в числителе и знаменателе."@,
        )
    } else {
        spec_generic_ml_note(language, model)
    }
}

/// The note on a model's behavior that does not depend on a degree.
pub open spec fn spec_generic_ml_note(language: UiLanguage, model: ModelChoice) -> Seq<char> {
    match (language, model) {
        (UiLanguage::English, ModelChoice::Polynomial) => "Global basis model. Higher degrees can overfit."@,
        (UiLanguage::English, ModelChoice::Arrhenius) => "Common exponential-in-inverse-x transform model."@,
        (UiLanguage::English, ModelChoice::Inverse) => "Hyperbolic decay model; often used as a baseline."@,
        (UiLanguage::English, ModelChoice::Logistic) => "Sigmoid response model for bounded transitions."@,
        (UiLanguage::English, ModelChoice::Gompertz) => "Asymmetric sigmoid growth model with a long lower tail."@,
        (UiLanguage::English, ModelChoice::BiExponential) => "Two-timescale exponential model with strong parameter coupling."@,
        (UiLanguage::English, ModelChoice::DampedSinusoid) => "Oscillatory model with damping; often has many local minima."@,
        (UiLanguage::English, ModelChoice::Lorentzian) => "Peak-shaped model with heavy tails."@,
        (UiLanguage::English, ModelChoice::NaturalLog) => "Log transform response, useful for diminishing returns."@,
        (UiLanguage::English, ModelChoice::ExponentialLinear) => "Exponential trend with linear drift background."@,
        (UiLanguage::English, ModelChoice::HyperbolicTangent) => "Smooth S-curve transition with bounded tails."@,
        (UiLanguage::English, ModelChoice::ArctangentStep) => "Soft threshold model with heavier tails than logistic."@,
        (UiLanguage::English, ModelChoice::Softplus) => "Smooth ReLU-like activation used in ML and calibration."@,
        (UiLanguage::English, ModelChoice::Emg) => "Asymmetric peak (EMG); signed tau controls left/right tail."@,
        (UiLanguage::English, ModelChoice::PseudoVoigt) => "Mixture of Gaussian and Lorentzian peaks with learnable blend."@,
        (UiLanguage::English, ModelChoice::LinearSpline) => "Simple piecewise interpolation baseline."@,
        (UiLanguage::English, ModelChoice::MonotoneCubicSpline) => "Useful for monotone response and calibration curves."@,
        (UiLanguage::English, ModelChoice::NaturalCubicSpline) => "Smooth interpolation with natural boundary conditions."@,
        (UiLanguage::English, ModelChoice::AkimaSpline) => "Robust piecewise cubic interpolation near sharp local changes."@,
        (UiLanguage::English, _) => "Parametric nonlinear regression model."@,
        (UiLanguage::Russian, ModelChoice::Polynomial) => "Глобальная базисная модель. На высоких степенях может переобучаться."@,
        (UiLanguage::Russian, ModelChoice::Arrhenius) => "Экспонента от обратного x; полезна в кинетических зависимостях."@,
        (UiLanguage::Russian, ModelChoice::Inverse) => "Гиперболический спад, удобная базовая модель."@,
        (UiLanguage::Russian, ModelChoice::Logistic) => "Сигмоидальная модель ограниченного перехода."@,
        (UiLanguage::Russian, ModelChoice::Gompertz) => "Асимметричная сигмоида с длинным нижним хвостом."@,
        (UiLanguage::Russian, ModelChoice::BiExponential) => "Двухэкспоненциальная модель с сильной связью параметров."@,
        (UiLanguage::Russian, ModelChoice::DampedSinusoid) => "Осциллирующая модель с затуханием и множеством локальных минимумов."@,
        (UiLanguage::Russian, ModelChoice::Lorentzian) => "Пиковая модель с более тяжёлыми хвостами."@,
        (UiLanguage::Russian, ModelChoice::NaturalLog) => "Логарифмический отклик для эффекта убывающей отдачи."@,
        (UiLanguage::Russian, ModelChoice::ExponentialLinear) => "Экспоненциальный тренд с линейным дрейфом фона."@,
        (UiLanguage::Russian, ModelChoice::HyperbolicTangent) => "Гладкий S-переход с ограниченными хвостами."@,
        (UiLanguage::Russian, ModelChoice::ArctangentStep) => "Мягкий пороговый переход с более тяжёлыми хвостами."@,
        (UiLanguage::Russian, ModelChoice::Softplus) => "Гладкая ReLU-подобная активация из ML."@,
        (UiLanguage::Russian, ModelChoice::Emg) => "Асимметричный пик EMG; знак tau задаёт левый или правый хвост."@,
        (UiLanguage::Russian, ModelChoice::PseudoVoigt) => "Смесь гауссового и лоренцевого пиков с обучаемой долей."@,
        (UiLanguage::Russian, ModelChoice::LinearSpline) => "Простой базовый кусочно-линейный интерполятор."@,
        (UiLanguage::Russian, ModelChoice::MonotoneCubicSpline) => "Подходит для монотонных откликов и калибровочных кривых."@,
        (UiLanguage::Russian, ModelChoice::NaturalCubicSpline) => "Гладкая интерполяция с натуральными граничными условиями."@,
        (UiLanguage::Russian, ModelChoice::AkimaSpline) => "Устойчивый кубический интерполятор при локальных резких изменениях."@,
        (UiLanguage::Russian, _) => "Параметрическая модель нелинейной регрессии."@,
    }
}

/// The note on a model's behavior.
pub fn model_ml_note(language: UiLanguage, model: ModelChoice, rational_degree: usize) -> (note: &'static str)
    ensures
        note@ == spec_model_ml_note(language, model, rational_degree as nat),
{
    if model == ModelChoice::Rational {
        let family = rational_family(rational_degree);
        if family == CurveFamily::Rational11 {
            return tr(
                language,
                "Compact rational model with one linear pole term.",
                "Компактная рациональная модель с линейным полюсом.",
            );
        }
        if family == CurveFamily::Rational22 {
            return tr(
                language,
                "Flexible rational model with quadratic numerator/denominator.",
                "Гибкая рациональная модель с квадратами в числителе и знаменателе.",
            );
        }
    }
    generic_ml_note(language, model)
}

/// The note on a model's behavior that does not depend on a degree.
fn generic_ml_note(language: UiLanguage, model: ModelChoice) -> (note: &'static str)
    ensures
        note@ == spec_generic_ml_note(language, model),
{
    match (language, model) {
        (UiLanguage::English, ModelChoice::Polynomial) => "Global basis model. Higher degrees can overfit.",
        (UiLanguage::English, ModelChoice::Arrhenius) => "Common exponential-in-inverse-x transform model.",
        (UiLanguage::English, ModelChoice::Inverse) => "Hyperbolic decay model; often used as a baseline.",
        (UiLanguage::English, ModelChoice::Logistic) => "Sigmoid response model for bounded transitions.",
        (UiLanguage::English, ModelChoice::Gompertz) => "Asymmetric sigmoid growth model with a long lower tail.",
        (UiLanguage::English, ModelChoice::BiExponential) => "Two-timescale exponential model with strong parameter coupling.",
        (UiLanguage::English, ModelChoice::DampedSinusoid) => "Oscillatory model with damping; often has many local minima.",
        (UiLanguage::English, ModelChoice::Lorentzian) => "Peak-shaped model with heavy tails.",
        (UiLanguage::English, ModelChoice::NaturalLog) => "Log transform response, useful for diminishing returns.",
        (UiLanguage::English, ModelChoice::ExponentialLinear) => "Exponential trend with linear drift background.",
        (UiLanguage::English, ModelChoice::HyperbolicTangent) => "Smooth S-curve transition with bounded tails.",
        (UiLanguage::English, ModelChoice::ArctangentStep) => "Soft threshold model with heavier tails than logistic.",
        (UiLanguage::English, ModelChoice::Softplus) => "Smooth ReLU-like activation used in ML and calibration.",
        (UiLanguage::English, ModelChoice::Emg) => "Asymmetric peak (EMG); signed tau controls left/right tail.",
        (UiLanguage::English, ModelChoice::PseudoVoigt) => "Mixture of Gaussian and Lorentzian peaks with learnable blend.",
        (UiLanguage::English, ModelChoice::LinearSpline) => "Simple piecewise interpolation baseline.",
        (UiLanguage::English, ModelChoice::MonotoneCubicSpline) => "Useful for monotone response and calibration curves.",
        (UiLanguage::English, ModelChoice::NaturalCubicSpline) => "Smooth interpolation with natural boundary conditions.",
        (UiLanguage::English, ModelChoice::AkimaSpline) => "Robust piecewise cubic interpolation near sharp local changes.",
        (UiLanguage::English, _) => "Parametric nonlinear regression model.",
        (UiLanguage::Russian, ModelChoice::Polynomial) => "Глобальная базисная модель. На высоких степенях может переобучаться.",
        (UiLanguage::Russian, ModelChoice::Arrhenius) => "Экспонента от обратного x; полезна в кинетических зависимостях.",
        (UiLanguage::Russian, ModelChoice::Inverse) => "Гиперболический спад, удобная базовая модель.",
        (UiLanguage::Russian, ModelChoice::Logistic) => "Сигмоидальная модель ограниченного перехода.",
        (UiLanguage::Russian, ModelChoice::Gompertz) => "Асимметричная сигмоида с длинным нижним хвостом.",
        (UiLanguage::Russian, ModelChoice::BiExponential) => "Двухэкспоненциальная модель с сильной связью параметров.",
        (UiLanguage::Russian, ModelChoice::DampedSinusoid) => "Осциллирующая модель с затуханием и множеством локальных минимумов.",
        (UiLanguage::Russian, ModelChoice::Lorentzian) => "Пиковая модель с более тяжёлыми хвостами.",
        (UiLanguage::Russian, ModelChoice::NaturalLog) => "Логарифмический отклик для эффекта убывающей отдачи.",
        (UiLanguage::Russian, ModelChoice::ExponentialLinear) => "Экспоненциальный тренд с линейным дрейфом фона.",
        (UiLanguage::Russian, ModelChoice::HyperbolicTangent) => "Гладкий S-переход с ограниченными хвостами.",
        (UiLanguage::Russian, ModelChoice::ArctangentStep) => "Мягкий пороговый переход с более тяжёлыми хвостами.",
        (UiLanguage::Russian, ModelChoice::Softplus) => "Гладкая ReLU-подобная активация из ML.",
        (UiLanguage::Russian, ModelChoice::Emg) => "Асимметричный пик EMG; знак tau задаёт левый или правый хвост.",
        (UiLanguage::Russian, ModelChoice::PseudoVoigt) => "Смесь гауссового и лоренцевого пиков с обучаемой долей.",
        (UiLanguage::Russian, ModelChoice::LinearSpline) => "Простой базовый кусочно-линейный интерполятор.",
        (UiLanguage::Russian, ModelChoice::MonotoneCubicSpline) => "Подходит для монотонных откликов и калибровочных кривых.",
        (UiLanguage::Russian, ModelChoice::NaturalCubicSpline) => "Гладкая интерполяция с натуральными граничными условиями.",
        (UiLanguage::Russian, ModelChoice::AkimaSpline) => "Устойчивый кубический интерполятор при локальных резких изменениях.",
        (UiLanguage::Russian, _) => "Параметрическая модель нелинейной регрессии.",
    }
}


/// The coefficient letters `a` to `k`.
pub open spec fn spec_parameter_symbol(index: nat) -> char {
    seq!['a', 'b', 'c', 'd', 'e', 'f', 'g', 'h', 'i', 'j', 'k'][index as int]
}

/// The coefficient letters of polynomial formulas, in order.
pub fn polynomial_parameter_symbols() -> (symbols: [char; 10])
    ensures
        symbols@ == seq!['a', 'b', 'c', 'd', 'e', 'f', 'g', 'h', 'i', 'j'],
{
    ['a', 'b', 'c', 'd', 'e', 'f', 'g', 'h', 'i', 'j']
}

/// One LaTeX term: the coefficient alone, times `x`, or times `x^{p}`.
pub open spec fn formula_term(symbol: char, power: nat) -> Seq<char> {
    if power == 0 {
        seq![symbol]
    } else if power == 1 {
        seq![symbol] + " \\cdot x"@
    } else {
        seq![symbol] + " \\cdot x^{"@ + decimal_text(power) + "}"@
    }
}

/// The first `count` terms of a degree-`degree` polynomial (coefficients from `a`, highest
/// power first), joined with ` + `.
pub open spec fn polynomial_terms(degree: nat, count: nat) -> Seq<char>
    decreases count,
{
    if count == 0 {
        seq![]
    } else if count == 1 {
        formula_term(spec_parameter_symbol(0), degree)
    } else {
        polynomial_terms(degree, (count - 1) as nat) + " + "@ + formula_term(
            spec_parameter_symbol((count - 1) as nat),
            (degree - (count - 1)) as nat,
        )
    }
}

/// The LaTeX of the polynomial of a degree clamped to `1..=9`.
pub open spec fn spec_polynomial_formula(degree: nat) -> Seq<char> {
    let d = clamp_nat(degree, 1, 9);
    "y = "@ + polynomial_terms(d, d + 1)
}

/// The denominator terms ` + coefficient · x^j` for `j` in `1..=count` of an `n/n` model,
/// the coefficients continuing after the numerator's.
pub open spec fn denominator_terms(degree: nat, count: nat) -> Seq<char>
    decreases count,
{
    if count == 0 {
        seq![]
    } else {
        denominator_terms(degree, (count - 1) as nat) + " + "@ + formula_term(
            spec_parameter_symbol(degree + count),
            count,
        )
    }
}

/// The LaTeX of the `n/n` rational model of a degree clamped to `1..=5`: the `1/1` model is
/// `d + (a·x + b)/(1 + c·x)`; the others divide a degree-`n` polynomial by
/// `1 + …` with the next coefficients.
pub open spec fn spec_rational_formula(degree: nat) -> Seq<char> {
    let n = clamp_nat(degree, 1, 5);
    if n == 1 {
        "y = d + \\frac{a \\cdot x + b}{1 + c \\cdot x}"@
    } else {
        "y = \\frac{"@ + polynomial_terms(n, n + 1) + "}{1"@ + denominator_terms(n, n) + "}"@
    }
}

/// Appends one term.
fn push_term(text: &mut String, symbol: char, power: usize)
    ensures
        final(text)@ == old(text)@ + formula_term(symbol, power as nat),
{
    push_char(text, symbol);
    if power == 1 {
        text.append(" \\cdot x");
    } else if power >= 2 {
        text.append(" \\cdot x^{");
        push_decimal(text, power);
        text.append("}");
    }
}

/// Appends the first `count` polynomial terms of a degree.
fn push_polynomial_terms(text: &mut String, degree: usize, count: usize)
    requires
        1 <= count <= degree + 1 <= 10,
    ensures
        final(text)@ == old(text)@ + polynomial_terms(degree as nat, count as nat),
{
    let symbols = polynomial_parameter_symbols();
    let mut index: usize = 0;
    while index < count
        invariant
            index <= count <= degree + 1 <= 10,
            symbols@ == seq!['a', 'b', 'c', 'd', 'e', 'f', 'g', 'h', 'i', 'j'],
            text@ == old(text)@ + polynomial_terms(degree as nat, index as nat),
        decreases count - index,
    {
        if index > 0 {
            text.append(" + ");
        }
        push_term(text, symbols[index], degree - index);
        proof {
            assert(symbols@[index as int] == spec_parameter_symbol(index as nat));
        }
        index = index + 1;
    }
}

/// The LaTeX of the polynomial of a degree clamped to `1..=9`.
pub fn polynomial_formula_full(degree: usize) -> (latex: String)
    ensures
        latex@ == spec_polynomial_formula(degree as nat),
{
    let d = if degree < 1 {
        1
    } else if degree > 9 {
        9
    } else {
        degree
    };
    let mut latex = String::from_str("y = ");
    push_polynomial_terms(&mut latex, d, d + 1);
    latex
}

/// The LaTeX of the `n/n` rational model of a degree clamped to `1..=5`.
pub fn rational_formula_full(degree: usize) -> (latex: String)
    ensures
        latex@ == spec_rational_formula(degree as nat),
{
    let n = if degree < 1 {
        1
    } else if degree > 5 {
        5
    } else {
        degree
    };
    if n == 1 {
        return String::from_str("y = d + \\frac{a \\cdot x + b}{1 + c \\cdot x}");
    }
    let mut latex = String::from_str("y = \\frac{");
    push_polynomial_terms(&mut latex, n, n + 1);
    latex.append("}{1");
    let symbols: [char; 11] = ['a', 'b', 'c', 'd', 'e', 'f', 'g', 'h', 'i', 'j', 'k'];
    let ghost before = latex@;
    let mut power: usize = 1;
    while power <= n
        invariant
            2 <= n <= 5,
            1 <= power <= n + 1,
            symbols@ == seq!['a', 'b', 'c', 'd', 'e', 'f', 'g', 'h', 'i', 'j', 'k'],
            latex@ == before + denominator_terms(n as nat, (power - 1) as nat),
        decreases n + 1 - power,
    {
        latex.append(" + ");
        push_term(&mut latex, symbols[n + power], power);
        proof {
            assert(symbols@[n + power] == spec_parameter_symbol((n + power) as nat));
        }
        power = power + 1;
    }
    latex.append("}");
    latex
}

/// A formula: its LaTeX and its plain-text reading.
#[derive(Debug)]
pub struct FormulaSource {
    pub render_latex: String,
    pub plain_text: String,
}

impl FormulaSource {
    /// A formula whose plain text is read off its LaTeX.
    pub fn single(render_latex: &str) -> (source: FormulaSource)
        ensures
            source.render_latex@ == render_latex@,
            source.plain_text@ == spec_latex_to_plain_text(render_latex@),
    {
        FormulaSource {
            render_latex: String::from_str(render_latex),
            plain_text: latex_to_plain_text(render_latex),
        }
    }

    /// A formula with hand-written plain text.
    pub fn explicit(render_latex: &str, plain_text: &str) -> (source: FormulaSource)
        ensures
            source.render_latex@ == render_latex@,
            source.plain_text@ == plain_text@,
    {
        FormulaSource {
            render_latex: String::from_str(render_latex),
            plain_text: String::from_str(plain_text),
        }
    }
}

/// The LaTeX of a chosen model under the degree settings.
pub open spec fn spec_formula_latex(model: ModelChoice, polynomial_degree: nat, rational_degree: nat) -> Seq<char> {
    match model {
        ModelChoice::Polynomial => spec_polynomial_formula(polynomial_degree),
        ModelChoice::Rational => spec_rational_formula(rational_degree),
        _ => spec_fixed_formula_latex(model).unwrap(),
    }
}

/// The plain text of a chosen model's formula: read off the LaTeX, except the pseudo-Voigt
/// formula, whose plain text is written out.
pub open spec fn spec_formula_plain_text(model: ModelChoice, polynomial_degree: nat, rational_degree: nat) -> Seq<char> {
    if model == ModelChoice::PseudoVoigt {
        spec_pseudo_voigt_plain_text()
    } else {
        spec_latex_to_plain_text(spec_formula_latex(model, polynomial_degree, rational_degree))
    }
}

/// The formula of a chosen model under the degree settings.
pub fn model_formula_source(model: ModelChoice, polynomial_degree: usize, rational_degree: usize) -> (source: FormulaSource)
    ensures
        source.render_latex@ == spec_formula_latex(model, polynomial_degree as nat, rational_degree as nat),
        source.plain_text@ == spec_formula_plain_text(model, polynomial_degree as nat, rational_degree as nat),
{
    match model {
        ModelChoice::Polynomial => {
            let render_latex = polynomial_formula_full(polynomial_degree);
            let plain_text = latex_to_plain_text(render_latex.as_str());
            FormulaSource { render_latex, plain_text }
        },
        ModelChoice::Rational => {
            let render_latex = rational_formula_full(rational_degree);
            let plain_text = latex_to_plain_text(render_latex.as_str());
            FormulaSource { render_latex, plain_text }
        },
        ModelChoice::PseudoVoigt => {
            let latex = fixed_formula_latex(model).unwrap();
            FormulaSource::explicit(latex, pseudo_voigt_plain_text())
        },
        _ => {
            let latex = fixed_formula_latex(model).unwrap();
            FormulaSource::single(latex)
        },
    }
}

/// The domain constraint of a model, if it has one.
pub open spec fn spec_model_constraint_note(language: UiLanguage, model: ModelChoice) -> Option<Seq<char>> {
    match model {
        ModelChoice::Arrhenius | ModelChoice::Inverse | ModelChoice::NaturalLog | ModelChoice::FourPl
        | ModelChoice::FivePl | ModelChoice::Power => Some(
            spec_tr(language, "Constraint: x > 0"@, "Ограничение: x > 0"@),
        ),
        _ => None,
    }
}

/// The domain constraint of a model, if it has one.
pub fn model_constraint_note(language: UiLanguage, model: ModelChoice) -> (note: Option<&'static str>)
    ensures
        note matches Some(text) ==> spec_model_constraint_note(language, model) == Some(text@),
        note is None ==> spec_model_constraint_note(language, model) is None,
{
    match model {
        ModelChoice::Arrhenius | ModelChoice::Inverse | ModelChoice::NaturalLog | ModelChoice::FourPl
        | ModelChoice::FivePl | ModelChoice::Power => Some(
            tr(language, "Constraint: x > 0", "Ограничение: x > 0"),
        ),
        _ => None,
    }
}

/// A formula card: the formula's LaTeX and plain text, and the notes shown under it.
#[derive(Debug)]
pub struct ModelFormulaInfo {
    pub render_latex: String,
    pub plain_text: String,
    pub notes: String,
}

/// The notes of a formula card: the minimum number of points, the domain constraint if
/// any, and the note on the model's behavior, one per line.
pub open spec fn spec_formula_notes(
    language: UiLanguage,
    model: ModelChoice,
    polynomial_degree: nat,
    rational_degree: nat,
) -> Seq<char> {
    let min_points = spec_model_min_points(spec_resolve(model, polynomial_degree, rational_degree));
    let head = spec_tr(language, "Minimum points"@, "Минимум точек"@) + ": "@ + decimal_text(min_points);
    let with_constraint = match spec_model_constraint_note(language, model) {
        Some(constraint) => head + "\n"@ + constraint,
        None => head,
    };
    with_constraint + "\n"@ + spec_model_ml_note(language, model, rational_degree)
}

/// The formula card of a chosen model under the degree settings.
pub fn model_formula_info(
    language: UiLanguage,
    model: ModelChoice,
    polynomial_degree: usize,
    rational_degree: usize,
) -> (info: ModelFormulaInfo)
    ensures
        info.render_latex@ == spec_formula_latex(model, polynomial_degree as nat, rational_degree as nat),
        info.plain_text@ == spec_formula_plain_text(model, polynomial_degree as nat, rational_degree as nat),
        info.notes@ == spec_formula_notes(language, model, polynomial_degree as nat, rational_degree as nat),
{
    let formula = model_formula_source(model, polynomial_degree, rational_degree);
    let min_points = model_min_points(model, polynomial_degree, rational_degree);
    let mut notes = String::from_str(tr(language, "Minimum points", "Минимум точек"));
    notes.append(": ");
    push_decimal(&mut notes, min_points);
    if let Some(constraint) = model_constraint_note(language, model) {
        notes.append("\n");
        notes.append(constraint);
    }
    notes.append("\n");
    notes.append(model_ml_note(language, model, rational_degree));
    ModelFormulaInfo { render_latex: formula.render_latex, plain_text: formula.plain_text, notes }
}

/// The preview of a formula in at most `max_chars` characters: the formula itself when it
/// fits, else its beginning followed by `...`; just `...` when `max_chars` is 3 or less.
pub open spec fn spec_formula_preview(formula: Seq<char>, max_chars: nat) -> Seq<char> {
    if max_chars <= 3 {
        "..."@
    } else if formula.len() <= max_chars {
        formula
    } else {
        formula.take(max_chars - 3) + "..."@
    }
}

/// The preview of a formula in at most `max_chars` characters.
pub fn formula_preview_text(formula: &str, max_chars: usize) -> (preview: String)
    ensures
        preview@ == spec_formula_preview(formula@, max_chars as nat),
{
    if max_chars <= 3 {
        return String::from_str("...");
    }
    let chars = str_to_chars(formula);
    if chars.len() <= max_chars {
        return String::from_str(formula);
    }
    let mut preview = String::new();
    let mut k: usize = 0;
    while k < max_chars - 3
        invariant
            3 < max_chars < chars.len(),
            k <= max_chars - 3,
            chars@ == formula@,
            preview@ == chars@.take(k as int),
        decreases max_chars - 3 - k,
    {
        push_char(&mut preview, chars[k]);
        proof {
            assert(chars@.take(k + 1) =~= chars@.take(k as int).push(chars@[k as int]));
        }
        k = k + 1;
    }
    preview.append("...");
    preview
}

/// The position of the first `>` at or after `i`, if any.
pub open spec fn first_gt_from(s: Seq<char>, i: int) -> Option<int>
    decreases s.len() - i,
{
    if i < 0 || i >= s.len() {
        None
    } else if s[i] == '>' {
        Some(i)
    } else {
        first_gt_from(s, i + 1)
    }
}

/// Whether `</svg>` starts at position `i`.
pub open spec fn svg_close_at(s: Seq<char>, i: int) -> bool {
    0 <= i && i + 6 <= s.len() && s.subrange(i, i + 6) == "</svg>"@
}

/// The last position below `end` where `</svg>` starts, if any.
pub open spec fn last_svg_close_below(s: Seq<char>, end: int) -> Option<int>
    decreases end,
{
    if end <= 0 {
        None
    } else if svg_close_at(s, end - 1) {
        Some(end - 1)
    } else {
        last_svg_close_below(s, end - 1)
    }
}

/// Whether the body of an SVG document can be cut out: a `>` ends the opening tag before
/// the last `</svg>` begins, or one of them is missing.
pub open spec fn svg_body_bounds_ordered(svg: Seq<char>) -> bool {
    match (first_gt_from(svg, 0), last_svg_close_below(svg, svg.len() as int)) {
        (Some(open), Some(close)) => open + 1 <= close,
        _ => true,
    }
}

/// The content between the end of the opening tag and the last `</svg>`; `None` when
/// either is missing.
pub open spec fn spec_svg_body(svg: Seq<char>) -> Option<Seq<char>> {
    match (first_gt_from(svg, 0), last_svg_close_below(svg, svg.len() as int)) {
        (Some(open), Some(close)) => Some(svg.subrange(open + 1, close)),
        _ => None,
    }
}

proof fn lemma_first_gt_bounds(s: Seq<char>, i: int)
    requires
        0 <= i <= s.len(),
    ensures
        first_gt_from(s, i) matches Some(p) ==> i <= p < s.len(),
    decreases s.len() - i,
{
    if i < s.len() && s[i] != '>' {
        lemma_first_gt_bounds(s, i + 1);
    }
}

proof fn lemma_last_close_bounds(s: Seq<char>, end: int)
    requires
        end <= s.len(),
    ensures
        last_svg_close_below(s, end) matches Some(p) ==> 0 <= p < end && p + 6 <= s.len(),
    decreases end,
{
    if end > 0 && !svg_close_at(s, end - 1) {
        lemma_last_close_bounds(s, end - 1);
    }
}

/// The content of an SVG document between its opening tag and its last `</svg>`.
pub fn extract_svg_body(svg: &[char]) -> (body: Option<Vec<char>>)
    requires
        svg_body_bounds_ordered(svg@),
    ensures
        body matches Some(text) ==> spec_svg_body(svg@) == Some(text@),
        body is None ==> spec_svg_body(svg@) is None,
{
    let mut open: usize = 0;
    while open < svg.len() && svg[open] != '>'
        invariant
            open <= svg.len(),
            first_gt_from(svg@, open as int) == first_gt_from(svg@, 0),
        decreases svg.len() - open,
    {
        open = open + 1;
    }
    if open >= svg.len() {
        return None;
    }
    let mut end: usize = svg.len();
    let mut found = false;
    while end > 0 && !found
        invariant
            end <= svg.len(),
            !found ==> last_svg_close_below(svg@, end as int) == last_svg_close_below(svg@, svg@.len() as int),
            found ==> end >= 1 && last_svg_close_below(svg@, svg@.len() as int) == Some(end as int - 1),
        decreases end + (if found { 0int } else { 1int }),
    {
        let at = end - 1;
        if svg.len() >= 6 && at <= svg.len() - 6 && svg[at] == '<' && svg[at + 1] == '/' && svg[at + 2] == 's' && svg[at
            + 3] == 'v' && svg[at + 4] == 'g' && svg[at + 5] == '>' {
            proof {
                reveal_strlit("</svg>");
                assert(svg@.subrange(at as int, at + 6) =~= "</svg>"@);
            }
            found = true;
        } else {
            proof {
                reveal_strlit("</svg>");
                if svg_close_at(svg@, at as int) {
                    assert(svg@.subrange(at as int, at + 6)[0] == '<');
                    assert(svg@.subrange(at as int, at + 6)[1] == '/');
                    assert(svg@.subrange(at as int, at + 6)[2] == 's');
                    assert(svg@.subrange(at as int, at + 6)[3] == 'v');
                    assert(svg@.subrange(at as int, at + 6)[4] == 'g');
                    assert(svg@.subrange(at as int, at + 6)[5] == '>');
                }
            }
            end = at;
        }
    }
    if !found {
        return None;
    }
    let close = end - 1;
    proof {
        lemma_last_close_bounds(svg@, svg@.len() as int);
    }
    let mut body: Vec<char> = Vec::new();
    let mut k = open + 1;
    while k < close
        invariant
            open + 1 <= close <= svg.len(),
            open + 1 <= k <= close,
            body@ == svg@.subrange(open + 1, k as int),
        decreases close - k,
    {
        body.push(svg[k]);
        k = k + 1;
    }
    Some(body)
}


/// A formula whose first character is plain text reads with that character first.
proof fn lemma_plain_text_keeps_a_plain_first_char(s: Seq<char>)
    requires
        s.len() > 0,
        s[0] != '\\',
        s[0] != '^',
        s[0] != '_',
        s[0] != '&',
    ensures
        spec_latex_to_plain_text(s).len() > 0,
        spec_latex_to_plain_text(s)[0] == s[0],
{
}

/// Every model's formula card has a plain text that is not empty, and its notes start
/// with the minimum number of points.
pub proof fn lemma_formula_card_basics(
    language: UiLanguage,
    model: ModelChoice,
    polynomial_degree: nat,
    rational_degree: nat,
)
    ensures
        spec_formula_plain_text(model, polynomial_degree, rational_degree).len() > 0,
        ({
            let head = spec_tr(language, "Minimum points"@, "Минимум точек"@) + ": "@ + decimal_text(
                spec_model_min_points(spec_resolve(model, polynomial_degree, rational_degree)),
            );
            spec_formula_notes(language, model, polynomial_degree, rational_degree).take(head.len() as int)
                == head
        }),
{
    reveal_strlit("y = A \\cdot \\exp(\\frac{B}{x})");
    reveal_strlit("y = A + \\frac{B}{x}");
    reveal_strlit("y = \\frac{A}{1 + \\exp(-B \\cdot (x - C))}");
    reveal_strlit("y = A \\cdot \\exp(-\\exp(-B \\cdot (x - C)))");
    reveal_strlit("y = a_{1} \\cdot \\exp(-k_{1} \\cdot x) + a_{2} \\cdot \\exp(-k_{2} \\cdot x) + c");
    reveal_strlit("y = A \\cdot \\exp(-k \\cdot x) \\cdot \\sin(\\omega \\cdot x + \\phi) + c");
    reveal_strlit("y = C + \\frac{A}{1 + (\\frac{x - x_0}{\\gamma})^{2}}");
    reveal_strlit("y = A \\cdot \\ln(\\frac{x}{B})");
    reveal_strlit("y = d + \\frac{a - d}{1 + (\\frac{x}{c})^{b}}");
    reveal_strlit("y = d + \\frac{a - d}{(1 + (\\frac{x}{c})^{b})^{m}}");
    reveal_strlit("y = \\frac{V_{\\text{max}} \\cdot x}{K_{m} + x}");
    reveal_strlit("y = a + b \\cdot \\exp(-c \\cdot x)");
    reveal_strlit("y = a \\cdot \\exp(b \\cdot x) + c \\cdot x + d");
    reveal_strlit("y = a + \\frac{b}{2^{\\frac{x}{c}}}");
    reveal_strlit("y = Y_{0} - \\frac{V_{0}}{K} \\cdot (1 - \\exp(-K \\cdot x))");
    reveal_strlit("y = a \\cdot \\tanh(b \\cdot (x - c)) + d");
    reveal_strlit("y = a \\cdot \\arctan(b \\cdot (x - c)) + d");
    reveal_strlit("y = a \\cdot \\ln(1 + \\exp(b \\cdot (x - c))) + d");
    reveal_strlit("y = a \\cdot x^{b}");
    reveal_strlit("y = a \\cdot \\exp(-\\frac{(x - b)^{2}}{2 \\cdot c^{2}})");
    reveal_strlit("y = c + \\frac{a}{2 \\cdot \\tau} \\cdot \\exp(\\frac{\\sigma^{2}}{2 \\cdot \\tau^{2}} - \\frac{x - \\mu}{\\tau}) \\cdot \\text{erfc}(\\frac{1}{\\sqrt{2}}(\\frac{\\sigma}{|\\tau|} - \\frac{x - \\mu}{\\sigma}))");
    reveal_strlit("\\begin{aligned}\ny &= c + a \\cdot (\\eta \\cdot G(x; x_0, \\sigma) + (1-\\eta) \\cdot L(x; x_0, \\gamma)) \\\\ \n\\eta &= \\text{sigmoid}(\\eta_{\\text{raw}}) \\\\\nG(x; x_0, \\sigma) &= \\exp(-\\frac{(x - x_0)^{2}}{2 \\cdot \\sigma^{2}}) \\\\\nL(x; x_0, \\gamma) &= \\frac{1}{1 + (\\frac{x - x_0}{\\gamma})^{2}}\n\\end{aligned}");
    reveal_strlit("y(x) = y_{i} + \\frac{y_{i+1} - y_{i}}{x_{i+1} - x_{i}} \\cdot (x - x_{i})");
    reveal_strlit("y(x) = \\text{Hermite}(y_{i}, y_{i+1}, m_{i}, m_{i+1}), m_{i} \\text{ by Fritsch-Carlson}");
    reveal_strlit("\\begin{aligned}\n            y(x) &= \\text{cubic spline}, \\\\\n            S''(x_{0}) &= S''(x_{n}) = 0\n            \\end{aligned}");
    reveal_strlit("y(x) = \\text{Hermite}(y_{i}, y_{i+1}, m_{i}, m_{i+1}), m_{i} \\text{ by Akima weights}");
    reveal_strlit("y = ");
    reveal_strlit("y = \\frac{");
    reveal_strlit("y = d + \\frac{a \\cdot x + b}{1 + c \\cdot x}");
    reveal_strlit("y = c + a·(η·G(x; x_0, σ) + (1-η)·L(x; x_0, γ)), η = sigmoid(η_raw)\nG(x; x_0, σ) = exp(-((x - x_0)^2)∕(2·σ^2))\nL(x; x_0, γ) = 1∕(1 + ((x - x_0)∕γ)^2)");
    let latex = spec_formula_latex(model, polynomial_degree, rational_degree);
    if model == ModelChoice::PseudoVoigt {
    } else if model == ModelChoice::NaturalCubicSpline {
        reveal_with_fuel(alpha_end, 7);
        reveal_with_fuel(group_close, 10);
        assert(alpha_end(latex, 1) == 6);
        assert(latex.subrange(1, 6) =~= "begin"@) by {
            reveal_strlit("begin");
        }
        assert(group_close(latex, 7, 1) == 14);
        reveal_strlit("frac");
        reveal_strlit("quad");
        reveal_strlit("text");
        reveal_strlit("sqrt");
        assert(latex.subrange(1, 6) != "frac"@ && latex.subrange(1, 6) != "quad"@);
        assert(latex.subrange(1, 6) != "text"@ && latex.subrange(1, 6) != "sqrt"@);
        assert(plain_from(latex, 0) == plain_from(latex, 15));
        assert(latex[15] == '\n');
        assert(plain_from(latex, 15).len() > 0);
    } else {
        assert(latex.len() > 0 && latex[0] == 'y');
        lemma_plain_text_keeps_a_plain_first_char(latex);
    }
    let head = spec_tr(language, "Minimum points"@, "Минимум точек"@) + ": "@ + decimal_text(
        spec_model_min_points(spec_resolve(model, polynomial_degree, rational_degree)),
    );
    let notes = spec_formula_notes(language, model, polynomial_degree, rational_degree);
    assert(notes.take(head.len() as int) =~= head);
}
/// Whether a text holds no backslash.
pub open spec fn has_no_backslash(text: Seq<char>) -> bool {
    forall|k: int| 0 <= k < text.len() ==> text[k] != '\\'
}

} // verus!
