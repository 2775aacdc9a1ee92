//! The plain-text formulas of all models are free of LaTeX: a proof by reading each
//! model's formula, character by character, at every degree setting.

use vstd::prelude::*;
use crate::family::clamp_nat;
use crate::formula::{
    alpha_end, denominator_terms, group_close, has_no_backslash, plain_from,
    polynomial_terms, spec_formula_plain_text, spec_latex_symbol, spec_latex_to_plain_text,
    spec_parameter_symbol, spec_polynomial_formula, spec_rational_formula,
};
use crate::model_catalog::ModelChoice;
use crate::text::decimal_text;

verus! {

/// Every model's plain-text formula is free of LaTeX: it holds no backslash, whatever
/// the degree settings.
pub proof fn lemma_plain_text_has_no_backslash(model: ModelChoice, polynomial_degree: nat, rational_degree: nat)
    ensures
        has_no_backslash(spec_formula_plain_text(model, polynomial_degree, rational_degree)),
{
    match model {
        ModelChoice::Polynomial => {
            let d = clamp_nat(polynomial_degree, 1, 9);
            assert(spec_polynomial_formula(polynomial_degree) == spec_polynomial_formula(d));
            if d == 1 {
                lemma_polynomial_formula_of_degree_1();
                lemma_polynomial_of_degree_1_plain_text_is_clean();
            } else if d == 2 {
                lemma_polynomial_formula_of_degree_2();
                lemma_polynomial_of_degree_2_plain_text_is_clean();
            } else if d == 3 {
                lemma_polynomial_formula_of_degree_3();
                lemma_polynomial_of_degree_3_plain_text_is_clean();
            } else if d == 4 {
                lemma_polynomial_formula_of_degree_4();
                lemma_polynomial_of_degree_4_plain_text_is_clean();
            } else if d == 5 {
                lemma_polynomial_formula_of_degree_5();
                lemma_polynomial_of_degree_5_plain_text_is_clean();
            } else if d == 6 {
                lemma_polynomial_formula_of_degree_6();
                lemma_polynomial_of_degree_6_plain_text_is_clean();
            } else if d == 7 {
                lemma_polynomial_formula_of_degree_7();
                lemma_polynomial_of_degree_7_plain_text_is_clean();
            } else if d == 8 {
                lemma_polynomial_formula_of_degree_8();
                lemma_polynomial_of_degree_8_plain_text_is_clean();
            } else if d == 9 {
                lemma_polynomial_formula_of_degree_9();
                lemma_polynomial_of_degree_9_plain_text_is_clean();
            }
        },
        ModelChoice::Rational => {
            let n = clamp_nat(rational_degree, 1, 5);
            assert(spec_rational_formula(rational_degree) == spec_rational_formula(n));
            if n == 1 {
                lemma_rational_formula_of_degree_1();
                lemma_rational_of_degree_1_plain_text_is_clean();
            } else if n == 2 {
                lemma_rational_formula_of_degree_2();
                lemma_rational_of_degree_2_plain_text_is_clean();
            } else if n == 3 {
                lemma_rational_formula_of_degree_3();
                lemma_rational_of_degree_3_plain_text_is_clean();
            } else if n == 4 {
                lemma_rational_formula_of_degree_4();
                lemma_rational_of_degree_4_plain_text_is_clean();
            } else if n == 5 {
                lemma_rational_formula_of_degree_5();
                lemma_rational_of_degree_5_plain_text_is_clean();
            }
        },
        ModelChoice::PseudoVoigt => {
            reveal_strlit("y = c + a·(η·G(x; x_0, σ) + (1-η)·L(x; x_0, γ)), η = sigmoid(η_raw)\nG(x; x_0, σ) = exp(-((x - x_0)^2)∕(2·σ^2))\nL(x; x_0, γ) = 1∕(1 + ((x - x_0)∕γ)^2)");
        },
        ModelChoice::Arrhenius => {
            reveal_strlit("y = A \\cdot \\exp(\\frac{B}{x})");
            lemma_arrhenius_plain_text_is_clean();
        },
        ModelChoice::Inverse => {
            reveal_strlit("y = A + \\frac{B}{x}");
            lemma_inverse_plain_text_is_clean();
        },
        ModelChoice::Logistic => {
            reveal_strlit("y = \\frac{A}{1 + \\exp(-B \\cdot (x - C))}");
            lemma_logistic_plain_text_is_clean();
        },
        ModelChoice::Gompertz => {
            reveal_strlit("y = A \\cdot \\exp(-\\exp(-B \\cdot (x - C)))");
            lemma_gompertz_plain_text_is_clean();
        },
        ModelChoice::BiExponential => {
            reveal_strlit("y = a_{1} \\cdot \\exp(-k_{1} \\cdot x) + a_{2} \\cdot \\exp(-k_{2} \\cdot x) + c");
            lemma_bi_exponential_plain_text_is_clean();
        },
        ModelChoice::DampedSinusoid => {
            reveal_strlit("y = A \\cdot \\exp(-k \\cdot x) \\cdot \\sin(\\omega \\cdot x + \\phi) + c");
            lemma_damped_sinusoid_plain_text_is_clean();
        },
        ModelChoice::Lorentzian => {
            reveal_strlit("y = C + \\frac{A}{1 + (\\frac{x - x_0}{\\gamma})^{2}}");
            lemma_lorentzian_plain_text_is_clean();
        },
        ModelChoice::NaturalLog => {
            reveal_strlit("y = A \\cdot \\ln(\\frac{x}{B})");
            lemma_natural_log_plain_text_is_clean();
        },
        ModelChoice::FourPl => {
            reveal_strlit("y = d + \\frac{a - d}{1 + (\\frac{x}{c})^{b}}");
            lemma_four_pl_plain_text_is_clean();
        },
        ModelChoice::FivePl => {
            reveal_strlit("y = d + \\frac{a - d}{(1 + (\\frac{x}{c})^{b})^{m}}");
            lemma_five_pl_plain_text_is_clean();
        },
        ModelChoice::MichaelisMenten => {
            reveal_strlit("y = \\frac{V_{\\text{max}} \\cdot x}{K_{m} + x}");
            lemma_michaelis_menten_plain_text_is_clean();
        },
        ModelChoice::ExponentialBasic => {
            reveal_strlit("y = a + b \\cdot \\exp(-c \\cdot x)");
            lemma_exponential_basic_plain_text_is_clean();
        },
        ModelChoice::ExponentialLinear => {
            reveal_strlit("y = a \\cdot \\exp(b \\cdot x) + c \\cdot x + d");
            lemma_exponential_linear_plain_text_is_clean();
        },
        ModelChoice::ExponentialHalfLife => {
            reveal_strlit("y = a + \\frac{b}{2^{\\frac{x}{c}}}");
            lemma_exponential_half_life_plain_text_is_clean();
        },
        ModelChoice::FallingExponential => {
            reveal_strlit("y = Y_{0} - \\frac{V_{0}}{K} \\cdot (1 - \\exp(-K \\cdot x))");
            lemma_falling_exponential_plain_text_is_clean();
        },
        ModelChoice::HyperbolicTangent => {
            reveal_strlit("y = a \\cdot \\tanh(b \\cdot (x - c)) + d");
            lemma_hyperbolic_tangent_plain_text_is_clean();
        },
        ModelChoice::ArctangentStep => {
            reveal_strlit("y = a \\cdot \\arctan(b \\cdot (x - c)) + d");
            lemma_arctangent_step_plain_text_is_clean();
        },
        ModelChoice::Softplus => {
            reveal_strlit("y = a \\cdot \\ln(1 + \\exp(b \\cdot (x - c))) + d");
            lemma_softplus_plain_text_is_clean();
        },
        ModelChoice::Power => {
            reveal_strlit("y = a \\cdot x^{b}");
            lemma_power_plain_text_is_clean();
        },
        ModelChoice::Gaussian => {
            reveal_strlit("y = a \\cdot \\exp(-\\frac{(x - b)^{2}}{2 \\cdot c^{2}})");
            lemma_gaussian_plain_text_is_clean();
        },
        ModelChoice::Emg => {
            reveal_strlit("y = c + \\frac{a}{2 \\cdot \\tau} \\cdot \\exp(\\frac{\\sigma^{2}}{2 \\cdot \\tau^{2}} - \\frac{x - \\mu}{\\tau}) \\cdot \\text{erfc}(\\frac{1}{\\sqrt{2}}(\\frac{\\sigma}{|\\tau|} - \\frac{x - \\mu}{\\sigma}))");
            lemma_emg_plain_text_is_clean();
        },
        ModelChoice::LinearSpline => {
            reveal_strlit("y(x) = y_{i} + \\frac{y_{i+1} - y_{i}}{x_{i+1} - x_{i}} \\cdot (x - x_{i})");
            lemma_linear_spline_plain_text_is_clean();
        },
        ModelChoice::MonotoneCubicSpline => {
            reveal_strlit("y(x) = \\text{Hermite}(y_{i}, y_{i+1}, m_{i}, m_{i+1}), m_{i} \\text{ by Fritsch-Carlson}");
            lemma_monotone_cubic_spline_plain_text_is_clean();
        },
        ModelChoice::NaturalCubicSpline => {
            reveal_strlit("\\begin{aligned}\n            y(x) &= \\text{cubic spline}, \\\\\n            S''(x_{0}) &= S''(x_{n}) = 0\n            \\end{aligned}");
            lemma_natural_cubic_spline_plain_text_is_clean();
        },
        ModelChoice::AkimaSpline => {
            reveal_strlit("y(x) = \\text{Hermite}(y_{i}, y_{i+1}, m_{i}, m_{i+1}), m_{i} \\text{ by Akima weights}");
            lemma_akima_spline_plain_text_is_clean();
        },
    }
}

#[verifier::rlimit(100)]
#[verifier::spinoff_prover]
proof fn lemma_arrhenius_plain_text_is_clean()
    ensures
        has_no_backslash(spec_latex_to_plain_text("y = A \\cdot \\exp(\\frac{B}{x})"@)),
{
    reveal_strlit("y = A \\cdot \\exp(\\frac{B}{x})");
    reveal_strlit("begin");
    reveal_strlit("cdot");
    reveal_strlit("end");
    reveal_strlit("exp");
    reveal_strlit("frac");
    reveal_strlit("quad");
    reveal_strlit("sqrt");
    reveal_strlit("text");
    let s = "y = A \\cdot \\exp(\\frac{B}{x})"@;
    assert(s.len() == 29);
    assert(plain_from(s, 29).len() == 0);
    assert(s[28] == ')');
    assert(has_no_backslash(plain_from(s, 28)));
    assert(s[17] == '\\');
    assert(alpha_end(s, 22) == 22);
    assert(alpha_end(s, 21) == 22);
    assert(alpha_end(s, 20) == 22);
    assert(alpha_end(s, 19) == 22);
    assert(alpha_end(s, 18) == 22);
    let t1 = s.subrange(18, 22);
    assert(t1.len() == 4 && t1[0] == 'f' && t1[1] == 'r' && t1[2] == 'a' && t1[3] == 'c');
    assert(t1 =~= "frac"@);
    assert(s[22] == '{');
    assert(group_close(s, 24, 1) == 24);
    assert(group_close(s, 23, 1) == 24);
    let t2 = s.subrange(23, 24);
    assert(t2.len() == 1);
    assert(plain_from(t2, 1).len() == 0);
    assert(t2[0] == 'B');
    assert(has_no_backslash(plain_from(t2, 0)));
    assert(s[25] == '{');
    assert(group_close(s, 27, 1) == 27);
    assert(group_close(s, 26, 1) == 27);
    let t3 = s.subrange(26, 27);
    assert(t3.len() == 1);
    assert(plain_from(t3, 1).len() == 0);
    assert(t3[0] == 'x');
    assert(has_no_backslash(plain_from(t3, 0)));
    assert(has_no_backslash(plain_from(s, 17)));
    assert(s[16] == '(');
    assert(has_no_backslash(plain_from(s, 16)));
    assert(s[12] == '\\');
    assert(alpha_end(s, 16) == 16);
    assert(alpha_end(s, 15) == 16);
    assert(alpha_end(s, 14) == 16);
    assert(alpha_end(s, 13) == 16);
    let t4 = s.subrange(13, 16);
    assert(t4.len() == 3 && t4[0] == 'e' && t4[1] == 'x' && t4[2] == 'p');
    assert(t4 =~= "exp"@);
    lemma_latex_symbol_exp(t4);
    assert(has_no_backslash(plain_from(s, 12)));
    assert(s[11] == ' ');
    assert(has_no_backslash(plain_from(s, 11)));
    assert(s[6] == '\\');
    assert(alpha_end(s, 11) == 11);
    assert(alpha_end(s, 10) == 11);
    assert(alpha_end(s, 9) == 11);
    assert(alpha_end(s, 8) == 11);
    assert(alpha_end(s, 7) == 11);
    let t5 = s.subrange(7, 11);
    assert(t5.len() == 4 && t5[0] == 'c' && t5[1] == 'd' && t5[2] == 'o' && t5[3] == 't');
    assert(t5 =~= "cdot"@);
    lemma_latex_symbol_cdot(t5);
    assert(has_no_backslash(plain_from(s, 6)));
    assert(s[5] == ' ');
    assert(has_no_backslash(plain_from(s, 5)));
    assert(s[4] == 'A');
    assert(has_no_backslash(plain_from(s, 4)));
    assert(s[3] == ' ');
    assert(has_no_backslash(plain_from(s, 3)));
    assert(s[2] == '=');
    assert(has_no_backslash(plain_from(s, 2)));
    assert(s[1] == ' ');
    assert(has_no_backslash(plain_from(s, 1)));
    assert(s[0] == 'y');
    assert(has_no_backslash(plain_from(s, 0)));
}

#[verifier::rlimit(100)]
#[verifier::spinoff_prover]
proof fn lemma_inverse_plain_text_is_clean()
    ensures
        has_no_backslash(spec_latex_to_plain_text("y = A + \\frac{B}{x}"@)),
{
    reveal_strlit("y = A + \\frac{B}{x}");
    reveal_strlit("begin");
    reveal_strlit("end");
    reveal_strlit("frac");
    reveal_strlit("quad");
    reveal_strlit("sqrt");
    reveal_strlit("text");
    let s = "y = A + \\frac{B}{x}"@;
    assert(s.len() == 19);
    assert(plain_from(s, 19).len() == 0);
    assert(s[8] == '\\');
    assert(alpha_end(s, 13) == 13);
    assert(alpha_end(s, 12) == 13);
    assert(alpha_end(s, 11) == 13);
    assert(alpha_end(s, 10) == 13);
    assert(alpha_end(s, 9) == 13);
    let t1 = s.subrange(9, 13);
    assert(t1.len() == 4 && t1[0] == 'f' && t1[1] == 'r' && t1[2] == 'a' && t1[3] == 'c');
    assert(t1 =~= "frac"@);
    assert(s[13] == '{');
    assert(group_close(s, 15, 1) == 15);
    assert(group_close(s, 14, 1) == 15);
    let t2 = s.subrange(14, 15);
    assert(t2.len() == 1);
    assert(plain_from(t2, 1).len() == 0);
    assert(t2[0] == 'B');
    assert(has_no_backslash(plain_from(t2, 0)));
    assert(s[16] == '{');
    assert(group_close(s, 18, 1) == 18);
    assert(group_close(s, 17, 1) == 18);
    let t3 = s.subrange(17, 18);
    assert(t3.len() == 1);
    assert(plain_from(t3, 1).len() == 0);
    assert(t3[0] == 'x');
    assert(has_no_backslash(plain_from(t3, 0)));
    assert(has_no_backslash(plain_from(s, 8)));
    assert(s[7] == ' ');
    assert(has_no_backslash(plain_from(s, 7)));
    assert(s[6] == '+');
    assert(has_no_backslash(plain_from(s, 6)));
    assert(s[5] == ' ');
    assert(has_no_backslash(plain_from(s, 5)));
    assert(s[4] == 'A');
    assert(has_no_backslash(plain_from(s, 4)));
    assert(s[3] == ' ');
    assert(has_no_backslash(plain_from(s, 3)));
    assert(s[2] == '=');
    assert(has_no_backslash(plain_from(s, 2)));
    assert(s[1] == ' ');
    assert(has_no_backslash(plain_from(s, 1)));
    assert(s[0] == 'y');
    assert(has_no_backslash(plain_from(s, 0)));
}

#[verifier::rlimit(100)]
#[verifier::spinoff_prover]
proof fn lemma_logistic_plain_text_is_clean()
    ensures
        has_no_backslash(spec_latex_to_plain_text("y = \\frac{A}{1 + \\exp(-B \\cdot (x - C))}"@)),
{
    reveal_strlit("y = \\frac{A}{1 + \\exp(-B \\cdot (x - C))}");
    reveal_strlit("begin");
    reveal_strlit("cdot");
    reveal_strlit("end");
    reveal_strlit("exp");
    reveal_strlit("frac");
    reveal_strlit("quad");
    reveal_strlit("sqrt");
    reveal_strlit("text");
    let s = "y = \\frac{A}{1 + \\exp(-B \\cdot (x - C))}"@;
    assert(s.len() == 40);
    assert(plain_from(s, 40).len() == 0);
    assert(s[4] == '\\');
    assert(alpha_end(s, 9) == 9);
    assert(alpha_end(s, 8) == 9);
    assert(alpha_end(s, 7) == 9);
    assert(alpha_end(s, 6) == 9);
    assert(alpha_end(s, 5) == 9);
    let t1 = s.subrange(5, 9);
    assert(t1.len() == 4 && t1[0] == 'f' && t1[1] == 'r' && t1[2] == 'a' && t1[3] == 'c');
    assert(t1 =~= "frac"@);
    assert(s[9] == '{');
    assert(group_close(s, 11, 1) == 11);
    assert(group_close(s, 10, 1) == 11);
    let t2 = s.subrange(10, 11);
    assert(t2.len() == 1);
    assert(plain_from(t2, 1).len() == 0);
    assert(t2[0] == 'A');
    assert(has_no_backslash(plain_from(t2, 0)));
    assert(s[12] == '{');
    assert(group_close(s, 39, 1) == 39);
    assert(group_close(s, 38, 1) == 39);
    assert(group_close(s, 37, 1) == 39);
    assert(group_close(s, 36, 1) == 39);
    assert(group_close(s, 35, 1) == 39);
    assert(group_close(s, 34, 1) == 39);
    assert(group_close(s, 33, 1) == 39);
    assert(group_close(s, 32, 1) == 39);
    assert(group_close(s, 31, 1) == 39);
    assert(group_close(s, 30, 1) == 39);
    assert(group_close(s, 29, 1) == 39);
    assert(group_close(s, 28, 1) == 39);
    assert(group_close(s, 27, 1) == 39);
    assert(group_close(s, 26, 1) == 39);
    assert(group_close(s, 25, 1) == 39);
    assert(group_close(s, 24, 1) == 39);
    assert(group_close(s, 23, 1) == 39);
    assert(group_close(s, 22, 1) == 39);
    assert(group_close(s, 21, 1) == 39);
    assert(group_close(s, 20, 1) == 39);
    assert(group_close(s, 19, 1) == 39);
    assert(group_close(s, 18, 1) == 39);
    assert(group_close(s, 17, 1) == 39);
    assert(group_close(s, 16, 1) == 39);
    assert(group_close(s, 15, 1) == 39);
    assert(group_close(s, 14, 1) == 39);
    assert(group_close(s, 13, 1) == 39);
    let t3 = s.subrange(13, 39);
    assert(t3.len() == 26);
    assert(plain_from(t3, 26).len() == 0);
    assert(t3[25] == ')');
    assert(has_no_backslash(plain_from(t3, 25)));
    assert(t3[24] == ')');
    assert(has_no_backslash(plain_from(t3, 24)));
    assert(t3[23] == 'C');
    assert(has_no_backslash(plain_from(t3, 23)));
    assert(t3[22] == ' ');
    assert(has_no_backslash(plain_from(t3, 22)));
    assert(t3[21] == '-');
    assert(has_no_backslash(plain_from(t3, 21)));
    assert(t3[20] == ' ');
    assert(has_no_backslash(plain_from(t3, 20)));
    assert(t3[19] == 'x');
    assert(has_no_backslash(plain_from(t3, 19)));
    assert(t3[18] == '(');
    assert(has_no_backslash(plain_from(t3, 18)));
    assert(t3[17] == ' ');
    assert(has_no_backslash(plain_from(t3, 17)));
    assert(t3[12] == '\\');
    assert(alpha_end(t3, 17) == 17);
    assert(alpha_end(t3, 16) == 17);
    assert(alpha_end(t3, 15) == 17);
    assert(alpha_end(t3, 14) == 17);
    assert(alpha_end(t3, 13) == 17);
    let t4 = t3.subrange(13, 17);
    assert(t4.len() == 4 && t4[0] == 'c' && t4[1] == 'd' && t4[2] == 'o' && t4[3] == 't');
    assert(t4 =~= "cdot"@);
    lemma_latex_symbol_cdot(t4);
    assert(has_no_backslash(plain_from(t3, 12)));
    assert(t3[11] == ' ');
    assert(has_no_backslash(plain_from(t3, 11)));
    assert(t3[10] == 'B');
    assert(has_no_backslash(plain_from(t3, 10)));
    assert(t3[9] == '-');
    assert(has_no_backslash(plain_from(t3, 9)));
    assert(t3[8] == '(');
    assert(has_no_backslash(plain_from(t3, 8)));
    assert(t3[4] == '\\');
    assert(alpha_end(t3, 8) == 8);
    assert(alpha_end(t3, 7) == 8);
    assert(alpha_end(t3, 6) == 8);
    assert(alpha_end(t3, 5) == 8);
    let t5 = t3.subrange(5, 8);
    assert(t5.len() == 3 && t5[0] == 'e' && t5[1] == 'x' && t5[2] == 'p');
    assert(t5 =~= "exp"@);
    lemma_latex_symbol_exp(t5);
    assert(has_no_backslash(plain_from(t3, 4)));
    assert(t3[3] == ' ');
    assert(has_no_backslash(plain_from(t3, 3)));
    assert(t3[2] == '+');
    assert(has_no_backslash(plain_from(t3, 2)));
    assert(t3[1] == ' ');
    assert(has_no_backslash(plain_from(t3, 1)));
    assert(t3[0] == '1');
    assert(has_no_backslash(plain_from(t3, 0)));
    assert(has_no_backslash(plain_from(s, 4)));
    assert(s[3] == ' ');
    assert(has_no_backslash(plain_from(s, 3)));
    assert(s[2] == '=');
    assert(has_no_backslash(plain_from(s, 2)));
    assert(s[1] == ' ');
    assert(has_no_backslash(plain_from(s, 1)));
    assert(s[0] == 'y');
    assert(has_no_backslash(plain_from(s, 0)));
}

#[verifier::rlimit(100)]
#[verifier::spinoff_prover]
proof fn lemma_gompertz_plain_text_is_clean()
    ensures
        has_no_backslash(spec_latex_to_plain_text("y = A \\cdot \\exp(-\\exp(-B \\cdot (x - C)))"@)),
{
    reveal_strlit("y = A \\cdot \\exp(-\\exp(-B \\cdot (x - C)))");
    reveal_strlit("begin");
    reveal_strlit("cdot");
    reveal_strlit("end");
    reveal_strlit("exp");
    reveal_strlit("frac");
    reveal_strlit("quad");
    reveal_strlit("sqrt");
    reveal_strlit("text");
    let s = "y = A \\cdot \\exp(-\\exp(-B \\cdot (x - C)))"@;
    assert(s.len() == 41);
    assert(plain_from(s, 41).len() == 0);
    assert(s[40] == ')');
    assert(has_no_backslash(plain_from(s, 40)));
    assert(s[39] == ')');
    assert(has_no_backslash(plain_from(s, 39)));
    assert(s[38] == ')');
    assert(has_no_backslash(plain_from(s, 38)));
    assert(s[37] == 'C');
    assert(has_no_backslash(plain_from(s, 37)));
    assert(s[36] == ' ');
    assert(has_no_backslash(plain_from(s, 36)));
    assert(s[35] == '-');
    assert(has_no_backslash(plain_from(s, 35)));
    assert(s[34] == ' ');
    assert(has_no_backslash(plain_from(s, 34)));
    assert(s[33] == 'x');
    assert(has_no_backslash(plain_from(s, 33)));
    assert(s[32] == '(');
    assert(has_no_backslash(plain_from(s, 32)));
    assert(s[31] == ' ');
    assert(has_no_backslash(plain_from(s, 31)));
    assert(s[26] == '\\');
    assert(alpha_end(s, 31) == 31);
    assert(alpha_end(s, 30) == 31);
    assert(alpha_end(s, 29) == 31);
    assert(alpha_end(s, 28) == 31);
    assert(alpha_end(s, 27) == 31);
    let t1 = s.subrange(27, 31);
    assert(t1.len() == 4 && t1[0] == 'c' && t1[1] == 'd' && t1[2] == 'o' && t1[3] == 't');
    assert(t1 =~= "cdot"@);
    lemma_latex_symbol_cdot(t1);
    assert(has_no_backslash(plain_from(s, 26)));
    assert(s[25] == ' ');
    assert(has_no_backslash(plain_from(s, 25)));
    assert(s[24] == 'B');
    assert(has_no_backslash(plain_from(s, 24)));
    assert(s[23] == '-');
    assert(has_no_backslash(plain_from(s, 23)));
    assert(s[22] == '(');
    assert(has_no_backslash(plain_from(s, 22)));
    assert(s[18] == '\\');
    assert(alpha_end(s, 22) == 22);
    assert(alpha_end(s, 21) == 22);
    assert(alpha_end(s, 20) == 22);
    assert(alpha_end(s, 19) == 22);
    let t2 = s.subrange(19, 22);
    assert(t2.len() == 3 && t2[0] == 'e' && t2[1] == 'x' && t2[2] == 'p');
    assert(t2 =~= "exp"@);
    lemma_latex_symbol_exp(t2);
    assert(has_no_backslash(plain_from(s, 18)));
    assert(s[17] == '-');
    assert(has_no_backslash(plain_from(s, 17)));
    assert(s[16] == '(');
    assert(has_no_backslash(plain_from(s, 16)));
    assert(s[12] == '\\');
    assert(alpha_end(s, 16) == 16);
    assert(alpha_end(s, 15) == 16);
    assert(alpha_end(s, 14) == 16);
    assert(alpha_end(s, 13) == 16);
    let t3 = s.subrange(13, 16);
    assert(t3.len() == 3 && t3[0] == 'e' && t3[1] == 'x' && t3[2] == 'p');
    assert(t3 =~= "exp"@);
    lemma_latex_symbol_exp(t3);
    assert(has_no_backslash(plain_from(s, 12)));
    assert(s[11] == ' ');
    assert(has_no_backslash(plain_from(s, 11)));
    assert(s[6] == '\\');
    assert(alpha_end(s, 11) == 11);
    assert(alpha_end(s, 10) == 11);
    assert(alpha_end(s, 9) == 11);
    assert(alpha_end(s, 8) == 11);
    assert(alpha_end(s, 7) == 11);
    let t4 = s.subrange(7, 11);
    assert(t4.len() == 4 && t4[0] == 'c' && t4[1] == 'd' && t4[2] == 'o' && t4[3] == 't');
    assert(t4 =~= "cdot"@);
    lemma_latex_symbol_cdot(t4);
    assert(has_no_backslash(plain_from(s, 6)));
    assert(s[5] == ' ');
    assert(has_no_backslash(plain_from(s, 5)));
    assert(s[4] == 'A');
    assert(has_no_backslash(plain_from(s, 4)));
    assert(s[3] == ' ');
    assert(has_no_backslash(plain_from(s, 3)));
    assert(s[2] == '=');
    assert(has_no_backslash(plain_from(s, 2)));
    assert(s[1] == ' ');
    assert(has_no_backslash(plain_from(s, 1)));
    assert(s[0] == 'y');
    assert(has_no_backslash(plain_from(s, 0)));
}

#[verifier::rlimit(100)]
#[verifier::spinoff_prover]
proof fn lemma_bi_exponential_plain_text_is_clean()
    ensures
        has_no_backslash(spec_latex_to_plain_text("y = a_{1} \\cdot \\exp(-k_{1} \\cdot x) + a_{2} \\cdot \\exp(-k_{2} \\cdot x) + c"@)),
{
    reveal_strlit("y = a_{1} \\cdot \\exp(-k_{1} \\cdot x) + a_{2} \\cdot \\exp(-k_{2} \\cdot x) + c");
    reveal_strlit("begin");
    reveal_strlit("cdot");
    reveal_strlit("end");
    reveal_strlit("exp");
    reveal_strlit("frac");
    reveal_strlit("quad");
    reveal_strlit("sqrt");
    reveal_strlit("text");
    let s = "y = a_{1} \\cdot \\exp(-k_{1} \\cdot x) + a_{2} \\cdot \\exp(-k_{2} \\cdot x) + c"@;
    assert(s.len() == 75);
    assert(plain_from(s, 75).len() == 0);
    assert(s[74] == 'c');
    assert(has_no_backslash(plain_from(s, 74)));
    assert(s[73] == ' ');
    assert(has_no_backslash(plain_from(s, 73)));
    assert(s[72] == '+');
    assert(has_no_backslash(plain_from(s, 72)));
    assert(s[71] == ' ');
    assert(has_no_backslash(plain_from(s, 71)));
    assert(s[70] == ')');
    assert(has_no_backslash(plain_from(s, 70)));
    assert(s[69] == 'x');
    assert(has_no_backslash(plain_from(s, 69)));
    assert(s[68] == ' ');
    assert(has_no_backslash(plain_from(s, 68)));
    assert(s[63] == '\\');
    assert(alpha_end(s, 68) == 68);
    assert(alpha_end(s, 67) == 68);
    assert(alpha_end(s, 66) == 68);
    assert(alpha_end(s, 65) == 68);
    assert(alpha_end(s, 64) == 68);
    let t1 = s.subrange(64, 68);
    assert(t1.len() == 4 && t1[0] == 'c' && t1[1] == 'd' && t1[2] == 'o' && t1[3] == 't');
    assert(t1 =~= "cdot"@);
    lemma_latex_symbol_cdot(t1);
    assert(has_no_backslash(plain_from(s, 63)));
    assert(s[62] == ' ');
    assert(has_no_backslash(plain_from(s, 62)));
    assert(s[58] == '_');
    assert(s[59] == '{');
    assert(group_close(s, 61, 1) == 61);
    assert(group_close(s, 60, 1) == 61);
    let t2 = s.subrange(60, 61);
    assert(t2.len() == 1);
    assert(plain_from(t2, 1).len() == 0);
    assert(t2[0] == '2');
    assert(has_no_backslash(plain_from(t2, 0)));
    assert(has_no_backslash(plain_from(s, 58)));
    assert(s[57] == 'k');
    assert(has_no_backslash(plain_from(s, 57)));
    assert(s[56] == '-');
    assert(has_no_backslash(plain_from(s, 56)));
    assert(s[55] == '(');
    assert(has_no_backslash(plain_from(s, 55)));
    assert(s[51] == '\\');
    assert(alpha_end(s, 55) == 55);
    assert(alpha_end(s, 54) == 55);
    assert(alpha_end(s, 53) == 55);
    assert(alpha_end(s, 52) == 55);
    let t3 = s.subrange(52, 55);
    assert(t3.len() == 3 && t3[0] == 'e' && t3[1] == 'x' && t3[2] == 'p');
    assert(t3 =~= "exp"@);
    lemma_latex_symbol_exp(t3);
    assert(has_no_backslash(plain_from(s, 51)));
    assert(s[50] == ' ');
    assert(has_no_backslash(plain_from(s, 50)));
    assert(s[45] == '\\');
    assert(alpha_end(s, 50) == 50);
    assert(alpha_end(s, 49) == 50);
    assert(alpha_end(s, 48) == 50);
    assert(alpha_end(s, 47) == 50);
    assert(alpha_end(s, 46) == 50);
    let t4 = s.subrange(46, 50);
    assert(t4.len() == 4 && t4[0] == 'c' && t4[1] == 'd' && t4[2] == 'o' && t4[3] == 't');
    assert(t4 =~= "cdot"@);
    lemma_latex_symbol_cdot(t4);
    assert(has_no_backslash(plain_from(s, 45)));
    assert(s[44] == ' ');
    assert(has_no_backslash(plain_from(s, 44)));
    assert(s[40] == '_');
    assert(s[41] == '{');
    assert(group_close(s, 43, 1) == 43);
    assert(group_close(s, 42, 1) == 43);
    let t5 = s.subrange(42, 43);
    assert(t5.len() == 1);
    assert(plain_from(t5, 1).len() == 0);
    assert(t5[0] == '2');
    assert(has_no_backslash(plain_from(t5, 0)));
    assert(has_no_backslash(plain_from(s, 40)));
    assert(s[39] == 'a');
    assert(has_no_backslash(plain_from(s, 39)));
    assert(s[38] == ' ');
    assert(has_no_backslash(plain_from(s, 38)));
    assert(s[37] == '+');
    assert(has_no_backslash(plain_from(s, 37)));
    assert(s[36] == ' ');
    assert(has_no_backslash(plain_from(s, 36)));
    assert(s[35] == ')');
    assert(has_no_backslash(plain_from(s, 35)));
    assert(s[34] == 'x');
    assert(has_no_backslash(plain_from(s, 34)));
    assert(s[33] == ' ');
    assert(has_no_backslash(plain_from(s, 33)));
    assert(s[28] == '\\');
    assert(alpha_end(s, 33) == 33);
    assert(alpha_end(s, 32) == 33);
    assert(alpha_end(s, 31) == 33);
    assert(alpha_end(s, 30) == 33);
    assert(alpha_end(s, 29) == 33);
    let t6 = s.subrange(29, 33);
    assert(t6.len() == 4 && t6[0] == 'c' && t6[1] == 'd' && t6[2] == 'o' && t6[3] == 't');
    assert(t6 =~= "cdot"@);
    lemma_latex_symbol_cdot(t6);
    assert(has_no_backslash(plain_from(s, 28)));
    assert(s[27] == ' ');
    assert(has_no_backslash(plain_from(s, 27)));
    assert(s[23] == '_');
    assert(s[24] == '{');
    assert(group_close(s, 26, 1) == 26);
    assert(group_close(s, 25, 1) == 26);
    let t7 = s.subrange(25, 26);
    assert(t7.len() == 1);
    assert(plain_from(t7, 1).len() == 0);
    assert(t7[0] == '1');
    assert(has_no_backslash(plain_from(t7, 0)));
    assert(has_no_backslash(plain_from(s, 23)));
    assert(s[22] == 'k');
    assert(has_no_backslash(plain_from(s, 22)));
    assert(s[21] == '-');
    assert(has_no_backslash(plain_from(s, 21)));
    assert(s[20] == '(');
    assert(has_no_backslash(plain_from(s, 20)));
    assert(s[16] == '\\');
    assert(alpha_end(s, 20) == 20);
    assert(alpha_end(s, 19) == 20);
    assert(alpha_end(s, 18) == 20);
    assert(alpha_end(s, 17) == 20);
    let t8 = s.subrange(17, 20);
    assert(t8.len() == 3 && t8[0] == 'e' && t8[1] == 'x' && t8[2] == 'p');
    assert(t8 =~= "exp"@);
    lemma_latex_symbol_exp(t8);
    assert(has_no_backslash(plain_from(s, 16)));
    assert(s[15] == ' ');
    assert(has_no_backslash(plain_from(s, 15)));
    assert(s[10] == '\\');
    assert(alpha_end(s, 15) == 15);
    assert(alpha_end(s, 14) == 15);
    assert(alpha_end(s, 13) == 15);
    assert(alpha_end(s, 12) == 15);
    assert(alpha_end(s, 11) == 15);
    let t9 = s.subrange(11, 15);
    assert(t9.len() == 4 && t9[0] == 'c' && t9[1] == 'd' && t9[2] == 'o' && t9[3] == 't');
    assert(t9 =~= "cdot"@);
    lemma_latex_symbol_cdot(t9);
    assert(has_no_backslash(plain_from(s, 10)));
    assert(s[9] == ' ');
    assert(has_no_backslash(plain_from(s, 9)));
    assert(s[5] == '_');
    assert(s[6] == '{');
    assert(group_close(s, 8, 1) == 8);
    assert(group_close(s, 7, 1) == 8);
    let t10 = s.subrange(7, 8);
    assert(t10.len() == 1);
    assert(plain_from(t10, 1).len() == 0);
    assert(t10[0] == '1');
    assert(has_no_backslash(plain_from(t10, 0)));
    assert(has_no_backslash(plain_from(s, 5)));
    assert(s[4] == 'a');
    assert(has_no_backslash(plain_from(s, 4)));
    assert(s[3] == ' ');
    assert(has_no_backslash(plain_from(s, 3)));
    assert(s[2] == '=');
    assert(has_no_backslash(plain_from(s, 2)));
    assert(s[1] == ' ');
    assert(has_no_backslash(plain_from(s, 1)));
    assert(s[0] == 'y');
    assert(has_no_backslash(plain_from(s, 0)));
}

#[verifier::rlimit(100)]
#[verifier::spinoff_prover]
proof fn lemma_damped_sinusoid_plain_text_is_clean()
    ensures
        has_no_backslash(spec_latex_to_plain_text("y = A \\cdot \\exp(-k \\cdot x) \\cdot \\sin(\\omega \\cdot x + \\phi) + c"@)),
{
    reveal_strlit("y = A \\cdot \\exp(-k \\cdot x) \\cdot \\sin(\\omega \\cdot x + \\phi) + c");
    reveal_strlit("begin");
    reveal_strlit("cdot");
    reveal_strlit("end");
    reveal_strlit("exp");
    reveal_strlit("frac");
    reveal_strlit("omega");
    reveal_strlit("phi");
    reveal_strlit("quad");
    reveal_strlit("sin");
    reveal_strlit("sqrt");
    reveal_strlit("text");
    let s = "y = A \\cdot \\exp(-k \\cdot x) \\cdot \\sin(\\omega \\cdot x + \\phi) + c"@;
    assert(s.len() == 66);
    assert(plain_from(s, 66).len() == 0);
    assert(s[65] == 'c');
    assert(has_no_backslash(plain_from(s, 65)));
    assert(s[64] == ' ');
    assert(has_no_backslash(plain_from(s, 64)));
    assert(s[63] == '+');
    assert(has_no_backslash(plain_from(s, 63)));
    assert(s[62] == ' ');
    assert(has_no_backslash(plain_from(s, 62)));
    assert(s[61] == ')');
    assert(has_no_backslash(plain_from(s, 61)));
    assert(s[57] == '\\');
    assert(alpha_end(s, 61) == 61);
    assert(alpha_end(s, 60) == 61);
    assert(alpha_end(s, 59) == 61);
    assert(alpha_end(s, 58) == 61);
    let t1 = s.subrange(58, 61);
    assert(t1.len() == 3 && t1[0] == 'p' && t1[1] == 'h' && t1[2] == 'i');
    assert(t1 =~= "phi"@);
    lemma_latex_symbol_phi(t1);
    assert(has_no_backslash(plain_from(s, 57)));
    assert(s[56] == ' ');
    assert(has_no_backslash(plain_from(s, 56)));
    assert(s[55] == '+');
    assert(has_no_backslash(plain_from(s, 55)));
    assert(s[54] == ' ');
    assert(has_no_backslash(plain_from(s, 54)));
    assert(s[53] == 'x');
    assert(has_no_backslash(plain_from(s, 53)));
    assert(s[52] == ' ');
    assert(has_no_backslash(plain_from(s, 52)));
    assert(s[47] == '\\');
    assert(alpha_end(s, 52) == 52);
    assert(alpha_end(s, 51) == 52);
    assert(alpha_end(s, 50) == 52);
    assert(alpha_end(s, 49) == 52);
    assert(alpha_end(s, 48) == 52);
    let t2 = s.subrange(48, 52);
    assert(t2.len() == 4 && t2[0] == 'c' && t2[1] == 'd' && t2[2] == 'o' && t2[3] == 't');
    assert(t2 =~= "cdot"@);
    lemma_latex_symbol_cdot(t2);
    assert(has_no_backslash(plain_from(s, 47)));
    assert(s[46] == ' ');
    assert(has_no_backslash(plain_from(s, 46)));
    assert(s[40] == '\\');
    assert(alpha_end(s, 46) == 46);
    assert(alpha_end(s, 45) == 46);
    assert(alpha_end(s, 44) == 46);
    assert(alpha_end(s, 43) == 46);
    assert(alpha_end(s, 42) == 46);
    assert(alpha_end(s, 41) == 46);
    let t3 = s.subrange(41, 46);
    assert(t3.len() == 5 && t3[0] == 'o' && t3[1] == 'm' && t3[2] == 'e' && t3[3] == 'g' && t3[4] == 'a');
    assert(t3 =~= "omega"@);
    lemma_latex_symbol_omega(t3);
    assert(has_no_backslash(plain_from(s, 40)));
    assert(s[39] == '(');
    assert(has_no_backslash(plain_from(s, 39)));
    assert(s[35] == '\\');
    assert(alpha_end(s, 39) == 39);
    assert(alpha_end(s, 38) == 39);
    assert(alpha_end(s, 37) == 39);
    assert(alpha_end(s, 36) == 39);
    let t4 = s.subrange(36, 39);
    assert(t4.len() == 3 && t4[0] == 's' && t4[1] == 'i' && t4[2] == 'n');
    assert(t4 =~= "sin"@);
    lemma_latex_symbol_sin(t4);
    assert(has_no_backslash(plain_from(s, 35)));
    assert(s[34] == ' ');
    assert(has_no_backslash(plain_from(s, 34)));
    assert(s[29] == '\\');
    assert(alpha_end(s, 34) == 34);
    assert(alpha_end(s, 33) == 34);
    assert(alpha_end(s, 32) == 34);
    assert(alpha_end(s, 31) == 34);
    assert(alpha_end(s, 30) == 34);
    let t5 = s.subrange(30, 34);
    assert(t5.len() == 4 && t5[0] == 'c' && t5[1] == 'd' && t5[2] == 'o' && t5[3] == 't');
    assert(t5 =~= "cdot"@);
    lemma_latex_symbol_cdot(t5);
    assert(has_no_backslash(plain_from(s, 29)));
    assert(s[28] == ' ');
    assert(has_no_backslash(plain_from(s, 28)));
    assert(s[27] == ')');
    assert(has_no_backslash(plain_from(s, 27)));
    assert(s[26] == 'x');
    assert(has_no_backslash(plain_from(s, 26)));
    assert(s[25] == ' ');
    assert(has_no_backslash(plain_from(s, 25)));
    assert(s[20] == '\\');
    assert(alpha_end(s, 25) == 25);
    assert(alpha_end(s, 24) == 25);
    assert(alpha_end(s, 23) == 25);
    assert(alpha_end(s, 22) == 25);
    assert(alpha_end(s, 21) == 25);
    let t6 = s.subrange(21, 25);
    assert(t6.len() == 4 && t6[0] == 'c' && t6[1] == 'd' && t6[2] == 'o' && t6[3] == 't');
    assert(t6 =~= "cdot"@);
    lemma_latex_symbol_cdot(t6);
    assert(has_no_backslash(plain_from(s, 20)));
    assert(s[19] == ' ');
    assert(has_no_backslash(plain_from(s, 19)));
    assert(s[18] == 'k');
    assert(has_no_backslash(plain_from(s, 18)));
    assert(s[17] == '-');
    assert(has_no_backslash(plain_from(s, 17)));
    assert(s[16] == '(');
    assert(has_no_backslash(plain_from(s, 16)));
    assert(s[12] == '\\');
    assert(alpha_end(s, 16) == 16);
    assert(alpha_end(s, 15) == 16);
    assert(alpha_end(s, 14) == 16);
    assert(alpha_end(s, 13) == 16);
    let t7 = s.subrange(13, 16);
    assert(t7.len() == 3 && t7[0] == 'e' && t7[1] == 'x' && t7[2] == 'p');
    assert(t7 =~= "exp"@);
    lemma_latex_symbol_exp(t7);
    assert(has_no_backslash(plain_from(s, 12)));
    assert(s[11] == ' ');
    assert(has_no_backslash(plain_from(s, 11)));
    assert(s[6] == '\\');
    assert(alpha_end(s, 11) == 11);
    assert(alpha_end(s, 10) == 11);
    assert(alpha_end(s, 9) == 11);
    assert(alpha_end(s, 8) == 11);
    assert(alpha_end(s, 7) == 11);
    let t8 = s.subrange(7, 11);
    assert(t8.len() == 4 && t8[0] == 'c' && t8[1] == 'd' && t8[2] == 'o' && t8[3] == 't');
    assert(t8 =~= "cdot"@);
    lemma_latex_symbol_cdot(t8);
    assert(has_no_backslash(plain_from(s, 6)));
    assert(s[5] == ' ');
    assert(has_no_backslash(plain_from(s, 5)));
    assert(s[4] == 'A');
    assert(has_no_backslash(plain_from(s, 4)));
    assert(s[3] == ' ');
    assert(has_no_backslash(plain_from(s, 3)));
    assert(s[2] == '=');
    assert(has_no_backslash(plain_from(s, 2)));
    assert(s[1] == ' ');
    assert(has_no_backslash(plain_from(s, 1)));
    assert(s[0] == 'y');
    assert(has_no_backslash(plain_from(s, 0)));
}

#[verifier::rlimit(100)]
#[verifier::spinoff_prover]
proof fn lemma_lorentzian_plain_text_is_clean()
    ensures
        has_no_backslash(spec_latex_to_plain_text("y = C + \\frac{A}{1 + (\\frac{x - x_0}{\\gamma})^{2}}"@)),
{
    reveal_strlit("y = C + \\frac{A}{1 + (\\frac{x - x_0}{\\gamma})^{2}}");
    reveal_strlit("begin");
    reveal_strlit("end");
    reveal_strlit("frac");
    reveal_strlit("gamma");
    reveal_strlit("quad");
    reveal_strlit("sqrt");
    reveal_strlit("text");
    let s = "y = C + \\frac{A}{1 + (\\frac{x - x_0}{\\gamma})^{2}}"@;
    assert(s.len() == 50);
    assert(plain_from(s, 50).len() == 0);
    assert(s[8] == '\\');
    assert(alpha_end(s, 13) == 13);
    assert(alpha_end(s, 12) == 13);
    assert(alpha_end(s, 11) == 13);
    assert(alpha_end(s, 10) == 13);
    assert(alpha_end(s, 9) == 13);
    let t1 = s.subrange(9, 13);
    assert(t1.len() == 4 && t1[0] == 'f' && t1[1] == 'r' && t1[2] == 'a' && t1[3] == 'c');
    assert(t1 =~= "frac"@);
    assert(s[13] == '{');
    assert(group_close(s, 15, 1) == 15);
    assert(group_close(s, 14, 1) == 15);
    let t2 = s.subrange(14, 15);
    assert(t2.len() == 1);
    assert(plain_from(t2, 1).len() == 0);
    assert(t2[0] == 'A');
    assert(has_no_backslash(plain_from(t2, 0)));
    assert(s[16] == '{');
    assert(group_close(s, 49, 1) == 49);
    assert(group_close(s, 48, 2) == 49);
    assert(group_close(s, 47, 2) == 49);
    assert(group_close(s, 46, 1) == 49);
    assert(group_close(s, 45, 1) == 49);
    assert(group_close(s, 44, 1) == 49);
    assert(group_close(s, 43, 2) == 49);
    assert(group_close(s, 42, 2) == 49);
    assert(group_close(s, 41, 2) == 49);
    assert(group_close(s, 40, 2) == 49);
    assert(group_close(s, 39, 2) == 49);
    assert(group_close(s, 38, 2) == 49);
    assert(group_close(s, 37, 2) == 49);
    assert(group_close(s, 36, 1) == 49);
    assert(group_close(s, 35, 2) == 49);
    assert(group_close(s, 34, 2) == 49);
    assert(group_close(s, 33, 2) == 49);
    assert(group_close(s, 32, 2) == 49);
    assert(group_close(s, 31, 2) == 49);
    assert(group_close(s, 30, 2) == 49);
    assert(group_close(s, 29, 2) == 49);
    assert(group_close(s, 28, 2) == 49);
    assert(group_close(s, 27, 1) == 49);
    assert(group_close(s, 26, 1) == 49);
    assert(group_close(s, 25, 1) == 49);
    assert(group_close(s, 24, 1) == 49);
    assert(group_close(s, 23, 1) == 49);
    assert(group_close(s, 22, 1) == 49);
    assert(group_close(s, 21, 1) == 49);
    assert(group_close(s, 20, 1) == 49);
    assert(group_close(s, 19, 1) == 49);
    assert(group_close(s, 18, 1) == 49);
    assert(group_close(s, 17, 1) == 49);
    let t3 = s.subrange(17, 49);
    assert(t3.len() == 32);
    assert(plain_from(t3, 32).len() == 0);
    assert(t3[28] == '^');
    assert(t3[29] == '{');
    assert(group_close(t3, 31, 1) == 31);
    assert(group_close(t3, 30, 1) == 31);
    let t4 = t3.subrange(30, 31);
    assert(t4.len() == 1);
    assert(plain_from(t4, 1).len() == 0);
    assert(t4[0] == '2');
    assert(has_no_backslash(plain_from(t4, 0)));
    assert(has_no_backslash(plain_from(t3, 28)));
    assert(t3[27] == ')');
    assert(has_no_backslash(plain_from(t3, 27)));
    assert(t3[5] == '\\');
    assert(alpha_end(t3, 10) == 10);
    assert(alpha_end(t3, 9) == 10);
    assert(alpha_end(t3, 8) == 10);
    assert(alpha_end(t3, 7) == 10);
    assert(alpha_end(t3, 6) == 10);
    let t5 = t3.subrange(6, 10);
    assert(t5.len() == 4 && t5[0] == 'f' && t5[1] == 'r' && t5[2] == 'a' && t5[3] == 'c');
    assert(t5 =~= "frac"@);
    assert(t3[10] == '{');
    assert(group_close(t3, 18, 1) == 18);
    assert(group_close(t3, 17, 1) == 18);
    assert(group_close(t3, 16, 1) == 18);
    assert(group_close(t3, 15, 1) == 18);
    assert(group_close(t3, 14, 1) == 18);
    assert(group_close(t3, 13, 1) == 18);
    assert(group_close(t3, 12, 1) == 18);
    assert(group_close(t3, 11, 1) == 18);
    let t6 = t3.subrange(11, 18);
    assert(t6.len() == 7);
    assert(plain_from(t6, 7).len() == 0);
    assert(t6[6] == '0');
    assert(has_no_backslash(plain_from(t6, 6)));
    assert(t6[5] == '_');
    assert(has_no_backslash(plain_from(t6, 5)));
    assert(t6[4] == 'x');
    assert(has_no_backslash(plain_from(t6, 4)));
    assert(t6[3] == ' ');
    assert(has_no_backslash(plain_from(t6, 3)));
    assert(t6[2] == '-');
    assert(has_no_backslash(plain_from(t6, 2)));
    assert(t6[1] == ' ');
    assert(has_no_backslash(plain_from(t6, 1)));
    assert(t6[0] == 'x');
    assert(has_no_backslash(plain_from(t6, 0)));
    assert(t3[19] == '{');
    assert(group_close(t3, 26, 1) == 26);
    assert(group_close(t3, 25, 1) == 26);
    assert(group_close(t3, 24, 1) == 26);
    assert(group_close(t3, 23, 1) == 26);
    assert(group_close(t3, 22, 1) == 26);
    assert(group_close(t3, 21, 1) == 26);
    assert(group_close(t3, 20, 1) == 26);
    let t7 = t3.subrange(20, 26);
    assert(t7.len() == 6);
    assert(plain_from(t7, 6).len() == 0);
    assert(t7[0] == '\\');
    assert(alpha_end(t7, 6) == 6);
    assert(alpha_end(t7, 5) == 6);
    assert(alpha_end(t7, 4) == 6);
    assert(alpha_end(t7, 3) == 6);
    assert(alpha_end(t7, 2) == 6);
    assert(alpha_end(t7, 1) == 6);
    let t8 = t7.subrange(1, 6);
    assert(t8.len() == 5 && t8[0] == 'g' && t8[1] == 'a' && t8[2] == 'm' && t8[3] == 'm' && t8[4] == 'a');
    assert(t8 =~= "gamma"@);
    lemma_latex_symbol_gamma(t8);
    assert(has_no_backslash(plain_from(t7, 0)));
    assert(has_no_backslash(plain_from(t3, 5)));
    assert(t3[4] == '(');
    assert(has_no_backslash(plain_from(t3, 4)));
    assert(t3[3] == ' ');
    assert(has_no_backslash(plain_from(t3, 3)));
    assert(t3[2] == '+');
    assert(has_no_backslash(plain_from(t3, 2)));
    assert(t3[1] == ' ');
    assert(has_no_backslash(plain_from(t3, 1)));
    assert(t3[0] == '1');
    assert(has_no_backslash(plain_from(t3, 0)));
    assert(has_no_backslash(plain_from(s, 8)));
    assert(s[7] == ' ');
    assert(has_no_backslash(plain_from(s, 7)));
    assert(s[6] == '+');
    assert(has_no_backslash(plain_from(s, 6)));
    assert(s[5] == ' ');
    assert(has_no_backslash(plain_from(s, 5)));
    assert(s[4] == 'C');
    assert(has_no_backslash(plain_from(s, 4)));
    assert(s[3] == ' ');
    assert(has_no_backslash(plain_from(s, 3)));
    assert(s[2] == '=');
    assert(has_no_backslash(plain_from(s, 2)));
    assert(s[1] == ' ');
    assert(has_no_backslash(plain_from(s, 1)));
    assert(s[0] == 'y');
    assert(has_no_backslash(plain_from(s, 0)));
}

#[verifier::rlimit(100)]
#[verifier::spinoff_prover]
proof fn lemma_natural_log_plain_text_is_clean()
    ensures
        has_no_backslash(spec_latex_to_plain_text("y = A \\cdot \\ln(\\frac{x}{B})"@)),
{
    reveal_strlit("y = A \\cdot \\ln(\\frac{x}{B})");
    reveal_strlit("begin");
    reveal_strlit("cdot");
    reveal_strlit("end");
    reveal_strlit("frac");
    reveal_strlit("ln");
    reveal_strlit("quad");
    reveal_strlit("sqrt");
    reveal_strlit("text");
    let s = "y = A \\cdot \\ln(\\frac{x}{B})"@;
    assert(s.len() == 28);
    assert(plain_from(s, 28).len() == 0);
    assert(s[27] == ')');
    assert(has_no_backslash(plain_from(s, 27)));
    assert(s[16] == '\\');
    assert(alpha_end(s, 21) == 21);
    assert(alpha_end(s, 20) == 21);
    assert(alpha_end(s, 19) == 21);
    assert(alpha_end(s, 18) == 21);
    assert(alpha_end(s, 17) == 21);
    let t1 = s.subrange(17, 21);
    assert(t1.len() == 4 && t1[0] == 'f' && t1[1] == 'r' && t1[2] == 'a' && t1[3] == 'c');
    assert(t1 =~= "frac"@);
    assert(s[21] == '{');
    assert(group_close(s, 23, 1) == 23);
    assert(group_close(s, 22, 1) == 23);
    let t2 = s.subrange(22, 23);
    assert(t2.len() == 1);
    assert(plain_from(t2, 1).len() == 0);
    assert(t2[0] == 'x');
    assert(has_no_backslash(plain_from(t2, 0)));
    assert(s[24] == '{');
    assert(group_close(s, 26, 1) == 26);
    assert(group_close(s, 25, 1) == 26);
    let t3 = s.subrange(25, 26);
    assert(t3.len() == 1);
    assert(plain_from(t3, 1).len() == 0);
    assert(t3[0] == 'B');
    assert(has_no_backslash(plain_from(t3, 0)));
    assert(has_no_backslash(plain_from(s, 16)));
    assert(s[15] == '(');
    assert(has_no_backslash(plain_from(s, 15)));
    assert(s[12] == '\\');
    assert(alpha_end(s, 15) == 15);
    assert(alpha_end(s, 14) == 15);
    assert(alpha_end(s, 13) == 15);
    let t4 = s.subrange(13, 15);
    assert(t4.len() == 2 && t4[0] == 'l' && t4[1] == 'n');
    assert(t4 =~= "ln"@);
    lemma_latex_symbol_ln(t4);
    assert(has_no_backslash(plain_from(s, 12)));
    assert(s[11] == ' ');
    assert(has_no_backslash(plain_from(s, 11)));
    assert(s[6] == '\\');
    assert(alpha_end(s, 11) == 11);
    assert(alpha_end(s, 10) == 11);
    assert(alpha_end(s, 9) == 11);
    assert(alpha_end(s, 8) == 11);
    assert(alpha_end(s, 7) == 11);
    let t5 = s.subrange(7, 11);
    assert(t5.len() == 4 && t5[0] == 'c' && t5[1] == 'd' && t5[2] == 'o' && t5[3] == 't');
    assert(t5 =~= "cdot"@);
    lemma_latex_symbol_cdot(t5);
    assert(has_no_backslash(plain_from(s, 6)));
    assert(s[5] == ' ');
    assert(has_no_backslash(plain_from(s, 5)));
    assert(s[4] == 'A');
    assert(has_no_backslash(plain_from(s, 4)));
    assert(s[3] == ' ');
    assert(has_no_backslash(plain_from(s, 3)));
    assert(s[2] == '=');
    assert(has_no_backslash(plain_from(s, 2)));
    assert(s[1] == ' ');
    assert(has_no_backslash(plain_from(s, 1)));
    assert(s[0] == 'y');
    assert(has_no_backslash(plain_from(s, 0)));
}

#[verifier::rlimit(100)]
#[verifier::spinoff_prover]
proof fn lemma_four_pl_plain_text_is_clean()
    ensures
        has_no_backslash(spec_latex_to_plain_text("y = d + \\frac{a - d}{1 + (\\frac{x}{c})^{b}}"@)),
{
    reveal_strlit("y = d + \\frac{a - d}{1 + (\\frac{x}{c})^{b}}");
    reveal_strlit("begin");
    reveal_strlit("end");
    reveal_strlit("frac");
    reveal_strlit("quad");
    reveal_strlit("sqrt");
    reveal_strlit("text");
    let s = "y = d + \\frac{a - d}{1 + (\\frac{x}{c})^{b}}"@;
    assert(s.len() == 43);
    assert(plain_from(s, 43).len() == 0);
    assert(s[8] == '\\');
    assert(alpha_end(s, 13) == 13);
    assert(alpha_end(s, 12) == 13);
    assert(alpha_end(s, 11) == 13);
    assert(alpha_end(s, 10) == 13);
    assert(alpha_end(s, 9) == 13);
    let t1 = s.subrange(9, 13);
    assert(t1.len() == 4 && t1[0] == 'f' && t1[1] == 'r' && t1[2] == 'a' && t1[3] == 'c');
    assert(t1 =~= "frac"@);
    assert(s[13] == '{');
    assert(group_close(s, 19, 1) == 19);
    assert(group_close(s, 18, 1) == 19);
    assert(group_close(s, 17, 1) == 19);
    assert(group_close(s, 16, 1) == 19);
    assert(group_close(s, 15, 1) == 19);
    assert(group_close(s, 14, 1) == 19);
    let t2 = s.subrange(14, 19);
    assert(t2.len() == 5);
    assert(plain_from(t2, 5).len() == 0);
    assert(t2[4] == 'd');
    assert(has_no_backslash(plain_from(t2, 4)));
    assert(t2[3] == ' ');
    assert(has_no_backslash(plain_from(t2, 3)));
    assert(t2[2] == '-');
    assert(has_no_backslash(plain_from(t2, 2)));
    assert(t2[1] == ' ');
    assert(has_no_backslash(plain_from(t2, 1)));
    assert(t2[0] == 'a');
    assert(has_no_backslash(plain_from(t2, 0)));
    assert(s[20] == '{');
    assert(group_close(s, 42, 1) == 42);
    assert(group_close(s, 41, 2) == 42);
    assert(group_close(s, 40, 2) == 42);
    assert(group_close(s, 39, 1) == 42);
    assert(group_close(s, 38, 1) == 42);
    assert(group_close(s, 37, 1) == 42);
    assert(group_close(s, 36, 2) == 42);
    assert(group_close(s, 35, 2) == 42);
    assert(group_close(s, 34, 1) == 42);
    assert(group_close(s, 33, 2) == 42);
    assert(group_close(s, 32, 2) == 42);
    assert(group_close(s, 31, 1) == 42);
    assert(group_close(s, 30, 1) == 42);
    assert(group_close(s, 29, 1) == 42);
    assert(group_close(s, 28, 1) == 42);
    assert(group_close(s, 27, 1) == 42);
    assert(group_close(s, 26, 1) == 42);
    assert(group_close(s, 25, 1) == 42);
    assert(group_close(s, 24, 1) == 42);
    assert(group_close(s, 23, 1) == 42);
    assert(group_close(s, 22, 1) == 42);
    assert(group_close(s, 21, 1) == 42);
    let t3 = s.subrange(21, 42);
    assert(t3.len() == 21);
    assert(plain_from(t3, 21).len() == 0);
    assert(t3[17] == '^');
    assert(t3[18] == '{');
    assert(group_close(t3, 20, 1) == 20);
    assert(group_close(t3, 19, 1) == 20);
    let t4 = t3.subrange(19, 20);
    assert(t4.len() == 1);
    assert(plain_from(t4, 1).len() == 0);
    assert(t4[0] == 'b');
    assert(has_no_backslash(plain_from(t4, 0)));
    assert(has_no_backslash(plain_from(t3, 17)));
    assert(t3[16] == ')');
    assert(has_no_backslash(plain_from(t3, 16)));
    assert(t3[5] == '\\');
    assert(alpha_end(t3, 10) == 10);
    assert(alpha_end(t3, 9) == 10);
    assert(alpha_end(t3, 8) == 10);
    assert(alpha_end(t3, 7) == 10);
    assert(alpha_end(t3, 6) == 10);
    let t5 = t3.subrange(6, 10);
    assert(t5.len() == 4 && t5[0] == 'f' && t5[1] == 'r' && t5[2] == 'a' && t5[3] == 'c');
    assert(t5 =~= "frac"@);
    assert(t3[10] == '{');
    assert(group_close(t3, 12, 1) == 12);
    assert(group_close(t3, 11, 1) == 12);
    let t6 = t3.subrange(11, 12);
    assert(t6.len() == 1);
    assert(plain_from(t6, 1).len() == 0);
    assert(t6[0] == 'x');
    assert(has_no_backslash(plain_from(t6, 0)));
    assert(t3[13] == '{');
    assert(group_close(t3, 15, 1) == 15);
    assert(group_close(t3, 14, 1) == 15);
    let t7 = t3.subrange(14, 15);
    assert(t7.len() == 1);
    assert(plain_from(t7, 1).len() == 0);
    assert(t7[0] == 'c');
    assert(has_no_backslash(plain_from(t7, 0)));
    assert(has_no_backslash(plain_from(t3, 5)));
    assert(t3[4] == '(');
    assert(has_no_backslash(plain_from(t3, 4)));
    assert(t3[3] == ' ');
    assert(has_no_backslash(plain_from(t3, 3)));
    assert(t3[2] == '+');
    assert(has_no_backslash(plain_from(t3, 2)));
    assert(t3[1] == ' ');
    assert(has_no_backslash(plain_from(t3, 1)));
    assert(t3[0] == '1');
    assert(has_no_backslash(plain_from(t3, 0)));
    assert(has_no_backslash(plain_from(s, 8)));
    assert(s[7] == ' ');
    assert(has_no_backslash(plain_from(s, 7)));
    assert(s[6] == '+');
    assert(has_no_backslash(plain_from(s, 6)));
    assert(s[5] == ' ');
    assert(has_no_backslash(plain_from(s, 5)));
    assert(s[4] == 'd');
    assert(has_no_backslash(plain_from(s, 4)));
    assert(s[3] == ' ');
    assert(has_no_backslash(plain_from(s, 3)));
    assert(s[2] == '=');
    assert(has_no_backslash(plain_from(s, 2)));
    assert(s[1] == ' ');
    assert(has_no_backslash(plain_from(s, 1)));
    assert(s[0] == 'y');
    assert(has_no_backslash(plain_from(s, 0)));
}

#[verifier::rlimit(100)]
#[verifier::spinoff_prover]
proof fn lemma_five_pl_plain_text_is_clean()
    ensures
        has_no_backslash(spec_latex_to_plain_text("y = d + \\frac{a - d}{(1 + (\\frac{x}{c})^{b})^{m}}"@)),
{
    reveal_strlit("y = d + \\frac{a - d}{(1 + (\\frac{x}{c})^{b})^{m}}");
    reveal_strlit("begin");
    reveal_strlit("end");
    reveal_strlit("frac");
    reveal_strlit("quad");
    reveal_strlit("sqrt");
    reveal_strlit("text");
    let s = "y = d + \\frac{a - d}{(1 + (\\frac{x}{c})^{b})^{m}}"@;
    assert(s.len() == 49);
    assert(plain_from(s, 49).len() == 0);
    assert(s[8] == '\\');
    assert(alpha_end(s, 13) == 13);
    assert(alpha_end(s, 12) == 13);
    assert(alpha_end(s, 11) == 13);
    assert(alpha_end(s, 10) == 13);
    assert(alpha_end(s, 9) == 13);
    let t1 = s.subrange(9, 13);
    assert(t1.len() == 4 && t1[0] == 'f' && t1[1] == 'r' && t1[2] == 'a' && t1[3] == 'c');
    assert(t1 =~= "frac"@);
    assert(s[13] == '{');
    assert(group_close(s, 19, 1) == 19);
    assert(group_close(s, 18, 1) == 19);
    assert(group_close(s, 17, 1) == 19);
    assert(group_close(s, 16, 1) == 19);
    assert(group_close(s, 15, 1) == 19);
    assert(group_close(s, 14, 1) == 19);
    let t2 = s.subrange(14, 19);
    assert(t2.len() == 5);
    assert(plain_from(t2, 5).len() == 0);
    assert(t2[4] == 'd');
    assert(has_no_backslash(plain_from(t2, 4)));
    assert(t2[3] == ' ');
    assert(has_no_backslash(plain_from(t2, 3)));
    assert(t2[2] == '-');
    assert(has_no_backslash(plain_from(t2, 2)));
    assert(t2[1] == ' ');
    assert(has_no_backslash(plain_from(t2, 1)));
    assert(t2[0] == 'a');
    assert(has_no_backslash(plain_from(t2, 0)));
    assert(s[20] == '{');
    assert(group_close(s, 48, 1) == 48);
    assert(group_close(s, 47, 2) == 48);
    assert(group_close(s, 46, 2) == 48);
    assert(group_close(s, 45, 1) == 48);
    assert(group_close(s, 44, 1) == 48);
    assert(group_close(s, 43, 1) == 48);
    assert(group_close(s, 42, 2) == 48);
    assert(group_close(s, 41, 2) == 48);
    assert(group_close(s, 40, 1) == 48);
    assert(group_close(s, 39, 1) == 48);
    assert(group_close(s, 38, 1) == 48);
    assert(group_close(s, 37, 2) == 48);
    assert(group_close(s, 36, 2) == 48);
    assert(group_close(s, 35, 1) == 48);
    assert(group_close(s, 34, 2) == 48);
    assert(group_close(s, 33, 2) == 48);
    assert(group_close(s, 32, 1) == 48);
    assert(group_close(s, 31, 1) == 48);
    assert(group_close(s, 30, 1) == 48);
    assert(group_close(s, 29, 1) == 48);
    assert(group_close(s, 28, 1) == 48);
    assert(group_close(s, 27, 1) == 48);
    assert(group_close(s, 26, 1) == 48);
    assert(group_close(s, 25, 1) == 48);
    assert(group_close(s, 24, 1) == 48);
    assert(group_close(s, 23, 1) == 48);
    assert(group_close(s, 22, 1) == 48);
    assert(group_close(s, 21, 1) == 48);
    let t3 = s.subrange(21, 48);
    assert(t3.len() == 27);
    assert(plain_from(t3, 27).len() == 0);
    assert(t3[23] == '^');
    assert(t3[24] == '{');
    assert(group_close(t3, 26, 1) == 26);
    assert(group_close(t3, 25, 1) == 26);
    let t4 = t3.subrange(25, 26);
    assert(t4.len() == 1);
    assert(plain_from(t4, 1).len() == 0);
    assert(t4[0] == 'm');
    assert(has_no_backslash(plain_from(t4, 0)));
    assert(has_no_backslash(plain_from(t3, 23)));
    assert(t3[22] == ')');
    assert(has_no_backslash(plain_from(t3, 22)));
    assert(t3[18] == '^');
    assert(t3[19] == '{');
    assert(group_close(t3, 21, 1) == 21);
    assert(group_close(t3, 20, 1) == 21);
    let t5 = t3.subrange(20, 21);
    assert(t5.len() == 1);
    assert(plain_from(t5, 1).len() == 0);
    assert(t5[0] == 'b');
    assert(has_no_backslash(plain_from(t5, 0)));
    assert(has_no_backslash(plain_from(t3, 18)));
    assert(t3[17] == ')');
    assert(has_no_backslash(plain_from(t3, 17)));
    assert(t3[6] == '\\');
    assert(alpha_end(t3, 11) == 11);
    assert(alpha_end(t3, 10) == 11);
    assert(alpha_end(t3, 9) == 11);
    assert(alpha_end(t3, 8) == 11);
    assert(alpha_end(t3, 7) == 11);
    let t6 = t3.subrange(7, 11);
    assert(t6.len() == 4 && t6[0] == 'f' && t6[1] == 'r' && t6[2] == 'a' && t6[3] == 'c');
    assert(t6 =~= "frac"@);
    assert(t3[11] == '{');
    assert(group_close(t3, 13, 1) == 13);
    assert(group_close(t3, 12, 1) == 13);
    let t7 = t3.subrange(12, 13);
    assert(t7.len() == 1);
    assert(plain_from(t7, 1).len() == 0);
    assert(t7[0] == 'x');
    assert(has_no_backslash(plain_from(t7, 0)));
    assert(t3[14] == '{');
    assert(group_close(t3, 16, 1) == 16);
    assert(group_close(t3, 15, 1) == 16);
    let t8 = t3.subrange(15, 16);
    assert(t8.len() == 1);
    assert(plain_from(t8, 1).len() == 0);
    assert(t8[0] == 'c');
    assert(has_no_backslash(plain_from(t8, 0)));
    assert(has_no_backslash(plain_from(t3, 6)));
    assert(t3[5] == '(');
    assert(has_no_backslash(plain_from(t3, 5)));
    assert(t3[4] == ' ');
    assert(has_no_backslash(plain_from(t3, 4)));
    assert(t3[3] == '+');
    assert(has_no_backslash(plain_from(t3, 3)));
    assert(t3[2] == ' ');
    assert(has_no_backslash(plain_from(t3, 2)));
    assert(t3[1] == '1');
    assert(has_no_backslash(plain_from(t3, 1)));
    assert(t3[0] == '(');
    assert(has_no_backslash(plain_from(t3, 0)));
    assert(has_no_backslash(plain_from(s, 8)));
    assert(s[7] == ' ');
    assert(has_no_backslash(plain_from(s, 7)));
    assert(s[6] == '+');
    assert(has_no_backslash(plain_from(s, 6)));
    assert(s[5] == ' ');
    assert(has_no_backslash(plain_from(s, 5)));
    assert(s[4] == 'd');
    assert(has_no_backslash(plain_from(s, 4)));
    assert(s[3] == ' ');
    assert(has_no_backslash(plain_from(s, 3)));
    assert(s[2] == '=');
    assert(has_no_backslash(plain_from(s, 2)));
    assert(s[1] == ' ');
    assert(has_no_backslash(plain_from(s, 1)));
    assert(s[0] == 'y');
    assert(has_no_backslash(plain_from(s, 0)));
}

#[verifier::rlimit(100)]
#[verifier::spinoff_prover]
proof fn lemma_michaelis_menten_plain_text_is_clean()
    ensures
        has_no_backslash(spec_latex_to_plain_text("y = \\frac{V_{\\text{max}} \\cdot x}{K_{m} + x}"@)),
{
    reveal_strlit("y = \\frac{V_{\\text{max}} \\cdot x}{K_{m} + x}");
    reveal_strlit("begin");
    reveal_strlit("cdot");
    reveal_strlit("end");
    reveal_strlit("frac");
    reveal_strlit("quad");
    reveal_strlit("sqrt");
    reveal_strlit("text");
    let s = "y = \\frac{V_{\\text{max}} \\cdot x}{K_{m} + x}"@;
    assert(s.len() == 44);
    assert(plain_from(s, 44).len() == 0);
    assert(s[4] == '\\');
    assert(alpha_end(s, 9) == 9);
    assert(alpha_end(s, 8) == 9);
    assert(alpha_end(s, 7) == 9);
    assert(alpha_end(s, 6) == 9);
    assert(alpha_end(s, 5) == 9);
    let t1 = s.subrange(5, 9);
    assert(t1.len() == 4 && t1[0] == 'f' && t1[1] == 'r' && t1[2] == 'a' && t1[3] == 'c');
    assert(t1 =~= "frac"@);
    assert(s[9] == '{');
    assert(group_close(s, 32, 1) == 32);
    assert(group_close(s, 31, 1) == 32);
    assert(group_close(s, 30, 1) == 32);
    assert(group_close(s, 29, 1) == 32);
    assert(group_close(s, 28, 1) == 32);
    assert(group_close(s, 27, 1) == 32);
    assert(group_close(s, 26, 1) == 32);
    assert(group_close(s, 25, 1) == 32);
    assert(group_close(s, 24, 1) == 32);
    assert(group_close(s, 23, 2) == 32);
    assert(group_close(s, 22, 3) == 32);
    assert(group_close(s, 21, 3) == 32);
    assert(group_close(s, 20, 3) == 32);
    assert(group_close(s, 19, 3) == 32);
    assert(group_close(s, 18, 2) == 32);
    assert(group_close(s, 17, 2) == 32);
    assert(group_close(s, 16, 2) == 32);
    assert(group_close(s, 15, 2) == 32);
    assert(group_close(s, 14, 2) == 32);
    assert(group_close(s, 13, 2) == 32);
    assert(group_close(s, 12, 1) == 32);
    assert(group_close(s, 11, 1) == 32);
    assert(group_close(s, 10, 1) == 32);
    let t2 = s.subrange(10, 32);
    assert(t2.len() == 22);
    assert(plain_from(t2, 22).len() == 0);
    assert(t2[21] == 'x');
    assert(has_no_backslash(plain_from(t2, 21)));
    assert(t2[20] == ' ');
    assert(has_no_backslash(plain_from(t2, 20)));
    assert(t2[15] == '\\');
    assert(alpha_end(t2, 20) == 20);
    assert(alpha_end(t2, 19) == 20);
    assert(alpha_end(t2, 18) == 20);
    assert(alpha_end(t2, 17) == 20);
    assert(alpha_end(t2, 16) == 20);
    let t3 = t2.subrange(16, 20);
    assert(t3.len() == 4 && t3[0] == 'c' && t3[1] == 'd' && t3[2] == 'o' && t3[3] == 't');
    assert(t3 =~= "cdot"@);
    lemma_latex_symbol_cdot(t3);
    assert(has_no_backslash(plain_from(t2, 15)));
    assert(t2[14] == ' ');
    assert(has_no_backslash(plain_from(t2, 14)));
    assert(t2[1] == '_');
    assert(t2[2] == '{');
    assert(group_close(t2, 13, 1) == 13);
    assert(group_close(t2, 12, 2) == 13);
    assert(group_close(t2, 11, 2) == 13);
    assert(group_close(t2, 10, 2) == 13);
    assert(group_close(t2, 9, 2) == 13);
    assert(group_close(t2, 8, 1) == 13);
    assert(group_close(t2, 7, 1) == 13);
    assert(group_close(t2, 6, 1) == 13);
    assert(group_close(t2, 5, 1) == 13);
    assert(group_close(t2, 4, 1) == 13);
    assert(group_close(t2, 3, 1) == 13);
    let t4 = t2.subrange(3, 13);
    assert(t4.len() == 10);
    assert(plain_from(t4, 10).len() == 0);
    assert(t4[0] == '\\');
    assert(alpha_end(t4, 5) == 5);
    assert(alpha_end(t4, 4) == 5);
    assert(alpha_end(t4, 3) == 5);
    assert(alpha_end(t4, 2) == 5);
    assert(alpha_end(t4, 1) == 5);
    let t5 = t4.subrange(1, 5);
    assert(t5.len() == 4 && t5[0] == 't' && t5[1] == 'e' && t5[2] == 'x' && t5[3] == 't');
    assert(t5 =~= "text"@);
    assert(t4[5] == '{');
    assert(group_close(t4, 9, 1) == 9);
    assert(group_close(t4, 8, 1) == 9);
    assert(group_close(t4, 7, 1) == 9);
    assert(group_close(t4, 6, 1) == 9);
    let t6 = t4.subrange(6, 9);
    assert(t6.len() == 3);
    assert(plain_from(t6, 3).len() == 0);
    assert(t6[2] == 'x');
    assert(has_no_backslash(plain_from(t6, 2)));
    assert(t6[1] == 'a');
    assert(has_no_backslash(plain_from(t6, 1)));
    assert(t6[0] == 'm');
    assert(has_no_backslash(plain_from(t6, 0)));
    assert(has_no_backslash(plain_from(t4, 0)));
    assert(has_no_backslash(plain_from(t2, 1)));
    assert(t2[0] == 'V');
    assert(has_no_backslash(plain_from(t2, 0)));
    assert(s[33] == '{');
    assert(group_close(s, 43, 1) == 43);
    assert(group_close(s, 42, 1) == 43);
    assert(group_close(s, 41, 1) == 43);
    assert(group_close(s, 40, 1) == 43);
    assert(group_close(s, 39, 1) == 43);
    assert(group_close(s, 38, 2) == 43);
    assert(group_close(s, 37, 2) == 43);
    assert(group_close(s, 36, 1) == 43);
    assert(group_close(s, 35, 1) == 43);
    assert(group_close(s, 34, 1) == 43);
    let t7 = s.subrange(34, 43);
    assert(t7.len() == 9);
    assert(plain_from(t7, 9).len() == 0);
    assert(t7[8] == 'x');
    assert(has_no_backslash(plain_from(t7, 8)));
    assert(t7[7] == ' ');
    assert(has_no_backslash(plain_from(t7, 7)));
    assert(t7[6] == '+');
    assert(has_no_backslash(plain_from(t7, 6)));
    assert(t7[5] == ' ');
    assert(has_no_backslash(plain_from(t7, 5)));
    assert(t7[1] == '_');
    assert(t7[2] == '{');
    assert(group_close(t7, 4, 1) == 4);
    assert(group_close(t7, 3, 1) == 4);
    let t8 = t7.subrange(3, 4);
    assert(t8.len() == 1);
    assert(plain_from(t8, 1).len() == 0);
    assert(t8[0] == 'm');
    assert(has_no_backslash(plain_from(t8, 0)));
    assert(has_no_backslash(plain_from(t7, 1)));
    assert(t7[0] == 'K');
    assert(has_no_backslash(plain_from(t7, 0)));
    assert(has_no_backslash(plain_from(s, 4)));
    assert(s[3] == ' ');
    assert(has_no_backslash(plain_from(s, 3)));
    assert(s[2] == '=');
    assert(has_no_backslash(plain_from(s, 2)));
    assert(s[1] == ' ');
    assert(has_no_backslash(plain_from(s, 1)));
    assert(s[0] == 'y');
    assert(has_no_backslash(plain_from(s, 0)));
}

#[verifier::rlimit(100)]
#[verifier::spinoff_prover]
proof fn lemma_exponential_basic_plain_text_is_clean()
    ensures
        has_no_backslash(spec_latex_to_plain_text("y = a + b \\cdot \\exp(-c \\cdot x)"@)),
{
    reveal_strlit("y = a + b \\cdot \\exp(-c \\cdot x)");
    reveal_strlit("begin");
    reveal_strlit("cdot");
    reveal_strlit("end");
    reveal_strlit("exp");
    reveal_strlit("frac");
    reveal_strlit("quad");
    reveal_strlit("sqrt");
    reveal_strlit("text");
    let s = "y = a + b \\cdot \\exp(-c \\cdot x)"@;
    assert(s.len() == 32);
    assert(plain_from(s, 32).len() == 0);
    assert(s[31] == ')');
    assert(has_no_backslash(plain_from(s, 31)));
    assert(s[30] == 'x');
    assert(has_no_backslash(plain_from(s, 30)));
    assert(s[29] == ' ');
    assert(has_no_backslash(plain_from(s, 29)));
    assert(s[24] == '\\');
    assert(alpha_end(s, 29) == 29);
    assert(alpha_end(s, 28) == 29);
    assert(alpha_end(s, 27) == 29);
    assert(alpha_end(s, 26) == 29);
    assert(alpha_end(s, 25) == 29);
    let t1 = s.subrange(25, 29);
    assert(t1.len() == 4 && t1[0] == 'c' && t1[1] == 'd' && t1[2] == 'o' && t1[3] == 't');
    assert(t1 =~= "cdot"@);
    lemma_latex_symbol_cdot(t1);
    assert(has_no_backslash(plain_from(s, 24)));
    assert(s[23] == ' ');
    assert(has_no_backslash(plain_from(s, 23)));
    assert(s[22] == 'c');
    assert(has_no_backslash(plain_from(s, 22)));
    assert(s[21] == '-');
    assert(has_no_backslash(plain_from(s, 21)));
    assert(s[20] == '(');
    assert(has_no_backslash(plain_from(s, 20)));
    assert(s[16] == '\\');
    assert(alpha_end(s, 20) == 20);
    assert(alpha_end(s, 19) == 20);
    assert(alpha_end(s, 18) == 20);
    assert(alpha_end(s, 17) == 20);
    let t2 = s.subrange(17, 20);
    assert(t2.len() == 3 && t2[0] == 'e' && t2[1] == 'x' && t2[2] == 'p');
    assert(t2 =~= "exp"@);
    lemma_latex_symbol_exp(t2);
    assert(has_no_backslash(plain_from(s, 16)));
    assert(s[15] == ' ');
    assert(has_no_backslash(plain_from(s, 15)));
    assert(s[10] == '\\');
    assert(alpha_end(s, 15) == 15);
    assert(alpha_end(s, 14) == 15);
    assert(alpha_end(s, 13) == 15);
    assert(alpha_end(s, 12) == 15);
    assert(alpha_end(s, 11) == 15);
    let t3 = s.subrange(11, 15);
    assert(t3.len() == 4 && t3[0] == 'c' && t3[1] == 'd' && t3[2] == 'o' && t3[3] == 't');
    assert(t3 =~= "cdot"@);
    lemma_latex_symbol_cdot(t3);
    assert(has_no_backslash(plain_from(s, 10)));
    assert(s[9] == ' ');
    assert(has_no_backslash(plain_from(s, 9)));
    assert(s[8] == 'b');
    assert(has_no_backslash(plain_from(s, 8)));
    assert(s[7] == ' ');
    assert(has_no_backslash(plain_from(s, 7)));
    assert(s[6] == '+');
    assert(has_no_backslash(plain_from(s, 6)));
    assert(s[5] == ' ');
    assert(has_no_backslash(plain_from(s, 5)));
    assert(s[4] == 'a');
    assert(has_no_backslash(plain_from(s, 4)));
    assert(s[3] == ' ');
    assert(has_no_backslash(plain_from(s, 3)));
    assert(s[2] == '=');
    assert(has_no_backslash(plain_from(s, 2)));
    assert(s[1] == ' ');
    assert(has_no_backslash(plain_from(s, 1)));
    assert(s[0] == 'y');
    assert(has_no_backslash(plain_from(s, 0)));
}

#[verifier::rlimit(100)]
#[verifier::spinoff_prover]
proof fn lemma_exponential_linear_plain_text_is_clean()
    ensures
        has_no_backslash(spec_latex_to_plain_text("y = a \\cdot \\exp(b \\cdot x) + c \\cdot x + d"@)),
{
    reveal_strlit("y = a \\cdot \\exp(b \\cdot x) + c \\cdot x + d");
    reveal_strlit("begin");
    reveal_strlit("cdot");
    reveal_strlit("end");
    reveal_strlit("exp");
    reveal_strlit("frac");
    reveal_strlit("quad");
    reveal_strlit("sqrt");
    reveal_strlit("text");
    let s = "y = a \\cdot \\exp(b \\cdot x) + c \\cdot x + d"@;
    assert(s.len() == 43);
    assert(plain_from(s, 43).len() == 0);
    assert(s[42] == 'd');
    assert(has_no_backslash(plain_from(s, 42)));
    assert(s[41] == ' ');
    assert(has_no_backslash(plain_from(s, 41)));
    assert(s[40] == '+');
    assert(has_no_backslash(plain_from(s, 40)));
    assert(s[39] == ' ');
    assert(has_no_backslash(plain_from(s, 39)));
    assert(s[38] == 'x');
    assert(has_no_backslash(plain_from(s, 38)));
    assert(s[37] == ' ');
    assert(has_no_backslash(plain_from(s, 37)));
    assert(s[32] == '\\');
    assert(alpha_end(s, 37) == 37);
    assert(alpha_end(s, 36) == 37);
    assert(alpha_end(s, 35) == 37);
    assert(alpha_end(s, 34) == 37);
    assert(alpha_end(s, 33) == 37);
    let t1 = s.subrange(33, 37);
    assert(t1.len() == 4 && t1[0] == 'c' && t1[1] == 'd' && t1[2] == 'o' && t1[3] == 't');
    assert(t1 =~= "cdot"@);
    lemma_latex_symbol_cdot(t1);
    assert(has_no_backslash(plain_from(s, 32)));
    assert(s[31] == ' ');
    assert(has_no_backslash(plain_from(s, 31)));
    assert(s[30] == 'c');
    assert(has_no_backslash(plain_from(s, 30)));
    assert(s[29] == ' ');
    assert(has_no_backslash(plain_from(s, 29)));
    assert(s[28] == '+');
    assert(has_no_backslash(plain_from(s, 28)));
    assert(s[27] == ' ');
    assert(has_no_backslash(plain_from(s, 27)));
    assert(s[26] == ')');
    assert(has_no_backslash(plain_from(s, 26)));
    assert(s[25] == 'x');
    assert(has_no_backslash(plain_from(s, 25)));
    assert(s[24] == ' ');
    assert(has_no_backslash(plain_from(s, 24)));
    assert(s[19] == '\\');
    assert(alpha_end(s, 24) == 24);
    assert(alpha_end(s, 23) == 24);
    assert(alpha_end(s, 22) == 24);
    assert(alpha_end(s, 21) == 24);
    assert(alpha_end(s, 20) == 24);
    let t2 = s.subrange(20, 24);
    assert(t2.len() == 4 && t2[0] == 'c' && t2[1] == 'd' && t2[2] == 'o' && t2[3] == 't');
    assert(t2 =~= "cdot"@);
    lemma_latex_symbol_cdot(t2);
    assert(has_no_backslash(plain_from(s, 19)));
    assert(s[18] == ' ');
    assert(has_no_backslash(plain_from(s, 18)));
    assert(s[17] == 'b');
    assert(has_no_backslash(plain_from(s, 17)));
    assert(s[16] == '(');
    assert(has_no_backslash(plain_from(s, 16)));
    assert(s[12] == '\\');
    assert(alpha_end(s, 16) == 16);
    assert(alpha_end(s, 15) == 16);
    assert(alpha_end(s, 14) == 16);
    assert(alpha_end(s, 13) == 16);
    let t3 = s.subrange(13, 16);
    assert(t3.len() == 3 && t3[0] == 'e' && t3[1] == 'x' && t3[2] == 'p');
    assert(t3 =~= "exp"@);
    lemma_latex_symbol_exp(t3);
    assert(has_no_backslash(plain_from(s, 12)));
    assert(s[11] == ' ');
    assert(has_no_backslash(plain_from(s, 11)));
    assert(s[6] == '\\');
    assert(alpha_end(s, 11) == 11);
    assert(alpha_end(s, 10) == 11);
    assert(alpha_end(s, 9) == 11);
    assert(alpha_end(s, 8) == 11);
    assert(alpha_end(s, 7) == 11);
    let t4 = s.subrange(7, 11);
    assert(t4.len() == 4 && t4[0] == 'c' && t4[1] == 'd' && t4[2] == 'o' && t4[3] == 't');
    assert(t4 =~= "cdot"@);
    lemma_latex_symbol_cdot(t4);
    assert(has_no_backslash(plain_from(s, 6)));
    assert(s[5] == ' ');
    assert(has_no_backslash(plain_from(s, 5)));
    assert(s[4] == 'a');
    assert(has_no_backslash(plain_from(s, 4)));
    assert(s[3] == ' ');
    assert(has_no_backslash(plain_from(s, 3)));
    assert(s[2] == '=');
    assert(has_no_backslash(plain_from(s, 2)));
    assert(s[1] == ' ');
    assert(has_no_backslash(plain_from(s, 1)));
    assert(s[0] == 'y');
    assert(has_no_backslash(plain_from(s, 0)));
}

#[verifier::rlimit(100)]
#[verifier::spinoff_prover]
proof fn lemma_exponential_half_life_plain_text_is_clean()
    ensures
        has_no_backslash(spec_latex_to_plain_text("y = a + \\frac{b}{2^{\\frac{x}{c}}}"@)),
{
    reveal_strlit("y = a + \\frac{b}{2^{\\frac{x}{c}}}");
    reveal_strlit("begin");
    reveal_strlit("end");
    reveal_strlit("frac");
    reveal_strlit("quad");
    reveal_strlit("sqrt");
    reveal_strlit("text");
    let s = "y = a + \\frac{b}{2^{\\frac{x}{c}}}"@;
    assert(s.len() == 33);
    assert(plain_from(s, 33).len() == 0);
    assert(s[8] == '\\');
    assert(alpha_end(s, 13) == 13);
    assert(alpha_end(s, 12) == 13);
    assert(alpha_end(s, 11) == 13);
    assert(alpha_end(s, 10) == 13);
    assert(alpha_end(s, 9) == 13);
    let t1 = s.subrange(9, 13);
    assert(t1.len() == 4 && t1[0] == 'f' && t1[1] == 'r' && t1[2] == 'a' && t1[3] == 'c');
    assert(t1 =~= "frac"@);
    assert(s[13] == '{');
    assert(group_close(s, 15, 1) == 15);
    assert(group_close(s, 14, 1) == 15);
    let t2 = s.subrange(14, 15);
    assert(t2.len() == 1);
    assert(plain_from(t2, 1).len() == 0);
    assert(t2[0] == 'b');
    assert(has_no_backslash(plain_from(t2, 0)));
    assert(s[16] == '{');
    assert(group_close(s, 32, 1) == 32);
    assert(group_close(s, 31, 2) == 32);
    assert(group_close(s, 30, 3) == 32);
    assert(group_close(s, 29, 3) == 32);
    assert(group_close(s, 28, 2) == 32);
    assert(group_close(s, 27, 3) == 32);
    assert(group_close(s, 26, 3) == 32);
    assert(group_close(s, 25, 2) == 32);
    assert(group_close(s, 24, 2) == 32);
    assert(group_close(s, 23, 2) == 32);
    assert(group_close(s, 22, 2) == 32);
    assert(group_close(s, 21, 2) == 32);
    assert(group_close(s, 20, 2) == 32);
    assert(group_close(s, 19, 1) == 32);
    assert(group_close(s, 18, 1) == 32);
    assert(group_close(s, 17, 1) == 32);
    let t3 = s.subrange(17, 32);
    assert(t3.len() == 15);
    assert(plain_from(t3, 15).len() == 0);
    assert(t3[1] == '^');
    assert(t3[2] == '{');
    assert(group_close(t3, 14, 1) == 14);
    assert(group_close(t3, 13, 2) == 14);
    assert(group_close(t3, 12, 2) == 14);
    assert(group_close(t3, 11, 1) == 14);
    assert(group_close(t3, 10, 2) == 14);
    assert(group_close(t3, 9, 2) == 14);
    assert(group_close(t3, 8, 1) == 14);
    assert(group_close(t3, 7, 1) == 14);
    assert(group_close(t3, 6, 1) == 14);
    assert(group_close(t3, 5, 1) == 14);
    assert(group_close(t3, 4, 1) == 14);
    assert(group_close(t3, 3, 1) == 14);
    let t4 = t3.subrange(3, 14);
    assert(t4.len() == 11);
    assert(plain_from(t4, 11).len() == 0);
    assert(t4[0] == '\\');
    assert(alpha_end(t4, 5) == 5);
    assert(alpha_end(t4, 4) == 5);
    assert(alpha_end(t4, 3) == 5);
    assert(alpha_end(t4, 2) == 5);
    assert(alpha_end(t4, 1) == 5);
    let t5 = t4.subrange(1, 5);
    assert(t5.len() == 4 && t5[0] == 'f' && t5[1] == 'r' && t5[2] == 'a' && t5[3] == 'c');
    assert(t5 =~= "frac"@);
    assert(t4[5] == '{');
    assert(group_close(t4, 7, 1) == 7);
    assert(group_close(t4, 6, 1) == 7);
    let t6 = t4.subrange(6, 7);
    assert(t6.len() == 1);
    assert(plain_from(t6, 1).len() == 0);
    assert(t6[0] == 'x');
    assert(has_no_backslash(plain_from(t6, 0)));
    assert(t4[8] == '{');
    assert(group_close(t4, 10, 1) == 10);
    assert(group_close(t4, 9, 1) == 10);
    let t7 = t4.subrange(9, 10);
    assert(t7.len() == 1);
    assert(plain_from(t7, 1).len() == 0);
    assert(t7[0] == 'c');
    assert(has_no_backslash(plain_from(t7, 0)));
    assert(has_no_backslash(plain_from(t4, 0)));
    assert(has_no_backslash(plain_from(t3, 1)));
    assert(t3[0] == '2');
    assert(has_no_backslash(plain_from(t3, 0)));
    assert(has_no_backslash(plain_from(s, 8)));
    assert(s[7] == ' ');
    assert(has_no_backslash(plain_from(s, 7)));
    assert(s[6] == '+');
    assert(has_no_backslash(plain_from(s, 6)));
    assert(s[5] == ' ');
    assert(has_no_backslash(plain_from(s, 5)));
    assert(s[4] == 'a');
    assert(has_no_backslash(plain_from(s, 4)));
    assert(s[3] == ' ');
    assert(has_no_backslash(plain_from(s, 3)));
    assert(s[2] == '=');
    assert(has_no_backslash(plain_from(s, 2)));
    assert(s[1] == ' ');
    assert(has_no_backslash(plain_from(s, 1)));
    assert(s[0] == 'y');
    assert(has_no_backslash(plain_from(s, 0)));
}

#[verifier::rlimit(100)]
#[verifier::spinoff_prover]
proof fn lemma_falling_exponential_plain_text_is_clean()
    ensures
        has_no_backslash(spec_latex_to_plain_text("y = Y_{0} - \\frac{V_{0}}{K} \\cdot (1 - \\exp(-K \\cdot x))"@)),
{
    reveal_strlit("y = Y_{0} - \\frac{V_{0}}{K} \\cdot (1 - \\exp(-K \\cdot x))");
    reveal_strlit("begin");
    reveal_strlit("cdot");
    reveal_strlit("end");
    reveal_strlit("exp");
    reveal_strlit("frac");
    reveal_strlit("quad");
    reveal_strlit("sqrt");
    reveal_strlit("text");
    let s = "y = Y_{0} - \\frac{V_{0}}{K} \\cdot (1 - \\exp(-K \\cdot x))"@;
    assert(s.len() == 56);
    assert(plain_from(s, 56).len() == 0);
    assert(s[55] == ')');
    assert(has_no_backslash(plain_from(s, 55)));
    assert(s[54] == ')');
    assert(has_no_backslash(plain_from(s, 54)));
    assert(s[53] == 'x');
    assert(has_no_backslash(plain_from(s, 53)));
    assert(s[52] == ' ');
    assert(has_no_backslash(plain_from(s, 52)));
    assert(s[47] == '\\');
    assert(alpha_end(s, 52) == 52);
    assert(alpha_end(s, 51) == 52);
    assert(alpha_end(s, 50) == 52);
    assert(alpha_end(s, 49) == 52);
    assert(alpha_end(s, 48) == 52);
    let t1 = s.subrange(48, 52);
    assert(t1.len() == 4 && t1[0] == 'c' && t1[1] == 'd' && t1[2] == 'o' && t1[3] == 't');
    assert(t1 =~= "cdot"@);
    lemma_latex_symbol_cdot(t1);
    assert(has_no_backslash(plain_from(s, 47)));
    assert(s[46] == ' ');
    assert(has_no_backslash(plain_from(s, 46)));
    assert(s[45] == 'K');
    assert(has_no_backslash(plain_from(s, 45)));
    assert(s[44] == '-');
    assert(has_no_backslash(plain_from(s, 44)));
    assert(s[43] == '(');
    assert(has_no_backslash(plain_from(s, 43)));
    assert(s[39] == '\\');
    assert(alpha_end(s, 43) == 43);
    assert(alpha_end(s, 42) == 43);
    assert(alpha_end(s, 41) == 43);
    assert(alpha_end(s, 40) == 43);
    let t2 = s.subrange(40, 43);
    assert(t2.len() == 3 && t2[0] == 'e' && t2[1] == 'x' && t2[2] == 'p');
    assert(t2 =~= "exp"@);
    lemma_latex_symbol_exp(t2);
    assert(has_no_backslash(plain_from(s, 39)));
    assert(s[38] == ' ');
    assert(has_no_backslash(plain_from(s, 38)));
    assert(s[37] == '-');
    assert(has_no_backslash(plain_from(s, 37)));
    assert(s[36] == ' ');
    assert(has_no_backslash(plain_from(s, 36)));
    assert(s[35] == '1');
    assert(has_no_backslash(plain_from(s, 35)));
    assert(s[34] == '(');
    assert(has_no_backslash(plain_from(s, 34)));
    assert(s[33] == ' ');
    assert(has_no_backslash(plain_from(s, 33)));
    assert(s[28] == '\\');
    assert(alpha_end(s, 33) == 33);
    assert(alpha_end(s, 32) == 33);
    assert(alpha_end(s, 31) == 33);
    assert(alpha_end(s, 30) == 33);
    assert(alpha_end(s, 29) == 33);
    let t3 = s.subrange(29, 33);
    assert(t3.len() == 4 && t3[0] == 'c' && t3[1] == 'd' && t3[2] == 'o' && t3[3] == 't');
    assert(t3 =~= "cdot"@);
    lemma_latex_symbol_cdot(t3);
    assert(has_no_backslash(plain_from(s, 28)));
    assert(s[27] == ' ');
    assert(has_no_backslash(plain_from(s, 27)));
    assert(s[12] == '\\');
    assert(alpha_end(s, 17) == 17);
    assert(alpha_end(s, 16) == 17);
    assert(alpha_end(s, 15) == 17);
    assert(alpha_end(s, 14) == 17);
    assert(alpha_end(s, 13) == 17);
    let t4 = s.subrange(13, 17);
    assert(t4.len() == 4 && t4[0] == 'f' && t4[1] == 'r' && t4[2] == 'a' && t4[3] == 'c');
    assert(t4 =~= "frac"@);
    assert(s[17] == '{');
    assert(group_close(s, 23, 1) == 23);
    assert(group_close(s, 22, 2) == 23);
    assert(group_close(s, 21, 2) == 23);
    assert(group_close(s, 20, 1) == 23);
    assert(group_close(s, 19, 1) == 23);
    assert(group_close(s, 18, 1) == 23);
    let t5 = s.subrange(18, 23);
    assert(t5.len() == 5);
    assert(plain_from(t5, 5).len() == 0);
    assert(t5[1] == '_');
    assert(t5[2] == '{');
    assert(group_close(t5, 4, 1) == 4);
    assert(group_close(t5, 3, 1) == 4);
    let t6 = t5.subrange(3, 4);
    assert(t6.len() == 1);
    assert(plain_from(t6, 1).len() == 0);
    assert(t6[0] == '0');
    assert(has_no_backslash(plain_from(t6, 0)));
    assert(has_no_backslash(plain_from(t5, 1)));
    assert(t5[0] == 'V');
    assert(has_no_backslash(plain_from(t5, 0)));
    assert(s[24] == '{');
    assert(group_close(s, 26, 1) == 26);
    assert(group_close(s, 25, 1) == 26);
    let t7 = s.subrange(25, 26);
    assert(t7.len() == 1);
    assert(plain_from(t7, 1).len() == 0);
    assert(t7[0] == 'K');
    assert(has_no_backslash(plain_from(t7, 0)));
    assert(has_no_backslash(plain_from(s, 12)));
    assert(s[11] == ' ');
    assert(has_no_backslash(plain_from(s, 11)));
    assert(s[10] == '-');
    assert(has_no_backslash(plain_from(s, 10)));
    assert(s[9] == ' ');
    assert(has_no_backslash(plain_from(s, 9)));
    assert(s[5] == '_');
    assert(s[6] == '{');
    assert(group_close(s, 8, 1) == 8);
    assert(group_close(s, 7, 1) == 8);
    let t8 = s.subrange(7, 8);
    assert(t8.len() == 1);
    assert(plain_from(t8, 1).len() == 0);
    assert(t8[0] == '0');
    assert(has_no_backslash(plain_from(t8, 0)));
    assert(has_no_backslash(plain_from(s, 5)));
    assert(s[4] == 'Y');
    assert(has_no_backslash(plain_from(s, 4)));
    assert(s[3] == ' ');
    assert(has_no_backslash(plain_from(s, 3)));
    assert(s[2] == '=');
    assert(has_no_backslash(plain_from(s, 2)));
    assert(s[1] == ' ');
    assert(has_no_backslash(plain_from(s, 1)));
    assert(s[0] == 'y');
    assert(has_no_backslash(plain_from(s, 0)));
}

#[verifier::rlimit(100)]
#[verifier::spinoff_prover]
proof fn lemma_hyperbolic_tangent_plain_text_is_clean()
    ensures
        has_no_backslash(spec_latex_to_plain_text("y = a \\cdot \\tanh(b \\cdot (x - c)) + d"@)),
{
    reveal_strlit("y = a \\cdot \\tanh(b \\cdot (x - c)) + d");
    reveal_strlit("begin");
    reveal_strlit("cdot");
    reveal_strlit("end");
    reveal_strlit("frac");
    reveal_strlit("quad");
    reveal_strlit("sqrt");
    reveal_strlit("tanh");
    reveal_strlit("text");
    let s = "y = a \\cdot \\tanh(b \\cdot (x - c)) + d"@;
    assert(s.len() == 38);
    assert(plain_from(s, 38).len() == 0);
    assert(s[37] == 'd');
    assert(has_no_backslash(plain_from(s, 37)));
    assert(s[36] == ' ');
    assert(has_no_backslash(plain_from(s, 36)));
    assert(s[35] == '+');
    assert(has_no_backslash(plain_from(s, 35)));
    assert(s[34] == ' ');
    assert(has_no_backslash(plain_from(s, 34)));
    assert(s[33] == ')');
    assert(has_no_backslash(plain_from(s, 33)));
    assert(s[32] == ')');
    assert(has_no_backslash(plain_from(s, 32)));
    assert(s[31] == 'c');
    assert(has_no_backslash(plain_from(s, 31)));
    assert(s[30] == ' ');
    assert(has_no_backslash(plain_from(s, 30)));
    assert(s[29] == '-');
    assert(has_no_backslash(plain_from(s, 29)));
    assert(s[28] == ' ');
    assert(has_no_backslash(plain_from(s, 28)));
    assert(s[27] == 'x');
    assert(has_no_backslash(plain_from(s, 27)));
    assert(s[26] == '(');
    assert(has_no_backslash(plain_from(s, 26)));
    assert(s[25] == ' ');
    assert(has_no_backslash(plain_from(s, 25)));
    assert(s[20] == '\\');
    assert(alpha_end(s, 25) == 25);
    assert(alpha_end(s, 24) == 25);
    assert(alpha_end(s, 23) == 25);
    assert(alpha_end(s, 22) == 25);
    assert(alpha_end(s, 21) == 25);
    let t1 = s.subrange(21, 25);
    assert(t1.len() == 4 && t1[0] == 'c' && t1[1] == 'd' && t1[2] == 'o' && t1[3] == 't');
    assert(t1 =~= "cdot"@);
    lemma_latex_symbol_cdot(t1);
    assert(has_no_backslash(plain_from(s, 20)));
    assert(s[19] == ' ');
    assert(has_no_backslash(plain_from(s, 19)));
    assert(s[18] == 'b');
    assert(has_no_backslash(plain_from(s, 18)));
    assert(s[17] == '(');
    assert(has_no_backslash(plain_from(s, 17)));
    assert(s[12] == '\\');
    assert(alpha_end(s, 17) == 17);
    assert(alpha_end(s, 16) == 17);
    assert(alpha_end(s, 15) == 17);
    assert(alpha_end(s, 14) == 17);
    assert(alpha_end(s, 13) == 17);
    let t2 = s.subrange(13, 17);
    assert(t2.len() == 4 && t2[0] == 't' && t2[1] == 'a' && t2[2] == 'n' && t2[3] == 'h');
    assert(t2 =~= "tanh"@);
    lemma_latex_symbol_tanh(t2);
    assert(has_no_backslash(plain_from(s, 12)));
    assert(s[11] == ' ');
    assert(has_no_backslash(plain_from(s, 11)));
    assert(s[6] == '\\');
    assert(alpha_end(s, 11) == 11);
    assert(alpha_end(s, 10) == 11);
    assert(alpha_end(s, 9) == 11);
    assert(alpha_end(s, 8) == 11);
    assert(alpha_end(s, 7) == 11);
    let t3 = s.subrange(7, 11);
    assert(t3.len() == 4 && t3[0] == 'c' && t3[1] == 'd' && t3[2] == 'o' && t3[3] == 't');
    assert(t3 =~= "cdot"@);
    lemma_latex_symbol_cdot(t3);
    assert(has_no_backslash(plain_from(s, 6)));
    assert(s[5] == ' ');
    assert(has_no_backslash(plain_from(s, 5)));
    assert(s[4] == 'a');
    assert(has_no_backslash(plain_from(s, 4)));
    assert(s[3] == ' ');
    assert(has_no_backslash(plain_from(s, 3)));
    assert(s[2] == '=');
    assert(has_no_backslash(plain_from(s, 2)));
    assert(s[1] == ' ');
    assert(has_no_backslash(plain_from(s, 1)));
    assert(s[0] == 'y');
    assert(has_no_backslash(plain_from(s, 0)));
}

#[verifier::rlimit(100)]
#[verifier::spinoff_prover]
proof fn lemma_arctangent_step_plain_text_is_clean()
    ensures
        has_no_backslash(spec_latex_to_plain_text("y = a \\cdot \\arctan(b \\cdot (x - c)) + d"@)),
{
    reveal_strlit("y = a \\cdot \\arctan(b \\cdot (x - c)) + d");
    reveal_strlit("arctan");
    reveal_strlit("begin");
    reveal_strlit("cdot");
    reveal_strlit("end");
    reveal_strlit("frac");
    reveal_strlit("quad");
    reveal_strlit("sqrt");
    reveal_strlit("text");
    let s = "y = a \\cdot \\arctan(b \\cdot (x - c)) + d"@;
    assert(s.len() == 40);
    assert(plain_from(s, 40).len() == 0);
    assert(s[39] == 'd');
    assert(has_no_backslash(plain_from(s, 39)));
    assert(s[38] == ' ');
    assert(has_no_backslash(plain_from(s, 38)));
    assert(s[37] == '+');
    assert(has_no_backslash(plain_from(s, 37)));
    assert(s[36] == ' ');
    assert(has_no_backslash(plain_from(s, 36)));
    assert(s[35] == ')');
    assert(has_no_backslash(plain_from(s, 35)));
    assert(s[34] == ')');
    assert(has_no_backslash(plain_from(s, 34)));
    assert(s[33] == 'c');
    assert(has_no_backslash(plain_from(s, 33)));
    assert(s[32] == ' ');
    assert(has_no_backslash(plain_from(s, 32)));
    assert(s[31] == '-');
    assert(has_no_backslash(plain_from(s, 31)));
    assert(s[30] == ' ');
    assert(has_no_backslash(plain_from(s, 30)));
    assert(s[29] == 'x');
    assert(has_no_backslash(plain_from(s, 29)));
    assert(s[28] == '(');
    assert(has_no_backslash(plain_from(s, 28)));
    assert(s[27] == ' ');
    assert(has_no_backslash(plain_from(s, 27)));
    assert(s[22] == '\\');
    assert(alpha_end(s, 27) == 27);
    assert(alpha_end(s, 26) == 27);
    assert(alpha_end(s, 25) == 27);
    assert(alpha_end(s, 24) == 27);
    assert(alpha_end(s, 23) == 27);
    let t1 = s.subrange(23, 27);
    assert(t1.len() == 4 && t1[0] == 'c' && t1[1] == 'd' && t1[2] == 'o' && t1[3] == 't');
    assert(t1 =~= "cdot"@);
    lemma_latex_symbol_cdot(t1);
    assert(has_no_backslash(plain_from(s, 22)));
    assert(s[21] == ' ');
    assert(has_no_backslash(plain_from(s, 21)));
    assert(s[20] == 'b');
    assert(has_no_backslash(plain_from(s, 20)));
    assert(s[19] == '(');
    assert(has_no_backslash(plain_from(s, 19)));
    assert(s[12] == '\\');
    assert(alpha_end(s, 19) == 19);
    assert(alpha_end(s, 18) == 19);
    assert(alpha_end(s, 17) == 19);
    assert(alpha_end(s, 16) == 19);
    assert(alpha_end(s, 15) == 19);
    assert(alpha_end(s, 14) == 19);
    assert(alpha_end(s, 13) == 19);
    let t2 = s.subrange(13, 19);
    assert(t2.len() == 6 && t2[0] == 'a' && t2[1] == 'r' && t2[2] == 'c' && t2[3] == 't' && t2[4] == 'a' && t2[5] == 'n');
    assert(t2 =~= "arctan"@);
    lemma_latex_symbol_arctan(t2);
    assert(has_no_backslash(plain_from(s, 12)));
    assert(s[11] == ' ');
    assert(has_no_backslash(plain_from(s, 11)));
    assert(s[6] == '\\');
    assert(alpha_end(s, 11) == 11);
    assert(alpha_end(s, 10) == 11);
    assert(alpha_end(s, 9) == 11);
    assert(alpha_end(s, 8) == 11);
    assert(alpha_end(s, 7) == 11);
    let t3 = s.subrange(7, 11);
    assert(t3.len() == 4 && t3[0] == 'c' && t3[1] == 'd' && t3[2] == 'o' && t3[3] == 't');
    assert(t3 =~= "cdot"@);
    lemma_latex_symbol_cdot(t3);
    assert(has_no_backslash(plain_from(s, 6)));
    assert(s[5] == ' ');
    assert(has_no_backslash(plain_from(s, 5)));
    assert(s[4] == 'a');
    assert(has_no_backslash(plain_from(s, 4)));
    assert(s[3] == ' ');
    assert(has_no_backslash(plain_from(s, 3)));
    assert(s[2] == '=');
    assert(has_no_backslash(plain_from(s, 2)));
    assert(s[1] == ' ');
    assert(has_no_backslash(plain_from(s, 1)));
    assert(s[0] == 'y');
    assert(has_no_backslash(plain_from(s, 0)));
}

#[verifier::rlimit(100)]
#[verifier::spinoff_prover]
proof fn lemma_softplus_plain_text_is_clean()
    ensures
        has_no_backslash(spec_latex_to_plain_text("y = a \\cdot \\ln(1 + \\exp(b \\cdot (x - c))) + d"@)),
{
    reveal_strlit("y = a \\cdot \\ln(1 + \\exp(b \\cdot (x - c))) + d");
    reveal_strlit("begin");
    reveal_strlit("cdot");
    reveal_strlit("end");
    reveal_strlit("exp");
    reveal_strlit("frac");
    reveal_strlit("ln");
    reveal_strlit("quad");
    reveal_strlit("sqrt");
    reveal_strlit("text");
    let s = "y = a \\cdot \\ln(1 + \\exp(b \\cdot (x - c))) + d"@;
    assert(s.len() == 46);
    assert(plain_from(s, 46).len() == 0);
    assert(s[45] == 'd');
    assert(has_no_backslash(plain_from(s, 45)));
    assert(s[44] == ' ');
    assert(has_no_backslash(plain_from(s, 44)));
    assert(s[43] == '+');
    assert(has_no_backslash(plain_from(s, 43)));
    assert(s[42] == ' ');
    assert(has_no_backslash(plain_from(s, 42)));
    assert(s[41] == ')');
    assert(has_no_backslash(plain_from(s, 41)));
    assert(s[40] == ')');
    assert(has_no_backslash(plain_from(s, 40)));
    assert(s[39] == ')');
    assert(has_no_backslash(plain_from(s, 39)));
    assert(s[38] == 'c');
    assert(has_no_backslash(plain_from(s, 38)));
    assert(s[37] == ' ');
    assert(has_no_backslash(plain_from(s, 37)));
    assert(s[36] == '-');
    assert(has_no_backslash(plain_from(s, 36)));
    assert(s[35] == ' ');
    assert(has_no_backslash(plain_from(s, 35)));
    assert(s[34] == 'x');
    assert(has_no_backslash(plain_from(s, 34)));
    assert(s[33] == '(');
    assert(has_no_backslash(plain_from(s, 33)));
    assert(s[32] == ' ');
    assert(has_no_backslash(plain_from(s, 32)));
    assert(s[27] == '\\');
    assert(alpha_end(s, 32) == 32);
    assert(alpha_end(s, 31) == 32);
    assert(alpha_end(s, 30) == 32);
    assert(alpha_end(s, 29) == 32);
    assert(alpha_end(s, 28) == 32);
    let t1 = s.subrange(28, 32);
    assert(t1.len() == 4 && t1[0] == 'c' && t1[1] == 'd' && t1[2] == 'o' && t1[3] == 't');
    assert(t1 =~= "cdot"@);
    lemma_latex_symbol_cdot(t1);
    assert(has_no_backslash(plain_from(s, 27)));
    assert(s[26] == ' ');
    assert(has_no_backslash(plain_from(s, 26)));
    assert(s[25] == 'b');
    assert(has_no_backslash(plain_from(s, 25)));
    assert(s[24] == '(');
    assert(has_no_backslash(plain_from(s, 24)));
    assert(s[20] == '\\');
    assert(alpha_end(s, 24) == 24);
    assert(alpha_end(s, 23) == 24);
    assert(alpha_end(s, 22) == 24);
    assert(alpha_end(s, 21) == 24);
    let t2 = s.subrange(21, 24);
    assert(t2.len() == 3 && t2[0] == 'e' && t2[1] == 'x' && t2[2] == 'p');
    assert(t2 =~= "exp"@);
    lemma_latex_symbol_exp(t2);
    assert(has_no_backslash(plain_from(s, 20)));
    assert(s[19] == ' ');
    assert(has_no_backslash(plain_from(s, 19)));
    assert(s[18] == '+');
    assert(has_no_backslash(plain_from(s, 18)));
    assert(s[17] == ' ');
    assert(has_no_backslash(plain_from(s, 17)));
    assert(s[16] == '1');
    assert(has_no_backslash(plain_from(s, 16)));
    assert(s[15] == '(');
    assert(has_no_backslash(plain_from(s, 15)));
    assert(s[12] == '\\');
    assert(alpha_end(s, 15) == 15);
    assert(alpha_end(s, 14) == 15);
    assert(alpha_end(s, 13) == 15);
    let t3 = s.subrange(13, 15);
    assert(t3.len() == 2 && t3[0] == 'l' && t3[1] == 'n');
    assert(t3 =~= "ln"@);
    lemma_latex_symbol_ln(t3);
    assert(has_no_backslash(plain_from(s, 12)));
    assert(s[11] == ' ');
    assert(has_no_backslash(plain_from(s, 11)));
    assert(s[6] == '\\');
    assert(alpha_end(s, 11) == 11);
    assert(alpha_end(s, 10) == 11);
    assert(alpha_end(s, 9) == 11);
    assert(alpha_end(s, 8) == 11);
    assert(alpha_end(s, 7) == 11);
    let t4 = s.subrange(7, 11);
    assert(t4.len() == 4 && t4[0] == 'c' && t4[1] == 'd' && t4[2] == 'o' && t4[3] == 't');
    assert(t4 =~= "cdot"@);
    lemma_latex_symbol_cdot(t4);
    assert(has_no_backslash(plain_from(s, 6)));
    assert(s[5] == ' ');
    assert(has_no_backslash(plain_from(s, 5)));
    assert(s[4] == 'a');
    assert(has_no_backslash(plain_from(s, 4)));
    assert(s[3] == ' ');
    assert(has_no_backslash(plain_from(s, 3)));
    assert(s[2] == '=');
    assert(has_no_backslash(plain_from(s, 2)));
    assert(s[1] == ' ');
    assert(has_no_backslash(plain_from(s, 1)));
    assert(s[0] == 'y');
    assert(has_no_backslash(plain_from(s, 0)));
}

#[verifier::rlimit(100)]
#[verifier::spinoff_prover]
proof fn lemma_power_plain_text_is_clean()
    ensures
        has_no_backslash(spec_latex_to_plain_text("y = a \\cdot x^{b}"@)),
{
    reveal_strlit("y = a \\cdot x^{b}");
    reveal_strlit("begin");
    reveal_strlit("cdot");
    reveal_strlit("end");
    reveal_strlit("frac");
    reveal_strlit("quad");
    reveal_strlit("sqrt");
    reveal_strlit("text");
    let s = "y = a \\cdot x^{b}"@;
    assert(s.len() == 17);
    assert(plain_from(s, 17).len() == 0);
    assert(s[13] == '^');
    assert(s[14] == '{');
    assert(group_close(s, 16, 1) == 16);
    assert(group_close(s, 15, 1) == 16);
    let t1 = s.subrange(15, 16);
    assert(t1.len() == 1);
    assert(plain_from(t1, 1).len() == 0);
    assert(t1[0] == 'b');
    assert(has_no_backslash(plain_from(t1, 0)));
    assert(has_no_backslash(plain_from(s, 13)));
    assert(s[12] == 'x');
    assert(has_no_backslash(plain_from(s, 12)));
    assert(s[11] == ' ');
    assert(has_no_backslash(plain_from(s, 11)));
    assert(s[6] == '\\');
    assert(alpha_end(s, 11) == 11);
    assert(alpha_end(s, 10) == 11);
    assert(alpha_end(s, 9) == 11);
    assert(alpha_end(s, 8) == 11);
    assert(alpha_end(s, 7) == 11);
    let t2 = s.subrange(7, 11);
    assert(t2.len() == 4 && t2[0] == 'c' && t2[1] == 'd' && t2[2] == 'o' && t2[3] == 't');
    assert(t2 =~= "cdot"@);
    lemma_latex_symbol_cdot(t2);
    assert(has_no_backslash(plain_from(s, 6)));
    assert(s[5] == ' ');
    assert(has_no_backslash(plain_from(s, 5)));
    assert(s[4] == 'a');
    assert(has_no_backslash(plain_from(s, 4)));
    assert(s[3] == ' ');
    assert(has_no_backslash(plain_from(s, 3)));
    assert(s[2] == '=');
    assert(has_no_backslash(plain_from(s, 2)));
    assert(s[1] == ' ');
    assert(has_no_backslash(plain_from(s, 1)));
    assert(s[0] == 'y');
    assert(has_no_backslash(plain_from(s, 0)));
}

#[verifier::rlimit(100)]
#[verifier::spinoff_prover]
proof fn lemma_gaussian_plain_text_is_clean()
    ensures
        has_no_backslash(spec_latex_to_plain_text("y = a \\cdot \\exp(-\\frac{(x - b)^{2}}{2 \\cdot c^{2}})"@)),
{
    reveal_strlit("y = a \\cdot \\exp(-\\frac{(x - b)^{2}}{2 \\cdot c^{2}})");
    reveal_strlit("begin");
    reveal_strlit("cdot");
    reveal_strlit("end");
    reveal_strlit("exp");
    reveal_strlit("frac");
    reveal_strlit("quad");
    reveal_strlit("sqrt");
    reveal_strlit("text");
    let s = "y = a \\cdot \\exp(-\\frac{(x - b)^{2}}{2 \\cdot c^{2}})"@;
    assert(s.len() == 52);
    assert(plain_from(s, 52).len() == 0);
    assert(s[51] == ')');
    assert(has_no_backslash(plain_from(s, 51)));
    assert(s[18] == '\\');
    assert(alpha_end(s, 23) == 23);
    assert(alpha_end(s, 22) == 23);
    assert(alpha_end(s, 21) == 23);
    assert(alpha_end(s, 20) == 23);
    assert(alpha_end(s, 19) == 23);
    let t1 = s.subrange(19, 23);
    assert(t1.len() == 4 && t1[0] == 'f' && t1[1] == 'r' && t1[2] == 'a' && t1[3] == 'c');
    assert(t1 =~= "frac"@);
    assert(s[23] == '{');
    assert(group_close(s, 35, 1) == 35);
    assert(group_close(s, 34, 2) == 35);
    assert(group_close(s, 33, 2) == 35);
    assert(group_close(s, 32, 1) == 35);
    assert(group_close(s, 31, 1) == 35);
    assert(group_close(s, 30, 1) == 35);
    assert(group_close(s, 29, 1) == 35);
    assert(group_close(s, 28, 1) == 35);
    assert(group_close(s, 27, 1) == 35);
    assert(group_close(s, 26, 1) == 35);
    assert(group_close(s, 25, 1) == 35);
    assert(group_close(s, 24, 1) == 35);
    let t2 = s.subrange(24, 35);
    assert(t2.len() == 11);
    assert(plain_from(t2, 11).len() == 0);
    assert(t2[7] == '^');
    assert(t2[8] == '{');
    assert(group_close(t2, 10, 1) == 10);
    assert(group_close(t2, 9, 1) == 10);
    let t3 = t2.subrange(9, 10);
    assert(t3.len() == 1);
    assert(plain_from(t3, 1).len() == 0);
    assert(t3[0] == '2');
    assert(has_no_backslash(plain_from(t3, 0)));
    assert(has_no_backslash(plain_from(t2, 7)));
    assert(t2[6] == ')');
    assert(has_no_backslash(plain_from(t2, 6)));
    assert(t2[5] == 'b');
    assert(has_no_backslash(plain_from(t2, 5)));
    assert(t2[4] == ' ');
    assert(has_no_backslash(plain_from(t2, 4)));
    assert(t2[3] == '-');
    assert(has_no_backslash(plain_from(t2, 3)));
    assert(t2[2] == ' ');
    assert(has_no_backslash(plain_from(t2, 2)));
    assert(t2[1] == 'x');
    assert(has_no_backslash(plain_from(t2, 1)));
    assert(t2[0] == '(');
    assert(has_no_backslash(plain_from(t2, 0)));
    assert(s[36] == '{');
    assert(group_close(s, 50, 1) == 50);
    assert(group_close(s, 49, 2) == 50);
    assert(group_close(s, 48, 2) == 50);
    assert(group_close(s, 47, 1) == 50);
    assert(group_close(s, 46, 1) == 50);
    assert(group_close(s, 45, 1) == 50);
    assert(group_close(s, 44, 1) == 50);
    assert(group_close(s, 43, 1) == 50);
    assert(group_close(s, 42, 1) == 50);
    assert(group_close(s, 41, 1) == 50);
    assert(group_close(s, 40, 1) == 50);
    assert(group_close(s, 39, 1) == 50);
    assert(group_close(s, 38, 1) == 50);
    assert(group_close(s, 37, 1) == 50);
    let t4 = s.subrange(37, 50);
    assert(t4.len() == 13);
    assert(plain_from(t4, 13).len() == 0);
    assert(t4[9] == '^');
    assert(t4[10] == '{');
    assert(group_close(t4, 12, 1) == 12);
    assert(group_close(t4, 11, 1) == 12);
    let t5 = t4.subrange(11, 12);
    assert(t5.len() == 1);
    assert(plain_from(t5, 1).len() == 0);
    assert(t5[0] == '2');
    assert(has_no_backslash(plain_from(t5, 0)));
    assert(has_no_backslash(plain_from(t4, 9)));
    assert(t4[8] == 'c');
    assert(has_no_backslash(plain_from(t4, 8)));
    assert(t4[7] == ' ');
    assert(has_no_backslash(plain_from(t4, 7)));
    assert(t4[2] == '\\');
    assert(alpha_end(t4, 7) == 7);
    assert(alpha_end(t4, 6) == 7);
    assert(alpha_end(t4, 5) == 7);
    assert(alpha_end(t4, 4) == 7);
    assert(alpha_end(t4, 3) == 7);
    let t6 = t4.subrange(3, 7);
    assert(t6.len() == 4 && t6[0] == 'c' && t6[1] == 'd' && t6[2] == 'o' && t6[3] == 't');
    assert(t6 =~= "cdot"@);
    lemma_latex_symbol_cdot(t6);
    assert(has_no_backslash(plain_from(t4, 2)));
    assert(t4[1] == ' ');
    assert(has_no_backslash(plain_from(t4, 1)));
    assert(t4[0] == '2');
    assert(has_no_backslash(plain_from(t4, 0)));
    assert(has_no_backslash(plain_from(s, 18)));
    assert(s[17] == '-');
    assert(has_no_backslash(plain_from(s, 17)));
    assert(s[16] == '(');
    assert(has_no_backslash(plain_from(s, 16)));
    assert(s[12] == '\\');
    assert(alpha_end(s, 16) == 16);
    assert(alpha_end(s, 15) == 16);
    assert(alpha_end(s, 14) == 16);
    assert(alpha_end(s, 13) == 16);
    let t7 = s.subrange(13, 16);
    assert(t7.len() == 3 && t7[0] == 'e' && t7[1] == 'x' && t7[2] == 'p');
    assert(t7 =~= "exp"@);
    lemma_latex_symbol_exp(t7);
    assert(has_no_backslash(plain_from(s, 12)));
    assert(s[11] == ' ');
    assert(has_no_backslash(plain_from(s, 11)));
    assert(s[6] == '\\');
    assert(alpha_end(s, 11) == 11);
    assert(alpha_end(s, 10) == 11);
    assert(alpha_end(s, 9) == 11);
    assert(alpha_end(s, 8) == 11);
    assert(alpha_end(s, 7) == 11);
    let t8 = s.subrange(7, 11);
    assert(t8.len() == 4 && t8[0] == 'c' && t8[1] == 'd' && t8[2] == 'o' && t8[3] == 't');
    assert(t8 =~= "cdot"@);
    lemma_latex_symbol_cdot(t8);
    assert(has_no_backslash(plain_from(s, 6)));
    assert(s[5] == ' ');
    assert(has_no_backslash(plain_from(s, 5)));
    assert(s[4] == 'a');
    assert(has_no_backslash(plain_from(s, 4)));
    assert(s[3] == ' ');
    assert(has_no_backslash(plain_from(s, 3)));
    assert(s[2] == '=');
    assert(has_no_backslash(plain_from(s, 2)));
    assert(s[1] == ' ');
    assert(has_no_backslash(plain_from(s, 1)));
    assert(s[0] == 'y');
    assert(has_no_backslash(plain_from(s, 0)));
}

#[verifier::rlimit(100)]
#[verifier::spinoff_prover]
proof fn lemma_emg_plain_text_is_clean()
    ensures
        has_no_backslash(spec_latex_to_plain_text("y = c + \\frac{a}{2 \\cdot \\tau} \\cdot \\exp(\\frac{\\sigma^{2}}{2 \\cdot \\tau^{2}} - \\frac{x - \\mu}{\\tau}) \\cdot \\text{erfc}(\\frac{1}{\\sqrt{2}}(\\frac{\\sigma}{|\\tau|} - \\frac{x - \\mu}{\\sigma}))"@)),
{
    reveal_strlit("y = c + \\frac{a}{2 \\cdot \\tau} \\cdot \\exp(\\frac{\\sigma^{2}}{2 \\cdot \\tau^{2}} - \\frac{x - \\mu}{\\tau}) \\cdot \\text{erfc}(\\frac{1}{\\sqrt{2}}(\\frac{\\sigma}{|\\tau|} - \\frac{x - \\mu}{\\sigma}))");
    reveal_strlit("begin");
    reveal_strlit("cdot");
    reveal_strlit("end");
    reveal_strlit("exp");
    reveal_strlit("frac");
    reveal_strlit("mu");
    reveal_strlit("quad");
    reveal_strlit("sigma");
    reveal_strlit("sqrt");
    reveal_strlit("tau");
    reveal_strlit("text");
    let s = "y = c + \\frac{a}{2 \\cdot \\tau} \\cdot \\exp(\\frac{\\sigma^{2}}{2 \\cdot \\tau^{2}} - \\frac{x - \\mu}{\\tau}) \\cdot \\text{erfc}(\\frac{1}{\\sqrt{2}}(\\frac{\\sigma}{|\\tau|} - \\frac{x - \\mu}{\\sigma}))"@;
    assert(s.len() == 187);
    assert(plain_from(s, 187).len() == 0);
    assert(s[186] == ')');
    assert(has_no_backslash(plain_from(s, 186)));
    assert(s[185] == ')');
    assert(has_no_backslash(plain_from(s, 185)));
    assert(s[163] == '\\');
    assert(alpha_end(s, 168) == 168);
    assert(alpha_end(s, 167) == 168);
    assert(alpha_end(s, 166) == 168);
    assert(alpha_end(s, 165) == 168);
    assert(alpha_end(s, 164) == 168);
    let t1 = s.subrange(164, 168);
    assert(t1.len() == 4 && t1[0] == 'f' && t1[1] == 'r' && t1[2] == 'a' && t1[3] == 'c');
    assert(t1 =~= "frac"@);
    assert(s[168] == '{');
    assert(group_close(s, 176, 1) == 176);
    assert(group_close(s, 175, 1) == 176);
    assert(group_close(s, 174, 1) == 176);
    assert(group_close(s, 173, 1) == 176);
    assert(group_close(s, 172, 1) == 176);
    assert(group_close(s, 171, 1) == 176);
    assert(group_close(s, 170, 1) == 176);
    assert(group_close(s, 169, 1) == 176);
    let t2 = s.subrange(169, 176);
    assert(t2.len() == 7);
    assert(plain_from(t2, 7).len() == 0);
    assert(t2[4] == '\\');
    assert(alpha_end(t2, 7) == 7);
    assert(alpha_end(t2, 6) == 7);
    assert(alpha_end(t2, 5) == 7);
    let t3 = t2.subrange(5, 7);
    assert(t3.len() == 2 && t3[0] == 'm' && t3[1] == 'u');
    assert(t3 =~= "mu"@);
    lemma_latex_symbol_mu(t3);
    assert(has_no_backslash(plain_from(t2, 4)));
    assert(t2[3] == ' ');
    assert(has_no_backslash(plain_from(t2, 3)));
    assert(t2[2] == '-');
    assert(has_no_backslash(plain_from(t2, 2)));
    assert(t2[1] == ' ');
    assert(has_no_backslash(plain_from(t2, 1)));
    assert(t2[0] == 'x');
    assert(has_no_backslash(plain_from(t2, 0)));
    assert(s[177] == '{');
    assert(group_close(s, 184, 1) == 184);
    assert(group_close(s, 183, 1) == 184);
    assert(group_close(s, 182, 1) == 184);
    assert(group_close(s, 181, 1) == 184);
    assert(group_close(s, 180, 1) == 184);
    assert(group_close(s, 179, 1) == 184);
    assert(group_close(s, 178, 1) == 184);
    let t4 = s.subrange(178, 184);
    assert(t4.len() == 6);
    assert(plain_from(t4, 6).len() == 0);
    assert(t4[0] == '\\');
    assert(alpha_end(t4, 6) == 6);
    assert(alpha_end(t4, 5) == 6);
    assert(alpha_end(t4, 4) == 6);
    assert(alpha_end(t4, 3) == 6);
    assert(alpha_end(t4, 2) == 6);
    assert(alpha_end(t4, 1) == 6);
    let t5 = t4.subrange(1, 6);
    assert(t5.len() == 5 && t5[0] == 's' && t5[1] == 'i' && t5[2] == 'g' && t5[3] == 'm' && t5[4] == 'a');
    assert(t5 =~= "sigma"@);
    lemma_latex_symbol_sigma(t5);
    assert(has_no_backslash(plain_from(t4, 0)));
    assert(has_no_backslash(plain_from(s, 163)));
    assert(s[162] == ' ');
    assert(has_no_backslash(plain_from(s, 162)));
    assert(s[161] == '-');
    assert(has_no_backslash(plain_from(s, 161)));
    assert(s[160] == ' ');
    assert(has_no_backslash(plain_from(s, 160)));
    assert(s[139] == '\\');
    assert(alpha_end(s, 144) == 144);
    assert(alpha_end(s, 143) == 144);
    assert(alpha_end(s, 142) == 144);
    assert(alpha_end(s, 141) == 144);
    assert(alpha_end(s, 140) == 144);
    let t6 = s.subrange(140, 144);
    assert(t6.len() == 4 && t6[0] == 'f' && t6[1] == 'r' && t6[2] == 'a' && t6[3] == 'c');
    assert(t6 =~= "frac"@);
    assert(s[144] == '{');
    assert(group_close(s, 151, 1) == 151);
    assert(group_close(s, 150, 1) == 151);
    assert(group_close(s, 149, 1) == 151);
    assert(group_close(s, 148, 1) == 151);
    assert(group_close(s, 147, 1) == 151);
    assert(group_close(s, 146, 1) == 151);
    assert(group_close(s, 145, 1) == 151);
    let t7 = s.subrange(145, 151);
    assert(t7.len() == 6);
    assert(plain_from(t7, 6).len() == 0);
    assert(t7[0] == '\\');
    assert(alpha_end(t7, 6) == 6);
    assert(alpha_end(t7, 5) == 6);
    assert(alpha_end(t7, 4) == 6);
    assert(alpha_end(t7, 3) == 6);
    assert(alpha_end(t7, 2) == 6);
    assert(alpha_end(t7, 1) == 6);
    let t8 = t7.subrange(1, 6);
    assert(t8.len() == 5 && t8[0] == 's' && t8[1] == 'i' && t8[2] == 'g' && t8[3] == 'm' && t8[4] == 'a');
    assert(t8 =~= "sigma"@);
    lemma_latex_symbol_sigma(t8);
    assert(has_no_backslash(plain_from(t7, 0)));
    assert(s[152] == '{');
    assert(group_close(s, 159, 1) == 159);
    assert(group_close(s, 158, 1) == 159);
    assert(group_close(s, 157, 1) == 159);
    assert(group_close(s, 156, 1) == 159);
    assert(group_close(s, 155, 1) == 159);
    assert(group_close(s, 154, 1) == 159);
    assert(group_close(s, 153, 1) == 159);
    let t9 = s.subrange(153, 159);
    assert(t9.len() == 6);
    assert(plain_from(t9, 6).len() == 0);
    assert(t9[5] == '|');
    assert(has_no_backslash(plain_from(t9, 5)));
    assert(t9[1] == '\\');
    assert(alpha_end(t9, 5) == 5);
    assert(alpha_end(t9, 4) == 5);
    assert(alpha_end(t9, 3) == 5);
    assert(alpha_end(t9, 2) == 5);
    let t10 = t9.subrange(2, 5);
    assert(t10.len() == 3 && t10[0] == 't' && t10[1] == 'a' && t10[2] == 'u');
    assert(t10 =~= "tau"@);
    lemma_latex_symbol_tau(t10);
    assert(has_no_backslash(plain_from(t9, 1)));
    assert(t9[0] == '|');
    assert(has_no_backslash(plain_from(t9, 0)));
    assert(has_no_backslash(plain_from(s, 139)));
    assert(s[138] == '(');
    assert(has_no_backslash(plain_from(s, 138)));
    assert(s[120] == '\\');
    assert(alpha_end(s, 125) == 125);
    assert(alpha_end(s, 124) == 125);
    assert(alpha_end(s, 123) == 125);
    assert(alpha_end(s, 122) == 125);
    assert(alpha_end(s, 121) == 125);
    let t11 = s.subrange(121, 125);
    assert(t11.len() == 4 && t11[0] == 'f' && t11[1] == 'r' && t11[2] == 'a' && t11[3] == 'c');
    assert(t11 =~= "frac"@);
    assert(s[125] == '{');
    assert(group_close(s, 127, 1) == 127);
    assert(group_close(s, 126, 1) == 127);
    let t12 = s.subrange(126, 127);
    assert(t12.len() == 1);
    assert(plain_from(t12, 1).len() == 0);
    assert(t12[0] == '1');
    assert(has_no_backslash(plain_from(t12, 0)));
    assert(s[128] == '{');
    assert(group_close(s, 137, 1) == 137);
    assert(group_close(s, 136, 2) == 137);
    assert(group_close(s, 135, 2) == 137);
    assert(group_close(s, 134, 1) == 137);
    assert(group_close(s, 133, 1) == 137);
    assert(group_close(s, 132, 1) == 137);
    assert(group_close(s, 131, 1) == 137);
    assert(group_close(s, 130, 1) == 137);
    assert(group_close(s, 129, 1) == 137);
    let t13 = s.subrange(129, 137);
    assert(t13.len() == 8);
    assert(plain_from(t13, 8).len() == 0);
    assert(t13[0] == '\\');
    assert(alpha_end(t13, 5) == 5);
    assert(alpha_end(t13, 4) == 5);
    assert(alpha_end(t13, 3) == 5);
    assert(alpha_end(t13, 2) == 5);
    assert(alpha_end(t13, 1) == 5);
    let t14 = t13.subrange(1, 5);
    assert(t14.len() == 4 && t14[0] == 's' && t14[1] == 'q' && t14[2] == 'r' && t14[3] == 't');
    assert(t14 =~= "sqrt"@);
    assert(t13[5] == '{');
    assert(group_close(t13, 7, 1) == 7);
    assert(group_close(t13, 6, 1) == 7);
    let t15 = t13.subrange(6, 7);
    assert(t15.len() == 1);
    assert(plain_from(t15, 1).len() == 0);
    assert(t15[0] == '2');
    assert(has_no_backslash(plain_from(t15, 0)));
    assert(has_no_backslash(plain_from(t13, 0)));
    assert(has_no_backslash(plain_from(s, 120)));
    assert(s[119] == '(');
    assert(has_no_backslash(plain_from(s, 119)));
    assert(s[108] == '\\');
    assert(alpha_end(s, 113) == 113);
    assert(alpha_end(s, 112) == 113);
    assert(alpha_end(s, 111) == 113);
    assert(alpha_end(s, 110) == 113);
    assert(alpha_end(s, 109) == 113);
    let t16 = s.subrange(109, 113);
    assert(t16.len() == 4 && t16[0] == 't' && t16[1] == 'e' && t16[2] == 'x' && t16[3] == 't');
    assert(t16 =~= "text"@);
    assert(s[113] == '{');
    assert(group_close(s, 118, 1) == 118);
    assert(group_close(s, 117, 1) == 118);
    assert(group_close(s, 116, 1) == 118);
    assert(group_close(s, 115, 1) == 118);
    assert(group_close(s, 114, 1) == 118);
    let t17 = s.subrange(114, 118);
    assert(t17.len() == 4);
    assert(plain_from(t17, 4).len() == 0);
    assert(t17[3] == 'c');
    assert(has_no_backslash(plain_from(t17, 3)));
    assert(t17[2] == 'f');
    assert(has_no_backslash(plain_from(t17, 2)));
    assert(t17[1] == 'r');
    assert(has_no_backslash(plain_from(t17, 1)));
    assert(t17[0] == 'e');
    assert(has_no_backslash(plain_from(t17, 0)));
    assert(has_no_backslash(plain_from(s, 108)));
    assert(s[107] == ' ');
    assert(has_no_backslash(plain_from(s, 107)));
    assert(s[102] == '\\');
    assert(alpha_end(s, 107) == 107);
    assert(alpha_end(s, 106) == 107);
    assert(alpha_end(s, 105) == 107);
    assert(alpha_end(s, 104) == 107);
    assert(alpha_end(s, 103) == 107);
    let t18 = s.subrange(103, 107);
    assert(t18.len() == 4 && t18[0] == 'c' && t18[1] == 'd' && t18[2] == 'o' && t18[3] == 't');
    assert(t18 =~= "cdot"@);
    lemma_latex_symbol_cdot(t18);
    assert(has_no_backslash(plain_from(s, 102)));
    assert(s[101] == ' ');
    assert(has_no_backslash(plain_from(s, 101)));
    assert(s[100] == ')');
    assert(has_no_backslash(plain_from(s, 100)));
    assert(s[80] == '\\');
    assert(alpha_end(s, 85) == 85);
    assert(alpha_end(s, 84) == 85);
    assert(alpha_end(s, 83) == 85);
    assert(alpha_end(s, 82) == 85);
    assert(alpha_end(s, 81) == 85);
    let t19 = s.subrange(81, 85);
    assert(t19.len() == 4 && t19[0] == 'f' && t19[1] == 'r' && t19[2] == 'a' && t19[3] == 'c');
    assert(t19 =~= "frac"@);
    assert(s[85] == '{');
    assert(group_close(s, 93, 1) == 93);
    assert(group_close(s, 92, 1) == 93);
    assert(group_close(s, 91, 1) == 93);
    assert(group_close(s, 90, 1) == 93);
    assert(group_close(s, 89, 1) == 93);
    assert(group_close(s, 88, 1) == 93);
    assert(group_close(s, 87, 1) == 93);
    assert(group_close(s, 86, 1) == 93);
    let t20 = s.subrange(86, 93);
    assert(t20.len() == 7);
    assert(plain_from(t20, 7).len() == 0);
    assert(t20[4] == '\\');
    assert(alpha_end(t20, 7) == 7);
    assert(alpha_end(t20, 6) == 7);
    assert(alpha_end(t20, 5) == 7);
    let t21 = t20.subrange(5, 7);
    assert(t21.len() == 2 && t21[0] == 'm' && t21[1] == 'u');
    assert(t21 =~= "mu"@);
    lemma_latex_symbol_mu(t21);
    assert(has_no_backslash(plain_from(t20, 4)));
    assert(t20[3] == ' ');
    assert(has_no_backslash(plain_from(t20, 3)));
    assert(t20[2] == '-');
    assert(has_no_backslash(plain_from(t20, 2)));
    assert(t20[1] == ' ');
    assert(has_no_backslash(plain_from(t20, 1)));
    assert(t20[0] == 'x');
    assert(has_no_backslash(plain_from(t20, 0)));
    assert(s[94] == '{');
    assert(group_close(s, 99, 1) == 99);
    assert(group_close(s, 98, 1) == 99);
    assert(group_close(s, 97, 1) == 99);
    assert(group_close(s, 96, 1) == 99);
    assert(group_close(s, 95, 1) == 99);
    let t22 = s.subrange(95, 99);
    assert(t22.len() == 4);
    assert(plain_from(t22, 4).len() == 0);
    assert(t22[0] == '\\');
    assert(alpha_end(t22, 4) == 4);
    assert(alpha_end(t22, 3) == 4);
    assert(alpha_end(t22, 2) == 4);
    assert(alpha_end(t22, 1) == 4);
    let t23 = t22.subrange(1, 4);
    assert(t23.len() == 3 && t23[0] == 't' && t23[1] == 'a' && t23[2] == 'u');
    assert(t23 =~= "tau"@);
    lemma_latex_symbol_tau(t23);
    assert(has_no_backslash(plain_from(t22, 0)));
    assert(has_no_backslash(plain_from(s, 80)));
    assert(s[79] == ' ');
    assert(has_no_backslash(plain_from(s, 79)));
    assert(s[78] == '-');
    assert(has_no_backslash(plain_from(s, 78)));
    assert(s[77] == ' ');
    assert(has_no_backslash(plain_from(s, 77)));
    assert(s[42] == '\\');
    assert(alpha_end(s, 47) == 47);
    assert(alpha_end(s, 46) == 47);
    assert(alpha_end(s, 45) == 47);
    assert(alpha_end(s, 44) == 47);
    assert(alpha_end(s, 43) == 47);
    let t24 = s.subrange(43, 47);
    assert(t24.len() == 4 && t24[0] == 'f' && t24[1] == 'r' && t24[2] == 'a' && t24[3] == 'c');
    assert(t24 =~= "frac"@);
    assert(s[47] == '{');
    assert(group_close(s, 58, 1) == 58);
    assert(group_close(s, 57, 2) == 58);
    assert(group_close(s, 56, 2) == 58);
    assert(group_close(s, 55, 1) == 58);
    assert(group_close(s, 54, 1) == 58);
    assert(group_close(s, 53, 1) == 58);
    assert(group_close(s, 52, 1) == 58);
    assert(group_close(s, 51, 1) == 58);
    assert(group_close(s, 50, 1) == 58);
    assert(group_close(s, 49, 1) == 58);
    assert(group_close(s, 48, 1) == 58);
    let t25 = s.subrange(48, 58);
    assert(t25.len() == 10);
    assert(plain_from(t25, 10).len() == 0);
    assert(t25[6] == '^');
    assert(t25[7] == '{');
    assert(group_close(t25, 9, 1) == 9);
    assert(group_close(t25, 8, 1) == 9);
    let t26 = t25.subrange(8, 9);
    assert(t26.len() == 1);
    assert(plain_from(t26, 1).len() == 0);
    assert(t26[0] == '2');
    assert(has_no_backslash(plain_from(t26, 0)));
    assert(has_no_backslash(plain_from(t25, 6)));
    assert(t25[0] == '\\');
    assert(alpha_end(t25, 6) == 6);
    assert(alpha_end(t25, 5) == 6);
    assert(alpha_end(t25, 4) == 6);
    assert(alpha_end(t25, 3) == 6);
    assert(alpha_end(t25, 2) == 6);
    assert(alpha_end(t25, 1) == 6);
    let t27 = t25.subrange(1, 6);
    assert(t27.len() == 5 && t27[0] == 's' && t27[1] == 'i' && t27[2] == 'g' && t27[3] == 'm' && t27[4] == 'a');
    assert(t27 =~= "sigma"@);
    lemma_latex_symbol_sigma(t27);
    assert(has_no_backslash(plain_from(t25, 0)));
    assert(s[59] == '{');
    assert(group_close(s, 76, 1) == 76);
    assert(group_close(s, 75, 2) == 76);
    assert(group_close(s, 74, 2) == 76);
    assert(group_close(s, 73, 1) == 76);
    assert(group_close(s, 72, 1) == 76);
    assert(group_close(s, 71, 1) == 76);
    assert(group_close(s, 70, 1) == 76);
    assert(group_close(s, 69, 1) == 76);
    assert(group_close(s, 68, 1) == 76);
    assert(group_close(s, 67, 1) == 76);
    assert(group_close(s, 66, 1) == 76);
    assert(group_close(s, 65, 1) == 76);
    assert(group_close(s, 64, 1) == 76);
    assert(group_close(s, 63, 1) == 76);
    assert(group_close(s, 62, 1) == 76);
    assert(group_close(s, 61, 1) == 76);
    assert(group_close(s, 60, 1) == 76);
    let t28 = s.subrange(60, 76);
    assert(t28.len() == 16);
    assert(plain_from(t28, 16).len() == 0);
    assert(t28[12] == '^');
    assert(t28[13] == '{');
    assert(group_close(t28, 15, 1) == 15);
    assert(group_close(t28, 14, 1) == 15);
    let t29 = t28.subrange(14, 15);
    assert(t29.len() == 1);
    assert(plain_from(t29, 1).len() == 0);
    assert(t29[0] == '2');
    assert(has_no_backslash(plain_from(t29, 0)));
    assert(has_no_backslash(plain_from(t28, 12)));
    assert(t28[8] == '\\');
    assert(alpha_end(t28, 12) == 12);
    assert(alpha_end(t28, 11) == 12);
    assert(alpha_end(t28, 10) == 12);
    assert(alpha_end(t28, 9) == 12);
    let t30 = t28.subrange(9, 12);
    assert(t30.len() == 3 && t30[0] == 't' && t30[1] == 'a' && t30[2] == 'u');
    assert(t30 =~= "tau"@);
    lemma_latex_symbol_tau(t30);
    assert(has_no_backslash(plain_from(t28, 8)));
    assert(t28[7] == ' ');
    assert(has_no_backslash(plain_from(t28, 7)));
    assert(t28[2] == '\\');
    assert(alpha_end(t28, 7) == 7);
    assert(alpha_end(t28, 6) == 7);
    assert(alpha_end(t28, 5) == 7);
    assert(alpha_end(t28, 4) == 7);
    assert(alpha_end(t28, 3) == 7);
    let t31 = t28.subrange(3, 7);
    assert(t31.len() == 4 && t31[0] == 'c' && t31[1] == 'd' && t31[2] == 'o' && t31[3] == 't');
    assert(t31 =~= "cdot"@);
    lemma_latex_symbol_cdot(t31);
    assert(has_no_backslash(plain_from(t28, 2)));
    assert(t28[1] == ' ');
    assert(has_no_backslash(plain_from(t28, 1)));
    assert(t28[0] == '2');
    assert(has_no_backslash(plain_from(t28, 0)));
    assert(has_no_backslash(plain_from(s, 42)));
    assert(s[41] == '(');
    assert(has_no_backslash(plain_from(s, 41)));
    assert(s[37] == '\\');
    assert(alpha_end(s, 41) == 41);
    assert(alpha_end(s, 40) == 41);
    assert(alpha_end(s, 39) == 41);
    assert(alpha_end(s, 38) == 41);
    let t32 = s.subrange(38, 41);
    assert(t32.len() == 3 && t32[0] == 'e' && t32[1] == 'x' && t32[2] == 'p');
    assert(t32 =~= "exp"@);
    lemma_latex_symbol_exp(t32);
    assert(has_no_backslash(plain_from(s, 37)));
    assert(s[36] == ' ');
    assert(has_no_backslash(plain_from(s, 36)));
    assert(s[31] == '\\');
    assert(alpha_end(s, 36) == 36);
    assert(alpha_end(s, 35) == 36);
    assert(alpha_end(s, 34) == 36);
    assert(alpha_end(s, 33) == 36);
    assert(alpha_end(s, 32) == 36);
    let t33 = s.subrange(32, 36);
    assert(t33.len() == 4 && t33[0] == 'c' && t33[1] == 'd' && t33[2] == 'o' && t33[3] == 't');
    assert(t33 =~= "cdot"@);
    lemma_latex_symbol_cdot(t33);
    assert(has_no_backslash(plain_from(s, 31)));
    assert(s[30] == ' ');
    assert(has_no_backslash(plain_from(s, 30)));
    assert(s[8] == '\\');
    assert(alpha_end(s, 13) == 13);
    assert(alpha_end(s, 12) == 13);
    assert(alpha_end(s, 11) == 13);
    assert(alpha_end(s, 10) == 13);
    assert(alpha_end(s, 9) == 13);
    let t34 = s.subrange(9, 13);
    assert(t34.len() == 4 && t34[0] == 'f' && t34[1] == 'r' && t34[2] == 'a' && t34[3] == 'c');
    assert(t34 =~= "frac"@);
    assert(s[13] == '{');
    assert(group_close(s, 15, 1) == 15);
    assert(group_close(s, 14, 1) == 15);
    let t35 = s.subrange(14, 15);
    assert(t35.len() == 1);
    assert(plain_from(t35, 1).len() == 0);
    assert(t35[0] == 'a');
    assert(has_no_backslash(plain_from(t35, 0)));
    assert(s[16] == '{');
    assert(group_close(s, 29, 1) == 29);
    assert(group_close(s, 28, 1) == 29);
    assert(group_close(s, 27, 1) == 29);
    assert(group_close(s, 26, 1) == 29);
    assert(group_close(s, 25, 1) == 29);
    assert(group_close(s, 24, 1) == 29);
    assert(group_close(s, 23, 1) == 29);
    assert(group_close(s, 22, 1) == 29);
    assert(group_close(s, 21, 1) == 29);
    assert(group_close(s, 20, 1) == 29);
    assert(group_close(s, 19, 1) == 29);
    assert(group_close(s, 18, 1) == 29);
    assert(group_close(s, 17, 1) == 29);
    let t36 = s.subrange(17, 29);
    assert(t36.len() == 12);
    assert(plain_from(t36, 12).len() == 0);
    assert(t36[8] == '\\');
    assert(alpha_end(t36, 12) == 12);
    assert(alpha_end(t36, 11) == 12);
    assert(alpha_end(t36, 10) == 12);
    assert(alpha_end(t36, 9) == 12);
    let t37 = t36.subrange(9, 12);
    assert(t37.len() == 3 && t37[0] == 't' && t37[1] == 'a' && t37[2] == 'u');
    assert(t37 =~= "tau"@);
    lemma_latex_symbol_tau(t37);
    assert(has_no_backslash(plain_from(t36, 8)));
    assert(t36[7] == ' ');
    assert(has_no_backslash(plain_from(t36, 7)));
    assert(t36[2] == '\\');
    assert(alpha_end(t36, 7) == 7);
    assert(alpha_end(t36, 6) == 7);
    assert(alpha_end(t36, 5) == 7);
    assert(alpha_end(t36, 4) == 7);
    assert(alpha_end(t36, 3) == 7);
    let t38 = t36.subrange(3, 7);
    assert(t38.len() == 4 && t38[0] == 'c' && t38[1] == 'd' && t38[2] == 'o' && t38[3] == 't');
    assert(t38 =~= "cdot"@);
    lemma_latex_symbol_cdot(t38);
    assert(has_no_backslash(plain_from(t36, 2)));
    assert(t36[1] == ' ');
    assert(has_no_backslash(plain_from(t36, 1)));
    assert(t36[0] == '2');
    assert(has_no_backslash(plain_from(t36, 0)));
    assert(has_no_backslash(plain_from(s, 8)));
    assert(s[7] == ' ');
    assert(has_no_backslash(plain_from(s, 7)));
    assert(s[6] == '+');
    assert(has_no_backslash(plain_from(s, 6)));
    assert(s[5] == ' ');
    assert(has_no_backslash(plain_from(s, 5)));
    assert(s[4] == 'c');
    assert(has_no_backslash(plain_from(s, 4)));
    assert(s[3] == ' ');
    assert(has_no_backslash(plain_from(s, 3)));
    assert(s[2] == '=');
    assert(has_no_backslash(plain_from(s, 2)));
    assert(s[1] == ' ');
    assert(has_no_backslash(plain_from(s, 1)));
    assert(s[0] == 'y');
    assert(has_no_backslash(plain_from(s, 0)));
}

#[verifier::rlimit(100)]
#[verifier::spinoff_prover]
proof fn lemma_linear_spline_plain_text_is_clean()
    ensures
        has_no_backslash(spec_latex_to_plain_text("y(x) = y_{i} + \\frac{y_{i+1} - y_{i}}{x_{i+1} - x_{i}} \\cdot (x - x_{i})"@)),
{
    reveal_strlit("y(x) = y_{i} + \\frac{y_{i+1} - y_{i}}{x_{i+1} - x_{i}} \\cdot (x - x_{i})");
    reveal_strlit("begin");
    reveal_strlit("cdot");
    reveal_strlit("end");
    reveal_strlit("frac");
    reveal_strlit("quad");
    reveal_strlit("sqrt");
    reveal_strlit("text");
    let s = "y(x) = y_{i} + \\frac{y_{i+1} - y_{i}}{x_{i+1} - x_{i}} \\cdot (x - x_{i})"@;
    assert(s.len() == 72);
    assert(plain_from(s, 72).len() == 0);
    assert(s[71] == ')');
    assert(has_no_backslash(plain_from(s, 71)));
    assert(s[67] == '_');
    assert(s[68] == '{');
    assert(group_close(s, 70, 1) == 70);
    assert(group_close(s, 69, 1) == 70);
    let t1 = s.subrange(69, 70);
    assert(t1.len() == 1);
    assert(plain_from(t1, 1).len() == 0);
    assert(t1[0] == 'i');
    assert(has_no_backslash(plain_from(t1, 0)));
    assert(has_no_backslash(plain_from(s, 67)));
    assert(s[66] == 'x');
    assert(has_no_backslash(plain_from(s, 66)));
    assert(s[65] == ' ');
    assert(has_no_backslash(plain_from(s, 65)));
    assert(s[64] == '-');
    assert(has_no_backslash(plain_from(s, 64)));
    assert(s[63] == ' ');
    assert(has_no_backslash(plain_from(s, 63)));
    assert(s[62] == 'x');
    assert(has_no_backslash(plain_from(s, 62)));
    assert(s[61] == '(');
    assert(has_no_backslash(plain_from(s, 61)));
    assert(s[60] == ' ');
    assert(has_no_backslash(plain_from(s, 60)));
    assert(s[55] == '\\');
    assert(alpha_end(s, 60) == 60);
    assert(alpha_end(s, 59) == 60);
    assert(alpha_end(s, 58) == 60);
    assert(alpha_end(s, 57) == 60);
    assert(alpha_end(s, 56) == 60);
    let t2 = s.subrange(56, 60);
    assert(t2.len() == 4 && t2[0] == 'c' && t2[1] == 'd' && t2[2] == 'o' && t2[3] == 't');
    assert(t2 =~= "cdot"@);
    lemma_latex_symbol_cdot(t2);
    assert(has_no_backslash(plain_from(s, 55)));
    assert(s[54] == ' ');
    assert(has_no_backslash(plain_from(s, 54)));
    assert(s[15] == '\\');
    assert(alpha_end(s, 20) == 20);
    assert(alpha_end(s, 19) == 20);
    assert(alpha_end(s, 18) == 20);
    assert(alpha_end(s, 17) == 20);
    assert(alpha_end(s, 16) == 20);
    let t3 = s.subrange(16, 20);
    assert(t3.len() == 4 && t3[0] == 'f' && t3[1] == 'r' && t3[2] == 'a' && t3[3] == 'c');
    assert(t3 =~= "frac"@);
    assert(s[20] == '{');
    assert(group_close(s, 36, 1) == 36);
    assert(group_close(s, 35, 2) == 36);
    assert(group_close(s, 34, 2) == 36);
    assert(group_close(s, 33, 1) == 36);
    assert(group_close(s, 32, 1) == 36);
    assert(group_close(s, 31, 1) == 36);
    assert(group_close(s, 30, 1) == 36);
    assert(group_close(s, 29, 1) == 36);
    assert(group_close(s, 28, 1) == 36);
    assert(group_close(s, 27, 2) == 36);
    assert(group_close(s, 26, 2) == 36);
    assert(group_close(s, 25, 2) == 36);
    assert(group_close(s, 24, 2) == 36);
    assert(group_close(s, 23, 1) == 36);
    assert(group_close(s, 22, 1) == 36);
    assert(group_close(s, 21, 1) == 36);
    let t4 = s.subrange(21, 36);
    assert(t4.len() == 15);
    assert(plain_from(t4, 15).len() == 0);
    assert(t4[11] == '_');
    assert(t4[12] == '{');
    assert(group_close(t4, 14, 1) == 14);
    assert(group_close(t4, 13, 1) == 14);
    let t5 = t4.subrange(13, 14);
    assert(t5.len() == 1);
    assert(plain_from(t5, 1).len() == 0);
    assert(t5[0] == 'i');
    assert(has_no_backslash(plain_from(t5, 0)));
    assert(has_no_backslash(plain_from(t4, 11)));
    assert(t4[10] == 'y');
    assert(has_no_backslash(plain_from(t4, 10)));
    assert(t4[9] == ' ');
    assert(has_no_backslash(plain_from(t4, 9)));
    assert(t4[8] == '-');
    assert(has_no_backslash(plain_from(t4, 8)));
    assert(t4[7] == ' ');
    assert(has_no_backslash(plain_from(t4, 7)));
    assert(t4[1] == '_');
    assert(t4[2] == '{');
    assert(group_close(t4, 6, 1) == 6);
    assert(group_close(t4, 5, 1) == 6);
    assert(group_close(t4, 4, 1) == 6);
    assert(group_close(t4, 3, 1) == 6);
    let t6 = t4.subrange(3, 6);
    assert(t6.len() == 3);
    assert(plain_from(t6, 3).len() == 0);
    assert(t6[2] == '1');
    assert(has_no_backslash(plain_from(t6, 2)));
    assert(t6[1] == '+');
    assert(has_no_backslash(plain_from(t6, 1)));
    assert(t6[0] == 'i');
    assert(has_no_backslash(plain_from(t6, 0)));
    assert(has_no_backslash(plain_from(t4, 1)));
    assert(t4[0] == 'y');
    assert(has_no_backslash(plain_from(t4, 0)));
    assert(s[37] == '{');
    assert(group_close(s, 53, 1) == 53);
    assert(group_close(s, 52, 2) == 53);
    assert(group_close(s, 51, 2) == 53);
    assert(group_close(s, 50, 1) == 53);
    assert(group_close(s, 49, 1) == 53);
    assert(group_close(s, 48, 1) == 53);
    assert(group_close(s, 47, 1) == 53);
    assert(group_close(s, 46, 1) == 53);
    assert(group_close(s, 45, 1) == 53);
    assert(group_close(s, 44, 2) == 53);
    assert(group_close(s, 43, 2) == 53);
    assert(group_close(s, 42, 2) == 53);
    assert(group_close(s, 41, 2) == 53);
    assert(group_close(s, 40, 1) == 53);
    assert(group_close(s, 39, 1) == 53);
    assert(group_close(s, 38, 1) == 53);
    let t7 = s.subrange(38, 53);
    assert(t7.len() == 15);
    assert(plain_from(t7, 15).len() == 0);
    assert(t7[11] == '_');
    assert(t7[12] == '{');
    assert(group_close(t7, 14, 1) == 14);
    assert(group_close(t7, 13, 1) == 14);
    let t8 = t7.subrange(13, 14);
    assert(t8.len() == 1);
    assert(plain_from(t8, 1).len() == 0);
    assert(t8[0] == 'i');
    assert(has_no_backslash(plain_from(t8, 0)));
    assert(has_no_backslash(plain_from(t7, 11)));
    assert(t7[10] == 'x');
    assert(has_no_backslash(plain_from(t7, 10)));
    assert(t7[9] == ' ');
    assert(has_no_backslash(plain_from(t7, 9)));
    assert(t7[8] == '-');
    assert(has_no_backslash(plain_from(t7, 8)));
    assert(t7[7] == ' ');
    assert(has_no_backslash(plain_from(t7, 7)));
    assert(t7[1] == '_');
    assert(t7[2] == '{');
    assert(group_close(t7, 6, 1) == 6);
    assert(group_close(t7, 5, 1) == 6);
    assert(group_close(t7, 4, 1) == 6);
    assert(group_close(t7, 3, 1) == 6);
    let t9 = t7.subrange(3, 6);
    assert(t9.len() == 3);
    assert(plain_from(t9, 3).len() == 0);
    assert(t9[2] == '1');
    assert(has_no_backslash(plain_from(t9, 2)));
    assert(t9[1] == '+');
    assert(has_no_backslash(plain_from(t9, 1)));
    assert(t9[0] == 'i');
    assert(has_no_backslash(plain_from(t9, 0)));
    assert(has_no_backslash(plain_from(t7, 1)));
    assert(t7[0] == 'x');
    assert(has_no_backslash(plain_from(t7, 0)));
    assert(has_no_backslash(plain_from(s, 15)));
    assert(s[14] == ' ');
    assert(has_no_backslash(plain_from(s, 14)));
    assert(s[13] == '+');
    assert(has_no_backslash(plain_from(s, 13)));
    assert(s[12] == ' ');
    assert(has_no_backslash(plain_from(s, 12)));
    assert(s[8] == '_');
    assert(s[9] == '{');
    assert(group_close(s, 11, 1) == 11);
    assert(group_close(s, 10, 1) == 11);
    let t10 = s.subrange(10, 11);
    assert(t10.len() == 1);
    assert(plain_from(t10, 1).len() == 0);
    assert(t10[0] == 'i');
    assert(has_no_backslash(plain_from(t10, 0)));
    assert(has_no_backslash(plain_from(s, 8)));
    assert(s[7] == 'y');
    assert(has_no_backslash(plain_from(s, 7)));
    assert(s[6] == ' ');
    assert(has_no_backslash(plain_from(s, 6)));
    assert(s[5] == '=');
    assert(has_no_backslash(plain_from(s, 5)));
    assert(s[4] == ' ');
    assert(has_no_backslash(plain_from(s, 4)));
    assert(s[3] == ')');
    assert(has_no_backslash(plain_from(s, 3)));
    assert(s[2] == 'x');
    assert(has_no_backslash(plain_from(s, 2)));
    assert(s[1] == '(');
    assert(has_no_backslash(plain_from(s, 1)));
    assert(s[0] == 'y');
    assert(has_no_backslash(plain_from(s, 0)));
}

#[verifier::rlimit(100)]
#[verifier::spinoff_prover]
proof fn lemma_monotone_cubic_spline_plain_text_is_clean()
    ensures
        has_no_backslash(spec_latex_to_plain_text("y(x) = \\text{Hermite}(y_{i}, y_{i+1}, m_{i}, m_{i+1}), m_{i} \\text{ by Fritsch-Carlson}"@)),
{
    reveal_strlit("y(x) = \\text{Hermite}(y_{i}, y_{i+1}, m_{i}, m_{i+1}), m_{i} \\text{ by Fritsch-Carlson}");
    reveal_strlit("begin");
    reveal_strlit("end");
    reveal_strlit("frac");
    reveal_strlit("quad");
    reveal_strlit("sqrt");
    reveal_strlit("text");
    let s = "y(x) = \\text{Hermite}(y_{i}, y_{i+1}, m_{i}, m_{i+1}), m_{i} \\text{ by Fritsch-Carlson}"@;
    assert(s.len() == 87);
    assert(plain_from(s, 87).len() == 0);
    assert(s[61] == '\\');
    assert(alpha_end(s, 66) == 66);
    assert(alpha_end(s, 65) == 66);
    assert(alpha_end(s, 64) == 66);
    assert(alpha_end(s, 63) == 66);
    assert(alpha_end(s, 62) == 66);
    let t1 = s.subrange(62, 66);
    assert(t1.len() == 4 && t1[0] == 't' && t1[1] == 'e' && t1[2] == 'x' && t1[3] == 't');
    assert(t1 =~= "text"@);
    assert(s[66] == '{');
    assert(group_close(s, 86, 1) == 86);
    assert(group_close(s, 85, 1) == 86);
    assert(group_close(s, 84, 1) == 86);
    assert(group_close(s, 83, 1) == 86);
    assert(group_close(s, 82, 1) == 86);
    assert(group_close(s, 81, 1) == 86);
    assert(group_close(s, 80, 1) == 86);
    assert(group_close(s, 79, 1) == 86);
    assert(group_close(s, 78, 1) == 86);
    assert(group_close(s, 77, 1) == 86);
    assert(group_close(s, 76, 1) == 86);
    assert(group_close(s, 75, 1) == 86);
    assert(group_close(s, 74, 1) == 86);
    assert(group_close(s, 73, 1) == 86);
    assert(group_close(s, 72, 1) == 86);
    assert(group_close(s, 71, 1) == 86);
    assert(group_close(s, 70, 1) == 86);
    assert(group_close(s, 69, 1) == 86);
    assert(group_close(s, 68, 1) == 86);
    assert(group_close(s, 67, 1) == 86);
    let t2 = s.subrange(67, 86);
    assert(t2.len() == 19);
    assert(plain_from(t2, 19).len() == 0);
    assert(t2[18] == 'n');
    assert(has_no_backslash(plain_from(t2, 18)));
    assert(t2[17] == 'o');
    assert(has_no_backslash(plain_from(t2, 17)));
    assert(t2[16] == 's');
    assert(has_no_backslash(plain_from(t2, 16)));
    assert(t2[15] == 'l');
    assert(has_no_backslash(plain_from(t2, 15)));
    assert(t2[14] == 'r');
    assert(has_no_backslash(plain_from(t2, 14)));
    assert(t2[13] == 'a');
    assert(has_no_backslash(plain_from(t2, 13)));
    assert(t2[12] == 'C');
    assert(has_no_backslash(plain_from(t2, 12)));
    assert(t2[11] == '-');
    assert(has_no_backslash(plain_from(t2, 11)));
    assert(t2[10] == 'h');
    assert(has_no_backslash(plain_from(t2, 10)));
    assert(t2[9] == 'c');
    assert(has_no_backslash(plain_from(t2, 9)));
    assert(t2[8] == 's');
    assert(has_no_backslash(plain_from(t2, 8)));
    assert(t2[7] == 't');
    assert(has_no_backslash(plain_from(t2, 7)));
    assert(t2[6] == 'i');
    assert(has_no_backslash(plain_from(t2, 6)));
    assert(t2[5] == 'r');
    assert(has_no_backslash(plain_from(t2, 5)));
    assert(t2[4] == 'F');
    assert(has_no_backslash(plain_from(t2, 4)));
    assert(t2[3] == ' ');
    assert(has_no_backslash(plain_from(t2, 3)));
    assert(t2[2] == 'y');
    assert(has_no_backslash(plain_from(t2, 2)));
    assert(t2[1] == 'b');
    assert(has_no_backslash(plain_from(t2, 1)));
    assert(t2[0] == ' ');
    assert(has_no_backslash(plain_from(t2, 0)));
    assert(has_no_backslash(plain_from(s, 61)));
    assert(s[60] == ' ');
    assert(has_no_backslash(plain_from(s, 60)));
    assert(s[56] == '_');
    assert(s[57] == '{');
    assert(group_close(s, 59, 1) == 59);
    assert(group_close(s, 58, 1) == 59);
    let t3 = s.subrange(58, 59);
    assert(t3.len() == 1);
    assert(plain_from(t3, 1).len() == 0);
    assert(t3[0] == 'i');
    assert(has_no_backslash(plain_from(t3, 0)));
    assert(has_no_backslash(plain_from(s, 56)));
    assert(s[55] == 'm');
    assert(has_no_backslash(plain_from(s, 55)));
    assert(s[54] == ' ');
    assert(has_no_backslash(plain_from(s, 54)));
    assert(s[53] == ',');
    assert(has_no_backslash(plain_from(s, 53)));
    assert(s[52] == ')');
    assert(has_no_backslash(plain_from(s, 52)));
    assert(s[46] == '_');
    assert(s[47] == '{');
    assert(group_close(s, 51, 1) == 51);
    assert(group_close(s, 50, 1) == 51);
    assert(group_close(s, 49, 1) == 51);
    assert(group_close(s, 48, 1) == 51);
    let t4 = s.subrange(48, 51);
    assert(t4.len() == 3);
    assert(plain_from(t4, 3).len() == 0);
    assert(t4[2] == '1');
    assert(has_no_backslash(plain_from(t4, 2)));
    assert(t4[1] == '+');
    assert(has_no_backslash(plain_from(t4, 1)));
    assert(t4[0] == 'i');
    assert(has_no_backslash(plain_from(t4, 0)));
    assert(has_no_backslash(plain_from(s, 46)));
    assert(s[45] == 'm');
    assert(has_no_backslash(plain_from(s, 45)));
    assert(s[44] == ' ');
    assert(has_no_backslash(plain_from(s, 44)));
    assert(s[43] == ',');
    assert(has_no_backslash(plain_from(s, 43)));
    assert(s[39] == '_');
    assert(s[40] == '{');
    assert(group_close(s, 42, 1) == 42);
    assert(group_close(s, 41, 1) == 42);
    let t5 = s.subrange(41, 42);
    assert(t5.len() == 1);
    assert(plain_from(t5, 1).len() == 0);
    assert(t5[0] == 'i');
    assert(has_no_backslash(plain_from(t5, 0)));
    assert(has_no_backslash(plain_from(s, 39)));
    assert(s[38] == 'm');
    assert(has_no_backslash(plain_from(s, 38)));
    assert(s[37] == ' ');
    assert(has_no_backslash(plain_from(s, 37)));
    assert(s[36] == ',');
    assert(has_no_backslash(plain_from(s, 36)));
    assert(s[30] == '_');
    assert(s[31] == '{');
    assert(group_close(s, 35, 1) == 35);
    assert(group_close(s, 34, 1) == 35);
    assert(group_close(s, 33, 1) == 35);
    assert(group_close(s, 32, 1) == 35);
    let t6 = s.subrange(32, 35);
    assert(t6.len() == 3);
    assert(plain_from(t6, 3).len() == 0);
    assert(t6[2] == '1');
    assert(has_no_backslash(plain_from(t6, 2)));
    assert(t6[1] == '+');
    assert(has_no_backslash(plain_from(t6, 1)));
    assert(t6[0] == 'i');
    assert(has_no_backslash(plain_from(t6, 0)));
    assert(has_no_backslash(plain_from(s, 30)));
    assert(s[29] == 'y');
    assert(has_no_backslash(plain_from(s, 29)));
    assert(s[28] == ' ');
    assert(has_no_backslash(plain_from(s, 28)));
    assert(s[27] == ',');
    assert(has_no_backslash(plain_from(s, 27)));
    assert(s[23] == '_');
    assert(s[24] == '{');
    assert(group_close(s, 26, 1) == 26);
    assert(group_close(s, 25, 1) == 26);
    let t7 = s.subrange(25, 26);
    assert(t7.len() == 1);
    assert(plain_from(t7, 1).len() == 0);
    assert(t7[0] == 'i');
    assert(has_no_backslash(plain_from(t7, 0)));
    assert(has_no_backslash(plain_from(s, 23)));
    assert(s[22] == 'y');
    assert(has_no_backslash(plain_from(s, 22)));
    assert(s[21] == '(');
    assert(has_no_backslash(plain_from(s, 21)));
    assert(s[7] == '\\');
    assert(alpha_end(s, 12) == 12);
    assert(alpha_end(s, 11) == 12);
    assert(alpha_end(s, 10) == 12);
    assert(alpha_end(s, 9) == 12);
    assert(alpha_end(s, 8) == 12);
    let t8 = s.subrange(8, 12);
    assert(t8.len() == 4 && t8[0] == 't' && t8[1] == 'e' && t8[2] == 'x' && t8[3] == 't');
    assert(t8 =~= "text"@);
    assert(s[12] == '{');
    assert(group_close(s, 20, 1) == 20);
    assert(group_close(s, 19, 1) == 20);
    assert(group_close(s, 18, 1) == 20);
    assert(group_close(s, 17, 1) == 20);
    assert(group_close(s, 16, 1) == 20);
    assert(group_close(s, 15, 1) == 20);
    assert(group_close(s, 14, 1) == 20);
    assert(group_close(s, 13, 1) == 20);
    let t9 = s.subrange(13, 20);
    assert(t9.len() == 7);
    assert(plain_from(t9, 7).len() == 0);
    assert(t9[6] == 'e');
    assert(has_no_backslash(plain_from(t9, 6)));
    assert(t9[5] == 't');
    assert(has_no_backslash(plain_from(t9, 5)));
    assert(t9[4] == 'i');
    assert(has_no_backslash(plain_from(t9, 4)));
    assert(t9[3] == 'm');
    assert(has_no_backslash(plain_from(t9, 3)));
    assert(t9[2] == 'r');
    assert(has_no_backslash(plain_from(t9, 2)));
    assert(t9[1] == 'e');
    assert(has_no_backslash(plain_from(t9, 1)));
    assert(t9[0] == 'H');
    assert(has_no_backslash(plain_from(t9, 0)));
    assert(has_no_backslash(plain_from(s, 7)));
    assert(s[6] == ' ');
    assert(has_no_backslash(plain_from(s, 6)));
    assert(s[5] == '=');
    assert(has_no_backslash(plain_from(s, 5)));
    assert(s[4] == ' ');
    assert(has_no_backslash(plain_from(s, 4)));
    assert(s[3] == ')');
    assert(has_no_backslash(plain_from(s, 3)));
    assert(s[2] == 'x');
    assert(has_no_backslash(plain_from(s, 2)));
    assert(s[1] == '(');
    assert(has_no_backslash(plain_from(s, 1)));
    assert(s[0] == 'y');
    assert(has_no_backslash(plain_from(s, 0)));
}

#[verifier::rlimit(100)]
#[verifier::spinoff_prover]
proof fn lemma_natural_cubic_spline_plain_text_is_clean()
    ensures
        has_no_backslash(spec_latex_to_plain_text("\\begin{aligned}\n            y(x) &= \\text{cubic spline}, \\\\\n            S''(x_{0}) &= S''(x_{n}) = 0\n            \\end{aligned}"@)),
{
    reveal_strlit("\\begin{aligned}\n            y(x) &= \\text{cubic spline}, \\\\\n            S''(x_{0}) &= S''(x_{n}) = 0\n            \\end{aligned}");
    reveal_strlit("begin");
    reveal_strlit("end");
    reveal_strlit("frac");
    reveal_strlit("quad");
    reveal_strlit("sqrt");
    reveal_strlit("text");
    let s = "\\begin{aligned}\n            y(x) &= \\text{cubic spline}, \\\\\n            S''(x_{0}) &= S''(x_{n}) = 0\n            \\end{aligned}"@;
    assert(s.len() == 126);
    assert(plain_from(s, 126).len() == 0);
    assert(s[113] == '\\');
    assert(alpha_end(s, 117) == 117);
    assert(alpha_end(s, 116) == 117);
    assert(alpha_end(s, 115) == 117);
    assert(alpha_end(s, 114) == 117);
    let t1 = s.subrange(114, 117);
    assert(t1.len() == 3 && t1[0] == 'e' && t1[1] == 'n' && t1[2] == 'd');
    assert(t1 =~= "end"@);
    assert(s[117] == '{');
    assert(group_close(s, 125, 1) == 125);
    assert(group_close(s, 124, 1) == 125);
    assert(group_close(s, 123, 1) == 125);
    assert(group_close(s, 122, 1) == 125);
    assert(group_close(s, 121, 1) == 125);
    assert(group_close(s, 120, 1) == 125);
    assert(group_close(s, 119, 1) == 125);
    assert(group_close(s, 118, 1) == 125);
    assert(has_no_backslash(plain_from(s, 113)));
    assert(s[112] == ' ');
    assert(has_no_backslash(plain_from(s, 112)));
    assert(s[111] == ' ');
    assert(has_no_backslash(plain_from(s, 111)));
    assert(s[110] == ' ');
    assert(has_no_backslash(plain_from(s, 110)));
    assert(s[109] == ' ');
    assert(has_no_backslash(plain_from(s, 109)));
    assert(s[108] == ' ');
    assert(has_no_backslash(plain_from(s, 108)));
    assert(s[107] == ' ');
    assert(has_no_backslash(plain_from(s, 107)));
    assert(s[106] == ' ');
    assert(has_no_backslash(plain_from(s, 106)));
    assert(s[105] == ' ');
    assert(has_no_backslash(plain_from(s, 105)));
    assert(s[104] == ' ');
    assert(has_no_backslash(plain_from(s, 104)));
    assert(s[103] == ' ');
    assert(has_no_backslash(plain_from(s, 103)));
    assert(s[102] == ' ');
    assert(has_no_backslash(plain_from(s, 102)));
    assert(s[101] == ' ');
    assert(has_no_backslash(plain_from(s, 101)));
    assert(s[100] == '\n');
    assert(has_no_backslash(plain_from(s, 100)));
    assert(s[99] == '0');
    assert(has_no_backslash(plain_from(s, 99)));
    assert(s[98] == ' ');
    assert(has_no_backslash(plain_from(s, 98)));
    assert(s[97] == '=');
    assert(has_no_backslash(plain_from(s, 97)));
    assert(s[96] == ' ');
    assert(has_no_backslash(plain_from(s, 96)));
    assert(s[95] == ')');
    assert(has_no_backslash(plain_from(s, 95)));
    assert(s[91] == '_');
    assert(s[92] == '{');
    assert(group_close(s, 94, 1) == 94);
    assert(group_close(s, 93, 1) == 94);
    let t2 = s.subrange(93, 94);
    assert(t2.len() == 1);
    assert(plain_from(t2, 1).len() == 0);
    assert(t2[0] == 'n');
    assert(has_no_backslash(plain_from(t2, 0)));
    assert(has_no_backslash(plain_from(s, 91)));
    assert(s[90] == 'x');
    assert(has_no_backslash(plain_from(s, 90)));
    assert(s[89] == '(');
    assert(has_no_backslash(plain_from(s, 89)));
    assert(s[88] == '\'');
    assert(has_no_backslash(plain_from(s, 88)));
    assert(s[87] == '\'');
    assert(has_no_backslash(plain_from(s, 87)));
    assert(s[86] == 'S');
    assert(has_no_backslash(plain_from(s, 86)));
    assert(s[85] == ' ');
    assert(has_no_backslash(plain_from(s, 85)));
    assert(s[84] == '=');
    assert(has_no_backslash(plain_from(s, 84)));
    assert(s[83] == '&');
    assert(has_no_backslash(plain_from(s, 83)));
    assert(s[82] == ' ');
    assert(has_no_backslash(plain_from(s, 82)));
    assert(s[81] == ')');
    assert(has_no_backslash(plain_from(s, 81)));
    assert(s[77] == '_');
    assert(s[78] == '{');
    assert(group_close(s, 80, 1) == 80);
    assert(group_close(s, 79, 1) == 80);
    let t3 = s.subrange(79, 80);
    assert(t3.len() == 1);
    assert(plain_from(t3, 1).len() == 0);
    assert(t3[0] == '0');
    assert(has_no_backslash(plain_from(t3, 0)));
    assert(has_no_backslash(plain_from(s, 77)));
    assert(s[76] == 'x');
    assert(has_no_backslash(plain_from(s, 76)));
    assert(s[75] == '(');
    assert(has_no_backslash(plain_from(s, 75)));
    assert(s[74] == '\'');
    assert(has_no_backslash(plain_from(s, 74)));
    assert(s[73] == '\'');
    assert(has_no_backslash(plain_from(s, 73)));
    assert(s[72] == 'S');
    assert(has_no_backslash(plain_from(s, 72)));
    assert(s[71] == ' ');
    assert(has_no_backslash(plain_from(s, 71)));
    assert(s[70] == ' ');
    assert(has_no_backslash(plain_from(s, 70)));
    assert(s[69] == ' ');
    assert(has_no_backslash(plain_from(s, 69)));
    assert(s[68] == ' ');
    assert(has_no_backslash(plain_from(s, 68)));
    assert(s[67] == ' ');
    assert(has_no_backslash(plain_from(s, 67)));
    assert(s[66] == ' ');
    assert(has_no_backslash(plain_from(s, 66)));
    assert(s[65] == ' ');
    assert(has_no_backslash(plain_from(s, 65)));
    assert(s[64] == ' ');
    assert(has_no_backslash(plain_from(s, 64)));
    assert(s[63] == ' ');
    assert(has_no_backslash(plain_from(s, 63)));
    assert(s[62] == ' ');
    assert(has_no_backslash(plain_from(s, 62)));
    assert(s[61] == ' ');
    assert(has_no_backslash(plain_from(s, 61)));
    assert(s[60] == ' ');
    assert(has_no_backslash(plain_from(s, 60)));
    assert(s[59] == '\n');
    assert(has_no_backslash(plain_from(s, 59)));
    assert(s[57] == '\\');
    assert(alpha_end(s, 58) == 58);
    assert(s[58] == '\\');
    assert(has_no_backslash(plain_from(s, 57)));
    assert(s[56] == ' ');
    assert(has_no_backslash(plain_from(s, 56)));
    assert(s[55] == ',');
    assert(has_no_backslash(plain_from(s, 55)));
    assert(s[36] == '\\');
    assert(alpha_end(s, 41) == 41);
    assert(alpha_end(s, 40) == 41);
    assert(alpha_end(s, 39) == 41);
    assert(alpha_end(s, 38) == 41);
    assert(alpha_end(s, 37) == 41);
    let t4 = s.subrange(37, 41);
    assert(t4.len() == 4 && t4[0] == 't' && t4[1] == 'e' && t4[2] == 'x' && t4[3] == 't');
    assert(t4 =~= "text"@);
    assert(s[41] == '{');
    assert(group_close(s, 54, 1) == 54);
    assert(group_close(s, 53, 1) == 54);
    assert(group_close(s, 52, 1) == 54);
    assert(group_close(s, 51, 1) == 54);
    assert(group_close(s, 50, 1) == 54);
    assert(group_close(s, 49, 1) == 54);
    assert(group_close(s, 48, 1) == 54);
    assert(group_close(s, 47, 1) == 54);
    assert(group_close(s, 46, 1) == 54);
    assert(group_close(s, 45, 1) == 54);
    assert(group_close(s, 44, 1) == 54);
    assert(group_close(s, 43, 1) == 54);
    assert(group_close(s, 42, 1) == 54);
    let t5 = s.subrange(42, 54);
    assert(t5.len() == 12);
    assert(plain_from(t5, 12).len() == 0);
    assert(t5[11] == 'e');
    assert(has_no_backslash(plain_from(t5, 11)));
    assert(t5[10] == 'n');
    assert(has_no_backslash(plain_from(t5, 10)));
    assert(t5[9] == 'i');
    assert(has_no_backslash(plain_from(t5, 9)));
    assert(t5[8] == 'l');
    assert(has_no_backslash(plain_from(t5, 8)));
    assert(t5[7] == 'p');
    assert(has_no_backslash(plain_from(t5, 7)));
    assert(t5[6] == 's');
    assert(has_no_backslash(plain_from(t5, 6)));
    assert(t5[5] == ' ');
    assert(has_no_backslash(plain_from(t5, 5)));
    assert(t5[4] == 'c');
    assert(has_no_backslash(plain_from(t5, 4)));
    assert(t5[3] == 'i');
    assert(has_no_backslash(plain_from(t5, 3)));
    assert(t5[2] == 'b');
    assert(has_no_backslash(plain_from(t5, 2)));
    assert(t5[1] == 'u');
    assert(has_no_backslash(plain_from(t5, 1)));
    assert(t5[0] == 'c');
    assert(has_no_backslash(plain_from(t5, 0)));
    assert(has_no_backslash(plain_from(s, 36)));
    assert(s[35] == ' ');
    assert(has_no_backslash(plain_from(s, 35)));
    assert(s[34] == '=');
    assert(has_no_backslash(plain_from(s, 34)));
    assert(s[33] == '&');
    assert(has_no_backslash(plain_from(s, 33)));
    assert(s[32] == ' ');
    assert(has_no_backslash(plain_from(s, 32)));
    assert(s[31] == ')');
    assert(has_no_backslash(plain_from(s, 31)));
    assert(s[30] == 'x');
    assert(has_no_backslash(plain_from(s, 30)));
    assert(s[29] == '(');
    assert(has_no_backslash(plain_from(s, 29)));
    assert(s[28] == 'y');
    assert(has_no_backslash(plain_from(s, 28)));
    assert(s[27] == ' ');
    assert(has_no_backslash(plain_from(s, 27)));
    assert(s[26] == ' ');
    assert(has_no_backslash(plain_from(s, 26)));
    assert(s[25] == ' ');
    assert(has_no_backslash(plain_from(s, 25)));
    assert(s[24] == ' ');
    assert(has_no_backslash(plain_from(s, 24)));
    assert(s[23] == ' ');
    assert(has_no_backslash(plain_from(s, 23)));
    assert(s[22] == ' ');
    assert(has_no_backslash(plain_from(s, 22)));
    assert(s[21] == ' ');
    assert(has_no_backslash(plain_from(s, 21)));
    assert(s[20] == ' ');
    assert(has_no_backslash(plain_from(s, 20)));
    assert(s[19] == ' ');
    assert(has_no_backslash(plain_from(s, 19)));
    assert(s[18] == ' ');
    assert(has_no_backslash(plain_from(s, 18)));
    assert(s[17] == ' ');
    assert(has_no_backslash(plain_from(s, 17)));
    assert(s[16] == ' ');
    assert(has_no_backslash(plain_from(s, 16)));
    assert(s[15] == '\n');
    assert(has_no_backslash(plain_from(s, 15)));
    assert(s[0] == '\\');
    assert(alpha_end(s, 6) == 6);
    assert(alpha_end(s, 5) == 6);
    assert(alpha_end(s, 4) == 6);
    assert(alpha_end(s, 3) == 6);
    assert(alpha_end(s, 2) == 6);
    assert(alpha_end(s, 1) == 6);
    let t6 = s.subrange(1, 6);
    assert(t6.len() == 5 && t6[0] == 'b' && t6[1] == 'e' && t6[2] == 'g' && t6[3] == 'i' && t6[4] == 'n');
    assert(t6 =~= "begin"@);
    assert(s[6] == '{');
    assert(group_close(s, 14, 1) == 14);
    assert(group_close(s, 13, 1) == 14);
    assert(group_close(s, 12, 1) == 14);
    assert(group_close(s, 11, 1) == 14);
    assert(group_close(s, 10, 1) == 14);
    assert(group_close(s, 9, 1) == 14);
    assert(group_close(s, 8, 1) == 14);
    assert(group_close(s, 7, 1) == 14);
    assert(has_no_backslash(plain_from(s, 0)));
}

#[verifier::rlimit(100)]
#[verifier::spinoff_prover]
proof fn lemma_akima_spline_plain_text_is_clean()
    ensures
        has_no_backslash(spec_latex_to_plain_text("y(x) = \\text{Hermite}(y_{i}, y_{i+1}, m_{i}, m_{i+1}), m_{i} \\text{ by Akima weights}"@)),
{
    reveal_strlit("y(x) = \\text{Hermite}(y_{i}, y_{i+1}, m_{i}, m_{i+1}), m_{i} \\text{ by Akima weights}");
    reveal_strlit("begin");
    reveal_strlit("end");
    reveal_strlit("frac");
    reveal_strlit("quad");
    reveal_strlit("sqrt");
    reveal_strlit("text");
    let s = "y(x) = \\text{Hermite}(y_{i}, y_{i+1}, m_{i}, m_{i+1}), m_{i} \\text{ by Akima weights}"@;
    assert(s.len() == 85);
    assert(plain_from(s, 85).len() == 0);
    assert(s[61] == '\\');
    assert(alpha_end(s, 66) == 66);
    assert(alpha_end(s, 65) == 66);
    assert(alpha_end(s, 64) == 66);
    assert(alpha_end(s, 63) == 66);
    assert(alpha_end(s, 62) == 66);
    let t1 = s.subrange(62, 66);
    assert(t1.len() == 4 && t1[0] == 't' && t1[1] == 'e' && t1[2] == 'x' && t1[3] == 't');
    assert(t1 =~= "text"@);
    assert(s[66] == '{');
    assert(group_close(s, 84, 1) == 84);
    assert(group_close(s, 83, 1) == 84);
    assert(group_close(s, 82, 1) == 84);
    assert(group_close(s, 81, 1) == 84);
    assert(group_close(s, 80, 1) == 84);
    assert(group_close(s, 79, 1) == 84);
    assert(group_close(s, 78, 1) == 84);
    assert(group_close(s, 77, 1) == 84);
    assert(group_close(s, 76, 1) == 84);
    assert(group_close(s, 75, 1) == 84);
    assert(group_close(s, 74, 1) == 84);
    assert(group_close(s, 73, 1) == 84);
    assert(group_close(s, 72, 1) == 84);
    assert(group_close(s, 71, 1) == 84);
    assert(group_close(s, 70, 1) == 84);
    assert(group_close(s, 69, 1) == 84);
    assert(group_close(s, 68, 1) == 84);
    assert(group_close(s, 67, 1) == 84);
    let t2 = s.subrange(67, 84);
    assert(t2.len() == 17);
    assert(plain_from(t2, 17).len() == 0);
    assert(t2[16] == 's');
    assert(has_no_backslash(plain_from(t2, 16)));
    assert(t2[15] == 't');
    assert(has_no_backslash(plain_from(t2, 15)));
    assert(t2[14] == 'h');
    assert(has_no_backslash(plain_from(t2, 14)));
    assert(t2[13] == 'g');
    assert(has_no_backslash(plain_from(t2, 13)));
    assert(t2[12] == 'i');
    assert(has_no_backslash(plain_from(t2, 12)));
    assert(t2[11] == 'e');
    assert(has_no_backslash(plain_from(t2, 11)));
    assert(t2[10] == 'w');
    assert(has_no_backslash(plain_from(t2, 10)));
    assert(t2[9] == ' ');
    assert(has_no_backslash(plain_from(t2, 9)));
    assert(t2[8] == 'a');
    assert(has_no_backslash(plain_from(t2, 8)));
    assert(t2[7] == 'm');
    assert(has_no_backslash(plain_from(t2, 7)));
    assert(t2[6] == 'i');
    assert(has_no_backslash(plain_from(t2, 6)));
    assert(t2[5] == 'k');
    assert(has_no_backslash(plain_from(t2, 5)));
    assert(t2[4] == 'A');
    assert(has_no_backslash(plain_from(t2, 4)));
    assert(t2[3] == ' ');
    assert(has_no_backslash(plain_from(t2, 3)));
    assert(t2[2] == 'y');
    assert(has_no_backslash(plain_from(t2, 2)));
    assert(t2[1] == 'b');
    assert(has_no_backslash(plain_from(t2, 1)));
    assert(t2[0] == ' ');
    assert(has_no_backslash(plain_from(t2, 0)));
    assert(has_no_backslash(plain_from(s, 61)));
    assert(s[60] == ' ');
    assert(has_no_backslash(plain_from(s, 60)));
    assert(s[56] == '_');
    assert(s[57] == '{');
    assert(group_close(s, 59, 1) == 59);
    assert(group_close(s, 58, 1) == 59);
    let t3 = s.subrange(58, 59);
    assert(t3.len() == 1);
    assert(plain_from(t3, 1).len() == 0);
    assert(t3[0] == 'i');
    assert(has_no_backslash(plain_from(t3, 0)));
    assert(has_no_backslash(plain_from(s, 56)));
    assert(s[55] == 'm');
    assert(has_no_backslash(plain_from(s, 55)));
    assert(s[54] == ' ');
    assert(has_no_backslash(plain_from(s, 54)));
    assert(s[53] == ',');
    assert(has_no_backslash(plain_from(s, 53)));
    assert(s[52] == ')');
    assert(has_no_backslash(plain_from(s, 52)));
    assert(s[46] == '_');
    assert(s[47] == '{');
    assert(group_close(s, 51, 1) == 51);
    assert(group_close(s, 50, 1) == 51);
    assert(group_close(s, 49, 1) == 51);
    assert(group_close(s, 48, 1) == 51);
    let t4 = s.subrange(48, 51);
    assert(t4.len() == 3);
    assert(plain_from(t4, 3).len() == 0);
    assert(t4[2] == '1');
    assert(has_no_backslash(plain_from(t4, 2)));
    assert(t4[1] == '+');
    assert(has_no_backslash(plain_from(t4, 1)));
    assert(t4[0] == 'i');
    assert(has_no_backslash(plain_from(t4, 0)));
    assert(has_no_backslash(plain_from(s, 46)));
    assert(s[45] == 'm');
    assert(has_no_backslash(plain_from(s, 45)));
    assert(s[44] == ' ');
    assert(has_no_backslash(plain_from(s, 44)));
    assert(s[43] == ',');
    assert(has_no_backslash(plain_from(s, 43)));
    assert(s[39] == '_');
    assert(s[40] == '{');
    assert(group_close(s, 42, 1) == 42);
    assert(group_close(s, 41, 1) == 42);
    let t5 = s.subrange(41, 42);
    assert(t5.len() == 1);
    assert(plain_from(t5, 1).len() == 0);
    assert(t5[0] == 'i');
    assert(has_no_backslash(plain_from(t5, 0)));
    assert(has_no_backslash(plain_from(s, 39)));
    assert(s[38] == 'm');
    assert(has_no_backslash(plain_from(s, 38)));
    assert(s[37] == ' ');
    assert(has_no_backslash(plain_from(s, 37)));
    assert(s[36] == ',');
    assert(has_no_backslash(plain_from(s, 36)));
    assert(s[30] == '_');
    assert(s[31] == '{');
    assert(group_close(s, 35, 1) == 35);
    assert(group_close(s, 34, 1) == 35);
    assert(group_close(s, 33, 1) == 35);
    assert(group_close(s, 32, 1) == 35);
    let t6 = s.subrange(32, 35);
    assert(t6.len() == 3);
    assert(plain_from(t6, 3).len() == 0);
    assert(t6[2] == '1');
    assert(has_no_backslash(plain_from(t6, 2)));
    assert(t6[1] == '+');
    assert(has_no_backslash(plain_from(t6, 1)));
    assert(t6[0] == 'i');
    assert(has_no_backslash(plain_from(t6, 0)));
    assert(has_no_backslash(plain_from(s, 30)));
    assert(s[29] == 'y');
    assert(has_no_backslash(plain_from(s, 29)));
    assert(s[28] == ' ');
    assert(has_no_backslash(plain_from(s, 28)));
    assert(s[27] == ',');
    assert(has_no_backslash(plain_from(s, 27)));
    assert(s[23] == '_');
    assert(s[24] == '{');
    assert(group_close(s, 26, 1) == 26);
    assert(group_close(s, 25, 1) == 26);
    let t7 = s.subrange(25, 26);
    assert(t7.len() == 1);
    assert(plain_from(t7, 1).len() == 0);
    assert(t7[0] == 'i');
    assert(has_no_backslash(plain_from(t7, 0)));
    assert(has_no_backslash(plain_from(s, 23)));
    assert(s[22] == 'y');
    assert(has_no_backslash(plain_from(s, 22)));
    assert(s[21] == '(');
    assert(has_no_backslash(plain_from(s, 21)));
    assert(s[7] == '\\');
    assert(alpha_end(s, 12) == 12);
    assert(alpha_end(s, 11) == 12);
    assert(alpha_end(s, 10) == 12);
    assert(alpha_end(s, 9) == 12);
    assert(alpha_end(s, 8) == 12);
    let t8 = s.subrange(8, 12);
    assert(t8.len() == 4 && t8[0] == 't' && t8[1] == 'e' && t8[2] == 'x' && t8[3] == 't');
    assert(t8 =~= "text"@);
    assert(s[12] == '{');
    assert(group_close(s, 20, 1) == 20);
    assert(group_close(s, 19, 1) == 20);
    assert(group_close(s, 18, 1) == 20);
    assert(group_close(s, 17, 1) == 20);
    assert(group_close(s, 16, 1) == 20);
    assert(group_close(s, 15, 1) == 20);
    assert(group_close(s, 14, 1) == 20);
    assert(group_close(s, 13, 1) == 20);
    let t9 = s.subrange(13, 20);
    assert(t9.len() == 7);
    assert(plain_from(t9, 7).len() == 0);
    assert(t9[6] == 'e');
    assert(has_no_backslash(plain_from(t9, 6)));
    assert(t9[5] == 't');
    assert(has_no_backslash(plain_from(t9, 5)));
    assert(t9[4] == 'i');
    assert(has_no_backslash(plain_from(t9, 4)));
    assert(t9[3] == 'm');
    assert(has_no_backslash(plain_from(t9, 3)));
    assert(t9[2] == 'r');
    assert(has_no_backslash(plain_from(t9, 2)));
    assert(t9[1] == 'e');
    assert(has_no_backslash(plain_from(t9, 1)));
    assert(t9[0] == 'H');
    assert(has_no_backslash(plain_from(t9, 0)));
    assert(has_no_backslash(plain_from(s, 7)));
    assert(s[6] == ' ');
    assert(has_no_backslash(plain_from(s, 6)));
    assert(s[5] == '=');
    assert(has_no_backslash(plain_from(s, 5)));
    assert(s[4] == ' ');
    assert(has_no_backslash(plain_from(s, 4)));
    assert(s[3] == ')');
    assert(has_no_backslash(plain_from(s, 3)));
    assert(s[2] == 'x');
    assert(has_no_backslash(plain_from(s, 2)));
    assert(s[1] == '(');
    assert(has_no_backslash(plain_from(s, 1)));
    assert(s[0] == 'y');
    assert(has_no_backslash(plain_from(s, 0)));
}

#[verifier::rlimit(100)]
#[verifier::spinoff_prover]
proof fn lemma_polynomial_formula_of_degree_1()
    ensures
        spec_polynomial_formula(1) == "y = a \\cdot x + b"@,
{
    reveal_strlit("y = a \\cdot x + b");
    reveal_strlit("y = ");
    reveal_strlit(" + ");
    reveal_strlit(" \\cdot x");
    reveal_strlit(" \\cdot x^{");
    reveal_strlit("}");
    reveal_with_fuel(polynomial_terms, 4);
    assert(spec_parameter_symbol(0) == 'a');
    assert(spec_parameter_symbol(1) == 'b');
    assert(spec_parameter_symbol(2) == 'c');
    assert(spec_parameter_symbol(3) == 'd');
    assert(spec_parameter_symbol(4) == 'e');
    assert(spec_parameter_symbol(5) == 'f');
    assert(spec_parameter_symbol(6) == 'g');
    assert(spec_parameter_symbol(7) == 'h');
    assert(spec_parameter_symbol(8) == 'i');
    assert(spec_parameter_symbol(9) == 'j');
    assert(spec_parameter_symbol(10) == 'k');
    assert(decimal_text(2) == seq!['2']);
    assert(decimal_text(3) == seq!['3']);
    assert(decimal_text(4) == seq!['4']);
    assert(decimal_text(5) == seq!['5']);
    assert(decimal_text(6) == seq!['6']);
    assert(decimal_text(7) == seq!['7']);
    assert(decimal_text(8) == seq!['8']);
    assert(decimal_text(9) == seq!['9']);
    assert(spec_polynomial_formula(1) =~= "y = a \\cdot x + b"@);
}

#[verifier::rlimit(100)]
#[verifier::spinoff_prover]
proof fn lemma_polynomial_of_degree_1_plain_text_is_clean()
    ensures
        has_no_backslash(spec_latex_to_plain_text("y = a \\cdot x + b"@)),
{
    reveal_strlit("y = a \\cdot x + b");
    reveal_strlit("begin");
    reveal_strlit("cdot");
    reveal_strlit("end");
    reveal_strlit("frac");
    reveal_strlit("quad");
    reveal_strlit("sqrt");
    reveal_strlit("text");
    let s = "y = a \\cdot x + b"@;
    assert(s.len() == 17);
    assert(plain_from(s, 17).len() == 0);
    assert(s[16] == 'b');
    assert(has_no_backslash(plain_from(s, 16)));
    assert(s[15] == ' ');
    assert(has_no_backslash(plain_from(s, 15)));
    assert(s[14] == '+');
    assert(has_no_backslash(plain_from(s, 14)));
    assert(s[13] == ' ');
    assert(has_no_backslash(plain_from(s, 13)));
    assert(s[12] == 'x');
    assert(has_no_backslash(plain_from(s, 12)));
    assert(s[11] == ' ');
    assert(has_no_backslash(plain_from(s, 11)));
    assert(s[6] == '\\');
    assert(alpha_end(s, 11) == 11);
    assert(alpha_end(s, 10) == 11);
    assert(alpha_end(s, 9) == 11);
    assert(alpha_end(s, 8) == 11);
    assert(alpha_end(s, 7) == 11);
    let t1 = s.subrange(7, 11);
    assert(t1.len() == 4 && t1[0] == 'c' && t1[1] == 'd' && t1[2] == 'o' && t1[3] == 't');
    assert(t1 =~= "cdot"@);
    lemma_latex_symbol_cdot(t1);
    assert(has_no_backslash(plain_from(s, 6)));
    assert(s[5] == ' ');
    assert(has_no_backslash(plain_from(s, 5)));
    assert(s[4] == 'a');
    assert(has_no_backslash(plain_from(s, 4)));
    assert(s[3] == ' ');
    assert(has_no_backslash(plain_from(s, 3)));
    assert(s[2] == '=');
    assert(has_no_backslash(plain_from(s, 2)));
    assert(s[1] == ' ');
    assert(has_no_backslash(plain_from(s, 1)));
    assert(s[0] == 'y');
    assert(has_no_backslash(plain_from(s, 0)));
}

#[verifier::rlimit(100)]
#[verifier::spinoff_prover]
proof fn lemma_polynomial_formula_of_degree_2()
    ensures
        spec_polynomial_formula(2) == "y = a \\cdot x^{2} + b \\cdot x + c"@,
{
    reveal_strlit("y = a \\cdot x^{2} + b \\cdot x + c");
    reveal_strlit("y = ");
    reveal_strlit(" + ");
    reveal_strlit(" \\cdot x");
    reveal_strlit(" \\cdot x^{");
    reveal_strlit("}");
    reveal_with_fuel(polynomial_terms, 5);
    assert(spec_parameter_symbol(0) == 'a');
    assert(spec_parameter_symbol(1) == 'b');
    assert(spec_parameter_symbol(2) == 'c');
    assert(spec_parameter_symbol(3) == 'd');
    assert(spec_parameter_symbol(4) == 'e');
    assert(spec_parameter_symbol(5) == 'f');
    assert(spec_parameter_symbol(6) == 'g');
    assert(spec_parameter_symbol(7) == 'h');
    assert(spec_parameter_symbol(8) == 'i');
    assert(spec_parameter_symbol(9) == 'j');
    assert(spec_parameter_symbol(10) == 'k');
    assert(decimal_text(2) == seq!['2']);
    assert(decimal_text(3) == seq!['3']);
    assert(decimal_text(4) == seq!['4']);
    assert(decimal_text(5) == seq!['5']);
    assert(decimal_text(6) == seq!['6']);
    assert(decimal_text(7) == seq!['7']);
    assert(decimal_text(8) == seq!['8']);
    assert(decimal_text(9) == seq!['9']);
    assert(spec_polynomial_formula(2) =~= "y = a \\cdot x^{2} + b \\cdot x + c"@);
}

#[verifier::rlimit(100)]
#[verifier::spinoff_prover]
proof fn lemma_polynomial_of_degree_2_plain_text_is_clean()
    ensures
        has_no_backslash(spec_latex_to_plain_text("y = a \\cdot x^{2} + b \\cdot x + c"@)),
{
    reveal_strlit("y = a \\cdot x^{2} + b \\cdot x + c");
    reveal_strlit("begin");
    reveal_strlit("cdot");
    reveal_strlit("end");
    reveal_strlit("frac");
    reveal_strlit("quad");
    reveal_strlit("sqrt");
    reveal_strlit("text");
    let s = "y = a \\cdot x^{2} + b \\cdot x + c"@;
    assert(s.len() == 33);
    assert(plain_from(s, 33).len() == 0);
    assert(s[32] == 'c');
    assert(has_no_backslash(plain_from(s, 32)));
    assert(s[31] == ' ');
    assert(has_no_backslash(plain_from(s, 31)));
    assert(s[30] == '+');
    assert(has_no_backslash(plain_from(s, 30)));
    assert(s[29] == ' ');
    assert(has_no_backslash(plain_from(s, 29)));
    assert(s[28] == 'x');
    assert(has_no_backslash(plain_from(s, 28)));
    assert(s[27] == ' ');
    assert(has_no_backslash(plain_from(s, 27)));
    assert(s[22] == '\\');
    assert(alpha_end(s, 27) == 27);
    assert(alpha_end(s, 26) == 27);
    assert(alpha_end(s, 25) == 27);
    assert(alpha_end(s, 24) == 27);
    assert(alpha_end(s, 23) == 27);
    let t1 = s.subrange(23, 27);
    assert(t1.len() == 4 && t1[0] == 'c' && t1[1] == 'd' && t1[2] == 'o' && t1[3] == 't');
    assert(t1 =~= "cdot"@);
    lemma_latex_symbol_cdot(t1);
    assert(has_no_backslash(plain_from(s, 22)));
    assert(s[21] == ' ');
    assert(has_no_backslash(plain_from(s, 21)));
    assert(s[20] == 'b');
    assert(has_no_backslash(plain_from(s, 20)));
    assert(s[19] == ' ');
    assert(has_no_backslash(plain_from(s, 19)));
    assert(s[18] == '+');
    assert(has_no_backslash(plain_from(s, 18)));
    assert(s[17] == ' ');
    assert(has_no_backslash(plain_from(s, 17)));
    assert(s[13] == '^');
    assert(s[14] == '{');
    assert(group_close(s, 16, 1) == 16);
    assert(group_close(s, 15, 1) == 16);
    let t2 = s.subrange(15, 16);
    assert(t2.len() == 1);
    assert(plain_from(t2, 1).len() == 0);
    assert(t2[0] == '2');
    assert(has_no_backslash(plain_from(t2, 0)));
    assert(has_no_backslash(plain_from(s, 13)));
    assert(s[12] == 'x');
    assert(has_no_backslash(plain_from(s, 12)));
    assert(s[11] == ' ');
    assert(has_no_backslash(plain_from(s, 11)));
    assert(s[6] == '\\');
    assert(alpha_end(s, 11) == 11);
    assert(alpha_end(s, 10) == 11);
    assert(alpha_end(s, 9) == 11);
    assert(alpha_end(s, 8) == 11);
    assert(alpha_end(s, 7) == 11);
    let t3 = s.subrange(7, 11);
    assert(t3.len() == 4 && t3[0] == 'c' && t3[1] == 'd' && t3[2] == 'o' && t3[3] == 't');
    assert(t3 =~= "cdot"@);
    lemma_latex_symbol_cdot(t3);
    assert(has_no_backslash(plain_from(s, 6)));
    assert(s[5] == ' ');
    assert(has_no_backslash(plain_from(s, 5)));
    assert(s[4] == 'a');
    assert(has_no_backslash(plain_from(s, 4)));
    assert(s[3] == ' ');
    assert(has_no_backslash(plain_from(s, 3)));
    assert(s[2] == '=');
    assert(has_no_backslash(plain_from(s, 2)));
    assert(s[1] == ' ');
    assert(has_no_backslash(plain_from(s, 1)));
    assert(s[0] == 'y');
    assert(has_no_backslash(plain_from(s, 0)));
}

#[verifier::rlimit(100)]
#[verifier::spinoff_prover]
proof fn lemma_polynomial_formula_of_degree_3()
    ensures
        spec_polynomial_formula(3) == "y = a \\cdot x^{3} + b \\cdot x^{2} + c \\cdot x + d"@,
{
    reveal_strlit("y = a \\cdot x^{3} + b \\cdot x^{2} + c \\cdot x + d");
    reveal_strlit("y = ");
    reveal_strlit(" + ");
    reveal_strlit(" \\cdot x");
    reveal_strlit(" \\cdot x^{");
    reveal_strlit("}");
    reveal_with_fuel(polynomial_terms, 6);
    assert(spec_parameter_symbol(0) == 'a');
    assert(spec_parameter_symbol(1) == 'b');
    assert(spec_parameter_symbol(2) == 'c');
    assert(spec_parameter_symbol(3) == 'd');
    assert(spec_parameter_symbol(4) == 'e');
    assert(spec_parameter_symbol(5) == 'f');
    assert(spec_parameter_symbol(6) == 'g');
    assert(spec_parameter_symbol(7) == 'h');
    assert(spec_parameter_symbol(8) == 'i');
    assert(spec_parameter_symbol(9) == 'j');
    assert(spec_parameter_symbol(10) == 'k');
    assert(decimal_text(2) == seq!['2']);
    assert(decimal_text(3) == seq!['3']);
    assert(decimal_text(4) == seq!['4']);
    assert(decimal_text(5) == seq!['5']);
    assert(decimal_text(6) == seq!['6']);
    assert(decimal_text(7) == seq!['7']);
    assert(decimal_text(8) == seq!['8']);
    assert(decimal_text(9) == seq!['9']);
    assert(spec_polynomial_formula(3) =~= "y = a \\cdot x^{3} + b \\cdot x^{2} + c \\cdot x + d"@);
}

#[verifier::rlimit(100)]
#[verifier::spinoff_prover]
proof fn lemma_polynomial_of_degree_3_plain_text_is_clean()
    ensures
        has_no_backslash(spec_latex_to_plain_text("y = a \\cdot x^{3} + b \\cdot x^{2} + c \\cdot x + d"@)),
{
    reveal_strlit("y = a \\cdot x^{3} + b \\cdot x^{2} + c \\cdot x + d");
    reveal_strlit("begin");
    reveal_strlit("cdot");
    reveal_strlit("end");
    reveal_strlit("frac");
    reveal_strlit("quad");
    reveal_strlit("sqrt");
    reveal_strlit("text");
    let s = "y = a \\cdot x^{3} + b \\cdot x^{2} + c \\cdot x + d"@;
    assert(s.len() == 49);
    assert(plain_from(s, 49).len() == 0);
    assert(s[48] == 'd');
    assert(has_no_backslash(plain_from(s, 48)));
    assert(s[47] == ' ');
    assert(has_no_backslash(plain_from(s, 47)));
    assert(s[46] == '+');
    assert(has_no_backslash(plain_from(s, 46)));
    assert(s[45] == ' ');
    assert(has_no_backslash(plain_from(s, 45)));
    assert(s[44] == 'x');
    assert(has_no_backslash(plain_from(s, 44)));
    assert(s[43] == ' ');
    assert(has_no_backslash(plain_from(s, 43)));
    assert(s[38] == '\\');
    assert(alpha_end(s, 43) == 43);
    assert(alpha_end(s, 42) == 43);
    assert(alpha_end(s, 41) == 43);
    assert(alpha_end(s, 40) == 43);
    assert(alpha_end(s, 39) == 43);
    let t1 = s.subrange(39, 43);
    assert(t1.len() == 4 && t1[0] == 'c' && t1[1] == 'd' && t1[2] == 'o' && t1[3] == 't');
    assert(t1 =~= "cdot"@);
    lemma_latex_symbol_cdot(t1);
    assert(has_no_backslash(plain_from(s, 38)));
    assert(s[37] == ' ');
    assert(has_no_backslash(plain_from(s, 37)));
    assert(s[36] == 'c');
    assert(has_no_backslash(plain_from(s, 36)));
    assert(s[35] == ' ');
    assert(has_no_backslash(plain_from(s, 35)));
    assert(s[34] == '+');
    assert(has_no_backslash(plain_from(s, 34)));
    assert(s[33] == ' ');
    assert(has_no_backslash(plain_from(s, 33)));
    assert(s[29] == '^');
    assert(s[30] == '{');
    assert(group_close(s, 32, 1) == 32);
    assert(group_close(s, 31, 1) == 32);
    let t2 = s.subrange(31, 32);
    assert(t2.len() == 1);
    assert(plain_from(t2, 1).len() == 0);
    assert(t2[0] == '2');
    assert(has_no_backslash(plain_from(t2, 0)));
    assert(has_no_backslash(plain_from(s, 29)));
    assert(s[28] == 'x');
    assert(has_no_backslash(plain_from(s, 28)));
    assert(s[27] == ' ');
    assert(has_no_backslash(plain_from(s, 27)));
    assert(s[22] == '\\');
    assert(alpha_end(s, 27) == 27);
    assert(alpha_end(s, 26) == 27);
    assert(alpha_end(s, 25) == 27);
    assert(alpha_end(s, 24) == 27);
    assert(alpha_end(s, 23) == 27);
    let t3 = s.subrange(23, 27);
    assert(t3.len() == 4 && t3[0] == 'c' && t3[1] == 'd' && t3[2] == 'o' && t3[3] == 't');
    assert(t3 =~= "cdot"@);
    lemma_latex_symbol_cdot(t3);
    assert(has_no_backslash(plain_from(s, 22)));
    assert(s[21] == ' ');
    assert(has_no_backslash(plain_from(s, 21)));
    assert(s[20] == 'b');
    assert(has_no_backslash(plain_from(s, 20)));
    assert(s[19] == ' ');
    assert(has_no_backslash(plain_from(s, 19)));
    assert(s[18] == '+');
    assert(has_no_backslash(plain_from(s, 18)));
    assert(s[17] == ' ');
    assert(has_no_backslash(plain_from(s, 17)));
    assert(s[13] == '^');
    assert(s[14] == '{');
    assert(group_close(s, 16, 1) == 16);
    assert(group_close(s, 15, 1) == 16);
    let t4 = s.subrange(15, 16);
    assert(t4.len() == 1);
    assert(plain_from(t4, 1).len() == 0);
    assert(t4[0] == '3');
    assert(has_no_backslash(plain_from(t4, 0)));
    assert(has_no_backslash(plain_from(s, 13)));
    assert(s[12] == 'x');
    assert(has_no_backslash(plain_from(s, 12)));
    assert(s[11] == ' ');
    assert(has_no_backslash(plain_from(s, 11)));
    assert(s[6] == '\\');
    assert(alpha_end(s, 11) == 11);
    assert(alpha_end(s, 10) == 11);
    assert(alpha_end(s, 9) == 11);
    assert(alpha_end(s, 8) == 11);
    assert(alpha_end(s, 7) == 11);
    let t5 = s.subrange(7, 11);
    assert(t5.len() == 4 && t5[0] == 'c' && t5[1] == 'd' && t5[2] == 'o' && t5[3] == 't');
    assert(t5 =~= "cdot"@);
    lemma_latex_symbol_cdot(t5);
    assert(has_no_backslash(plain_from(s, 6)));
    assert(s[5] == ' ');
    assert(has_no_backslash(plain_from(s, 5)));
    assert(s[4] == 'a');
    assert(has_no_backslash(plain_from(s, 4)));
    assert(s[3] == ' ');
    assert(has_no_backslash(plain_from(s, 3)));
    assert(s[2] == '=');
    assert(has_no_backslash(plain_from(s, 2)));
    assert(s[1] == ' ');
    assert(has_no_backslash(plain_from(s, 1)));
    assert(s[0] == 'y');
    assert(has_no_backslash(plain_from(s, 0)));
}

#[verifier::rlimit(100)]
#[verifier::spinoff_prover]
proof fn lemma_polynomial_formula_of_degree_4()
    ensures
        spec_polynomial_formula(4) == "y = a \\cdot x^{4} + b \\cdot x^{3} + c \\cdot x^{2} + d \\cdot x + e"@,
{
    reveal_strlit("y = a \\cdot x^{4} + b \\cdot x^{3} + c \\cdot x^{2} + d \\cdot x + e");
    reveal_strlit("y = ");
    reveal_strlit(" + ");
    reveal_strlit(" \\cdot x");
    reveal_strlit(" \\cdot x^{");
    reveal_strlit("}");
    reveal_with_fuel(polynomial_terms, 7);
    assert(spec_parameter_symbol(0) == 'a');
    assert(spec_parameter_symbol(1) == 'b');
    assert(spec_parameter_symbol(2) == 'c');
    assert(spec_parameter_symbol(3) == 'd');
    assert(spec_parameter_symbol(4) == 'e');
    assert(spec_parameter_symbol(5) == 'f');
    assert(spec_parameter_symbol(6) == 'g');
    assert(spec_parameter_symbol(7) == 'h');
    assert(spec_parameter_symbol(8) == 'i');
    assert(spec_parameter_symbol(9) == 'j');
    assert(spec_parameter_symbol(10) == 'k');
    assert(decimal_text(2) == seq!['2']);
    assert(decimal_text(3) == seq!['3']);
    assert(decimal_text(4) == seq!['4']);
    assert(decimal_text(5) == seq!['5']);
    assert(decimal_text(6) == seq!['6']);
    assert(decimal_text(7) == seq!['7']);
    assert(decimal_text(8) == seq!['8']);
    assert(decimal_text(9) == seq!['9']);
    assert(spec_polynomial_formula(4) =~= "y = a \\cdot x^{4} + b \\cdot x^{3} + c \\cdot x^{2} + d \\cdot x + e"@);
}

#[verifier::rlimit(100)]
#[verifier::spinoff_prover]
proof fn lemma_polynomial_of_degree_4_plain_text_is_clean()
    ensures
        has_no_backslash(spec_latex_to_plain_text("y = a \\cdot x^{4} + b \\cdot x^{3} + c \\cdot x^{2} + d \\cdot x + e"@)),
{
    reveal_strlit("y = a \\cdot x^{4} + b \\cdot x^{3} + c \\cdot x^{2} + d \\cdot x + e");
    reveal_strlit("begin");
    reveal_strlit("cdot");
    reveal_strlit("end");
    reveal_strlit("frac");
    reveal_strlit("quad");
    reveal_strlit("sqrt");
    reveal_strlit("text");
    let s = "y = a \\cdot x^{4} + b \\cdot x^{3} + c \\cdot x^{2} + d \\cdot x + e"@;
    assert(s.len() == 65);
    assert(plain_from(s, 65).len() == 0);
    assert(s[64] == 'e');
    assert(has_no_backslash(plain_from(s, 64)));
    assert(s[63] == ' ');
    assert(has_no_backslash(plain_from(s, 63)));
    assert(s[62] == '+');
    assert(has_no_backslash(plain_from(s, 62)));
    assert(s[61] == ' ');
    assert(has_no_backslash(plain_from(s, 61)));
    assert(s[60] == 'x');
    assert(has_no_backslash(plain_from(s, 60)));
    assert(s[59] == ' ');
    assert(has_no_backslash(plain_from(s, 59)));
    assert(s[54] == '\\');
    assert(alpha_end(s, 59) == 59);
    assert(alpha_end(s, 58) == 59);
    assert(alpha_end(s, 57) == 59);
    assert(alpha_end(s, 56) == 59);
    assert(alpha_end(s, 55) == 59);
    let t1 = s.subrange(55, 59);
    assert(t1.len() == 4 && t1[0] == 'c' && t1[1] == 'd' && t1[2] == 'o' && t1[3] == 't');
    assert(t1 =~= "cdot"@);
    lemma_latex_symbol_cdot(t1);
    assert(has_no_backslash(plain_from(s, 54)));
    assert(s[53] == ' ');
    assert(has_no_backslash(plain_from(s, 53)));
    assert(s[52] == 'd');
    assert(has_no_backslash(plain_from(s, 52)));
    assert(s[51] == ' ');
    assert(has_no_backslash(plain_from(s, 51)));
    assert(s[50] == '+');
    assert(has_no_backslash(plain_from(s, 50)));
    assert(s[49] == ' ');
    assert(has_no_backslash(plain_from(s, 49)));
    assert(s[45] == '^');
    assert(s[46] == '{');
    assert(group_close(s, 48, 1) == 48);
    assert(group_close(s, 47, 1) == 48);
    let t2 = s.subrange(47, 48);
    assert(t2.len() == 1);
    assert(plain_from(t2, 1).len() == 0);
    assert(t2[0] == '2');
    assert(has_no_backslash(plain_from(t2, 0)));
    assert(has_no_backslash(plain_from(s, 45)));
    assert(s[44] == 'x');
    assert(has_no_backslash(plain_from(s, 44)));
    assert(s[43] == ' ');
    assert(has_no_backslash(plain_from(s, 43)));
    assert(s[38] == '\\');
    assert(alpha_end(s, 43) == 43);
    assert(alpha_end(s, 42) == 43);
    assert(alpha_end(s, 41) == 43);
    assert(alpha_end(s, 40) == 43);
    assert(alpha_end(s, 39) == 43);
    let t3 = s.subrange(39, 43);
    assert(t3.len() == 4 && t3[0] == 'c' && t3[1] == 'd' && t3[2] == 'o' && t3[3] == 't');
    assert(t3 =~= "cdot"@);
    lemma_latex_symbol_cdot(t3);
    assert(has_no_backslash(plain_from(s, 38)));
    assert(s[37] == ' ');
    assert(has_no_backslash(plain_from(s, 37)));
    assert(s[36] == 'c');
    assert(has_no_backslash(plain_from(s, 36)));
    assert(s[35] == ' ');
    assert(has_no_backslash(plain_from(s, 35)));
    assert(s[34] == '+');
    assert(has_no_backslash(plain_from(s, 34)));
    assert(s[33] == ' ');
    assert(has_no_backslash(plain_from(s, 33)));
    assert(s[29] == '^');
    assert(s[30] == '{');
    assert(group_close(s, 32, 1) == 32);
    assert(group_close(s, 31, 1) == 32);
    let t4 = s.subrange(31, 32);
    assert(t4.len() == 1);
    assert(plain_from(t4, 1).len() == 0);
    assert(t4[0] == '3');
    assert(has_no_backslash(plain_from(t4, 0)));
    assert(has_no_backslash(plain_from(s, 29)));
    assert(s[28] == 'x');
    assert(has_no_backslash(plain_from(s, 28)));
    assert(s[27] == ' ');
    assert(has_no_backslash(plain_from(s, 27)));
    assert(s[22] == '\\');
    assert(alpha_end(s, 27) == 27);
    assert(alpha_end(s, 26) == 27);
    assert(alpha_end(s, 25) == 27);
    assert(alpha_end(s, 24) == 27);
    assert(alpha_end(s, 23) == 27);
    let t5 = s.subrange(23, 27);
    assert(t5.len() == 4 && t5[0] == 'c' && t5[1] == 'd' && t5[2] == 'o' && t5[3] == 't');
    assert(t5 =~= "cdot"@);
    lemma_latex_symbol_cdot(t5);
    assert(has_no_backslash(plain_from(s, 22)));
    assert(s[21] == ' ');
    assert(has_no_backslash(plain_from(s, 21)));
    assert(s[20] == 'b');
    assert(has_no_backslash(plain_from(s, 20)));
    assert(s[19] == ' ');
    assert(has_no_backslash(plain_from(s, 19)));
    assert(s[18] == '+');
    assert(has_no_backslash(plain_from(s, 18)));
    assert(s[17] == ' ');
    assert(has_no_backslash(plain_from(s, 17)));
    assert(s[13] == '^');
    assert(s[14] == '{');
    assert(group_close(s, 16, 1) == 16);
    assert(group_close(s, 15, 1) == 16);
    let t6 = s.subrange(15, 16);
    assert(t6.len() == 1);
    assert(plain_from(t6, 1).len() == 0);
    assert(t6[0] == '4');
    assert(has_no_backslash(plain_from(t6, 0)));
    assert(has_no_backslash(plain_from(s, 13)));
    assert(s[12] == 'x');
    assert(has_no_backslash(plain_from(s, 12)));
    assert(s[11] == ' ');
    assert(has_no_backslash(plain_from(s, 11)));
    assert(s[6] == '\\');
    assert(alpha_end(s, 11) == 11);
    assert(alpha_end(s, 10) == 11);
    assert(alpha_end(s, 9) == 11);
    assert(alpha_end(s, 8) == 11);
    assert(alpha_end(s, 7) == 11);
    let t7 = s.subrange(7, 11);
    assert(t7.len() == 4 && t7[0] == 'c' && t7[1] == 'd' && t7[2] == 'o' && t7[3] == 't');
    assert(t7 =~= "cdot"@);
    lemma_latex_symbol_cdot(t7);
    assert(has_no_backslash(plain_from(s, 6)));
    assert(s[5] == ' ');
    assert(has_no_backslash(plain_from(s, 5)));
    assert(s[4] == 'a');
    assert(has_no_backslash(plain_from(s, 4)));
    assert(s[3] == ' ');
    assert(has_no_backslash(plain_from(s, 3)));
    assert(s[2] == '=');
    assert(has_no_backslash(plain_from(s, 2)));
    assert(s[1] == ' ');
    assert(has_no_backslash(plain_from(s, 1)));
    assert(s[0] == 'y');
    assert(has_no_backslash(plain_from(s, 0)));
}

#[verifier::rlimit(100)]
#[verifier::spinoff_prover]
proof fn lemma_polynomial_formula_of_degree_5()
    ensures
        spec_polynomial_formula(5) == "y = a \\cdot x^{5} + b \\cdot x^{4} + c \\cdot x^{3} + d \\cdot x^{2} + e \\cdot x + f"@,
{
    reveal_strlit("y = a \\cdot x^{5} + b \\cdot x^{4} + c \\cdot x^{3} + d \\cdot x^{2} + e \\cdot x + f");
    reveal_strlit("y = ");
    reveal_strlit(" + ");
    reveal_strlit(" \\cdot x");
    reveal_strlit(" \\cdot x^{");
    reveal_strlit("}");
    reveal_with_fuel(polynomial_terms, 8);
    assert(spec_parameter_symbol(0) == 'a');
    assert(spec_parameter_symbol(1) == 'b');
    assert(spec_parameter_symbol(2) == 'c');
    assert(spec_parameter_symbol(3) == 'd');
    assert(spec_parameter_symbol(4) == 'e');
    assert(spec_parameter_symbol(5) == 'f');
    assert(spec_parameter_symbol(6) == 'g');
    assert(spec_parameter_symbol(7) == 'h');
    assert(spec_parameter_symbol(8) == 'i');
    assert(spec_parameter_symbol(9) == 'j');
    assert(spec_parameter_symbol(10) == 'k');
    assert(decimal_text(2) == seq!['2']);
    assert(decimal_text(3) == seq!['3']);
    assert(decimal_text(4) == seq!['4']);
    assert(decimal_text(5) == seq!['5']);
    assert(decimal_text(6) == seq!['6']);
    assert(decimal_text(7) == seq!['7']);
    assert(decimal_text(8) == seq!['8']);
    assert(decimal_text(9) == seq!['9']);
    assert(spec_polynomial_formula(5) =~= "y = a \\cdot x^{5} + b \\cdot x^{4} + c \\cdot x^{3} + d \\cdot x^{2} + e \\cdot x + f"@);
}

#[verifier::rlimit(100)]
#[verifier::spinoff_prover]
proof fn lemma_polynomial_of_degree_5_plain_text_is_clean()
    ensures
        has_no_backslash(spec_latex_to_plain_text("y = a \\cdot x^{5} + b \\cdot x^{4} + c \\cdot x^{3} + d \\cdot x^{2} + e \\cdot x + f"@)),
{
    reveal_strlit("y = a \\cdot x^{5} + b \\cdot x^{4} + c \\cdot x^{3} + d \\cdot x^{2} + e \\cdot x + f");
    reveal_strlit("begin");
    reveal_strlit("cdot");
    reveal_strlit("end");
    reveal_strlit("frac");
    reveal_strlit("quad");
    reveal_strlit("sqrt");
    reveal_strlit("text");
    let s = "y = a \\cdot x^{5} + b \\cdot x^{4} + c \\cdot x^{3} + d \\cdot x^{2} + e \\cdot x + f"@;
    assert(s.len() == 81);
    assert(plain_from(s, 81).len() == 0);
    assert(s[80] == 'f');
    assert(has_no_backslash(plain_from(s, 80)));
    assert(s[79] == ' ');
    assert(has_no_backslash(plain_from(s, 79)));
    assert(s[78] == '+');
    assert(has_no_backslash(plain_from(s, 78)));
    assert(s[77] == ' ');
    assert(has_no_backslash(plain_from(s, 77)));
    assert(s[76] == 'x');
    assert(has_no_backslash(plain_from(s, 76)));
    assert(s[75] == ' ');
    assert(has_no_backslash(plain_from(s, 75)));
    assert(s[70] == '\\');
    assert(alpha_end(s, 75) == 75);
    assert(alpha_end(s, 74) == 75);
    assert(alpha_end(s, 73) == 75);
    assert(alpha_end(s, 72) == 75);
    assert(alpha_end(s, 71) == 75);
    let t1 = s.subrange(71, 75);
    assert(t1.len() == 4 && t1[0] == 'c' && t1[1] == 'd' && t1[2] == 'o' && t1[3] == 't');
    assert(t1 =~= "cdot"@);
    lemma_latex_symbol_cdot(t1);
    assert(has_no_backslash(plain_from(s, 70)));
    assert(s[69] == ' ');
    assert(has_no_backslash(plain_from(s, 69)));
    assert(s[68] == 'e');
    assert(has_no_backslash(plain_from(s, 68)));
    assert(s[67] == ' ');
    assert(has_no_backslash(plain_from(s, 67)));
    assert(s[66] == '+');
    assert(has_no_backslash(plain_from(s, 66)));
    assert(s[65] == ' ');
    assert(has_no_backslash(plain_from(s, 65)));
    assert(s[61] == '^');
    assert(s[62] == '{');
    assert(group_close(s, 64, 1) == 64);
    assert(group_close(s, 63, 1) == 64);
    let t2 = s.subrange(63, 64);
    assert(t2.len() == 1);
    assert(plain_from(t2, 1).len() == 0);
    assert(t2[0] == '2');
    assert(has_no_backslash(plain_from(t2, 0)));
    assert(has_no_backslash(plain_from(s, 61)));
    assert(s[60] == 'x');
    assert(has_no_backslash(plain_from(s, 60)));
    assert(s[59] == ' ');
    assert(has_no_backslash(plain_from(s, 59)));
    assert(s[54] == '\\');
    assert(alpha_end(s, 59) == 59);
    assert(alpha_end(s, 58) == 59);
    assert(alpha_end(s, 57) == 59);
    assert(alpha_end(s, 56) == 59);
    assert(alpha_end(s, 55) == 59);
    let t3 = s.subrange(55, 59);
    assert(t3.len() == 4 && t3[0] == 'c' && t3[1] == 'd' && t3[2] == 'o' && t3[3] == 't');
    assert(t3 =~= "cdot"@);
    lemma_latex_symbol_cdot(t3);
    assert(has_no_backslash(plain_from(s, 54)));
    assert(s[53] == ' ');
    assert(has_no_backslash(plain_from(s, 53)));
    assert(s[52] == 'd');
    assert(has_no_backslash(plain_from(s, 52)));
    assert(s[51] == ' ');
    assert(has_no_backslash(plain_from(s, 51)));
    assert(s[50] == '+');
    assert(has_no_backslash(plain_from(s, 50)));
    assert(s[49] == ' ');
    assert(has_no_backslash(plain_from(s, 49)));
    assert(s[45] == '^');
    assert(s[46] == '{');
    assert(group_close(s, 48, 1) == 48);
    assert(group_close(s, 47, 1) == 48);
    let t4 = s.subrange(47, 48);
    assert(t4.len() == 1);
    assert(plain_from(t4, 1).len() == 0);
    assert(t4[0] == '3');
    assert(has_no_backslash(plain_from(t4, 0)));
    assert(has_no_backslash(plain_from(s, 45)));
    assert(s[44] == 'x');
    assert(has_no_backslash(plain_from(s, 44)));
    assert(s[43] == ' ');
    assert(has_no_backslash(plain_from(s, 43)));
    assert(s[38] == '\\');
    assert(alpha_end(s, 43) == 43);
    assert(alpha_end(s, 42) == 43);
    assert(alpha_end(s, 41) == 43);
    assert(alpha_end(s, 40) == 43);
    assert(alpha_end(s, 39) == 43);
    let t5 = s.subrange(39, 43);
    assert(t5.len() == 4 && t5[0] == 'c' && t5[1] == 'd' && t5[2] == 'o' && t5[3] == 't');
    assert(t5 =~= "cdot"@);
    lemma_latex_symbol_cdot(t5);
    assert(has_no_backslash(plain_from(s, 38)));
    assert(s[37] == ' ');
    assert(has_no_backslash(plain_from(s, 37)));
    assert(s[36] == 'c');
    assert(has_no_backslash(plain_from(s, 36)));
    assert(s[35] == ' ');
    assert(has_no_backslash(plain_from(s, 35)));
    assert(s[34] == '+');
    assert(has_no_backslash(plain_from(s, 34)));
    assert(s[33] == ' ');
    assert(has_no_backslash(plain_from(s, 33)));
    assert(s[29] == '^');
    assert(s[30] == '{');
    assert(group_close(s, 32, 1) == 32);
    assert(group_close(s, 31, 1) == 32);
    let t6 = s.subrange(31, 32);
    assert(t6.len() == 1);
    assert(plain_from(t6, 1).len() == 0);
    assert(t6[0] == '4');
    assert(has_no_backslash(plain_from(t6, 0)));
    assert(has_no_backslash(plain_from(s, 29)));
    assert(s[28] == 'x');
    assert(has_no_backslash(plain_from(s, 28)));
    assert(s[27] == ' ');
    assert(has_no_backslash(plain_from(s, 27)));
    assert(s[22] == '\\');
    assert(alpha_end(s, 27) == 27);
    assert(alpha_end(s, 26) == 27);
    assert(alpha_end(s, 25) == 27);
    assert(alpha_end(s, 24) == 27);
    assert(alpha_end(s, 23) == 27);
    let t7 = s.subrange(23, 27);
    assert(t7.len() == 4 && t7[0] == 'c' && t7[1] == 'd' && t7[2] == 'o' && t7[3] == 't');
    assert(t7 =~= "cdot"@);
    lemma_latex_symbol_cdot(t7);
    assert(has_no_backslash(plain_from(s, 22)));
    assert(s[21] == ' ');
    assert(has_no_backslash(plain_from(s, 21)));
    assert(s[20] == 'b');
    assert(has_no_backslash(plain_from(s, 20)));
    assert(s[19] == ' ');
    assert(has_no_backslash(plain_from(s, 19)));
    assert(s[18] == '+');
    assert(has_no_backslash(plain_from(s, 18)));
    assert(s[17] == ' ');
    assert(has_no_backslash(plain_from(s, 17)));
    assert(s[13] == '^');
    assert(s[14] == '{');
    assert(group_close(s, 16, 1) == 16);
    assert(group_close(s, 15, 1) == 16);
    let t8 = s.subrange(15, 16);
    assert(t8.len() == 1);
    assert(plain_from(t8, 1).len() == 0);
    assert(t8[0] == '5');
    assert(has_no_backslash(plain_from(t8, 0)));
    assert(has_no_backslash(plain_from(s, 13)));
    assert(s[12] == 'x');
    assert(has_no_backslash(plain_from(s, 12)));
    assert(s[11] == ' ');
    assert(has_no_backslash(plain_from(s, 11)));
    assert(s[6] == '\\');
    assert(alpha_end(s, 11) == 11);
    assert(alpha_end(s, 10) == 11);
    assert(alpha_end(s, 9) == 11);
    assert(alpha_end(s, 8) == 11);
    assert(alpha_end(s, 7) == 11);
    let t9 = s.subrange(7, 11);
    assert(t9.len() == 4 && t9[0] == 'c' && t9[1] == 'd' && t9[2] == 'o' && t9[3] == 't');
    assert(t9 =~= "cdot"@);
    lemma_latex_symbol_cdot(t9);
    assert(has_no_backslash(plain_from(s, 6)));
    assert(s[5] == ' ');
    assert(has_no_backslash(plain_from(s, 5)));
    assert(s[4] == 'a');
    assert(has_no_backslash(plain_from(s, 4)));
    assert(s[3] == ' ');
    assert(has_no_backslash(plain_from(s, 3)));
    assert(s[2] == '=');
    assert(has_no_backslash(plain_from(s, 2)));
    assert(s[1] == ' ');
    assert(has_no_backslash(plain_from(s, 1)));
    assert(s[0] == 'y');
    assert(has_no_backslash(plain_from(s, 0)));
}

#[verifier::rlimit(100)]
#[verifier::spinoff_prover]
proof fn lemma_polynomial_formula_of_degree_6()
    ensures
        spec_polynomial_formula(6) == "y = a \\cdot x^{6} + b \\cdot x^{5} + c \\cdot x^{4} + d \\cdot x^{3} + e \\cdot x^{2} + f \\cdot x + g"@,
{
    reveal_strlit("y = a \\cdot x^{6} + b \\cdot x^{5} + c \\cdot x^{4} + d \\cdot x^{3} + e \\cdot x^{2} + f \\cdot x + g");
    reveal_strlit("y = ");
    reveal_strlit(" + ");
    reveal_strlit(" \\cdot x");
    reveal_strlit(" \\cdot x^{");
    reveal_strlit("}");
    reveal_with_fuel(polynomial_terms, 9);
    assert(spec_parameter_symbol(0) == 'a');
    assert(spec_parameter_symbol(1) == 'b');
    assert(spec_parameter_symbol(2) == 'c');
    assert(spec_parameter_symbol(3) == 'd');
    assert(spec_parameter_symbol(4) == 'e');
    assert(spec_parameter_symbol(5) == 'f');
    assert(spec_parameter_symbol(6) == 'g');
    assert(spec_parameter_symbol(7) == 'h');
    assert(spec_parameter_symbol(8) == 'i');
    assert(spec_parameter_symbol(9) == 'j');
    assert(spec_parameter_symbol(10) == 'k');
    assert(decimal_text(2) == seq!['2']);
    assert(decimal_text(3) == seq!['3']);
    assert(decimal_text(4) == seq!['4']);
    assert(decimal_text(5) == seq!['5']);
    assert(decimal_text(6) == seq!['6']);
    assert(decimal_text(7) == seq!['7']);
    assert(decimal_text(8) == seq!['8']);
    assert(decimal_text(9) == seq!['9']);
    assert(spec_polynomial_formula(6) =~= "y = a \\cdot x^{6} + b \\cdot x^{5} + c \\cdot x^{4} + d \\cdot x^{3} + e \\cdot x^{2} + f \\cdot x + g"@);
}

#[verifier::rlimit(100)]
#[verifier::spinoff_prover]
proof fn lemma_polynomial_of_degree_6_plain_text_is_clean()
    ensures
        has_no_backslash(spec_latex_to_plain_text("y = a \\cdot x^{6} + b \\cdot x^{5} + c \\cdot x^{4} + d \\cdot x^{3} + e \\cdot x^{2} + f \\cdot x + g"@)),
{
    reveal_strlit("y = a \\cdot x^{6} + b \\cdot x^{5} + c \\cdot x^{4} + d \\cdot x^{3} + e \\cdot x^{2} + f \\cdot x + g");
    reveal_strlit("begin");
    reveal_strlit("cdot");
    reveal_strlit("end");
    reveal_strlit("frac");
    reveal_strlit("quad");
    reveal_strlit("sqrt");
    reveal_strlit("text");
    let s = "y = a \\cdot x^{6} + b \\cdot x^{5} + c \\cdot x^{4} + d \\cdot x^{3} + e \\cdot x^{2} + f \\cdot x + g"@;
    assert(s.len() == 97);
    assert(plain_from(s, 97).len() == 0);
    assert(s[96] == 'g');
    assert(has_no_backslash(plain_from(s, 96)));
    assert(s[95] == ' ');
    assert(has_no_backslash(plain_from(s, 95)));
    assert(s[94] == '+');
    assert(has_no_backslash(plain_from(s, 94)));
    assert(s[93] == ' ');
    assert(has_no_backslash(plain_from(s, 93)));
    assert(s[92] == 'x');
    assert(has_no_backslash(plain_from(s, 92)));
    assert(s[91] == ' ');
    assert(has_no_backslash(plain_from(s, 91)));
    assert(s[86] == '\\');
    assert(alpha_end(s, 91) == 91);
    assert(alpha_end(s, 90) == 91);
    assert(alpha_end(s, 89) == 91);
    assert(alpha_end(s, 88) == 91);
    assert(alpha_end(s, 87) == 91);
    let t1 = s.subrange(87, 91);
    assert(t1.len() == 4 && t1[0] == 'c' && t1[1] == 'd' && t1[2] == 'o' && t1[3] == 't');
    assert(t1 =~= "cdot"@);
    lemma_latex_symbol_cdot(t1);
    assert(has_no_backslash(plain_from(s, 86)));
    assert(s[85] == ' ');
    assert(has_no_backslash(plain_from(s, 85)));
    assert(s[84] == 'f');
    assert(has_no_backslash(plain_from(s, 84)));
    assert(s[83] == ' ');
    assert(has_no_backslash(plain_from(s, 83)));
    assert(s[82] == '+');
    assert(has_no_backslash(plain_from(s, 82)));
    assert(s[81] == ' ');
    assert(has_no_backslash(plain_from(s, 81)));
    assert(s[77] == '^');
    assert(s[78] == '{');
    assert(group_close(s, 80, 1) == 80);
    assert(group_close(s, 79, 1) == 80);
    let t2 = s.subrange(79, 80);
    assert(t2.len() == 1);
    assert(plain_from(t2, 1).len() == 0);
    assert(t2[0] == '2');
    assert(has_no_backslash(plain_from(t2, 0)));
    assert(has_no_backslash(plain_from(s, 77)));
    assert(s[76] == 'x');
    assert(has_no_backslash(plain_from(s, 76)));
    assert(s[75] == ' ');
    assert(has_no_backslash(plain_from(s, 75)));
    assert(s[70] == '\\');
    assert(alpha_end(s, 75) == 75);
    assert(alpha_end(s, 74) == 75);
    assert(alpha_end(s, 73) == 75);
    assert(alpha_end(s, 72) == 75);
    assert(alpha_end(s, 71) == 75);
    let t3 = s.subrange(71, 75);
    assert(t3.len() == 4 && t3[0] == 'c' && t3[1] == 'd' && t3[2] == 'o' && t3[3] == 't');
    assert(t3 =~= "cdot"@);
    lemma_latex_symbol_cdot(t3);
    assert(has_no_backslash(plain_from(s, 70)));
    assert(s[69] == ' ');
    assert(has_no_backslash(plain_from(s, 69)));
    assert(s[68] == 'e');
    assert(has_no_backslash(plain_from(s, 68)));
    assert(s[67] == ' ');
    assert(has_no_backslash(plain_from(s, 67)));
    assert(s[66] == '+');
    assert(has_no_backslash(plain_from(s, 66)));
    assert(s[65] == ' ');
    assert(has_no_backslash(plain_from(s, 65)));
    assert(s[61] == '^');
    assert(s[62] == '{');
    assert(group_close(s, 64, 1) == 64);
    assert(group_close(s, 63, 1) == 64);
    let t4 = s.subrange(63, 64);
    assert(t4.len() == 1);
    assert(plain_from(t4, 1).len() == 0);
    assert(t4[0] == '3');
    assert(has_no_backslash(plain_from(t4, 0)));
    assert(has_no_backslash(plain_from(s, 61)));
    assert(s[60] == 'x');
    assert(has_no_backslash(plain_from(s, 60)));
    assert(s[59] == ' ');
    assert(has_no_backslash(plain_from(s, 59)));
    assert(s[54] == '\\');
    assert(alpha_end(s, 59) == 59);
    assert(alpha_end(s, 58) == 59);
    assert(alpha_end(s, 57) == 59);
    assert(alpha_end(s, 56) == 59);
    assert(alpha_end(s, 55) == 59);
    let t5 = s.subrange(55, 59);
    assert(t5.len() == 4 && t5[0] == 'c' && t5[1] == 'd' && t5[2] == 'o' && t5[3] == 't');
    assert(t5 =~= "cdot"@);
    lemma_latex_symbol_cdot(t5);
    assert(has_no_backslash(plain_from(s, 54)));
    assert(s[53] == ' ');
    assert(has_no_backslash(plain_from(s, 53)));
    assert(s[52] == 'd');
    assert(has_no_backslash(plain_from(s, 52)));
    assert(s[51] == ' ');
    assert(has_no_backslash(plain_from(s, 51)));
    assert(s[50] == '+');
    assert(has_no_backslash(plain_from(s, 50)));
    assert(s[49] == ' ');
    assert(has_no_backslash(plain_from(s, 49)));
    assert(s[45] == '^');
    assert(s[46] == '{');
    assert(group_close(s, 48, 1) == 48);
    assert(group_close(s, 47, 1) == 48);
    let t6 = s.subrange(47, 48);
    assert(t6.len() == 1);
    assert(plain_from(t6, 1).len() == 0);
    assert(t6[0] == '4');
    assert(has_no_backslash(plain_from(t6, 0)));
    assert(has_no_backslash(plain_from(s, 45)));
    assert(s[44] == 'x');
    assert(has_no_backslash(plain_from(s, 44)));
    assert(s[43] == ' ');
    assert(has_no_backslash(plain_from(s, 43)));
    assert(s[38] == '\\');
    assert(alpha_end(s, 43) == 43);
    assert(alpha_end(s, 42) == 43);
    assert(alpha_end(s, 41) == 43);
    assert(alpha_end(s, 40) == 43);
    assert(alpha_end(s, 39) == 43);
    let t7 = s.subrange(39, 43);
    assert(t7.len() == 4 && t7[0] == 'c' && t7[1] == 'd' && t7[2] == 'o' && t7[3] == 't');
    assert(t7 =~= "cdot"@);
    lemma_latex_symbol_cdot(t7);
    assert(has_no_backslash(plain_from(s, 38)));
    assert(s[37] == ' ');
    assert(has_no_backslash(plain_from(s, 37)));
    assert(s[36] == 'c');
    assert(has_no_backslash(plain_from(s, 36)));
    assert(s[35] == ' ');
    assert(has_no_backslash(plain_from(s, 35)));
    assert(s[34] == '+');
    assert(has_no_backslash(plain_from(s, 34)));
    assert(s[33] == ' ');
    assert(has_no_backslash(plain_from(s, 33)));
    assert(s[29] == '^');
    assert(s[30] == '{');
    assert(group_close(s, 32, 1) == 32);
    assert(group_close(s, 31, 1) == 32);
    let t8 = s.subrange(31, 32);
    assert(t8.len() == 1);
    assert(plain_from(t8, 1).len() == 0);
    assert(t8[0] == '5');
    assert(has_no_backslash(plain_from(t8, 0)));
    assert(has_no_backslash(plain_from(s, 29)));
    assert(s[28] == 'x');
    assert(has_no_backslash(plain_from(s, 28)));
    assert(s[27] == ' ');
    assert(has_no_backslash(plain_from(s, 27)));
    assert(s[22] == '\\');
    assert(alpha_end(s, 27) == 27);
    assert(alpha_end(s, 26) == 27);
    assert(alpha_end(s, 25) == 27);
    assert(alpha_end(s, 24) == 27);
    assert(alpha_end(s, 23) == 27);
    let t9 = s.subrange(23, 27);
    assert(t9.len() == 4 && t9[0] == 'c' && t9[1] == 'd' && t9[2] == 'o' && t9[3] == 't');
    assert(t9 =~= "cdot"@);
    lemma_latex_symbol_cdot(t9);
    assert(has_no_backslash(plain_from(s, 22)));
    assert(s[21] == ' ');
    assert(has_no_backslash(plain_from(s, 21)));
    assert(s[20] == 'b');
    assert(has_no_backslash(plain_from(s, 20)));
    assert(s[19] == ' ');
    assert(has_no_backslash(plain_from(s, 19)));
    assert(s[18] == '+');
    assert(has_no_backslash(plain_from(s, 18)));
    assert(s[17] == ' ');
    assert(has_no_backslash(plain_from(s, 17)));
    assert(s[13] == '^');
    assert(s[14] == '{');
    assert(group_close(s, 16, 1) == 16);
    assert(group_close(s, 15, 1) == 16);
    let t10 = s.subrange(15, 16);
    assert(t10.len() == 1);
    assert(plain_from(t10, 1).len() == 0);
    assert(t10[0] == '6');
    assert(has_no_backslash(plain_from(t10, 0)));
    assert(has_no_backslash(plain_from(s, 13)));
    assert(s[12] == 'x');
    assert(has_no_backslash(plain_from(s, 12)));
    assert(s[11] == ' ');
    assert(has_no_backslash(plain_from(s, 11)));
    assert(s[6] == '\\');
    assert(alpha_end(s, 11) == 11);
    assert(alpha_end(s, 10) == 11);
    assert(alpha_end(s, 9) == 11);
    assert(alpha_end(s, 8) == 11);
    assert(alpha_end(s, 7) == 11);
    let t11 = s.subrange(7, 11);
    assert(t11.len() == 4 && t11[0] == 'c' && t11[1] == 'd' && t11[2] == 'o' && t11[3] == 't');
    assert(t11 =~= "cdot"@);
    lemma_latex_symbol_cdot(t11);
    assert(has_no_backslash(plain_from(s, 6)));
    assert(s[5] == ' ');
    assert(has_no_backslash(plain_from(s, 5)));
    assert(s[4] == 'a');
    assert(has_no_backslash(plain_from(s, 4)));
    assert(s[3] == ' ');
    assert(has_no_backslash(plain_from(s, 3)));
    assert(s[2] == '=');
    assert(has_no_backslash(plain_from(s, 2)));
    assert(s[1] == ' ');
    assert(has_no_backslash(plain_from(s, 1)));
    assert(s[0] == 'y');
    assert(has_no_backslash(plain_from(s, 0)));
}

#[verifier::rlimit(100)]
#[verifier::spinoff_prover]
proof fn lemma_polynomial_formula_of_degree_7()
    ensures
        spec_polynomial_formula(7) == "y = a \\cdot x^{7} + b \\cdot x^{6} + c \\cdot x^{5} + d \\cdot x^{4} + e \\cdot x^{3} + f \\cdot x^{2} + g \\cdot x + h"@,
{
    reveal_strlit("y = a \\cdot x^{7} + b \\cdot x^{6} + c \\cdot x^{5} + d \\cdot x^{4} + e \\cdot x^{3} + f \\cdot x^{2} + g \\cdot x + h");
    reveal_strlit("y = ");
    reveal_strlit(" + ");
    reveal_strlit(" \\cdot x");
    reveal_strlit(" \\cdot x^{");
    reveal_strlit("}");
    reveal_with_fuel(polynomial_terms, 10);
    assert(spec_parameter_symbol(0) == 'a');
    assert(spec_parameter_symbol(1) == 'b');
    assert(spec_parameter_symbol(2) == 'c');
    assert(spec_parameter_symbol(3) == 'd');
    assert(spec_parameter_symbol(4) == 'e');
    assert(spec_parameter_symbol(5) == 'f');
    assert(spec_parameter_symbol(6) == 'g');
    assert(spec_parameter_symbol(7) == 'h');
    assert(spec_parameter_symbol(8) == 'i');
    assert(spec_parameter_symbol(9) == 'j');
    assert(spec_parameter_symbol(10) == 'k');
    assert(decimal_text(2) == seq!['2']);
    assert(decimal_text(3) == seq!['3']);
    assert(decimal_text(4) == seq!['4']);
    assert(decimal_text(5) == seq!['5']);
    assert(decimal_text(6) == seq!['6']);
    assert(decimal_text(7) == seq!['7']);
    assert(decimal_text(8) == seq!['8']);
    assert(decimal_text(9) == seq!['9']);
    assert(spec_polynomial_formula(7) =~= "y = a \\cdot x^{7} + b \\cdot x^{6} + c \\cdot x^{5} + d \\cdot x^{4} + e \\cdot x^{3} + f \\cdot x^{2} + g \\cdot x + h"@);
}

#[verifier::rlimit(100)]
#[verifier::spinoff_prover]
proof fn lemma_polynomial_of_degree_7_plain_text_is_clean()
    ensures
        has_no_backslash(spec_latex_to_plain_text("y = a \\cdot x^{7} + b \\cdot x^{6} + c \\cdot x^{5} + d \\cdot x^{4} + e \\cdot x^{3} + f \\cdot x^{2} + g \\cdot x + h"@)),
{
    reveal_strlit("y = a \\cdot x^{7} + b \\cdot x^{6} + c \\cdot x^{5} + d \\cdot x^{4} + e \\cdot x^{3} + f \\cdot x^{2} + g \\cdot x + h");
    reveal_strlit("begin");
    reveal_strlit("cdot");
    reveal_strlit("end");
    reveal_strlit("frac");
    reveal_strlit("quad");
    reveal_strlit("sqrt");
    reveal_strlit("text");
    let s = "y = a \\cdot x^{7} + b \\cdot x^{6} + c \\cdot x^{5} + d \\cdot x^{4} + e \\cdot x^{3} + f \\cdot x^{2} + g \\cdot x + h"@;
    assert(s.len() == 113);
    assert(plain_from(s, 113).len() == 0);
    assert(s[112] == 'h');
    assert(has_no_backslash(plain_from(s, 112)));
    assert(s[111] == ' ');
    assert(has_no_backslash(plain_from(s, 111)));
    assert(s[110] == '+');
    assert(has_no_backslash(plain_from(s, 110)));
    assert(s[109] == ' ');
    assert(has_no_backslash(plain_from(s, 109)));
    assert(s[108] == 'x');
    assert(has_no_backslash(plain_from(s, 108)));
    assert(s[107] == ' ');
    assert(has_no_backslash(plain_from(s, 107)));
    assert(s[102] == '\\');
    assert(alpha_end(s, 107) == 107);
    assert(alpha_end(s, 106) == 107);
    assert(alpha_end(s, 105) == 107);
    assert(alpha_end(s, 104) == 107);
    assert(alpha_end(s, 103) == 107);
    let t1 = s.subrange(103, 107);
    assert(t1.len() == 4 && t1[0] == 'c' && t1[1] == 'd' && t1[2] == 'o' && t1[3] == 't');
    assert(t1 =~= "cdot"@);
    lemma_latex_symbol_cdot(t1);
    assert(has_no_backslash(plain_from(s, 102)));
    assert(s[101] == ' ');
    assert(has_no_backslash(plain_from(s, 101)));
    assert(s[100] == 'g');
    assert(has_no_backslash(plain_from(s, 100)));
    assert(s[99] == ' ');
    assert(has_no_backslash(plain_from(s, 99)));
    assert(s[98] == '+');
    assert(has_no_backslash(plain_from(s, 98)));
    assert(s[97] == ' ');
    assert(has_no_backslash(plain_from(s, 97)));
    assert(s[93] == '^');
    assert(s[94] == '{');
    assert(group_close(s, 96, 1) == 96);
    assert(group_close(s, 95, 1) == 96);
    let t2 = s.subrange(95, 96);
    assert(t2.len() == 1);
    assert(plain_from(t2, 1).len() == 0);
    assert(t2[0] == '2');
    assert(has_no_backslash(plain_from(t2, 0)));
    assert(has_no_backslash(plain_from(s, 93)));
    assert(s[92] == 'x');
    assert(has_no_backslash(plain_from(s, 92)));
    assert(s[91] == ' ');
    assert(has_no_backslash(plain_from(s, 91)));
    assert(s[86] == '\\');
    assert(alpha_end(s, 91) == 91);
    assert(alpha_end(s, 90) == 91);
    assert(alpha_end(s, 89) == 91);
    assert(alpha_end(s, 88) == 91);
    assert(alpha_end(s, 87) == 91);
    let t3 = s.subrange(87, 91);
    assert(t3.len() == 4 && t3[0] == 'c' && t3[1] == 'd' && t3[2] == 'o' && t3[3] == 't');
    assert(t3 =~= "cdot"@);
    lemma_latex_symbol_cdot(t3);
    assert(has_no_backslash(plain_from(s, 86)));
    assert(s[85] == ' ');
    assert(has_no_backslash(plain_from(s, 85)));
    assert(s[84] == 'f');
    assert(has_no_backslash(plain_from(s, 84)));
    assert(s[83] == ' ');
    assert(has_no_backslash(plain_from(s, 83)));
    assert(s[82] == '+');
    assert(has_no_backslash(plain_from(s, 82)));
    assert(s[81] == ' ');
    assert(has_no_backslash(plain_from(s, 81)));
    assert(s[77] == '^');
    assert(s[78] == '{');
    assert(group_close(s, 80, 1) == 80);
    assert(group_close(s, 79, 1) == 80);
    let t4 = s.subrange(79, 80);
    assert(t4.len() == 1);
    assert(plain_from(t4, 1).len() == 0);
    assert(t4[0] == '3');
    assert(has_no_backslash(plain_from(t4, 0)));
    assert(has_no_backslash(plain_from(s, 77)));
    assert(s[76] == 'x');
    assert(has_no_backslash(plain_from(s, 76)));
    assert(s[75] == ' ');
    assert(has_no_backslash(plain_from(s, 75)));
    assert(s[70] == '\\');
    assert(alpha_end(s, 75) == 75);
    assert(alpha_end(s, 74) == 75);
    assert(alpha_end(s, 73) == 75);
    assert(alpha_end(s, 72) == 75);
    assert(alpha_end(s, 71) == 75);
    let t5 = s.subrange(71, 75);
    assert(t5.len() == 4 && t5[0] == 'c' && t5[1] == 'd' && t5[2] == 'o' && t5[3] == 't');
    assert(t5 =~= "cdot"@);
    lemma_latex_symbol_cdot(t5);
    assert(has_no_backslash(plain_from(s, 70)));
    assert(s[69] == ' ');
    assert(has_no_backslash(plain_from(s, 69)));
    assert(s[68] == 'e');
    assert(has_no_backslash(plain_from(s, 68)));
    assert(s[67] == ' ');
    assert(has_no_backslash(plain_from(s, 67)));
    assert(s[66] == '+');
    assert(has_no_backslash(plain_from(s, 66)));
    assert(s[65] == ' ');
    assert(has_no_backslash(plain_from(s, 65)));
    assert(s[61] == '^');
    assert(s[62] == '{');
    assert(group_close(s, 64, 1) == 64);
    assert(group_close(s, 63, 1) == 64);
    let t6 = s.subrange(63, 64);
    assert(t6.len() == 1);
    assert(plain_from(t6, 1).len() == 0);
    assert(t6[0] == '4');
    assert(has_no_backslash(plain_from(t6, 0)));
    assert(has_no_backslash(plain_from(s, 61)));
    assert(s[60] == 'x');
    assert(has_no_backslash(plain_from(s, 60)));
    assert(s[59] == ' ');
    assert(has_no_backslash(plain_from(s, 59)));
    assert(s[54] == '\\');
    assert(alpha_end(s, 59) == 59);
    assert(alpha_end(s, 58) == 59);
    assert(alpha_end(s, 57) == 59);
    assert(alpha_end(s, 56) == 59);
    assert(alpha_end(s, 55) == 59);
    let t7 = s.subrange(55, 59);
    assert(t7.len() == 4 && t7[0] == 'c' && t7[1] == 'd' && t7[2] == 'o' && t7[3] == 't');
    assert(t7 =~= "cdot"@);
    lemma_latex_symbol_cdot(t7);
    assert(has_no_backslash(plain_from(s, 54)));
    assert(s[53] == ' ');
    assert(has_no_backslash(plain_from(s, 53)));
    assert(s[52] == 'd');
    assert(has_no_backslash(plain_from(s, 52)));
    assert(s[51] == ' ');
    assert(has_no_backslash(plain_from(s, 51)));
    assert(s[50] == '+');
    assert(has_no_backslash(plain_from(s, 50)));
    assert(s[49] == ' ');
    assert(has_no_backslash(plain_from(s, 49)));
    assert(s[45] == '^');
    assert(s[46] == '{');
    assert(group_close(s, 48, 1) == 48);
    assert(group_close(s, 47, 1) == 48);
    let t8 = s.subrange(47, 48);
    assert(t8.len() == 1);
    assert(plain_from(t8, 1).len() == 0);
    assert(t8[0] == '5');
    assert(has_no_backslash(plain_from(t8, 0)));
    assert(has_no_backslash(plain_from(s, 45)));
    assert(s[44] == 'x');
    assert(has_no_backslash(plain_from(s, 44)));
    assert(s[43] == ' ');
    assert(has_no_backslash(plain_from(s, 43)));
    assert(s[38] == '\\');
    assert(alpha_end(s, 43) == 43);
    assert(alpha_end(s, 42) == 43);
    assert(alpha_end(s, 41) == 43);
    assert(alpha_end(s, 40) == 43);
    assert(alpha_end(s, 39) == 43);
    let t9 = s.subrange(39, 43);
    assert(t9.len() == 4 && t9[0] == 'c' && t9[1] == 'd' && t9[2] == 'o' && t9[3] == 't');
    assert(t9 =~= "cdot"@);
    lemma_latex_symbol_cdot(t9);
    assert(has_no_backslash(plain_from(s, 38)));
    assert(s[37] == ' ');
    assert(has_no_backslash(plain_from(s, 37)));
    assert(s[36] == 'c');
    assert(has_no_backslash(plain_from(s, 36)));
    assert(s[35] == ' ');
    assert(has_no_backslash(plain_from(s, 35)));
    assert(s[34] == '+');
    assert(has_no_backslash(plain_from(s, 34)));
    assert(s[33] == ' ');
    assert(has_no_backslash(plain_from(s, 33)));
    assert(s[29] == '^');
    assert(s[30] == '{');
    assert(group_close(s, 32, 1) == 32);
    assert(group_close(s, 31, 1) == 32);
    let t10 = s.subrange(31, 32);
    assert(t10.len() == 1);
    assert(plain_from(t10, 1).len() == 0);
    assert(t10[0] == '6');
    assert(has_no_backslash(plain_from(t10, 0)));
    assert(has_no_backslash(plain_from(s, 29)));
    assert(s[28] == 'x');
    assert(has_no_backslash(plain_from(s, 28)));
    assert(s[27] == ' ');
    assert(has_no_backslash(plain_from(s, 27)));
    assert(s[22] == '\\');
    assert(alpha_end(s, 27) == 27);
    assert(alpha_end(s, 26) == 27);
    assert(alpha_end(s, 25) == 27);
    assert(alpha_end(s, 24) == 27);
    assert(alpha_end(s, 23) == 27);
    let t11 = s.subrange(23, 27);
    assert(t11.len() == 4 && t11[0] == 'c' && t11[1] == 'd' && t11[2] == 'o' && t11[3] == 't');
    assert(t11 =~= "cdot"@);
    lemma_latex_symbol_cdot(t11);
    assert(has_no_backslash(plain_from(s, 22)));
    assert(s[21] == ' ');
    assert(has_no_backslash(plain_from(s, 21)));
    assert(s[20] == 'b');
    assert(has_no_backslash(plain_from(s, 20)));
    assert(s[19] == ' ');
    assert(has_no_backslash(plain_from(s, 19)));
    assert(s[18] == '+');
    assert(has_no_backslash(plain_from(s, 18)));
    assert(s[17] == ' ');
    assert(has_no_backslash(plain_from(s, 17)));
    assert(s[13] == '^');
    assert(s[14] == '{');
    assert(group_close(s, 16, 1) == 16);
    assert(group_close(s, 15, 1) == 16);
    let t12 = s.subrange(15, 16);
    assert(t12.len() == 1);
    assert(plain_from(t12, 1).len() == 0);
    assert(t12[0] == '7');
    assert(has_no_backslash(plain_from(t12, 0)));
    assert(has_no_backslash(plain_from(s, 13)));
    assert(s[12] == 'x');
    assert(has_no_backslash(plain_from(s, 12)));
    assert(s[11] == ' ');
    assert(has_no_backslash(plain_from(s, 11)));
    assert(s[6] == '\\');
    assert(alpha_end(s, 11) == 11);
    assert(alpha_end(s, 10) == 11);
    assert(alpha_end(s, 9) == 11);
    assert(alpha_end(s, 8) == 11);
    assert(alpha_end(s, 7) == 11);
    let t13 = s.subrange(7, 11);
    assert(t13.len() == 4 && t13[0] == 'c' && t13[1] == 'd' && t13[2] == 'o' && t13[3] == 't');
    assert(t13 =~= "cdot"@);
    lemma_latex_symbol_cdot(t13);
    assert(has_no_backslash(plain_from(s, 6)));
    assert(s[5] == ' ');
    assert(has_no_backslash(plain_from(s, 5)));
    assert(s[4] == 'a');
    assert(has_no_backslash(plain_from(s, 4)));
    assert(s[3] == ' ');
    assert(has_no_backslash(plain_from(s, 3)));
    assert(s[2] == '=');
    assert(has_no_backslash(plain_from(s, 2)));
    assert(s[1] == ' ');
    assert(has_no_backslash(plain_from(s, 1)));
    assert(s[0] == 'y');
    assert(has_no_backslash(plain_from(s, 0)));
}

#[verifier::rlimit(100)]
#[verifier::spinoff_prover]
proof fn lemma_polynomial_formula_of_degree_8()
    ensures
        spec_polynomial_formula(8) == "y = a \\cdot x^{8} + b \\cdot x^{7} + c \\cdot x^{6} + d \\cdot x^{5} + e \\cdot x^{4} + f \\cdot x^{3} + g \\cdot x^{2} + h \\cdot x + i"@,
{
    reveal_strlit("y = a \\cdot x^{8} + b \\cdot x^{7} + c \\cdot x^{6} + d \\cdot x^{5} + e \\cdot x^{4} + f \\cdot x^{3} + g \\cdot x^{2} + h \\cdot x + i");
    reveal_strlit("y = ");
    reveal_strlit(" + ");
    reveal_strlit(" \\cdot x");
    reveal_strlit(" \\cdot x^{");
    reveal_strlit("}");
    reveal_with_fuel(polynomial_terms, 11);
    assert(spec_parameter_symbol(0) == 'a');
    assert(spec_parameter_symbol(1) == 'b');
    assert(spec_parameter_symbol(2) == 'c');
    assert(spec_parameter_symbol(3) == 'd');
    assert(spec_parameter_symbol(4) == 'e');
    assert(spec_parameter_symbol(5) == 'f');
    assert(spec_parameter_symbol(6) == 'g');
    assert(spec_parameter_symbol(7) == 'h');
    assert(spec_parameter_symbol(8) == 'i');
    assert(spec_parameter_symbol(9) == 'j');
    assert(spec_parameter_symbol(10) == 'k');
    assert(decimal_text(2) == seq!['2']);
    assert(decimal_text(3) == seq!['3']);
    assert(decimal_text(4) == seq!['4']);
    assert(decimal_text(5) == seq!['5']);
    assert(decimal_text(6) == seq!['6']);
    assert(decimal_text(7) == seq!['7']);
    assert(decimal_text(8) == seq!['8']);
    assert(decimal_text(9) == seq!['9']);
    assert(spec_polynomial_formula(8) =~= "y = a \\cdot x^{8} + b \\cdot x^{7} + c \\cdot x^{6} + d \\cdot x^{5} + e \\cdot x^{4} + f \\cdot x^{3} + g \\cdot x^{2} + h \\cdot x + i"@);
}

#[verifier::rlimit(100)]
#[verifier::spinoff_prover]
proof fn lemma_polynomial_of_degree_8_plain_text_is_clean()
    ensures
        has_no_backslash(spec_latex_to_plain_text("y = a \\cdot x^{8} + b \\cdot x^{7} + c \\cdot x^{6} + d \\cdot x^{5} + e \\cdot x^{4} + f \\cdot x^{3} + g \\cdot x^{2} + h \\cdot x + i"@)),
{
    reveal_strlit("y = a \\cdot x^{8} + b \\cdot x^{7} + c \\cdot x^{6} + d \\cdot x^{5} + e \\cdot x^{4} + f \\cdot x^{3} + g \\cdot x^{2} + h \\cdot x + i");
    reveal_strlit("begin");
    reveal_strlit("cdot");
    reveal_strlit("end");
    reveal_strlit("frac");
    reveal_strlit("quad");
    reveal_strlit("sqrt");
    reveal_strlit("text");
    let s = "y = a \\cdot x^{8} + b \\cdot x^{7} + c \\cdot x^{6} + d \\cdot x^{5} + e \\cdot x^{4} + f \\cdot x^{3} + g \\cdot x^{2} + h \\cdot x + i"@;
    assert(s.len() == 129);
    assert(plain_from(s, 129).len() == 0);
    assert(s[128] == 'i');
    assert(has_no_backslash(plain_from(s, 128)));
    assert(s[127] == ' ');
    assert(has_no_backslash(plain_from(s, 127)));
    assert(s[126] == '+');
    assert(has_no_backslash(plain_from(s, 126)));
    assert(s[125] == ' ');
    assert(has_no_backslash(plain_from(s, 125)));
    assert(s[124] == 'x');
    assert(has_no_backslash(plain_from(s, 124)));
    assert(s[123] == ' ');
    assert(has_no_backslash(plain_from(s, 123)));
    assert(s[118] == '\\');
    assert(alpha_end(s, 123) == 123);
    assert(alpha_end(s, 122) == 123);
    assert(alpha_end(s, 121) == 123);
    assert(alpha_end(s, 120) == 123);
    assert(alpha_end(s, 119) == 123);
    let t1 = s.subrange(119, 123);
    assert(t1.len() == 4 && t1[0] == 'c' && t1[1] == 'd' && t1[2] == 'o' && t1[3] == 't');
    assert(t1 =~= "cdot"@);
    lemma_latex_symbol_cdot(t1);
    assert(has_no_backslash(plain_from(s, 118)));
    assert(s[117] == ' ');
    assert(has_no_backslash(plain_from(s, 117)));
    assert(s[116] == 'h');
    assert(has_no_backslash(plain_from(s, 116)));
    assert(s[115] == ' ');
    assert(has_no_backslash(plain_from(s, 115)));
    assert(s[114] == '+');
    assert(has_no_backslash(plain_from(s, 114)));
    assert(s[113] == ' ');
    assert(has_no_backslash(plain_from(s, 113)));
    assert(s[109] == '^');
    assert(s[110] == '{');
    assert(group_close(s, 112, 1) == 112);
    assert(group_close(s, 111, 1) == 112);
    let t2 = s.subrange(111, 112);
    assert(t2.len() == 1);
    assert(plain_from(t2, 1).len() == 0);
    assert(t2[0] == '2');
    assert(has_no_backslash(plain_from(t2, 0)));
    assert(has_no_backslash(plain_from(s, 109)));
    assert(s[108] == 'x');
    assert(has_no_backslash(plain_from(s, 108)));
    assert(s[107] == ' ');
    assert(has_no_backslash(plain_from(s, 107)));
    assert(s[102] == '\\');
    assert(alpha_end(s, 107) == 107);
    assert(alpha_end(s, 106) == 107);
    assert(alpha_end(s, 105) == 107);
    assert(alpha_end(s, 104) == 107);
    assert(alpha_end(s, 103) == 107);
    let t3 = s.subrange(103, 107);
    assert(t3.len() == 4 && t3[0] == 'c' && t3[1] == 'd' && t3[2] == 'o' && t3[3] == 't');
    assert(t3 =~= "cdot"@);
    lemma_latex_symbol_cdot(t3);
    assert(has_no_backslash(plain_from(s, 102)));
    assert(s[101] == ' ');
    assert(has_no_backslash(plain_from(s, 101)));
    assert(s[100] == 'g');
    assert(has_no_backslash(plain_from(s, 100)));
    assert(s[99] == ' ');
    assert(has_no_backslash(plain_from(s, 99)));
    assert(s[98] == '+');
    assert(has_no_backslash(plain_from(s, 98)));
    assert(s[97] == ' ');
    assert(has_no_backslash(plain_from(s, 97)));
    assert(s[93] == '^');
    assert(s[94] == '{');
    assert(group_close(s, 96, 1) == 96);
    assert(group_close(s, 95, 1) == 96);
    let t4 = s.subrange(95, 96);
    assert(t4.len() == 1);
    assert(plain_from(t4, 1).len() == 0);
    assert(t4[0] == '3');
    assert(has_no_backslash(plain_from(t4, 0)));
    assert(has_no_backslash(plain_from(s, 93)));
    assert(s[92] == 'x');
    assert(has_no_backslash(plain_from(s, 92)));
    assert(s[91] == ' ');
    assert(has_no_backslash(plain_from(s, 91)));
    assert(s[86] == '\\');
    assert(alpha_end(s, 91) == 91);
    assert(alpha_end(s, 90) == 91);
    assert(alpha_end(s, 89) == 91);
    assert(alpha_end(s, 88) == 91);
    assert(alpha_end(s, 87) == 91);
    let t5 = s.subrange(87, 91);
    assert(t5.len() == 4 && t5[0] == 'c' && t5[1] == 'd' && t5[2] == 'o' && t5[3] == 't');
    assert(t5 =~= "cdot"@);
    lemma_latex_symbol_cdot(t5);
    assert(has_no_backslash(plain_from(s, 86)));
    assert(s[85] == ' ');
    assert(has_no_backslash(plain_from(s, 85)));
    assert(s[84] == 'f');
    assert(has_no_backslash(plain_from(s, 84)));
    assert(s[83] == ' ');
    assert(has_no_backslash(plain_from(s, 83)));
    assert(s[82] == '+');
    assert(has_no_backslash(plain_from(s, 82)));
    assert(s[81] == ' ');
    assert(has_no_backslash(plain_from(s, 81)));
    assert(s[77] == '^');
    assert(s[78] == '{');
    assert(group_close(s, 80, 1) == 80);
    assert(group_close(s, 79, 1) == 80);
    let t6 = s.subrange(79, 80);
    assert(t6.len() == 1);
    assert(plain_from(t6, 1).len() == 0);
    assert(t6[0] == '4');
    assert(has_no_backslash(plain_from(t6, 0)));
    assert(has_no_backslash(plain_from(s, 77)));
    assert(s[76] == 'x');
    assert(has_no_backslash(plain_from(s, 76)));
    assert(s[75] == ' ');
    assert(has_no_backslash(plain_from(s, 75)));
    assert(s[70] == '\\');
    assert(alpha_end(s, 75) == 75);
    assert(alpha_end(s, 74) == 75);
    assert(alpha_end(s, 73) == 75);
    assert(alpha_end(s, 72) == 75);
    assert(alpha_end(s, 71) == 75);
    let t7 = s.subrange(71, 75);
    assert(t7.len() == 4 && t7[0] == 'c' && t7[1] == 'd' && t7[2] == 'o' && t7[3] == 't');
    assert(t7 =~= "cdot"@);
    lemma_latex_symbol_cdot(t7);
    assert(has_no_backslash(plain_from(s, 70)));
    assert(s[69] == ' ');
    assert(has_no_backslash(plain_from(s, 69)));
    assert(s[68] == 'e');
    assert(has_no_backslash(plain_from(s, 68)));
    assert(s[67] == ' ');
    assert(has_no_backslash(plain_from(s, 67)));
    assert(s[66] == '+');
    assert(has_no_backslash(plain_from(s, 66)));
    assert(s[65] == ' ');
    assert(has_no_backslash(plain_from(s, 65)));
    assert(s[61] == '^');
    assert(s[62] == '{');
    assert(group_close(s, 64, 1) == 64);
    assert(group_close(s, 63, 1) == 64);
    let t8 = s.subrange(63, 64);
    assert(t8.len() == 1);
    assert(plain_from(t8, 1).len() == 0);
    assert(t8[0] == '5');
    assert(has_no_backslash(plain_from(t8, 0)));
    assert(has_no_backslash(plain_from(s, 61)));
    assert(s[60] == 'x');
    assert(has_no_backslash(plain_from(s, 60)));
    assert(s[59] == ' ');
    assert(has_no_backslash(plain_from(s, 59)));
    assert(s[54] == '\\');
    assert(alpha_end(s, 59) == 59);
    assert(alpha_end(s, 58) == 59);
    assert(alpha_end(s, 57) == 59);
    assert(alpha_end(s, 56) == 59);
    assert(alpha_end(s, 55) == 59);
    let t9 = s.subrange(55, 59);
    assert(t9.len() == 4 && t9[0] == 'c' && t9[1] == 'd' && t9[2] == 'o' && t9[3] == 't');
    assert(t9 =~= "cdot"@);
    lemma_latex_symbol_cdot(t9);
    assert(has_no_backslash(plain_from(s, 54)));
    assert(s[53] == ' ');
    assert(has_no_backslash(plain_from(s, 53)));
    assert(s[52] == 'd');
    assert(has_no_backslash(plain_from(s, 52)));
    assert(s[51] == ' ');
    assert(has_no_backslash(plain_from(s, 51)));
    assert(s[50] == '+');
    assert(has_no_backslash(plain_from(s, 50)));
    assert(s[49] == ' ');
    assert(has_no_backslash(plain_from(s, 49)));
    assert(s[45] == '^');
    assert(s[46] == '{');
    assert(group_close(s, 48, 1) == 48);
    assert(group_close(s, 47, 1) == 48);
    let t10 = s.subrange(47, 48);
    assert(t10.len() == 1);
    assert(plain_from(t10, 1).len() == 0);
    assert(t10[0] == '6');
    assert(has_no_backslash(plain_from(t10, 0)));
    assert(has_no_backslash(plain_from(s, 45)));
    assert(s[44] == 'x');
    assert(has_no_backslash(plain_from(s, 44)));
    assert(s[43] == ' ');
    assert(has_no_backslash(plain_from(s, 43)));
    assert(s[38] == '\\');
    assert(alpha_end(s, 43) == 43);
    assert(alpha_end(s, 42) == 43);
    assert(alpha_end(s, 41) == 43);
    assert(alpha_end(s, 40) == 43);
    assert(alpha_end(s, 39) == 43);
    let t11 = s.subrange(39, 43);
    assert(t11.len() == 4 && t11[0] == 'c' && t11[1] == 'd' && t11[2] == 'o' && t11[3] == 't');
    assert(t11 =~= "cdot"@);
    lemma_latex_symbol_cdot(t11);
    assert(has_no_backslash(plain_from(s, 38)));
    assert(s[37] == ' ');
    assert(has_no_backslash(plain_from(s, 37)));
    assert(s[36] == 'c');
    assert(has_no_backslash(plain_from(s, 36)));
    assert(s[35] == ' ');
    assert(has_no_backslash(plain_from(s, 35)));
    assert(s[34] == '+');
    assert(has_no_backslash(plain_from(s, 34)));
    assert(s[33] == ' ');
    assert(has_no_backslash(plain_from(s, 33)));
    assert(s[29] == '^');
    assert(s[30] == '{');
    assert(group_close(s, 32, 1) == 32);
    assert(group_close(s, 31, 1) == 32);
    let t12 = s.subrange(31, 32);
    assert(t12.len() == 1);
    assert(plain_from(t12, 1).len() == 0);
    assert(t12[0] == '7');
    assert(has_no_backslash(plain_from(t12, 0)));
    assert(has_no_backslash(plain_from(s, 29)));
    assert(s[28] == 'x');
    assert(has_no_backslash(plain_from(s, 28)));
    assert(s[27] == ' ');
    assert(has_no_backslash(plain_from(s, 27)));
    assert(s[22] == '\\');
    assert(alpha_end(s, 27) == 27);
    assert(alpha_end(s, 26) == 27);
    assert(alpha_end(s, 25) == 27);
    assert(alpha_end(s, 24) == 27);
    assert(alpha_end(s, 23) == 27);
    let t13 = s.subrange(23, 27);
    assert(t13.len() == 4 && t13[0] == 'c' && t13[1] == 'd' && t13[2] == 'o' && t13[3] == 't');
    assert(t13 =~= "cdot"@);
    lemma_latex_symbol_cdot(t13);
    assert(has_no_backslash(plain_from(s, 22)));
    assert(s[21] == ' ');
    assert(has_no_backslash(plain_from(s, 21)));
    assert(s[20] == 'b');
    assert(has_no_backslash(plain_from(s, 20)));
    assert(s[19] == ' ');
    assert(has_no_backslash(plain_from(s, 19)));
    assert(s[18] == '+');
    assert(has_no_backslash(plain_from(s, 18)));
    assert(s[17] == ' ');
    assert(has_no_backslash(plain_from(s, 17)));
    assert(s[13] == '^');
    assert(s[14] == '{');
    assert(group_close(s, 16, 1) == 16);
    assert(group_close(s, 15, 1) == 16);
    let t14 = s.subrange(15, 16);
    assert(t14.len() == 1);
    assert(plain_from(t14, 1).len() == 0);
    assert(t14[0] == '8');
    assert(has_no_backslash(plain_from(t14, 0)));
    assert(has_no_backslash(plain_from(s, 13)));
    assert(s[12] == 'x');
    assert(has_no_backslash(plain_from(s, 12)));
    assert(s[11] == ' ');
    assert(has_no_backslash(plain_from(s, 11)));
    assert(s[6] == '\\');
    assert(alpha_end(s, 11) == 11);
    assert(alpha_end(s, 10) == 11);
    assert(alpha_end(s, 9) == 11);
    assert(alpha_end(s, 8) == 11);
    assert(alpha_end(s, 7) == 11);
    let t15 = s.subrange(7, 11);
    assert(t15.len() == 4 && t15[0] == 'c' && t15[1] == 'd' && t15[2] == 'o' && t15[3] == 't');
    assert(t15 =~= "cdot"@);
    lemma_latex_symbol_cdot(t15);
    assert(has_no_backslash(plain_from(s, 6)));
    assert(s[5] == ' ');
    assert(has_no_backslash(plain_from(s, 5)));
    assert(s[4] == 'a');
    assert(has_no_backslash(plain_from(s, 4)));
    assert(s[3] == ' ');
    assert(has_no_backslash(plain_from(s, 3)));
    assert(s[2] == '=');
    assert(has_no_backslash(plain_from(s, 2)));
    assert(s[1] == ' ');
    assert(has_no_backslash(plain_from(s, 1)));
    assert(s[0] == 'y');
    assert(has_no_backslash(plain_from(s, 0)));
}

#[verifier::rlimit(100)]
#[verifier::spinoff_prover]
proof fn lemma_polynomial_formula_of_degree_9()
    ensures
        spec_polynomial_formula(9) == "y = a \\cdot x^{9} + b \\cdot x^{8} + c \\cdot x^{7} + d \\cdot x^{6} + e \\cdot x^{5} + f \\cdot x^{4} + g \\cdot x^{3} + h \\cdot x^{2} + i \\cdot x + j"@,
{
    reveal_strlit("y = a \\cdot x^{9} + b \\cdot x^{8} + c \\cdot x^{7} + d \\cdot x^{6} + e \\cdot x^{5} + f \\cdot x^{4} + g \\cdot x^{3} + h \\cdot x^{2} + i \\cdot x + j");
    reveal_strlit("y = ");
    reveal_strlit(" + ");
    reveal_strlit(" \\cdot x");
    reveal_strlit(" \\cdot x^{");
    reveal_strlit("}");
    reveal_with_fuel(polynomial_terms, 12);
    assert(spec_parameter_symbol(0) == 'a');
    assert(spec_parameter_symbol(1) == 'b');
    assert(spec_parameter_symbol(2) == 'c');
    assert(spec_parameter_symbol(3) == 'd');
    assert(spec_parameter_symbol(4) == 'e');
    assert(spec_parameter_symbol(5) == 'f');
    assert(spec_parameter_symbol(6) == 'g');
    assert(spec_parameter_symbol(7) == 'h');
    assert(spec_parameter_symbol(8) == 'i');
    assert(spec_parameter_symbol(9) == 'j');
    assert(spec_parameter_symbol(10) == 'k');
    assert(decimal_text(2) == seq!['2']);
    assert(decimal_text(3) == seq!['3']);
    assert(decimal_text(4) == seq!['4']);
    assert(decimal_text(5) == seq!['5']);
    assert(decimal_text(6) == seq!['6']);
    assert(decimal_text(7) == seq!['7']);
    assert(decimal_text(8) == seq!['8']);
    assert(decimal_text(9) == seq!['9']);
    assert(spec_polynomial_formula(9) =~= "y = a \\cdot x^{9} + b \\cdot x^{8} + c \\cdot x^{7} + d \\cdot x^{6} + e \\cdot x^{5} + f \\cdot x^{4} + g \\cdot x^{3} + h \\cdot x^{2} + i \\cdot x + j"@);
}

#[verifier::rlimit(100)]
#[verifier::spinoff_prover]
proof fn lemma_polynomial_of_degree_9_plain_text_is_clean()
    ensures
        has_no_backslash(spec_latex_to_plain_text("y = a \\cdot x^{9} + b \\cdot x^{8} + c \\cdot x^{7} + d \\cdot x^{6} + e \\cdot x^{5} + f \\cdot x^{4} + g \\cdot x^{3} + h \\cdot x^{2} + i \\cdot x + j"@)),
{
    reveal_strlit("y = a \\cdot x^{9} + b \\cdot x^{8} + c \\cdot x^{7} + d \\cdot x^{6} + e \\cdot x^{5} + f \\cdot x^{4} + g \\cdot x^{3} + h \\cdot x^{2} + i \\cdot x + j");
    reveal_strlit("begin");
    reveal_strlit("cdot");
    reveal_strlit("end");
    reveal_strlit("frac");
    reveal_strlit("quad");
    reveal_strlit("sqrt");
    reveal_strlit("text");
    let s = "y = a \\cdot x^{9} + b \\cdot x^{8} + c \\cdot x^{7} + d \\cdot x^{6} + e \\cdot x^{5} + f \\cdot x^{4} + g \\cdot x^{3} + h \\cdot x^{2} + i \\cdot x + j"@;
    assert(s.len() == 145);
    assert(plain_from(s, 145).len() == 0);
    assert(s[144] == 'j');
    assert(has_no_backslash(plain_from(s, 144)));
    assert(s[143] == ' ');
    assert(has_no_backslash(plain_from(s, 143)));
    assert(s[142] == '+');
    assert(has_no_backslash(plain_from(s, 142)));
    assert(s[141] == ' ');
    assert(has_no_backslash(plain_from(s, 141)));
    assert(s[140] == 'x');
    assert(has_no_backslash(plain_from(s, 140)));
    assert(s[139] == ' ');
    assert(has_no_backslash(plain_from(s, 139)));
    assert(s[134] == '\\');
    assert(alpha_end(s, 139) == 139);
    assert(alpha_end(s, 138) == 139);
    assert(alpha_end(s, 137) == 139);
    assert(alpha_end(s, 136) == 139);
    assert(alpha_end(s, 135) == 139);
    let t1 = s.subrange(135, 139);
    assert(t1.len() == 4 && t1[0] == 'c' && t1[1] == 'd' && t1[2] == 'o' && t1[3] == 't');
    assert(t1 =~= "cdot"@);
    lemma_latex_symbol_cdot(t1);
    assert(has_no_backslash(plain_from(s, 134)));
    assert(s[133] == ' ');
    assert(has_no_backslash(plain_from(s, 133)));
    assert(s[132] == 'i');
    assert(has_no_backslash(plain_from(s, 132)));
    assert(s[131] == ' ');
    assert(has_no_backslash(plain_from(s, 131)));
    assert(s[130] == '+');
    assert(has_no_backslash(plain_from(s, 130)));
    assert(s[129] == ' ');
    assert(has_no_backslash(plain_from(s, 129)));
    assert(s[125] == '^');
    assert(s[126] == '{');
    assert(group_close(s, 128, 1) == 128);
    assert(group_close(s, 127, 1) == 128);
    let t2 = s.subrange(127, 128);
    assert(t2.len() == 1);
    assert(plain_from(t2, 1).len() == 0);
    assert(t2[0] == '2');
    assert(has_no_backslash(plain_from(t2, 0)));
    assert(has_no_backslash(plain_from(s, 125)));
    assert(s[124] == 'x');
    assert(has_no_backslash(plain_from(s, 124)));
    assert(s[123] == ' ');
    assert(has_no_backslash(plain_from(s, 123)));
    assert(s[118] == '\\');
    assert(alpha_end(s, 123) == 123);
    assert(alpha_end(s, 122) == 123);
    assert(alpha_end(s, 121) == 123);
    assert(alpha_end(s, 120) == 123);
    assert(alpha_end(s, 119) == 123);
    let t3 = s.subrange(119, 123);
    assert(t3.len() == 4 && t3[0] == 'c' && t3[1] == 'd' && t3[2] == 'o' && t3[3] == 't');
    assert(t3 =~= "cdot"@);
    lemma_latex_symbol_cdot(t3);
    assert(has_no_backslash(plain_from(s, 118)));
    assert(s[117] == ' ');
    assert(has_no_backslash(plain_from(s, 117)));
    assert(s[116] == 'h');
    assert(has_no_backslash(plain_from(s, 116)));
    assert(s[115] == ' ');
    assert(has_no_backslash(plain_from(s, 115)));
    assert(s[114] == '+');
    assert(has_no_backslash(plain_from(s, 114)));
    assert(s[113] == ' ');
    assert(has_no_backslash(plain_from(s, 113)));
    assert(s[109] == '^');
    assert(s[110] == '{');
    assert(group_close(s, 112, 1) == 112);
    assert(group_close(s, 111, 1) == 112);
    let t4 = s.subrange(111, 112);
    assert(t4.len() == 1);
    assert(plain_from(t4, 1).len() == 0);
    assert(t4[0] == '3');
    assert(has_no_backslash(plain_from(t4, 0)));
    assert(has_no_backslash(plain_from(s, 109)));
    assert(s[108] == 'x');
    assert(has_no_backslash(plain_from(s, 108)));
    assert(s[107] == ' ');
    assert(has_no_backslash(plain_from(s, 107)));
    assert(s[102] == '\\');
    assert(alpha_end(s, 107) == 107);
    assert(alpha_end(s, 106) == 107);
    assert(alpha_end(s, 105) == 107);
    assert(alpha_end(s, 104) == 107);
    assert(alpha_end(s, 103) == 107);
    let t5 = s.subrange(103, 107);
    assert(t5.len() == 4 && t5[0] == 'c' && t5[1] == 'd' && t5[2] == 'o' && t5[3] == 't');
    assert(t5 =~= "cdot"@);
    lemma_latex_symbol_cdot(t5);
    assert(has_no_backslash(plain_from(s, 102)));
    assert(s[101] == ' ');
    assert(has_no_backslash(plain_from(s, 101)));
    assert(s[100] == 'g');
    assert(has_no_backslash(plain_from(s, 100)));
    assert(s[99] == ' ');
    assert(has_no_backslash(plain_from(s, 99)));
    assert(s[98] == '+');
    assert(has_no_backslash(plain_from(s, 98)));
    assert(s[97] == ' ');
    assert(has_no_backslash(plain_from(s, 97)));
    assert(s[93] == '^');
    assert(s[94] == '{');
    assert(group_close(s, 96, 1) == 96);
    assert(group_close(s, 95, 1) == 96);
    let t6 = s.subrange(95, 96);
    assert(t6.len() == 1);
    assert(plain_from(t6, 1).len() == 0);
    assert(t6[0] == '4');
    assert(has_no_backslash(plain_from(t6, 0)));
    assert(has_no_backslash(plain_from(s, 93)));
    assert(s[92] == 'x');
    assert(has_no_backslash(plain_from(s, 92)));
    assert(s[91] == ' ');
    assert(has_no_backslash(plain_from(s, 91)));
    assert(s[86] == '\\');
    assert(alpha_end(s, 91) == 91);
    assert(alpha_end(s, 90) == 91);
    assert(alpha_end(s, 89) == 91);
    assert(alpha_end(s, 88) == 91);
    assert(alpha_end(s, 87) == 91);
    let t7 = s.subrange(87, 91);
    assert(t7.len() == 4 && t7[0] == 'c' && t7[1] == 'd' && t7[2] == 'o' && t7[3] == 't');
    assert(t7 =~= "cdot"@);
    lemma_latex_symbol_cdot(t7);
    assert(has_no_backslash(plain_from(s, 86)));
    assert(s[85] == ' ');
    assert(has_no_backslash(plain_from(s, 85)));
    assert(s[84] == 'f');
    assert(has_no_backslash(plain_from(s, 84)));
    assert(s[83] == ' ');
    assert(has_no_backslash(plain_from(s, 83)));
    assert(s[82] == '+');
    assert(has_no_backslash(plain_from(s, 82)));
    assert(s[81] == ' ');
    assert(has_no_backslash(plain_from(s, 81)));
    assert(s[77] == '^');
    assert(s[78] == '{');
    assert(group_close(s, 80, 1) == 80);
    assert(group_close(s, 79, 1) == 80);
    let t8 = s.subrange(79, 80);
    assert(t8.len() == 1);
    assert(plain_from(t8, 1).len() == 0);
    assert(t8[0] == '5');
    assert(has_no_backslash(plain_from(t8, 0)));
    assert(has_no_backslash(plain_from(s, 77)));
    assert(s[76] == 'x');
    assert(has_no_backslash(plain_from(s, 76)));
    assert(s[75] == ' ');
    assert(has_no_backslash(plain_from(s, 75)));
    assert(s[70] == '\\');
    assert(alpha_end(s, 75) == 75);
    assert(alpha_end(s, 74) == 75);
    assert(alpha_end(s, 73) == 75);
    assert(alpha_end(s, 72) == 75);
    assert(alpha_end(s, 71) == 75);
    let t9 = s.subrange(71, 75);
    assert(t9.len() == 4 && t9[0] == 'c' && t9[1] == 'd' && t9[2] == 'o' && t9[3] == 't');
    assert(t9 =~= "cdot"@);
    lemma_latex_symbol_cdot(t9);
    assert(has_no_backslash(plain_from(s, 70)));
    assert(s[69] == ' ');
    assert(has_no_backslash(plain_from(s, 69)));
    assert(s[68] == 'e');
    assert(has_no_backslash(plain_from(s, 68)));
    assert(s[67] == ' ');
    assert(has_no_backslash(plain_from(s, 67)));
    assert(s[66] == '+');
    assert(has_no_backslash(plain_from(s, 66)));
    assert(s[65] == ' ');
    assert(has_no_backslash(plain_from(s, 65)));
    assert(s[61] == '^');
    assert(s[62] == '{');
    assert(group_close(s, 64, 1) == 64);
    assert(group_close(s, 63, 1) == 64);
    let t10 = s.subrange(63, 64);
    assert(t10.len() == 1);
    assert(plain_from(t10, 1).len() == 0);
    assert(t10[0] == '6');
    assert(has_no_backslash(plain_from(t10, 0)));
    assert(has_no_backslash(plain_from(s, 61)));
    assert(s[60] == 'x');
    assert(has_no_backslash(plain_from(s, 60)));
    assert(s[59] == ' ');
    assert(has_no_backslash(plain_from(s, 59)));
    assert(s[54] == '\\');
    assert(alpha_end(s, 59) == 59);
    assert(alpha_end(s, 58) == 59);
    assert(alpha_end(s, 57) == 59);
    assert(alpha_end(s, 56) == 59);
    assert(alpha_end(s, 55) == 59);
    let t11 = s.subrange(55, 59);
    assert(t11.len() == 4 && t11[0] == 'c' && t11[1] == 'd' && t11[2] == 'o' && t11[3] == 't');
    assert(t11 =~= "cdot"@);
    lemma_latex_symbol_cdot(t11);
    assert(has_no_backslash(plain_from(s, 54)));
    assert(s[53] == ' ');
    assert(has_no_backslash(plain_from(s, 53)));
    assert(s[52] == 'd');
    assert(has_no_backslash(plain_from(s, 52)));
    assert(s[51] == ' ');
    assert(has_no_backslash(plain_from(s, 51)));
    assert(s[50] == '+');
    assert(has_no_backslash(plain_from(s, 50)));
    assert(s[49] == ' ');
    assert(has_no_backslash(plain_from(s, 49)));
    assert(s[45] == '^');
    assert(s[46] == '{');
    assert(group_close(s, 48, 1) == 48);
    assert(group_close(s, 47, 1) == 48);
    let t12 = s.subrange(47, 48);
    assert(t12.len() == 1);
    assert(plain_from(t12, 1).len() == 0);
    assert(t12[0] == '7');
    assert(has_no_backslash(plain_from(t12, 0)));
    assert(has_no_backslash(plain_from(s, 45)));
    assert(s[44] == 'x');
    assert(has_no_backslash(plain_from(s, 44)));
    assert(s[43] == ' ');
    assert(has_no_backslash(plain_from(s, 43)));
    assert(s[38] == '\\');
    assert(alpha_end(s, 43) == 43);
    assert(alpha_end(s, 42) == 43);
    assert(alpha_end(s, 41) == 43);
    assert(alpha_end(s, 40) == 43);
    assert(alpha_end(s, 39) == 43);
    let t13 = s.subrange(39, 43);
    assert(t13.len() == 4 && t13[0] == 'c' && t13[1] == 'd' && t13[2] == 'o' && t13[3] == 't');
    assert(t13 =~= "cdot"@);
    lemma_latex_symbol_cdot(t13);
    assert(has_no_backslash(plain_from(s, 38)));
    assert(s[37] == ' ');
    assert(has_no_backslash(plain_from(s, 37)));
    assert(s[36] == 'c');
    assert(has_no_backslash(plain_from(s, 36)));
    assert(s[35] == ' ');
    assert(has_no_backslash(plain_from(s, 35)));
    assert(s[34] == '+');
    assert(has_no_backslash(plain_from(s, 34)));
    assert(s[33] == ' ');
    assert(has_no_backslash(plain_from(s, 33)));
    assert(s[29] == '^');
    assert(s[30] == '{');
    assert(group_close(s, 32, 1) == 32);
    assert(group_close(s, 31, 1) == 32);
    let t14 = s.subrange(31, 32);
    assert(t14.len() == 1);
    assert(plain_from(t14, 1).len() == 0);
    assert(t14[0] == '8');
    assert(has_no_backslash(plain_from(t14, 0)));
    assert(has_no_backslash(plain_from(s, 29)));
    assert(s[28] == 'x');
    assert(has_no_backslash(plain_from(s, 28)));
    assert(s[27] == ' ');
    assert(has_no_backslash(plain_from(s, 27)));
    assert(s[22] == '\\');
    assert(alpha_end(s, 27) == 27);
    assert(alpha_end(s, 26) == 27);
    assert(alpha_end(s, 25) == 27);
    assert(alpha_end(s, 24) == 27);
    assert(alpha_end(s, 23) == 27);
    let t15 = s.subrange(23, 27);
    assert(t15.len() == 4 && t15[0] == 'c' && t15[1] == 'd' && t15[2] == 'o' && t15[3] == 't');
    assert(t15 =~= "cdot"@);
    lemma_latex_symbol_cdot(t15);
    assert(has_no_backslash(plain_from(s, 22)));
    assert(s[21] == ' ');
    assert(has_no_backslash(plain_from(s, 21)));
    assert(s[20] == 'b');
    assert(has_no_backslash(plain_from(s, 20)));
    assert(s[19] == ' ');
    assert(has_no_backslash(plain_from(s, 19)));
    assert(s[18] == '+');
    assert(has_no_backslash(plain_from(s, 18)));
    assert(s[17] == ' ');
    assert(has_no_backslash(plain_from(s, 17)));
    assert(s[13] == '^');
    assert(s[14] == '{');
    assert(group_close(s, 16, 1) == 16);
    assert(group_close(s, 15, 1) == 16);
    let t16 = s.subrange(15, 16);
    assert(t16.len() == 1);
    assert(plain_from(t16, 1).len() == 0);
    assert(t16[0] == '9');
    assert(has_no_backslash(plain_from(t16, 0)));
    assert(has_no_backslash(plain_from(s, 13)));
    assert(s[12] == 'x');
    assert(has_no_backslash(plain_from(s, 12)));
    assert(s[11] == ' ');
    assert(has_no_backslash(plain_from(s, 11)));
    assert(s[6] == '\\');
    assert(alpha_end(s, 11) == 11);
    assert(alpha_end(s, 10) == 11);
    assert(alpha_end(s, 9) == 11);
    assert(alpha_end(s, 8) == 11);
    assert(alpha_end(s, 7) == 11);
    let t17 = s.subrange(7, 11);
    assert(t17.len() == 4 && t17[0] == 'c' && t17[1] == 'd' && t17[2] == 'o' && t17[3] == 't');
    assert(t17 =~= "cdot"@);
    lemma_latex_symbol_cdot(t17);
    assert(has_no_backslash(plain_from(s, 6)));
    assert(s[5] == ' ');
    assert(has_no_backslash(plain_from(s, 5)));
    assert(s[4] == 'a');
    assert(has_no_backslash(plain_from(s, 4)));
    assert(s[3] == ' ');
    assert(has_no_backslash(plain_from(s, 3)));
    assert(s[2] == '=');
    assert(has_no_backslash(plain_from(s, 2)));
    assert(s[1] == ' ');
    assert(has_no_backslash(plain_from(s, 1)));
    assert(s[0] == 'y');
    assert(has_no_backslash(plain_from(s, 0)));
}

#[verifier::rlimit(100)]
#[verifier::spinoff_prover]
proof fn lemma_rational_formula_of_degree_1()
    ensures
        spec_rational_formula(1) == "y = d + \\frac{a \\cdot x + b}{1 + c \\cdot x}"@,
{
    reveal_strlit("y = d + \\frac{a \\cdot x + b}{1 + c \\cdot x}");
    reveal_strlit("y = ");
    reveal_strlit(" + ");
    reveal_strlit(" \\cdot x");
    reveal_strlit(" \\cdot x^{");
    reveal_strlit("}");
    reveal_strlit("y = \\frac{");
    reveal_strlit("}{1");
    reveal_strlit("y = d + \\frac{a \\cdot x + b}{1 + c \\cdot x}");
    reveal_with_fuel(polynomial_terms, 4);
    reveal_with_fuel(denominator_terms, 3);
    assert(spec_parameter_symbol(0) == 'a');
    assert(spec_parameter_symbol(1) == 'b');
    assert(spec_parameter_symbol(2) == 'c');
    assert(spec_parameter_symbol(3) == 'd');
    assert(spec_parameter_symbol(4) == 'e');
    assert(spec_parameter_symbol(5) == 'f');
    assert(spec_parameter_symbol(6) == 'g');
    assert(spec_parameter_symbol(7) == 'h');
    assert(spec_parameter_symbol(8) == 'i');
    assert(spec_parameter_symbol(9) == 'j');
    assert(spec_parameter_symbol(10) == 'k');
    assert(decimal_text(2) == seq!['2']);
    assert(decimal_text(3) == seq!['3']);
    assert(decimal_text(4) == seq!['4']);
    assert(decimal_text(5) == seq!['5']);
    assert(decimal_text(6) == seq!['6']);
    assert(decimal_text(7) == seq!['7']);
    assert(decimal_text(8) == seq!['8']);
    assert(decimal_text(9) == seq!['9']);
    assert(spec_rational_formula(1) =~= "y = d + \\frac{a \\cdot x + b}{1 + c \\cdot x}"@);
}

#[verifier::rlimit(100)]
#[verifier::spinoff_prover]
proof fn lemma_rational_of_degree_1_plain_text_is_clean()
    ensures
        has_no_backslash(spec_latex_to_plain_text("y = d + \\frac{a \\cdot x + b}{1 + c \\cdot x}"@)),
{
    reveal_strlit("y = d + \\frac{a \\cdot x + b}{1 + c \\cdot x}");
    reveal_strlit("begin");
    reveal_strlit("cdot");
    reveal_strlit("end");
    reveal_strlit("frac");
    reveal_strlit("quad");
    reveal_strlit("sqrt");
    reveal_strlit("text");
    let s = "y = d + \\frac{a \\cdot x + b}{1 + c \\cdot x}"@;
    assert(s.len() == 43);
    assert(plain_from(s, 43).len() == 0);
    assert(s[8] == '\\');
    assert(alpha_end(s, 13) == 13);
    assert(alpha_end(s, 12) == 13);
    assert(alpha_end(s, 11) == 13);
    assert(alpha_end(s, 10) == 13);
    assert(alpha_end(s, 9) == 13);
    let t1 = s.subrange(9, 13);
    assert(t1.len() == 4 && t1[0] == 'f' && t1[1] == 'r' && t1[2] == 'a' && t1[3] == 'c');
    assert(t1 =~= "frac"@);
    assert(s[13] == '{');
    assert(group_close(s, 27, 1) == 27);
    assert(group_close(s, 26, 1) == 27);
    assert(group_close(s, 25, 1) == 27);
    assert(group_close(s, 24, 1) == 27);
    assert(group_close(s, 23, 1) == 27);
    assert(group_close(s, 22, 1) == 27);
    assert(group_close(s, 21, 1) == 27);
    assert(group_close(s, 20, 1) == 27);
    assert(group_close(s, 19, 1) == 27);
    assert(group_close(s, 18, 1) == 27);
    assert(group_close(s, 17, 1) == 27);
    assert(group_close(s, 16, 1) == 27);
    assert(group_close(s, 15, 1) == 27);
    assert(group_close(s, 14, 1) == 27);
    let t2 = s.subrange(14, 27);
    assert(t2.len() == 13);
    assert(plain_from(t2, 13).len() == 0);
    assert(t2[12] == 'b');
    assert(has_no_backslash(plain_from(t2, 12)));
    assert(t2[11] == ' ');
    assert(has_no_backslash(plain_from(t2, 11)));
    assert(t2[10] == '+');
    assert(has_no_backslash(plain_from(t2, 10)));
    assert(t2[9] == ' ');
    assert(has_no_backslash(plain_from(t2, 9)));
    assert(t2[8] == 'x');
    assert(has_no_backslash(plain_from(t2, 8)));
    assert(t2[7] == ' ');
    assert(has_no_backslash(plain_from(t2, 7)));
    assert(t2[2] == '\\');
    assert(alpha_end(t2, 7) == 7);
    assert(alpha_end(t2, 6) == 7);
    assert(alpha_end(t2, 5) == 7);
    assert(alpha_end(t2, 4) == 7);
    assert(alpha_end(t2, 3) == 7);
    let t3 = t2.subrange(3, 7);
    assert(t3.len() == 4 && t3[0] == 'c' && t3[1] == 'd' && t3[2] == 'o' && t3[3] == 't');
    assert(t3 =~= "cdot"@);
    lemma_latex_symbol_cdot(t3);
    assert(has_no_backslash(plain_from(t2, 2)));
    assert(t2[1] == ' ');
    assert(has_no_backslash(plain_from(t2, 1)));
    assert(t2[0] == 'a');
    assert(has_no_backslash(plain_from(t2, 0)));
    assert(s[28] == '{');
    assert(group_close(s, 42, 1) == 42);
    assert(group_close(s, 41, 1) == 42);
    assert(group_close(s, 40, 1) == 42);
    assert(group_close(s, 39, 1) == 42);
    assert(group_close(s, 38, 1) == 42);
    assert(group_close(s, 37, 1) == 42);
    assert(group_close(s, 36, 1) == 42);
    assert(group_close(s, 35, 1) == 42);
    assert(group_close(s, 34, 1) == 42);
    assert(group_close(s, 33, 1) == 42);
    assert(group_close(s, 32, 1) == 42);
    assert(group_close(s, 31, 1) == 42);
    assert(group_close(s, 30, 1) == 42);
    assert(group_close(s, 29, 1) == 42);
    let t4 = s.subrange(29, 42);
    assert(t4.len() == 13);
    assert(plain_from(t4, 13).len() == 0);
    assert(t4[12] == 'x');
    assert(has_no_backslash(plain_from(t4, 12)));
    assert(t4[11] == ' ');
    assert(has_no_backslash(plain_from(t4, 11)));
    assert(t4[6] == '\\');
    assert(alpha_end(t4, 11) == 11);
    assert(alpha_end(t4, 10) == 11);
    assert(alpha_end(t4, 9) == 11);
    assert(alpha_end(t4, 8) == 11);
    assert(alpha_end(t4, 7) == 11);
    let t5 = t4.subrange(7, 11);
    assert(t5.len() == 4 && t5[0] == 'c' && t5[1] == 'd' && t5[2] == 'o' && t5[3] == 't');
    assert(t5 =~= "cdot"@);
    lemma_latex_symbol_cdot(t5);
    assert(has_no_backslash(plain_from(t4, 6)));
    assert(t4[5] == ' ');
    assert(has_no_backslash(plain_from(t4, 5)));
    assert(t4[4] == 'c');
    assert(has_no_backslash(plain_from(t4, 4)));
    assert(t4[3] == ' ');
    assert(has_no_backslash(plain_from(t4, 3)));
    assert(t4[2] == '+');
    assert(has_no_backslash(plain_from(t4, 2)));
    assert(t4[1] == ' ');
    assert(has_no_backslash(plain_from(t4, 1)));
    assert(t4[0] == '1');
    assert(has_no_backslash(plain_from(t4, 0)));
    assert(has_no_backslash(plain_from(s, 8)));
    assert(s[7] == ' ');
    assert(has_no_backslash(plain_from(s, 7)));
    assert(s[6] == '+');
    assert(has_no_backslash(plain_from(s, 6)));
    assert(s[5] == ' ');
    assert(has_no_backslash(plain_from(s, 5)));
    assert(s[4] == 'd');
    assert(has_no_backslash(plain_from(s, 4)));
    assert(s[3] == ' ');
    assert(has_no_backslash(plain_from(s, 3)));
    assert(s[2] == '=');
    assert(has_no_backslash(plain_from(s, 2)));
    assert(s[1] == ' ');
    assert(has_no_backslash(plain_from(s, 1)));
    assert(s[0] == 'y');
    assert(has_no_backslash(plain_from(s, 0)));
}

#[verifier::rlimit(100)]
#[verifier::spinoff_prover]
proof fn lemma_rational_formula_of_degree_2()
    ensures
        spec_rational_formula(2) == "y = \\frac{a \\cdot x^{2} + b \\cdot x + c}{1 + d \\cdot x + e \\cdot x^{2}}"@,
{
    reveal_strlit("y = \\frac{a \\cdot x^{2} + b \\cdot x + c}{1 + d \\cdot x + e \\cdot x^{2}}");
    reveal_strlit("y = ");
    reveal_strlit(" + ");
    reveal_strlit(" \\cdot x");
    reveal_strlit(" \\cdot x^{");
    reveal_strlit("}");
    reveal_strlit("y = \\frac{");
    reveal_strlit("}{1");
    reveal_strlit("y = d + \\frac{a \\cdot x + b}{1 + c \\cdot x}");
    reveal_with_fuel(polynomial_terms, 5);
    reveal_with_fuel(denominator_terms, 4);
    assert(spec_parameter_symbol(0) == 'a');
    assert(spec_parameter_symbol(1) == 'b');
    assert(spec_parameter_symbol(2) == 'c');
    assert(spec_parameter_symbol(3) == 'd');
    assert(spec_parameter_symbol(4) == 'e');
    assert(spec_parameter_symbol(5) == 'f');
    assert(spec_parameter_symbol(6) == 'g');
    assert(spec_parameter_symbol(7) == 'h');
    assert(spec_parameter_symbol(8) == 'i');
    assert(spec_parameter_symbol(9) == 'j');
    assert(spec_parameter_symbol(10) == 'k');
    assert(decimal_text(2) == seq!['2']);
    assert(decimal_text(3) == seq!['3']);
    assert(decimal_text(4) == seq!['4']);
    assert(decimal_text(5) == seq!['5']);
    assert(decimal_text(6) == seq!['6']);
    assert(decimal_text(7) == seq!['7']);
    assert(decimal_text(8) == seq!['8']);
    assert(decimal_text(9) == seq!['9']);
    assert(spec_rational_formula(2) =~= "y = \\frac{a \\cdot x^{2} + b \\cdot x + c}{1 + d \\cdot x + e \\cdot x^{2}}"@);
}

#[verifier::rlimit(100)]
#[verifier::spinoff_prover]
proof fn lemma_rational_of_degree_2_plain_text_is_clean()
    ensures
        has_no_backslash(spec_latex_to_plain_text("y = \\frac{a \\cdot x^{2} + b \\cdot x + c}{1 + d \\cdot x + e \\cdot x^{2}}"@)),
{
    reveal_strlit("y = \\frac{a \\cdot x^{2} + b \\cdot x + c}{1 + d \\cdot x + e \\cdot x^{2}}");
    reveal_strlit("begin");
    reveal_strlit("cdot");
    reveal_strlit("end");
    reveal_strlit("frac");
    reveal_strlit("quad");
    reveal_strlit("sqrt");
    reveal_strlit("text");
    let s = "y = \\frac{a \\cdot x^{2} + b \\cdot x + c}{1 + d \\cdot x + e \\cdot x^{2}}"@;
    assert(s.len() == 71);
    assert(plain_from(s, 71).len() == 0);
    assert(s[4] == '\\');
    assert(alpha_end(s, 9) == 9);
    assert(alpha_end(s, 8) == 9);
    assert(alpha_end(s, 7) == 9);
    assert(alpha_end(s, 6) == 9);
    assert(alpha_end(s, 5) == 9);
    let t1 = s.subrange(5, 9);
    assert(t1.len() == 4 && t1[0] == 'f' && t1[1] == 'r' && t1[2] == 'a' && t1[3] == 'c');
    assert(t1 =~= "frac"@);
    assert(s[9] == '{');
    assert(group_close(s, 39, 1) == 39);
    assert(group_close(s, 38, 1) == 39);
    assert(group_close(s, 37, 1) == 39);
    assert(group_close(s, 36, 1) == 39);
    assert(group_close(s, 35, 1) == 39);
    assert(group_close(s, 34, 1) == 39);
    assert(group_close(s, 33, 1) == 39);
    assert(group_close(s, 32, 1) == 39);
    assert(group_close(s, 31, 1) == 39);
    assert(group_close(s, 30, 1) == 39);
    assert(group_close(s, 29, 1) == 39);
    assert(group_close(s, 28, 1) == 39);
    assert(group_close(s, 27, 1) == 39);
    assert(group_close(s, 26, 1) == 39);
    assert(group_close(s, 25, 1) == 39);
    assert(group_close(s, 24, 1) == 39);
    assert(group_close(s, 23, 1) == 39);
    assert(group_close(s, 22, 2) == 39);
    assert(group_close(s, 21, 2) == 39);
    assert(group_close(s, 20, 1) == 39);
    assert(group_close(s, 19, 1) == 39);
    assert(group_close(s, 18, 1) == 39);
    assert(group_close(s, 17, 1) == 39);
    assert(group_close(s, 16, 1) == 39);
    assert(group_close(s, 15, 1) == 39);
    assert(group_close(s, 14, 1) == 39);
    assert(group_close(s, 13, 1) == 39);
    assert(group_close(s, 12, 1) == 39);
    assert(group_close(s, 11, 1) == 39);
    assert(group_close(s, 10, 1) == 39);
    let t2 = s.subrange(10, 39);
    assert(t2.len() == 29);
    assert(plain_from(t2, 29).len() == 0);
    assert(t2[28] == 'c');
    assert(has_no_backslash(plain_from(t2, 28)));
    assert(t2[27] == ' ');
    assert(has_no_backslash(plain_from(t2, 27)));
    assert(t2[26] == '+');
    assert(has_no_backslash(plain_from(t2, 26)));
    assert(t2[25] == ' ');
    assert(has_no_backslash(plain_from(t2, 25)));
    assert(t2[24] == 'x');
    assert(has_no_backslash(plain_from(t2, 24)));
    assert(t2[23] == ' ');
    assert(has_no_backslash(plain_from(t2, 23)));
    assert(t2[18] == '\\');
    assert(alpha_end(t2, 23) == 23);
    assert(alpha_end(t2, 22) == 23);
    assert(alpha_end(t2, 21) == 23);
    assert(alpha_end(t2, 20) == 23);
    assert(alpha_end(t2, 19) == 23);
    let t3 = t2.subrange(19, 23);
    assert(t3.len() == 4 && t3[0] == 'c' && t3[1] == 'd' && t3[2] == 'o' && t3[3] == 't');
    assert(t3 =~= "cdot"@);
    lemma_latex_symbol_cdot(t3);
    assert(has_no_backslash(plain_from(t2, 18)));
    assert(t2[17] == ' ');
    assert(has_no_backslash(plain_from(t2, 17)));
    assert(t2[16] == 'b');
    assert(has_no_backslash(plain_from(t2, 16)));
    assert(t2[15] == ' ');
    assert(has_no_backslash(plain_from(t2, 15)));
    assert(t2[14] == '+');
    assert(has_no_backslash(plain_from(t2, 14)));
    assert(t2[13] == ' ');
    assert(has_no_backslash(plain_from(t2, 13)));
    assert(t2[9] == '^');
    assert(t2[10] == '{');
    assert(group_close(t2, 12, 1) == 12);
    assert(group_close(t2, 11, 1) == 12);
    let t4 = t2.subrange(11, 12);
    assert(t4.len() == 1);
    assert(plain_from(t4, 1).len() == 0);
    assert(t4[0] == '2');
    assert(has_no_backslash(plain_from(t4, 0)));
    assert(has_no_backslash(plain_from(t2, 9)));
    assert(t2[8] == 'x');
    assert(has_no_backslash(plain_from(t2, 8)));
    assert(t2[7] == ' ');
    assert(has_no_backslash(plain_from(t2, 7)));
    assert(t2[2] == '\\');
    assert(alpha_end(t2, 7) == 7);
    assert(alpha_end(t2, 6) == 7);
    assert(alpha_end(t2, 5) == 7);
    assert(alpha_end(t2, 4) == 7);
    assert(alpha_end(t2, 3) == 7);
    let t5 = t2.subrange(3, 7);
    assert(t5.len() == 4 && t5[0] == 'c' && t5[1] == 'd' && t5[2] == 'o' && t5[3] == 't');
    assert(t5 =~= "cdot"@);
    lemma_latex_symbol_cdot(t5);
    assert(has_no_backslash(plain_from(t2, 2)));
    assert(t2[1] == ' ');
    assert(has_no_backslash(plain_from(t2, 1)));
    assert(t2[0] == 'a');
    assert(has_no_backslash(plain_from(t2, 0)));
    assert(s[40] == '{');
    assert(group_close(s, 70, 1) == 70);
    assert(group_close(s, 69, 2) == 70);
    assert(group_close(s, 68, 2) == 70);
    assert(group_close(s, 67, 1) == 70);
    assert(group_close(s, 66, 1) == 70);
    assert(group_close(s, 65, 1) == 70);
    assert(group_close(s, 64, 1) == 70);
    assert(group_close(s, 63, 1) == 70);
    assert(group_close(s, 62, 1) == 70);
    assert(group_close(s, 61, 1) == 70);
    assert(group_close(s, 60, 1) == 70);
    assert(group_close(s, 59, 1) == 70);
    assert(group_close(s, 58, 1) == 70);
    assert(group_close(s, 57, 1) == 70);
    assert(group_close(s, 56, 1) == 70);
    assert(group_close(s, 55, 1) == 70);
    assert(group_close(s, 54, 1) == 70);
    assert(group_close(s, 53, 1) == 70);
    assert(group_close(s, 52, 1) == 70);
    assert(group_close(s, 51, 1) == 70);
    assert(group_close(s, 50, 1) == 70);
    assert(group_close(s, 49, 1) == 70);
    assert(group_close(s, 48, 1) == 70);
    assert(group_close(s, 47, 1) == 70);
    assert(group_close(s, 46, 1) == 70);
    assert(group_close(s, 45, 1) == 70);
    assert(group_close(s, 44, 1) == 70);
    assert(group_close(s, 43, 1) == 70);
    assert(group_close(s, 42, 1) == 70);
    assert(group_close(s, 41, 1) == 70);
    let t6 = s.subrange(41, 70);
    assert(t6.len() == 29);
    assert(plain_from(t6, 29).len() == 0);
    assert(t6[25] == '^');
    assert(t6[26] == '{');
    assert(group_close(t6, 28, 1) == 28);
    assert(group_close(t6, 27, 1) == 28);
    let t7 = t6.subrange(27, 28);
    assert(t7.len() == 1);
    assert(plain_from(t7, 1).len() == 0);
    assert(t7[0] == '2');
    assert(has_no_backslash(plain_from(t7, 0)));
    assert(has_no_backslash(plain_from(t6, 25)));
    assert(t6[24] == 'x');
    assert(has_no_backslash(plain_from(t6, 24)));
    assert(t6[23] == ' ');
    assert(has_no_backslash(plain_from(t6, 23)));
    assert(t6[18] == '\\');
    assert(alpha_end(t6, 23) == 23);
    assert(alpha_end(t6, 22) == 23);
    assert(alpha_end(t6, 21) == 23);
    assert(alpha_end(t6, 20) == 23);
    assert(alpha_end(t6, 19) == 23);
    let t8 = t6.subrange(19, 23);
    assert(t8.len() == 4 && t8[0] == 'c' && t8[1] == 'd' && t8[2] == 'o' && t8[3] == 't');
    assert(t8 =~= "cdot"@);
    lemma_latex_symbol_cdot(t8);
    assert(has_no_backslash(plain_from(t6, 18)));
    assert(t6[17] == ' ');
    assert(has_no_backslash(plain_from(t6, 17)));
    assert(t6[16] == 'e');
    assert(has_no_backslash(plain_from(t6, 16)));
    assert(t6[15] == ' ');
    assert(has_no_backslash(plain_from(t6, 15)));
    assert(t6[14] == '+');
    assert(has_no_backslash(plain_from(t6, 14)));
    assert(t6[13] == ' ');
    assert(has_no_backslash(plain_from(t6, 13)));
    assert(t6[12] == 'x');
    assert(has_no_backslash(plain_from(t6, 12)));
    assert(t6[11] == ' ');
    assert(has_no_backslash(plain_from(t6, 11)));
    assert(t6[6] == '\\');
    assert(alpha_end(t6, 11) == 11);
    assert(alpha_end(t6, 10) == 11);
    assert(alpha_end(t6, 9) == 11);
    assert(alpha_end(t6, 8) == 11);
    assert(alpha_end(t6, 7) == 11);
    let t9 = t6.subrange(7, 11);
    assert(t9.len() == 4 && t9[0] == 'c' && t9[1] == 'd' && t9[2] == 'o' && t9[3] == 't');
    assert(t9 =~= "cdot"@);
    lemma_latex_symbol_cdot(t9);
    assert(has_no_backslash(plain_from(t6, 6)));
    assert(t6[5] == ' ');
    assert(has_no_backslash(plain_from(t6, 5)));
    assert(t6[4] == 'd');
    assert(has_no_backslash(plain_from(t6, 4)));
    assert(t6[3] == ' ');
    assert(has_no_backslash(plain_from(t6, 3)));
    assert(t6[2] == '+');
    assert(has_no_backslash(plain_from(t6, 2)));
    assert(t6[1] == ' ');
    assert(has_no_backslash(plain_from(t6, 1)));
    assert(t6[0] == '1');
    assert(has_no_backslash(plain_from(t6, 0)));
    assert(has_no_backslash(plain_from(s, 4)));
    assert(s[3] == ' ');
    assert(has_no_backslash(plain_from(s, 3)));
    assert(s[2] == '=');
    assert(has_no_backslash(plain_from(s, 2)));
    assert(s[1] == ' ');
    assert(has_no_backslash(plain_from(s, 1)));
    assert(s[0] == 'y');
    assert(has_no_backslash(plain_from(s, 0)));
}

#[verifier::rlimit(100)]
#[verifier::spinoff_prover]
proof fn lemma_rational_formula_of_degree_3()
    ensures
        spec_rational_formula(3) == "y = \\frac{a \\cdot x^{3} + b \\cdot x^{2} + c \\cdot x + d}{1 + e \\cdot x + f \\cdot x^{2} + g \\cdot x^{3}}"@,
{
    reveal_strlit("y = \\frac{a \\cdot x^{3} + b \\cdot x^{2} + c \\cdot x + d}{1 + e \\cdot x + f \\cdot x^{2} + g \\cdot x^{3}}");
    reveal_strlit("y = ");
    reveal_strlit(" + ");
    reveal_strlit(" \\cdot x");
    reveal_strlit(" \\cdot x^{");
    reveal_strlit("}");
    reveal_strlit("y = \\frac{");
    reveal_strlit("}{1");
    reveal_strlit("y = d + \\frac{a \\cdot x + b}{1 + c \\cdot x}");
    reveal_with_fuel(polynomial_terms, 6);
    reveal_with_fuel(denominator_terms, 5);
    assert(spec_parameter_symbol(0) == 'a');
    assert(spec_parameter_symbol(1) == 'b');
    assert(spec_parameter_symbol(2) == 'c');
    assert(spec_parameter_symbol(3) == 'd');
    assert(spec_parameter_symbol(4) == 'e');
    assert(spec_parameter_symbol(5) == 'f');
    assert(spec_parameter_symbol(6) == 'g');
    assert(spec_parameter_symbol(7) == 'h');
    assert(spec_parameter_symbol(8) == 'i');
    assert(spec_parameter_symbol(9) == 'j');
    assert(spec_parameter_symbol(10) == 'k');
    assert(decimal_text(2) == seq!['2']);
    assert(decimal_text(3) == seq!['3']);
    assert(decimal_text(4) == seq!['4']);
    assert(decimal_text(5) == seq!['5']);
    assert(decimal_text(6) == seq!['6']);
    assert(decimal_text(7) == seq!['7']);
    assert(decimal_text(8) == seq!['8']);
    assert(decimal_text(9) == seq!['9']);
    assert(spec_rational_formula(3) =~= "y = \\frac{a \\cdot x^{3} + b \\cdot x^{2} + c \\cdot x + d}{1 + e \\cdot x + f \\cdot x^{2} + g \\cdot x^{3}}"@);
}

#[verifier::rlimit(100)]
#[verifier::spinoff_prover]
proof fn lemma_rational_of_degree_3_plain_text_is_clean()
    ensures
        has_no_backslash(spec_latex_to_plain_text("y = \\frac{a \\cdot x^{3} + b \\cdot x^{2} + c \\cdot x + d}{1 + e \\cdot x + f \\cdot x^{2} + g \\cdot x^{3}}"@)),
{
    reveal_strlit("y = \\frac{a \\cdot x^{3} + b \\cdot x^{2} + c \\cdot x + d}{1 + e \\cdot x + f \\cdot x^{2} + g \\cdot x^{3}}");
    reveal_strlit("begin");
    reveal_strlit("cdot");
    reveal_strlit("end");
    reveal_strlit("frac");
    reveal_strlit("quad");
    reveal_strlit("sqrt");
    reveal_strlit("text");
    let s = "y = \\frac{a \\cdot x^{3} + b \\cdot x^{2} + c \\cdot x + d}{1 + e \\cdot x + f \\cdot x^{2} + g \\cdot x^{3}}"@;
    assert(s.len() == 103);
    assert(plain_from(s, 103).len() == 0);
    assert(s[4] == '\\');
    assert(alpha_end(s, 9) == 9);
    assert(alpha_end(s, 8) == 9);
    assert(alpha_end(s, 7) == 9);
    assert(alpha_end(s, 6) == 9);
    assert(alpha_end(s, 5) == 9);
    let t1 = s.subrange(5, 9);
    assert(t1.len() == 4 && t1[0] == 'f' && t1[1] == 'r' && t1[2] == 'a' && t1[3] == 'c');
    assert(t1 =~= "frac"@);
    assert(s[9] == '{');
    assert(group_close(s, 55, 1) == 55);
    assert(group_close(s, 54, 1) == 55);
    assert(group_close(s, 53, 1) == 55);
    assert(group_close(s, 52, 1) == 55);
    assert(group_close(s, 51, 1) == 55);
    assert(group_close(s, 50, 1) == 55);
    assert(group_close(s, 49, 1) == 55);
    assert(group_close(s, 48, 1) == 55);
    assert(group_close(s, 47, 1) == 55);
    assert(group_close(s, 46, 1) == 55);
    assert(group_close(s, 45, 1) == 55);
    assert(group_close(s, 44, 1) == 55);
    assert(group_close(s, 43, 1) == 55);
    assert(group_close(s, 42, 1) == 55);
    assert(group_close(s, 41, 1) == 55);
    assert(group_close(s, 40, 1) == 55);
    assert(group_close(s, 39, 1) == 55);
    assert(group_close(s, 38, 2) == 55);
    assert(group_close(s, 37, 2) == 55);
    assert(group_close(s, 36, 1) == 55);
    assert(group_close(s, 35, 1) == 55);
    assert(group_close(s, 34, 1) == 55);
    assert(group_close(s, 33, 1) == 55);
    assert(group_close(s, 32, 1) == 55);
    assert(group_close(s, 31, 1) == 55);
    assert(group_close(s, 30, 1) == 55);
    assert(group_close(s, 29, 1) == 55);
    assert(group_close(s, 28, 1) == 55);
    assert(group_close(s, 27, 1) == 55);
    assert(group_close(s, 26, 1) == 55);
    assert(group_close(s, 25, 1) == 55);
    assert(group_close(s, 24, 1) == 55);
    assert(group_close(s, 23, 1) == 55);
    assert(group_close(s, 22, 2) == 55);
    assert(group_close(s, 21, 2) == 55);
    assert(group_close(s, 20, 1) == 55);
    assert(group_close(s, 19, 1) == 55);
    assert(group_close(s, 18, 1) == 55);
    assert(group_close(s, 17, 1) == 55);
    assert(group_close(s, 16, 1) == 55);
    assert(group_close(s, 15, 1) == 55);
    assert(group_close(s, 14, 1) == 55);
    assert(group_close(s, 13, 1) == 55);
    assert(group_close(s, 12, 1) == 55);
    assert(group_close(s, 11, 1) == 55);
    assert(group_close(s, 10, 1) == 55);
    let t2 = s.subrange(10, 55);
    assert(t2.len() == 45);
    assert(plain_from(t2, 45).len() == 0);
    assert(t2[44] == 'd');
    assert(has_no_backslash(plain_from(t2, 44)));
    assert(t2[43] == ' ');
    assert(has_no_backslash(plain_from(t2, 43)));
    assert(t2[42] == '+');
    assert(has_no_backslash(plain_from(t2, 42)));
    assert(t2[41] == ' ');
    assert(has_no_backslash(plain_from(t2, 41)));
    assert(t2[40] == 'x');
    assert(has_no_backslash(plain_from(t2, 40)));
    assert(t2[39] == ' ');
    assert(has_no_backslash(plain_from(t2, 39)));
    assert(t2[34] == '\\');
    assert(alpha_end(t2, 39) == 39);
    assert(alpha_end(t2, 38) == 39);
    assert(alpha_end(t2, 37) == 39);
    assert(alpha_end(t2, 36) == 39);
    assert(alpha_end(t2, 35) == 39);
    let t3 = t2.subrange(35, 39);
    assert(t3.len() == 4 && t3[0] == 'c' && t3[1] == 'd' && t3[2] == 'o' && t3[3] == 't');
    assert(t3 =~= "cdot"@);
    lemma_latex_symbol_cdot(t3);
    assert(has_no_backslash(plain_from(t2, 34)));
    assert(t2[33] == ' ');
    assert(has_no_backslash(plain_from(t2, 33)));
    assert(t2[32] == 'c');
    assert(has_no_backslash(plain_from(t2, 32)));
    assert(t2[31] == ' ');
    assert(has_no_backslash(plain_from(t2, 31)));
    assert(t2[30] == '+');
    assert(has_no_backslash(plain_from(t2, 30)));
    assert(t2[29] == ' ');
    assert(has_no_backslash(plain_from(t2, 29)));
    assert(t2[25] == '^');
    assert(t2[26] == '{');
    assert(group_close(t2, 28, 1) == 28);
    assert(group_close(t2, 27, 1) == 28);
    let t4 = t2.subrange(27, 28);
    assert(t4.len() == 1);
    assert(plain_from(t4, 1).len() == 0);
    assert(t4[0] == '2');
    assert(has_no_backslash(plain_from(t4, 0)));
    assert(has_no_backslash(plain_from(t2, 25)));
    assert(t2[24] == 'x');
    assert(has_no_backslash(plain_from(t2, 24)));
    assert(t2[23] == ' ');
    assert(has_no_backslash(plain_from(t2, 23)));
    assert(t2[18] == '\\');
    assert(alpha_end(t2, 23) == 23);
    assert(alpha_end(t2, 22) == 23);
    assert(alpha_end(t2, 21) == 23);
    assert(alpha_end(t2, 20) == 23);
    assert(alpha_end(t2, 19) == 23);
    let t5 = t2.subrange(19, 23);
    assert(t5.len() == 4 && t5[0] == 'c' && t5[1] == 'd' && t5[2] == 'o' && t5[3] == 't');
    assert(t5 =~= "cdot"@);
    lemma_latex_symbol_cdot(t5);
    assert(has_no_backslash(plain_from(t2, 18)));
    assert(t2[17] == ' ');
    assert(has_no_backslash(plain_from(t2, 17)));
    assert(t2[16] == 'b');
    assert(has_no_backslash(plain_from(t2, 16)));
    assert(t2[15] == ' ');
    assert(has_no_backslash(plain_from(t2, 15)));
    assert(t2[14] == '+');
    assert(has_no_backslash(plain_from(t2, 14)));
    assert(t2[13] == ' ');
    assert(has_no_backslash(plain_from(t2, 13)));
    assert(t2[9] == '^');
    assert(t2[10] == '{');
    assert(group_close(t2, 12, 1) == 12);
    assert(group_close(t2, 11, 1) == 12);
    let t6 = t2.subrange(11, 12);
    assert(t6.len() == 1);
    assert(plain_from(t6, 1).len() == 0);
    assert(t6[0] == '3');
    assert(has_no_backslash(plain_from(t6, 0)));
    assert(has_no_backslash(plain_from(t2, 9)));
    assert(t2[8] == 'x');
    assert(has_no_backslash(plain_from(t2, 8)));
    assert(t2[7] == ' ');
    assert(has_no_backslash(plain_from(t2, 7)));
    assert(t2[2] == '\\');
    assert(alpha_end(t2, 7) == 7);
    assert(alpha_end(t2, 6) == 7);
    assert(alpha_end(t2, 5) == 7);
    assert(alpha_end(t2, 4) == 7);
    assert(alpha_end(t2, 3) == 7);
    let t7 = t2.subrange(3, 7);
    assert(t7.len() == 4 && t7[0] == 'c' && t7[1] == 'd' && t7[2] == 'o' && t7[3] == 't');
    assert(t7 =~= "cdot"@);
    lemma_latex_symbol_cdot(t7);
    assert(has_no_backslash(plain_from(t2, 2)));
    assert(t2[1] == ' ');
    assert(has_no_backslash(plain_from(t2, 1)));
    assert(t2[0] == 'a');
    assert(has_no_backslash(plain_from(t2, 0)));
    assert(s[56] == '{');
    assert(group_close(s, 102, 1) == 102);
    assert(group_close(s, 101, 2) == 102);
    assert(group_close(s, 100, 2) == 102);
    assert(group_close(s, 99, 1) == 102);
    assert(group_close(s, 98, 1) == 102);
    assert(group_close(s, 97, 1) == 102);
    assert(group_close(s, 96, 1) == 102);
    assert(group_close(s, 95, 1) == 102);
    assert(group_close(s, 94, 1) == 102);
    assert(group_close(s, 93, 1) == 102);
    assert(group_close(s, 92, 1) == 102);
    assert(group_close(s, 91, 1) == 102);
    assert(group_close(s, 90, 1) == 102);
    assert(group_close(s, 89, 1) == 102);
    assert(group_close(s, 88, 1) == 102);
    assert(group_close(s, 87, 1) == 102);
    assert(group_close(s, 86, 1) == 102);
    assert(group_close(s, 85, 2) == 102);
    assert(group_close(s, 84, 2) == 102);
    assert(group_close(s, 83, 1) == 102);
    assert(group_close(s, 82, 1) == 102);
    assert(group_close(s, 81, 1) == 102);
    assert(group_close(s, 80, 1) == 102);
    assert(group_close(s, 79, 1) == 102);
    assert(group_close(s, 78, 1) == 102);
    assert(group_close(s, 77, 1) == 102);
    assert(group_close(s, 76, 1) == 102);
    assert(group_close(s, 75, 1) == 102);
    assert(group_close(s, 74, 1) == 102);
    assert(group_close(s, 73, 1) == 102);
    assert(group_close(s, 72, 1) == 102);
    assert(group_close(s, 71, 1) == 102);
    assert(group_close(s, 70, 1) == 102);
    assert(group_close(s, 69, 1) == 102);
    assert(group_close(s, 68, 1) == 102);
    assert(group_close(s, 67, 1) == 102);
    assert(group_close(s, 66, 1) == 102);
    assert(group_close(s, 65, 1) == 102);
    assert(group_close(s, 64, 1) == 102);
    assert(group_close(s, 63, 1) == 102);
    assert(group_close(s, 62, 1) == 102);
    assert(group_close(s, 61, 1) == 102);
    assert(group_close(s, 60, 1) == 102);
    assert(group_close(s, 59, 1) == 102);
    assert(group_close(s, 58, 1) == 102);
    assert(group_close(s, 57, 1) == 102);
    let t8 = s.subrange(57, 102);
    assert(t8.len() == 45);
    assert(plain_from(t8, 45).len() == 0);
    assert(t8[41] == '^');
    assert(t8[42] == '{');
    assert(group_close(t8, 44, 1) == 44);
    assert(group_close(t8, 43, 1) == 44);
    let t9 = t8.subrange(43, 44);
    assert(t9.len() == 1);
    assert(plain_from(t9, 1).len() == 0);
    assert(t9[0] == '3');
    assert(has_no_backslash(plain_from(t9, 0)));
    assert(has_no_backslash(plain_from(t8, 41)));
    assert(t8[40] == 'x');
    assert(has_no_backslash(plain_from(t8, 40)));
    assert(t8[39] == ' ');
    assert(has_no_backslash(plain_from(t8, 39)));
    assert(t8[34] == '\\');
    assert(alpha_end(t8, 39) == 39);
    assert(alpha_end(t8, 38) == 39);
    assert(alpha_end(t8, 37) == 39);
    assert(alpha_end(t8, 36) == 39);
    assert(alpha_end(t8, 35) == 39);
    let t10 = t8.subrange(35, 39);
    assert(t10.len() == 4 && t10[0] == 'c' && t10[1] == 'd' && t10[2] == 'o' && t10[3] == 't');
    assert(t10 =~= "cdot"@);
    lemma_latex_symbol_cdot(t10);
    assert(has_no_backslash(plain_from(t8, 34)));
    assert(t8[33] == ' ');
    assert(has_no_backslash(plain_from(t8, 33)));
    assert(t8[32] == 'g');
    assert(has_no_backslash(plain_from(t8, 32)));
    assert(t8[31] == ' ');
    assert(has_no_backslash(plain_from(t8, 31)));
    assert(t8[30] == '+');
    assert(has_no_backslash(plain_from(t8, 30)));
    assert(t8[29] == ' ');
    assert(has_no_backslash(plain_from(t8, 29)));
    assert(t8[25] == '^');
    assert(t8[26] == '{');
    assert(group_close(t8, 28, 1) == 28);
    assert(group_close(t8, 27, 1) == 28);
    let t11 = t8.subrange(27, 28);
    assert(t11.len() == 1);
    assert(plain_from(t11, 1).len() == 0);
    assert(t11[0] == '2');
    assert(has_no_backslash(plain_from(t11, 0)));
    assert(has_no_backslash(plain_from(t8, 25)));
    assert(t8[24] == 'x');
    assert(has_no_backslash(plain_from(t8, 24)));
    assert(t8[23] == ' ');
    assert(has_no_backslash(plain_from(t8, 23)));
    assert(t8[18] == '\\');
    assert(alpha_end(t8, 23) == 23);
    assert(alpha_end(t8, 22) == 23);
    assert(alpha_end(t8, 21) == 23);
    assert(alpha_end(t8, 20) == 23);
    assert(alpha_end(t8, 19) == 23);
    let t12 = t8.subrange(19, 23);
    assert(t12.len() == 4 && t12[0] == 'c' && t12[1] == 'd' && t12[2] == 'o' && t12[3] == 't');
    assert(t12 =~= "cdot"@);
    lemma_latex_symbol_cdot(t12);
    assert(has_no_backslash(plain_from(t8, 18)));
    assert(t8[17] == ' ');
    assert(has_no_backslash(plain_from(t8, 17)));
    assert(t8[16] == 'f');
    assert(has_no_backslash(plain_from(t8, 16)));
    assert(t8[15] == ' ');
    assert(has_no_backslash(plain_from(t8, 15)));
    assert(t8[14] == '+');
    assert(has_no_backslash(plain_from(t8, 14)));
    assert(t8[13] == ' ');
    assert(has_no_backslash(plain_from(t8, 13)));
    assert(t8[12] == 'x');
    assert(has_no_backslash(plain_from(t8, 12)));
    assert(t8[11] == ' ');
    assert(has_no_backslash(plain_from(t8, 11)));
    assert(t8[6] == '\\');
    assert(alpha_end(t8, 11) == 11);
    assert(alpha_end(t8, 10) == 11);
    assert(alpha_end(t8, 9) == 11);
    assert(alpha_end(t8, 8) == 11);
    assert(alpha_end(t8, 7) == 11);
    let t13 = t8.subrange(7, 11);
    assert(t13.len() == 4 && t13[0] == 'c' && t13[1] == 'd' && t13[2] == 'o' && t13[3] == 't');
    assert(t13 =~= "cdot"@);
    lemma_latex_symbol_cdot(t13);
    assert(has_no_backslash(plain_from(t8, 6)));
    assert(t8[5] == ' ');
    assert(has_no_backslash(plain_from(t8, 5)));
    assert(t8[4] == 'e');
    assert(has_no_backslash(plain_from(t8, 4)));
    assert(t8[3] == ' ');
    assert(has_no_backslash(plain_from(t8, 3)));
    assert(t8[2] == '+');
    assert(has_no_backslash(plain_from(t8, 2)));
    assert(t8[1] == ' ');
    assert(has_no_backslash(plain_from(t8, 1)));
    assert(t8[0] == '1');
    assert(has_no_backslash(plain_from(t8, 0)));
    assert(has_no_backslash(plain_from(s, 4)));
    assert(s[3] == ' ');
    assert(has_no_backslash(plain_from(s, 3)));
    assert(s[2] == '=');
    assert(has_no_backslash(plain_from(s, 2)));
    assert(s[1] == ' ');
    assert(has_no_backslash(plain_from(s, 1)));
    assert(s[0] == 'y');
    assert(has_no_backslash(plain_from(s, 0)));
}

#[verifier::rlimit(100)]
#[verifier::spinoff_prover]
proof fn lemma_rational_formula_of_degree_4()
    ensures
        spec_rational_formula(4) == "y = \\frac{a \\cdot x^{4} + b \\cdot x^{3} + c \\cdot x^{2} + d \\cdot x + e}{1 + f \\cdot x + g \\cdot x^{2} + h \\cdot x^{3} + i \\cdot x^{4}}"@,
{
    reveal_strlit("y = \\frac{a \\cdot x^{4} + b \\cdot x^{3} + c \\cdot x^{2} + d \\cdot x + e}{1 + f \\cdot x + g \\cdot x^{2} + h \\cdot x^{3} + i \\cdot x^{4}}");
    reveal_strlit("y = ");
    reveal_strlit(" + ");
    reveal_strlit(" \\cdot x");
    reveal_strlit(" \\cdot x^{");
    reveal_strlit("}");
    reveal_strlit("y = \\frac{");
    reveal_strlit("}{1");
    reveal_strlit("y = d + \\frac{a \\cdot x + b}{1 + c \\cdot x}");
    reveal_with_fuel(polynomial_terms, 7);
    reveal_with_fuel(denominator_terms, 6);
    assert(spec_parameter_symbol(0) == 'a');
    assert(spec_parameter_symbol(1) == 'b');
    assert(spec_parameter_symbol(2) == 'c');
    assert(spec_parameter_symbol(3) == 'd');
    assert(spec_parameter_symbol(4) == 'e');
    assert(spec_parameter_symbol(5) == 'f');
    assert(spec_parameter_symbol(6) == 'g');
    assert(spec_parameter_symbol(7) == 'h');
    assert(spec_parameter_symbol(8) == 'i');
    assert(spec_parameter_symbol(9) == 'j');
    assert(spec_parameter_symbol(10) == 'k');
    assert(decimal_text(2) == seq!['2']);
    assert(decimal_text(3) == seq!['3']);
    assert(decimal_text(4) == seq!['4']);
    assert(decimal_text(5) == seq!['5']);
    assert(decimal_text(6) == seq!['6']);
    assert(decimal_text(7) == seq!['7']);
    assert(decimal_text(8) == seq!['8']);
    assert(decimal_text(9) == seq!['9']);
    assert(spec_rational_formula(4) =~= "y = \\frac{a \\cdot x^{4} + b \\cdot x^{3} + c \\cdot x^{2} + d \\cdot x + e}{1 + f \\cdot x + g \\cdot x^{2} + h \\cdot x^{3} + i \\cdot x^{4}}"@);
}

#[verifier::rlimit(100)]
#[verifier::spinoff_prover]
proof fn lemma_rational_of_degree_4_plain_text_is_clean()
    ensures
        has_no_backslash(spec_latex_to_plain_text("y = \\frac{a \\cdot x^{4} + b \\cdot x^{3} + c \\cdot x^{2} + d \\cdot x + e}{1 + f \\cdot x + g \\cdot x^{2} + h \\cdot x^{3} + i \\cdot x^{4}}"@)),
{
    reveal_strlit("y = \\frac{a \\cdot x^{4} + b \\cdot x^{3} + c \\cdot x^{2} + d \\cdot x + e}{1 + f \\cdot x + g \\cdot x^{2} + h \\cdot x^{3} + i \\cdot x^{4}}");
    reveal_strlit("begin");
    reveal_strlit("cdot");
    reveal_strlit("end");
    reveal_strlit("frac");
    reveal_strlit("quad");
    reveal_strlit("sqrt");
    reveal_strlit("text");
    let s = "y = \\frac{a \\cdot x^{4} + b \\cdot x^{3} + c \\cdot x^{2} + d \\cdot x + e}{1 + f \\cdot x + g \\cdot x^{2} + h \\cdot x^{3} + i \\cdot x^{4}}"@;
    assert(s.len() == 135);
    assert(plain_from(s, 135).len() == 0);
    assert(s[4] == '\\');
    assert(alpha_end(s, 9) == 9);
    assert(alpha_end(s, 8) == 9);
    assert(alpha_end(s, 7) == 9);
    assert(alpha_end(s, 6) == 9);
    assert(alpha_end(s, 5) == 9);
    let t1 = s.subrange(5, 9);
    assert(t1.len() == 4 && t1[0] == 'f' && t1[1] == 'r' && t1[2] == 'a' && t1[3] == 'c');
    assert(t1 =~= "frac"@);
    assert(s[9] == '{');
    assert(group_close(s, 71, 1) == 71);
    assert(group_close(s, 70, 1) == 71);
    assert(group_close(s, 69, 1) == 71);
    assert(group_close(s, 68, 1) == 71);
    assert(group_close(s, 67, 1) == 71);
    assert(group_close(s, 66, 1) == 71);
    assert(group_close(s, 65, 1) == 71);
    assert(group_close(s, 64, 1) == 71);
    assert(group_close(s, 63, 1) == 71);
    assert(group_close(s, 62, 1) == 71);
    assert(group_close(s, 61, 1) == 71);
    assert(group_close(s, 60, 1) == 71);
    assert(group_close(s, 59, 1) == 71);
    assert(group_close(s, 58, 1) == 71);
    assert(group_close(s, 57, 1) == 71);
    assert(group_close(s, 56, 1) == 71);
    assert(group_close(s, 55, 1) == 71);
    assert(group_close(s, 54, 2) == 71);
    assert(group_close(s, 53, 2) == 71);
    assert(group_close(s, 52, 1) == 71);
    assert(group_close(s, 51, 1) == 71);
    assert(group_close(s, 50, 1) == 71);
    assert(group_close(s, 49, 1) == 71);
    assert(group_close(s, 48, 1) == 71);
    assert(group_close(s, 47, 1) == 71);
    assert(group_close(s, 46, 1) == 71);
    assert(group_close(s, 45, 1) == 71);
    assert(group_close(s, 44, 1) == 71);
    assert(group_close(s, 43, 1) == 71);
    assert(group_close(s, 42, 1) == 71);
    assert(group_close(s, 41, 1) == 71);
    assert(group_close(s, 40, 1) == 71);
    assert(group_close(s, 39, 1) == 71);
    assert(group_close(s, 38, 2) == 71);
    assert(group_close(s, 37, 2) == 71);
    assert(group_close(s, 36, 1) == 71);
    assert(group_close(s, 35, 1) == 71);
    assert(group_close(s, 34, 1) == 71);
    assert(group_close(s, 33, 1) == 71);
    assert(group_close(s, 32, 1) == 71);
    assert(group_close(s, 31, 1) == 71);
    assert(group_close(s, 30, 1) == 71);
    assert(group_close(s, 29, 1) == 71);
    assert(group_close(s, 28, 1) == 71);
    assert(group_close(s, 27, 1) == 71);
    assert(group_close(s, 26, 1) == 71);
    assert(group_close(s, 25, 1) == 71);
    assert(group_close(s, 24, 1) == 71);
    assert(group_close(s, 23, 1) == 71);
    assert(group_close(s, 22, 2) == 71);
    assert(group_close(s, 21, 2) == 71);
    assert(group_close(s, 20, 1) == 71);
    assert(group_close(s, 19, 1) == 71);
    assert(group_close(s, 18, 1) == 71);
    assert(group_close(s, 17, 1) == 71);
    assert(group_close(s, 16, 1) == 71);
    assert(group_close(s, 15, 1) == 71);
    assert(group_close(s, 14, 1) == 71);
    assert(group_close(s, 13, 1) == 71);
    assert(group_close(s, 12, 1) == 71);
    assert(group_close(s, 11, 1) == 71);
    assert(group_close(s, 10, 1) == 71);
    let t2 = s.subrange(10, 71);
    assert(t2.len() == 61);
    assert(plain_from(t2, 61).len() == 0);
    assert(t2[60] == 'e');
    assert(has_no_backslash(plain_from(t2, 60)));
    assert(t2[59] == ' ');
    assert(has_no_backslash(plain_from(t2, 59)));
    assert(t2[58] == '+');
    assert(has_no_backslash(plain_from(t2, 58)));
    assert(t2[57] == ' ');
    assert(has_no_backslash(plain_from(t2, 57)));
    assert(t2[56] == 'x');
    assert(has_no_backslash(plain_from(t2, 56)));
    assert(t2[55] == ' ');
    assert(has_no_backslash(plain_from(t2, 55)));
    assert(t2[50] == '\\');
    assert(alpha_end(t2, 55) == 55);
    assert(alpha_end(t2, 54) == 55);
    assert(alpha_end(t2, 53) == 55);
    assert(alpha_end(t2, 52) == 55);
    assert(alpha_end(t2, 51) == 55);
    let t3 = t2.subrange(51, 55);
    assert(t3.len() == 4 && t3[0] == 'c' && t3[1] == 'd' && t3[2] == 'o' && t3[3] == 't');
    assert(t3 =~= "cdot"@);
    lemma_latex_symbol_cdot(t3);
    assert(has_no_backslash(plain_from(t2, 50)));
    assert(t2[49] == ' ');
    assert(has_no_backslash(plain_from(t2, 49)));
    assert(t2[48] == 'd');
    assert(has_no_backslash(plain_from(t2, 48)));
    assert(t2[47] == ' ');
    assert(has_no_backslash(plain_from(t2, 47)));
    assert(t2[46] == '+');
    assert(has_no_backslash(plain_from(t2, 46)));
    assert(t2[45] == ' ');
    assert(has_no_backslash(plain_from(t2, 45)));
    assert(t2[41] == '^');
    assert(t2[42] == '{');
    assert(group_close(t2, 44, 1) == 44);
    assert(group_close(t2, 43, 1) == 44);
    let t4 = t2.subrange(43, 44);
    assert(t4.len() == 1);
    assert(plain_from(t4, 1).len() == 0);
    assert(t4[0] == '2');
    assert(has_no_backslash(plain_from(t4, 0)));
    assert(has_no_backslash(plain_from(t2, 41)));
    assert(t2[40] == 'x');
    assert(has_no_backslash(plain_from(t2, 40)));
    assert(t2[39] == ' ');
    assert(has_no_backslash(plain_from(t2, 39)));
    assert(t2[34] == '\\');
    assert(alpha_end(t2, 39) == 39);
    assert(alpha_end(t2, 38) == 39);
    assert(alpha_end(t2, 37) == 39);
    assert(alpha_end(t2, 36) == 39);
    assert(alpha_end(t2, 35) == 39);
    let t5 = t2.subrange(35, 39);
    assert(t5.len() == 4 && t5[0] == 'c' && t5[1] == 'd' && t5[2] == 'o' && t5[3] == 't');
    assert(t5 =~= "cdot"@);
    lemma_latex_symbol_cdot(t5);
    assert(has_no_backslash(plain_from(t2, 34)));
    assert(t2[33] == ' ');
    assert(has_no_backslash(plain_from(t2, 33)));
    assert(t2[32] == 'c');
    assert(has_no_backslash(plain_from(t2, 32)));
    assert(t2[31] == ' ');
    assert(has_no_backslash(plain_from(t2, 31)));
    assert(t2[30] == '+');
    assert(has_no_backslash(plain_from(t2, 30)));
    assert(t2[29] == ' ');
    assert(has_no_backslash(plain_from(t2, 29)));
    assert(t2[25] == '^');
    assert(t2[26] == '{');
    assert(group_close(t2, 28, 1) == 28);
    assert(group_close(t2, 27, 1) == 28);
    let t6 = t2.subrange(27, 28);
    assert(t6.len() == 1);
    assert(plain_from(t6, 1).len() == 0);
    assert(t6[0] == '3');
    assert(has_no_backslash(plain_from(t6, 0)));
    assert(has_no_backslash(plain_from(t2, 25)));
    assert(t2[24] == 'x');
    assert(has_no_backslash(plain_from(t2, 24)));
    assert(t2[23] == ' ');
    assert(has_no_backslash(plain_from(t2, 23)));
    assert(t2[18] == '\\');
    assert(alpha_end(t2, 23) == 23);
    assert(alpha_end(t2, 22) == 23);
    assert(alpha_end(t2, 21) == 23);
    assert(alpha_end(t2, 20) == 23);
    assert(alpha_end(t2, 19) == 23);
    let t7 = t2.subrange(19, 23);
    assert(t7.len() == 4 && t7[0] == 'c' && t7[1] == 'd' && t7[2] == 'o' && t7[3] == 't');
    assert(t7 =~= "cdot"@);
    lemma_latex_symbol_cdot(t7);
    assert(has_no_backslash(plain_from(t2, 18)));
    assert(t2[17] == ' ');
    assert(has_no_backslash(plain_from(t2, 17)));
    assert(t2[16] == 'b');
    assert(has_no_backslash(plain_from(t2, 16)));
    assert(t2[15] == ' ');
    assert(has_no_backslash(plain_from(t2, 15)));
    assert(t2[14] == '+');
    assert(has_no_backslash(plain_from(t2, 14)));
    assert(t2[13] == ' ');
    assert(has_no_backslash(plain_from(t2, 13)));
    assert(t2[9] == '^');
    assert(t2[10] == '{');
    assert(group_close(t2, 12, 1) == 12);
    assert(group_close(t2, 11, 1) == 12);
    let t8 = t2.subrange(11, 12);
    assert(t8.len() == 1);
    assert(plain_from(t8, 1).len() == 0);
    assert(t8[0] == '4');
    assert(has_no_backslash(plain_from(t8, 0)));
    assert(has_no_backslash(plain_from(t2, 9)));
    assert(t2[8] == 'x');
    assert(has_no_backslash(plain_from(t2, 8)));
    assert(t2[7] == ' ');
    assert(has_no_backslash(plain_from(t2, 7)));
    assert(t2[2] == '\\');
    assert(alpha_end(t2, 7) == 7);
    assert(alpha_end(t2, 6) == 7);
    assert(alpha_end(t2, 5) == 7);
    assert(alpha_end(t2, 4) == 7);
    assert(alpha_end(t2, 3) == 7);
    let t9 = t2.subrange(3, 7);
    assert(t9.len() == 4 && t9[0] == 'c' && t9[1] == 'd' && t9[2] == 'o' && t9[3] == 't');
    assert(t9 =~= "cdot"@);
    lemma_latex_symbol_cdot(t9);
    assert(has_no_backslash(plain_from(t2, 2)));
    assert(t2[1] == ' ');
    assert(has_no_backslash(plain_from(t2, 1)));
    assert(t2[0] == 'a');
    assert(has_no_backslash(plain_from(t2, 0)));
    assert(s[72] == '{');
    assert(group_close(s, 134, 1) == 134);
    assert(group_close(s, 133, 2) == 134);
    assert(group_close(s, 132, 2) == 134);
    assert(group_close(s, 131, 1) == 134);
    assert(group_close(s, 130, 1) == 134);
    assert(group_close(s, 129, 1) == 134);
    assert(group_close(s, 128, 1) == 134);
    assert(group_close(s, 127, 1) == 134);
    assert(group_close(s, 126, 1) == 134);
    assert(group_close(s, 125, 1) == 134);
    assert(group_close(s, 124, 1) == 134);
    assert(group_close(s, 123, 1) == 134);
    assert(group_close(s, 122, 1) == 134);
    assert(group_close(s, 121, 1) == 134);
    assert(group_close(s, 120, 1) == 134);
    assert(group_close(s, 119, 1) == 134);
    assert(group_close(s, 118, 1) == 134);
    assert(group_close(s, 117, 2) == 134);
    assert(group_close(s, 116, 2) == 134);
    assert(group_close(s, 115, 1) == 134);
    assert(group_close(s, 114, 1) == 134);
    assert(group_close(s, 113, 1) == 134);
    assert(group_close(s, 112, 1) == 134);
    assert(group_close(s, 111, 1) == 134);
    assert(group_close(s, 110, 1) == 134);
    assert(group_close(s, 109, 1) == 134);
    assert(group_close(s, 108, 1) == 134);
    assert(group_close(s, 107, 1) == 134);
    assert(group_close(s, 106, 1) == 134);
    assert(group_close(s, 105, 1) == 134);
    assert(group_close(s, 104, 1) == 134);
    assert(group_close(s, 103, 1) == 134);
    assert(group_close(s, 102, 1) == 134);
    assert(group_close(s, 101, 2) == 134);
    assert(group_close(s, 100, 2) == 134);
    assert(group_close(s, 99, 1) == 134);
    assert(group_close(s, 98, 1) == 134);
    assert(group_close(s, 97, 1) == 134);
    assert(group_close(s, 96, 1) == 134);
    assert(group_close(s, 95, 1) == 134);
    assert(group_close(s, 94, 1) == 134);
    assert(group_close(s, 93, 1) == 134);
    assert(group_close(s, 92, 1) == 134);
    assert(group_close(s, 91, 1) == 134);
    assert(group_close(s, 90, 1) == 134);
    assert(group_close(s, 89, 1) == 134);
    assert(group_close(s, 88, 1) == 134);
    assert(group_close(s, 87, 1) == 134);
    assert(group_close(s, 86, 1) == 134);
    assert(group_close(s, 85, 1) == 134);
    assert(group_close(s, 84, 1) == 134);
    assert(group_close(s, 83, 1) == 134);
    assert(group_close(s, 82, 1) == 134);
    assert(group_close(s, 81, 1) == 134);
    assert(group_close(s, 80, 1) == 134);
    assert(group_close(s, 79, 1) == 134);
    assert(group_close(s, 78, 1) == 134);
    assert(group_close(s, 77, 1) == 134);
    assert(group_close(s, 76, 1) == 134);
    assert(group_close(s, 75, 1) == 134);
    assert(group_close(s, 74, 1) == 134);
    assert(group_close(s, 73, 1) == 134);
    let t10 = s.subrange(73, 134);
    assert(t10.len() == 61);
    assert(plain_from(t10, 61).len() == 0);
    assert(t10[57] == '^');
    assert(t10[58] == '{');
    assert(group_close(t10, 60, 1) == 60);
    assert(group_close(t10, 59, 1) == 60);
    let t11 = t10.subrange(59, 60);
    assert(t11.len() == 1);
    assert(plain_from(t11, 1).len() == 0);
    assert(t11[0] == '4');
    assert(has_no_backslash(plain_from(t11, 0)));
    assert(has_no_backslash(plain_from(t10, 57)));
    assert(t10[56] == 'x');
    assert(has_no_backslash(plain_from(t10, 56)));
    assert(t10[55] == ' ');
    assert(has_no_backslash(plain_from(t10, 55)));
    assert(t10[50] == '\\');
    assert(alpha_end(t10, 55) == 55);
    assert(alpha_end(t10, 54) == 55);
    assert(alpha_end(t10, 53) == 55);
    assert(alpha_end(t10, 52) == 55);
    assert(alpha_end(t10, 51) == 55);
    let t12 = t10.subrange(51, 55);
    assert(t12.len() == 4 && t12[0] == 'c' && t12[1] == 'd' && t12[2] == 'o' && t12[3] == 't');
    assert(t12 =~= "cdot"@);
    lemma_latex_symbol_cdot(t12);
    assert(has_no_backslash(plain_from(t10, 50)));
    assert(t10[49] == ' ');
    assert(has_no_backslash(plain_from(t10, 49)));
    assert(t10[48] == 'i');
    assert(has_no_backslash(plain_from(t10, 48)));
    assert(t10[47] == ' ');
    assert(has_no_backslash(plain_from(t10, 47)));
    assert(t10[46] == '+');
    assert(has_no_backslash(plain_from(t10, 46)));
    assert(t10[45] == ' ');
    assert(has_no_backslash(plain_from(t10, 45)));
    assert(t10[41] == '^');
    assert(t10[42] == '{');
    assert(group_close(t10, 44, 1) == 44);
    assert(group_close(t10, 43, 1) == 44);
    let t13 = t10.subrange(43, 44);
    assert(t13.len() == 1);
    assert(plain_from(t13, 1).len() == 0);
    assert(t13[0] == '3');
    assert(has_no_backslash(plain_from(t13, 0)));
    assert(has_no_backslash(plain_from(t10, 41)));
    assert(t10[40] == 'x');
    assert(has_no_backslash(plain_from(t10, 40)));
    assert(t10[39] == ' ');
    assert(has_no_backslash(plain_from(t10, 39)));
    assert(t10[34] == '\\');
    assert(alpha_end(t10, 39) == 39);
    assert(alpha_end(t10, 38) == 39);
    assert(alpha_end(t10, 37) == 39);
    assert(alpha_end(t10, 36) == 39);
    assert(alpha_end(t10, 35) == 39);
    let t14 = t10.subrange(35, 39);
    assert(t14.len() == 4 && t14[0] == 'c' && t14[1] == 'd' && t14[2] == 'o' && t14[3] == 't');
    assert(t14 =~= "cdot"@);
    lemma_latex_symbol_cdot(t14);
    assert(has_no_backslash(plain_from(t10, 34)));
    assert(t10[33] == ' ');
    assert(has_no_backslash(plain_from(t10, 33)));
    assert(t10[32] == 'h');
    assert(has_no_backslash(plain_from(t10, 32)));
    assert(t10[31] == ' ');
    assert(has_no_backslash(plain_from(t10, 31)));
    assert(t10[30] == '+');
    assert(has_no_backslash(plain_from(t10, 30)));
    assert(t10[29] == ' ');
    assert(has_no_backslash(plain_from(t10, 29)));
    assert(t10[25] == '^');
    assert(t10[26] == '{');
    assert(group_close(t10, 28, 1) == 28);
    assert(group_close(t10, 27, 1) == 28);
    let t15 = t10.subrange(27, 28);
    assert(t15.len() == 1);
    assert(plain_from(t15, 1).len() == 0);
    assert(t15[0] == '2');
    assert(has_no_backslash(plain_from(t15, 0)));
    assert(has_no_backslash(plain_from(t10, 25)));
    assert(t10[24] == 'x');
    assert(has_no_backslash(plain_from(t10, 24)));
    assert(t10[23] == ' ');
    assert(has_no_backslash(plain_from(t10, 23)));
    assert(t10[18] == '\\');
    assert(alpha_end(t10, 23) == 23);
    assert(alpha_end(t10, 22) == 23);
    assert(alpha_end(t10, 21) == 23);
    assert(alpha_end(t10, 20) == 23);
    assert(alpha_end(t10, 19) == 23);
    let t16 = t10.subrange(19, 23);
    assert(t16.len() == 4 && t16[0] == 'c' && t16[1] == 'd' && t16[2] == 'o' && t16[3] == 't');
    assert(t16 =~= "cdot"@);
    lemma_latex_symbol_cdot(t16);
    assert(has_no_backslash(plain_from(t10, 18)));
    assert(t10[17] == ' ');
    assert(has_no_backslash(plain_from(t10, 17)));
    assert(t10[16] == 'g');
    assert(has_no_backslash(plain_from(t10, 16)));
    assert(t10[15] == ' ');
    assert(has_no_backslash(plain_from(t10, 15)));
    assert(t10[14] == '+');
    assert(has_no_backslash(plain_from(t10, 14)));
    assert(t10[13] == ' ');
    assert(has_no_backslash(plain_from(t10, 13)));
    assert(t10[12] == 'x');
    assert(has_no_backslash(plain_from(t10, 12)));
    assert(t10[11] == ' ');
    assert(has_no_backslash(plain_from(t10, 11)));
    assert(t10[6] == '\\');
    assert(alpha_end(t10, 11) == 11);
    assert(alpha_end(t10, 10) == 11);
    assert(alpha_end(t10, 9) == 11);
    assert(alpha_end(t10, 8) == 11);
    assert(alpha_end(t10, 7) == 11);
    let t17 = t10.subrange(7, 11);
    assert(t17.len() == 4 && t17[0] == 'c' && t17[1] == 'd' && t17[2] == 'o' && t17[3] == 't');
    assert(t17 =~= "cdot"@);
    lemma_latex_symbol_cdot(t17);
    assert(has_no_backslash(plain_from(t10, 6)));
    assert(t10[5] == ' ');
    assert(has_no_backslash(plain_from(t10, 5)));
    assert(t10[4] == 'f');
    assert(has_no_backslash(plain_from(t10, 4)));
    assert(t10[3] == ' ');
    assert(has_no_backslash(plain_from(t10, 3)));
    assert(t10[2] == '+');
    assert(has_no_backslash(plain_from(t10, 2)));
    assert(t10[1] == ' ');
    assert(has_no_backslash(plain_from(t10, 1)));
    assert(t10[0] == '1');
    assert(has_no_backslash(plain_from(t10, 0)));
    assert(has_no_backslash(plain_from(s, 4)));
    assert(s[3] == ' ');
    assert(has_no_backslash(plain_from(s, 3)));
    assert(s[2] == '=');
    assert(has_no_backslash(plain_from(s, 2)));
    assert(s[1] == ' ');
    assert(has_no_backslash(plain_from(s, 1)));
    assert(s[0] == 'y');
    assert(has_no_backslash(plain_from(s, 0)));
}

#[verifier::rlimit(100)]
#[verifier::spinoff_prover]
proof fn lemma_rational_formula_of_degree_5()
    ensures
        spec_rational_formula(5) == "y = \\frac{a \\cdot x^{5} + b \\cdot x^{4} + c \\cdot x^{3} + d \\cdot x^{2} + e \\cdot x + f}{1 + g \\cdot x + h \\cdot x^{2} + i \\cdot x^{3} + j \\cdot x^{4} + k \\cdot x^{5}}"@,
{
    reveal_strlit("y = \\frac{a \\cdot x^{5} + b \\cdot x^{4} + c \\cdot x^{3} + d \\cdot x^{2} + e \\cdot x + f}{1 + g \\cdot x + h \\cdot x^{2} + i \\cdot x^{3} + j \\cdot x^{4} + k \\cdot x^{5}}");
    reveal_strlit("y = ");
    reveal_strlit(" + ");
    reveal_strlit(" \\cdot x");
    reveal_strlit(" \\cdot x^{");
    reveal_strlit("}");
    reveal_strlit("y = \\frac{");
    reveal_strlit("}{1");
    reveal_strlit("y = d + \\frac{a \\cdot x + b}{1 + c \\cdot x}");
    reveal_with_fuel(polynomial_terms, 8);
    reveal_with_fuel(denominator_terms, 7);
    assert(spec_parameter_symbol(0) == 'a');
    assert(spec_parameter_symbol(1) == 'b');
    assert(spec_parameter_symbol(2) == 'c');
    assert(spec_parameter_symbol(3) == 'd');
    assert(spec_parameter_symbol(4) == 'e');
    assert(spec_parameter_symbol(5) == 'f');
    assert(spec_parameter_symbol(6) == 'g');
    assert(spec_parameter_symbol(7) == 'h');
    assert(spec_parameter_symbol(8) == 'i');
    assert(spec_parameter_symbol(9) == 'j');
    assert(spec_parameter_symbol(10) == 'k');
    assert(decimal_text(2) == seq!['2']);
    assert(decimal_text(3) == seq!['3']);
    assert(decimal_text(4) == seq!['4']);
    assert(decimal_text(5) == seq!['5']);
    assert(decimal_text(6) == seq!['6']);
    assert(decimal_text(7) == seq!['7']);
    assert(decimal_text(8) == seq!['8']);
    assert(decimal_text(9) == seq!['9']);
    assert(spec_rational_formula(5) =~= "y = \\frac{a \\cdot x^{5} + b \\cdot x^{4} + c \\cdot x^{3} + d \\cdot x^{2} + e \\cdot x + f}{1 + g \\cdot x + h \\cdot x^{2} + i \\cdot x^{3} + j \\cdot x^{4} + k \\cdot x^{5}}"@);
}

#[verifier::rlimit(100)]
#[verifier::spinoff_prover]
proof fn lemma_rational_of_degree_5_plain_text_is_clean()
    ensures
        has_no_backslash(spec_latex_to_plain_text("y = \\frac{a \\cdot x^{5} + b \\cdot x^{4} + c \\cdot x^{3} + d \\cdot x^{2} + e \\cdot x + f}{1 + g \\cdot x + h \\cdot x^{2} + i \\cdot x^{3} + j \\cdot x^{4} + k \\cdot x^{5}}"@)),
{
    reveal_strlit("y = \\frac{a \\cdot x^{5} + b \\cdot x^{4} + c \\cdot x^{3} + d \\cdot x^{2} + e \\cdot x + f}{1 + g \\cdot x + h \\cdot x^{2} + i \\cdot x^{3} + j \\cdot x^{4} + k \\cdot x^{5}}");
    reveal_strlit("begin");
    reveal_strlit("cdot");
    reveal_strlit("end");
    reveal_strlit("frac");
    reveal_strlit("quad");
    reveal_strlit("sqrt");
    reveal_strlit("text");
    let s = "y = \\frac{a \\cdot x^{5} + b \\cdot x^{4} + c \\cdot x^{3} + d \\cdot x^{2} + e \\cdot x + f}{1 + g \\cdot x + h \\cdot x^{2} + i \\cdot x^{3} + j \\cdot x^{4} + k \\cdot x^{5}}"@;
    assert(s.len() == 167);
    assert(plain_from(s, 167).len() == 0);
    assert(s[4] == '\\');
    assert(alpha_end(s, 9) == 9);
    assert(alpha_end(s, 8) == 9);
    assert(alpha_end(s, 7) == 9);
    assert(alpha_end(s, 6) == 9);
    assert(alpha_end(s, 5) == 9);
    let t1 = s.subrange(5, 9);
    assert(t1.len() == 4 && t1[0] == 'f' && t1[1] == 'r' && t1[2] == 'a' && t1[3] == 'c');
    assert(t1 =~= "frac"@);
    assert(s[9] == '{');
    assert(group_close(s, 87, 1) == 87);
    assert(group_close(s, 86, 1) == 87);
    assert(group_close(s, 85, 1) == 87);
    assert(group_close(s, 84, 1) == 87);
    assert(group_close(s, 83, 1) == 87);
    assert(group_close(s, 82, 1) == 87);
    assert(group_close(s, 81, 1) == 87);
    assert(group_close(s, 80, 1) == 87);
    assert(group_close(s, 79, 1) == 87);
    assert(group_close(s, 78, 1) == 87);
    assert(group_close(s, 77, 1) == 87);
    assert(group_close(s, 76, 1) == 87);
    assert(group_close(s, 75, 1) == 87);
    assert(group_close(s, 74, 1) == 87);
    assert(group_close(s, 73, 1) == 87);
    assert(group_close(s, 72, 1) == 87);
    assert(group_close(s, 71, 1) == 87);
    assert(group_close(s, 70, 2) == 87);
    assert(group_close(s, 69, 2) == 87);
    assert(group_close(s, 68, 1) == 87);
    assert(group_close(s, 67, 1) == 87);
    assert(group_close(s, 66, 1) == 87);
    assert(group_close(s, 65, 1) == 87);
    assert(group_close(s, 64, 1) == 87);
    assert(group_close(s, 63, 1) == 87);
    assert(group_close(s, 62, 1) == 87);
    assert(group_close(s, 61, 1) == 87);
    assert(group_close(s, 60, 1) == 87);
    assert(group_close(s, 59, 1) == 87);
    assert(group_close(s, 58, 1) == 87);
    assert(group_close(s, 57, 1) == 87);
    assert(group_close(s, 56, 1) == 87);
    assert(group_close(s, 55, 1) == 87);
    assert(group_close(s, 54, 2) == 87);
    assert(group_close(s, 53, 2) == 87);
    assert(group_close(s, 52, 1) == 87);
    assert(group_close(s, 51, 1) == 87);
    assert(group_close(s, 50, 1) == 87);
    assert(group_close(s, 49, 1) == 87);
    assert(group_close(s, 48, 1) == 87);
    assert(group_close(s, 47, 1) == 87);
    assert(group_close(s, 46, 1) == 87);
    assert(group_close(s, 45, 1) == 87);
    assert(group_close(s, 44, 1) == 87);
    assert(group_close(s, 43, 1) == 87);
    assert(group_close(s, 42, 1) == 87);
    assert(group_close(s, 41, 1) == 87);
    assert(group_close(s, 40, 1) == 87);
    assert(group_close(s, 39, 1) == 87);
    assert(group_close(s, 38, 2) == 87);
    assert(group_close(s, 37, 2) == 87);
    assert(group_close(s, 36, 1) == 87);
    assert(group_close(s, 35, 1) == 87);
    assert(group_close(s, 34, 1) == 87);
    assert(group_close(s, 33, 1) == 87);
    assert(group_close(s, 32, 1) == 87);
    assert(group_close(s, 31, 1) == 87);
    assert(group_close(s, 30, 1) == 87);
    assert(group_close(s, 29, 1) == 87);
    assert(group_close(s, 28, 1) == 87);
    assert(group_close(s, 27, 1) == 87);
    assert(group_close(s, 26, 1) == 87);
    assert(group_close(s, 25, 1) == 87);
    assert(group_close(s, 24, 1) == 87);
    assert(group_close(s, 23, 1) == 87);
    assert(group_close(s, 22, 2) == 87);
    assert(group_close(s, 21, 2) == 87);
    assert(group_close(s, 20, 1) == 87);
    assert(group_close(s, 19, 1) == 87);
    assert(group_close(s, 18, 1) == 87);
    assert(group_close(s, 17, 1) == 87);
    assert(group_close(s, 16, 1) == 87);
    assert(group_close(s, 15, 1) == 87);
    assert(group_close(s, 14, 1) == 87);
    assert(group_close(s, 13, 1) == 87);
    assert(group_close(s, 12, 1) == 87);
    assert(group_close(s, 11, 1) == 87);
    assert(group_close(s, 10, 1) == 87);
    let t2 = s.subrange(10, 87);
    assert(t2.len() == 77);
    assert(plain_from(t2, 77).len() == 0);
    assert(t2[76] == 'f');
    assert(has_no_backslash(plain_from(t2, 76)));
    assert(t2[75] == ' ');
    assert(has_no_backslash(plain_from(t2, 75)));
    assert(t2[74] == '+');
    assert(has_no_backslash(plain_from(t2, 74)));
    assert(t2[73] == ' ');
    assert(has_no_backslash(plain_from(t2, 73)));
    assert(t2[72] == 'x');
    assert(has_no_backslash(plain_from(t2, 72)));
    assert(t2[71] == ' ');
    assert(has_no_backslash(plain_from(t2, 71)));
    assert(t2[66] == '\\');
    assert(alpha_end(t2, 71) == 71);
    assert(alpha_end(t2, 70) == 71);
    assert(alpha_end(t2, 69) == 71);
    assert(alpha_end(t2, 68) == 71);
    assert(alpha_end(t2, 67) == 71);
    let t3 = t2.subrange(67, 71);
    assert(t3.len() == 4 && t3[0] == 'c' && t3[1] == 'd' && t3[2] == 'o' && t3[3] == 't');
    assert(t3 =~= "cdot"@);
    lemma_latex_symbol_cdot(t3);
    assert(has_no_backslash(plain_from(t2, 66)));
    assert(t2[65] == ' ');
    assert(has_no_backslash(plain_from(t2, 65)));
    assert(t2[64] == 'e');
    assert(has_no_backslash(plain_from(t2, 64)));
    assert(t2[63] == ' ');
    assert(has_no_backslash(plain_from(t2, 63)));
    assert(t2[62] == '+');
    assert(has_no_backslash(plain_from(t2, 62)));
    assert(t2[61] == ' ');
    assert(has_no_backslash(plain_from(t2, 61)));
    assert(t2[57] == '^');
    assert(t2[58] == '{');
    assert(group_close(t2, 60, 1) == 60);
    assert(group_close(t2, 59, 1) == 60);
    let t4 = t2.subrange(59, 60);
    assert(t4.len() == 1);
    assert(plain_from(t4, 1).len() == 0);
    assert(t4[0] == '2');
    assert(has_no_backslash(plain_from(t4, 0)));
    assert(has_no_backslash(plain_from(t2, 57)));
    assert(t2[56] == 'x');
    assert(has_no_backslash(plain_from(t2, 56)));
    assert(t2[55] == ' ');
    assert(has_no_backslash(plain_from(t2, 55)));
    assert(t2[50] == '\\');
    assert(alpha_end(t2, 55) == 55);
    assert(alpha_end(t2, 54) == 55);
    assert(alpha_end(t2, 53) == 55);
    assert(alpha_end(t2, 52) == 55);
    assert(alpha_end(t2, 51) == 55);
    let t5 = t2.subrange(51, 55);
    assert(t5.len() == 4 && t5[0] == 'c' && t5[1] == 'd' && t5[2] == 'o' && t5[3] == 't');
    assert(t5 =~= "cdot"@);
    lemma_latex_symbol_cdot(t5);
    assert(has_no_backslash(plain_from(t2, 50)));
    assert(t2[49] == ' ');
    assert(has_no_backslash(plain_from(t2, 49)));
    assert(t2[48] == 'd');
    assert(has_no_backslash(plain_from(t2, 48)));
    assert(t2[47] == ' ');
    assert(has_no_backslash(plain_from(t2, 47)));
    assert(t2[46] == '+');
    assert(has_no_backslash(plain_from(t2, 46)));
    assert(t2[45] == ' ');
    assert(has_no_backslash(plain_from(t2, 45)));
    assert(t2[41] == '^');
    assert(t2[42] == '{');
    assert(group_close(t2, 44, 1) == 44);
    assert(group_close(t2, 43, 1) == 44);
    let t6 = t2.subrange(43, 44);
    assert(t6.len() == 1);
    assert(plain_from(t6, 1).len() == 0);
    assert(t6[0] == '3');
    assert(has_no_backslash(plain_from(t6, 0)));
    assert(has_no_backslash(plain_from(t2, 41)));
    assert(t2[40] == 'x');
    assert(has_no_backslash(plain_from(t2, 40)));
    assert(t2[39] == ' ');
    assert(has_no_backslash(plain_from(t2, 39)));
    assert(t2[34] == '\\');
    assert(alpha_end(t2, 39) == 39);
    assert(alpha_end(t2, 38) == 39);
    assert(alpha_end(t2, 37) == 39);
    assert(alpha_end(t2, 36) == 39);
    assert(alpha_end(t2, 35) == 39);
    let t7 = t2.subrange(35, 39);
    assert(t7.len() == 4 && t7[0] == 'c' && t7[1] == 'd' && t7[2] == 'o' && t7[3] == 't');
    assert(t7 =~= "cdot"@);
    lemma_latex_symbol_cdot(t7);
    assert(has_no_backslash(plain_from(t2, 34)));
    assert(t2[33] == ' ');
    assert(has_no_backslash(plain_from(t2, 33)));
    assert(t2[32] == 'c');
    assert(has_no_backslash(plain_from(t2, 32)));
    assert(t2[31] == ' ');
    assert(has_no_backslash(plain_from(t2, 31)));
    assert(t2[30] == '+');
    assert(has_no_backslash(plain_from(t2, 30)));
    assert(t2[29] == ' ');
    assert(has_no_backslash(plain_from(t2, 29)));
    assert(t2[25] == '^');
    assert(t2[26] == '{');
    assert(group_close(t2, 28, 1) == 28);
    assert(group_close(t2, 27, 1) == 28);
    let t8 = t2.subrange(27, 28);
    assert(t8.len() == 1);
    assert(plain_from(t8, 1).len() == 0);
    assert(t8[0] == '4');
    assert(has_no_backslash(plain_from(t8, 0)));
    assert(has_no_backslash(plain_from(t2, 25)));
    assert(t2[24] == 'x');
    assert(has_no_backslash(plain_from(t2, 24)));
    assert(t2[23] == ' ');
    assert(has_no_backslash(plain_from(t2, 23)));
    assert(t2[18] == '\\');
    assert(alpha_end(t2, 23) == 23);
    assert(alpha_end(t2, 22) == 23);
    assert(alpha_end(t2, 21) == 23);
    assert(alpha_end(t2, 20) == 23);
    assert(alpha_end(t2, 19) == 23);
    let t9 = t2.subrange(19, 23);
    assert(t9.len() == 4 && t9[0] == 'c' && t9[1] == 'd' && t9[2] == 'o' && t9[3] == 't');
    assert(t9 =~= "cdot"@);
    lemma_latex_symbol_cdot(t9);
    assert(has_no_backslash(plain_from(t2, 18)));
    assert(t2[17] == ' ');
    assert(has_no_backslash(plain_from(t2, 17)));
    assert(t2[16] == 'b');
    assert(has_no_backslash(plain_from(t2, 16)));
    assert(t2[15] == ' ');
    assert(has_no_backslash(plain_from(t2, 15)));
    assert(t2[14] == '+');
    assert(has_no_backslash(plain_from(t2, 14)));
    assert(t2[13] == ' ');
    assert(has_no_backslash(plain_from(t2, 13)));
    assert(t2[9] == '^');
    assert(t2[10] == '{');
    assert(group_close(t2, 12, 1) == 12);
    assert(group_close(t2, 11, 1) == 12);
    let t10 = t2.subrange(11, 12);
    assert(t10.len() == 1);
    assert(plain_from(t10, 1).len() == 0);
    assert(t10[0] == '5');
    assert(has_no_backslash(plain_from(t10, 0)));
    assert(has_no_backslash(plain_from(t2, 9)));
    assert(t2[8] == 'x');
    assert(has_no_backslash(plain_from(t2, 8)));
    assert(t2[7] == ' ');
    assert(has_no_backslash(plain_from(t2, 7)));
    assert(t2[2] == '\\');
    assert(alpha_end(t2, 7) == 7);
    assert(alpha_end(t2, 6) == 7);
    assert(alpha_end(t2, 5) == 7);
    assert(alpha_end(t2, 4) == 7);
    assert(alpha_end(t2, 3) == 7);
    let t11 = t2.subrange(3, 7);
    assert(t11.len() == 4 && t11[0] == 'c' && t11[1] == 'd' && t11[2] == 'o' && t11[3] == 't');
    assert(t11 =~= "cdot"@);
    lemma_latex_symbol_cdot(t11);
    assert(has_no_backslash(plain_from(t2, 2)));
    assert(t2[1] == ' ');
    assert(has_no_backslash(plain_from(t2, 1)));
    assert(t2[0] == 'a');
    assert(has_no_backslash(plain_from(t2, 0)));
    assert(s[88] == '{');
    assert(group_close(s, 166, 1) == 166);
    assert(group_close(s, 165, 2) == 166);
    assert(group_close(s, 164, 2) == 166);
    assert(group_close(s, 163, 1) == 166);
    assert(group_close(s, 162, 1) == 166);
    assert(group_close(s, 161, 1) == 166);
    assert(group_close(s, 160, 1) == 166);
    assert(group_close(s, 159, 1) == 166);
    assert(group_close(s, 158, 1) == 166);
    assert(group_close(s, 157, 1) == 166);
    assert(group_close(s, 156, 1) == 166);
    assert(group_close(s, 155, 1) == 166);
    assert(group_close(s, 154, 1) == 166);
    assert(group_close(s, 153, 1) == 166);
    assert(group_close(s, 152, 1) == 166);
    assert(group_close(s, 151, 1) == 166);
    assert(group_close(s, 150, 1) == 166);
    assert(group_close(s, 149, 2) == 166);
    assert(group_close(s, 148, 2) == 166);
    assert(group_close(s, 147, 1) == 166);
    assert(group_close(s, 146, 1) == 166);
    assert(group_close(s, 145, 1) == 166);
    assert(group_close(s, 144, 1) == 166);
    assert(group_close(s, 143, 1) == 166);
    assert(group_close(s, 142, 1) == 166);
    assert(group_close(s, 141, 1) == 166);
    assert(group_close(s, 140, 1) == 166);
    assert(group_close(s, 139, 1) == 166);
    assert(group_close(s, 138, 1) == 166);
    assert(group_close(s, 137, 1) == 166);
    assert(group_close(s, 136, 1) == 166);
    assert(group_close(s, 135, 1) == 166);
    assert(group_close(s, 134, 1) == 166);
    assert(group_close(s, 133, 2) == 166);
    assert(group_close(s, 132, 2) == 166);
    assert(group_close(s, 131, 1) == 166);
    assert(group_close(s, 130, 1) == 166);
    assert(group_close(s, 129, 1) == 166);
    assert(group_close(s, 128, 1) == 166);
    assert(group_close(s, 127, 1) == 166);
    assert(group_close(s, 126, 1) == 166);
    assert(group_close(s, 125, 1) == 166);
    assert(group_close(s, 124, 1) == 166);
    assert(group_close(s, 123, 1) == 166);
    assert(group_close(s, 122, 1) == 166);
    assert(group_close(s, 121, 1) == 166);
    assert(group_close(s, 120, 1) == 166);
    assert(group_close(s, 119, 1) == 166);
    assert(group_close(s, 118, 1) == 166);
    assert(group_close(s, 117, 2) == 166);
    assert(group_close(s, 116, 2) == 166);
    assert(group_close(s, 115, 1) == 166);
    assert(group_close(s, 114, 1) == 166);
    assert(group_close(s, 113, 1) == 166);
    assert(group_close(s, 112, 1) == 166);
    assert(group_close(s, 111, 1) == 166);
    assert(group_close(s, 110, 1) == 166);
    assert(group_close(s, 109, 1) == 166);
    assert(group_close(s, 108, 1) == 166);
    assert(group_close(s, 107, 1) == 166);
    assert(group_close(s, 106, 1) == 166);
    assert(group_close(s, 105, 1) == 166);
    assert(group_close(s, 104, 1) == 166);
    assert(group_close(s, 103, 1) == 166);
    assert(group_close(s, 102, 1) == 166);
    assert(group_close(s, 101, 1) == 166);
    assert(group_close(s, 100, 1) == 166);
    assert(group_close(s, 99, 1) == 166);
    assert(group_close(s, 98, 1) == 166);
    assert(group_close(s, 97, 1) == 166);
    assert(group_close(s, 96, 1) == 166);
    assert(group_close(s, 95, 1) == 166);
    assert(group_close(s, 94, 1) == 166);
    assert(group_close(s, 93, 1) == 166);
    assert(group_close(s, 92, 1) == 166);
    assert(group_close(s, 91, 1) == 166);
    assert(group_close(s, 90, 1) == 166);
    assert(group_close(s, 89, 1) == 166);
    let t12 = s.subrange(89, 166);
    assert(t12.len() == 77);
    assert(plain_from(t12, 77).len() == 0);
    assert(t12[73] == '^');
    assert(t12[74] == '{');
    assert(group_close(t12, 76, 1) == 76);
    assert(group_close(t12, 75, 1) == 76);
    let t13 = t12.subrange(75, 76);
    assert(t13.len() == 1);
    assert(plain_from(t13, 1).len() == 0);
    assert(t13[0] == '5');
    assert(has_no_backslash(plain_from(t13, 0)));
    assert(has_no_backslash(plain_from(t12, 73)));
    assert(t12[72] == 'x');
    assert(has_no_backslash(plain_from(t12, 72)));
    assert(t12[71] == ' ');
    assert(has_no_backslash(plain_from(t12, 71)));
    assert(t12[66] == '\\');
    assert(alpha_end(t12, 71) == 71);
    assert(alpha_end(t12, 70) == 71);
    assert(alpha_end(t12, 69) == 71);
    assert(alpha_end(t12, 68) == 71);
    assert(alpha_end(t12, 67) == 71);
    let t14 = t12.subrange(67, 71);
    assert(t14.len() == 4 && t14[0] == 'c' && t14[1] == 'd' && t14[2] == 'o' && t14[3] == 't');
    assert(t14 =~= "cdot"@);
    lemma_latex_symbol_cdot(t14);
    assert(has_no_backslash(plain_from(t12, 66)));
    assert(t12[65] == ' ');
    assert(has_no_backslash(plain_from(t12, 65)));
    assert(t12[64] == 'k');
    assert(has_no_backslash(plain_from(t12, 64)));
    assert(t12[63] == ' ');
    assert(has_no_backslash(plain_from(t12, 63)));
    assert(t12[62] == '+');
    assert(has_no_backslash(plain_from(t12, 62)));
    assert(t12[61] == ' ');
    assert(has_no_backslash(plain_from(t12, 61)));
    assert(t12[57] == '^');
    assert(t12[58] == '{');
    assert(group_close(t12, 60, 1) == 60);
    assert(group_close(t12, 59, 1) == 60);
    let t15 = t12.subrange(59, 60);
    assert(t15.len() == 1);
    assert(plain_from(t15, 1).len() == 0);
    assert(t15[0] == '4');
    assert(has_no_backslash(plain_from(t15, 0)));
    assert(has_no_backslash(plain_from(t12, 57)));
    assert(t12[56] == 'x');
    assert(has_no_backslash(plain_from(t12, 56)));
    assert(t12[55] == ' ');
    assert(has_no_backslash(plain_from(t12, 55)));
    assert(t12[50] == '\\');
    assert(alpha_end(t12, 55) == 55);
    assert(alpha_end(t12, 54) == 55);
    assert(alpha_end(t12, 53) == 55);
    assert(alpha_end(t12, 52) == 55);
    assert(alpha_end(t12, 51) == 55);
    let t16 = t12.subrange(51, 55);
    assert(t16.len() == 4 && t16[0] == 'c' && t16[1] == 'd' && t16[2] == 'o' && t16[3] == 't');
    assert(t16 =~= "cdot"@);
    lemma_latex_symbol_cdot(t16);
    assert(has_no_backslash(plain_from(t12, 50)));
    assert(t12[49] == ' ');
    assert(has_no_backslash(plain_from(t12, 49)));
    assert(t12[48] == 'j');
    assert(has_no_backslash(plain_from(t12, 48)));
    assert(t12[47] == ' ');
    assert(has_no_backslash(plain_from(t12, 47)));
    assert(t12[46] == '+');
    assert(has_no_backslash(plain_from(t12, 46)));
    assert(t12[45] == ' ');
    assert(has_no_backslash(plain_from(t12, 45)));
    assert(t12[41] == '^');
    assert(t12[42] == '{');
    assert(group_close(t12, 44, 1) == 44);
    assert(group_close(t12, 43, 1) == 44);
    let t17 = t12.subrange(43, 44);
    assert(t17.len() == 1);
    assert(plain_from(t17, 1).len() == 0);
    assert(t17[0] == '3');
    assert(has_no_backslash(plain_from(t17, 0)));
    assert(has_no_backslash(plain_from(t12, 41)));
    assert(t12[40] == 'x');
    assert(has_no_backslash(plain_from(t12, 40)));
    assert(t12[39] == ' ');
    assert(has_no_backslash(plain_from(t12, 39)));
    assert(t12[34] == '\\');
    assert(alpha_end(t12, 39) == 39);
    assert(alpha_end(t12, 38) == 39);
    assert(alpha_end(t12, 37) == 39);
    assert(alpha_end(t12, 36) == 39);
    assert(alpha_end(t12, 35) == 39);
    let t18 = t12.subrange(35, 39);
    assert(t18.len() == 4 && t18[0] == 'c' && t18[1] == 'd' && t18[2] == 'o' && t18[3] == 't');
    assert(t18 =~= "cdot"@);
    lemma_latex_symbol_cdot(t18);
    assert(has_no_backslash(plain_from(t12, 34)));
    assert(t12[33] == ' ');
    assert(has_no_backslash(plain_from(t12, 33)));
    assert(t12[32] == 'i');
    assert(has_no_backslash(plain_from(t12, 32)));
    assert(t12[31] == ' ');
    assert(has_no_backslash(plain_from(t12, 31)));
    assert(t12[30] == '+');
    assert(has_no_backslash(plain_from(t12, 30)));
    assert(t12[29] == ' ');
    assert(has_no_backslash(plain_from(t12, 29)));
    assert(t12[25] == '^');
    assert(t12[26] == '{');
    assert(group_close(t12, 28, 1) == 28);
    assert(group_close(t12, 27, 1) == 28);
    let t19 = t12.subrange(27, 28);
    assert(t19.len() == 1);
    assert(plain_from(t19, 1).len() == 0);
    assert(t19[0] == '2');
    assert(has_no_backslash(plain_from(t19, 0)));
    assert(has_no_backslash(plain_from(t12, 25)));
    assert(t12[24] == 'x');
    assert(has_no_backslash(plain_from(t12, 24)));
    assert(t12[23] == ' ');
    assert(has_no_backslash(plain_from(t12, 23)));
    assert(t12[18] == '\\');
    assert(alpha_end(t12, 23) == 23);
    assert(alpha_end(t12, 22) == 23);
    assert(alpha_end(t12, 21) == 23);
    assert(alpha_end(t12, 20) == 23);
    assert(alpha_end(t12, 19) == 23);
    let t20 = t12.subrange(19, 23);
    assert(t20.len() == 4 && t20[0] == 'c' && t20[1] == 'd' && t20[2] == 'o' && t20[3] == 't');
    assert(t20 =~= "cdot"@);
    lemma_latex_symbol_cdot(t20);
    assert(has_no_backslash(plain_from(t12, 18)));
    assert(t12[17] == ' ');
    assert(has_no_backslash(plain_from(t12, 17)));
    assert(t12[16] == 'h');
    assert(has_no_backslash(plain_from(t12, 16)));
    assert(t12[15] == ' ');
    assert(has_no_backslash(plain_from(t12, 15)));
    assert(t12[14] == '+');
    assert(has_no_backslash(plain_from(t12, 14)));
    assert(t12[13] == ' ');
    assert(has_no_backslash(plain_from(t12, 13)));
    assert(t12[12] == 'x');
    assert(has_no_backslash(plain_from(t12, 12)));
    assert(t12[11] == ' ');
    assert(has_no_backslash(plain_from(t12, 11)));
    assert(t12[6] == '\\');
    assert(alpha_end(t12, 11) == 11);
    assert(alpha_end(t12, 10) == 11);
    assert(alpha_end(t12, 9) == 11);
    assert(alpha_end(t12, 8) == 11);
    assert(alpha_end(t12, 7) == 11);
    let t21 = t12.subrange(7, 11);
    assert(t21.len() == 4 && t21[0] == 'c' && t21[1] == 'd' && t21[2] == 'o' && t21[3] == 't');
    assert(t21 =~= "cdot"@);
    lemma_latex_symbol_cdot(t21);
    assert(has_no_backslash(plain_from(t12, 6)));
    assert(t12[5] == ' ');
    assert(has_no_backslash(plain_from(t12, 5)));
    assert(t12[4] == 'g');
    assert(has_no_backslash(plain_from(t12, 4)));
    assert(t12[3] == ' ');
    assert(has_no_backslash(plain_from(t12, 3)));
    assert(t12[2] == '+');
    assert(has_no_backslash(plain_from(t12, 2)));
    assert(t12[1] == ' ');
    assert(has_no_backslash(plain_from(t12, 1)));
    assert(t12[0] == '1');
    assert(has_no_backslash(plain_from(t12, 0)));
    assert(has_no_backslash(plain_from(s, 4)));
    assert(s[3] == ' ');
    assert(has_no_backslash(plain_from(s, 3)));
    assert(s[2] == '=');
    assert(has_no_backslash(plain_from(s, 2)));
    assert(s[1] == ' ');
    assert(has_no_backslash(plain_from(s, 1)));
    assert(s[0] == 'y');
    assert(has_no_backslash(plain_from(s, 0)));
}

/// `\\gamma` reads as `γ`, which holds no backslash.
proof fn lemma_latex_symbol_gamma(command: Seq<char>)
    requires
        command =~= "gamma"@,
    ensures
        spec_latex_symbol(command) == Some("γ"@),
        has_no_backslash("γ"@),
{
    reveal_strlit("alpha");
    reveal_strlit("beta");
    reveal_strlit("gamma");
    reveal_strlit("γ");
    assert(command.len() == 5 && command[0] == 'g' && command[1] == 'a' && command[2] == 'm' && command[3] == 'm' && command[4] == 'a');
}

/// `\\mu` reads as `μ`, which holds no backslash.
proof fn lemma_latex_symbol_mu(command: Seq<char>)
    requires
        command =~= "mu"@,
    ensures
        spec_latex_symbol(command) == Some("μ"@),
        has_no_backslash("μ"@),
{
    reveal_strlit("alpha");
    reveal_strlit("beta");
    reveal_strlit("gamma");
    reveal_strlit("delta");
    reveal_strlit("epsilon");
    reveal_strlit("zeta");
    reveal_strlit("eta");
    reveal_strlit("theta");
    reveal_strlit("iota");
    reveal_strlit("kappa");
    reveal_strlit("lambda");
    reveal_strlit("mu");
    reveal_strlit("μ");
    assert(command.len() == 2 && command[0] == 'm' && command[1] == 'u');
}

/// `\\sigma` reads as `σ`, which holds no backslash.
proof fn lemma_latex_symbol_sigma(command: Seq<char>)
    requires
        command =~= "sigma"@,
    ensures
        spec_latex_symbol(command) == Some("σ"@),
        has_no_backslash("σ"@),
{
    reveal_strlit("alpha");
    reveal_strlit("beta");
    reveal_strlit("gamma");
    reveal_strlit("delta");
    reveal_strlit("epsilon");
    reveal_strlit("zeta");
    reveal_strlit("eta");
    reveal_strlit("theta");
    reveal_strlit("iota");
    reveal_strlit("kappa");
    reveal_strlit("lambda");
    reveal_strlit("mu");
    reveal_strlit("nu");
    reveal_strlit("xi");
    reveal_strlit("pi");
    reveal_strlit("rho");
    reveal_strlit("sigma");
    reveal_strlit("σ");
    assert(command.len() == 5 && command[0] == 's' && command[1] == 'i' && command[2] == 'g' && command[3] == 'm' && command[4] == 'a');
}

/// `\\tau` reads as `τ`, which holds no backslash.
proof fn lemma_latex_symbol_tau(command: Seq<char>)
    requires
        command =~= "tau"@,
    ensures
        spec_latex_symbol(command) == Some("τ"@),
        has_no_backslash("τ"@),
{
    reveal_strlit("alpha");
    reveal_strlit("beta");
    reveal_strlit("gamma");
    reveal_strlit("delta");
    reveal_strlit("epsilon");
    reveal_strlit("zeta");
    reveal_strlit("eta");
    reveal_strlit("theta");
    reveal_strlit("iota");
    reveal_strlit("kappa");
    reveal_strlit("lambda");
    reveal_strlit("mu");
    reveal_strlit("nu");
    reveal_strlit("xi");
    reveal_strlit("pi");
    reveal_strlit("rho");
    reveal_strlit("sigma");
    reveal_strlit("tau");
    reveal_strlit("τ");
    assert(command.len() == 3 && command[0] == 't' && command[1] == 'a' && command[2] == 'u');
}

/// `\\phi` reads as `φ`, which holds no backslash.
proof fn lemma_latex_symbol_phi(command: Seq<char>)
    requires
        command =~= "phi"@,
    ensures
        spec_latex_symbol(command) == Some("φ"@),
        has_no_backslash("φ"@),
{
    reveal_strlit("alpha");
    reveal_strlit("beta");
    reveal_strlit("gamma");
    reveal_strlit("delta");
    reveal_strlit("epsilon");
    reveal_strlit("zeta");
    reveal_strlit("eta");
    reveal_strlit("theta");
    reveal_strlit("iota");
    reveal_strlit("kappa");
    reveal_strlit("lambda");
    reveal_strlit("mu");
    reveal_strlit("nu");
    reveal_strlit("xi");
    reveal_strlit("pi");
    reveal_strlit("rho");
    reveal_strlit("sigma");
    reveal_strlit("tau");
    reveal_strlit("upsilon");
    reveal_strlit("phi");
    reveal_strlit("φ");
    assert(command.len() == 3 && command[0] == 'p' && command[1] == 'h' && command[2] == 'i');
}

/// `\\omega` reads as `ω`, which holds no backslash.
proof fn lemma_latex_symbol_omega(command: Seq<char>)
    requires
        command =~= "omega"@,
    ensures
        spec_latex_symbol(command) == Some("ω"@),
        has_no_backslash("ω"@),
{
    reveal_strlit("alpha");
    reveal_strlit("beta");
    reveal_strlit("gamma");
    reveal_strlit("delta");
    reveal_strlit("epsilon");
    reveal_strlit("zeta");
    reveal_strlit("eta");
    reveal_strlit("theta");
    reveal_strlit("iota");
    reveal_strlit("kappa");
    reveal_strlit("lambda");
    reveal_strlit("mu");
    reveal_strlit("nu");
    reveal_strlit("xi");
    reveal_strlit("pi");
    reveal_strlit("rho");
    reveal_strlit("sigma");
    reveal_strlit("tau");
    reveal_strlit("upsilon");
    reveal_strlit("phi");
    reveal_strlit("chi");
    reveal_strlit("psi");
    reveal_strlit("omega");
    reveal_strlit("ω");
    assert(command.len() == 5 && command[0] == 'o' && command[1] == 'm' && command[2] == 'e' && command[3] == 'g' && command[4] == 'a');
}

/// `\\cdot` reads as `·`, which holds no backslash.
proof fn lemma_latex_symbol_cdot(command: Seq<char>)
    requires
        command =~= "cdot"@,
    ensures
        spec_latex_symbol(command) == Some("·"@),
        has_no_backslash("·"@),
{
    reveal_strlit("alpha");
    reveal_strlit("beta");
    reveal_strlit("gamma");
    reveal_strlit("delta");
    reveal_strlit("epsilon");
    reveal_strlit("zeta");
    reveal_strlit("eta");
    reveal_strlit("theta");
    reveal_strlit("iota");
    reveal_strlit("kappa");
    reveal_strlit("lambda");
    reveal_strlit("mu");
    reveal_strlit("nu");
    reveal_strlit("xi");
    reveal_strlit("pi");
    reveal_strlit("rho");
    reveal_strlit("sigma");
    reveal_strlit("tau");
    reveal_strlit("upsilon");
    reveal_strlit("phi");
    reveal_strlit("chi");
    reveal_strlit("psi");
    reveal_strlit("omega");
    reveal_strlit("Gamma");
    reveal_strlit("Delta");
    reveal_strlit("Theta");
    reveal_strlit("Lambda");
    reveal_strlit("Xi");
    reveal_strlit("Pi");
    reveal_strlit("Sigma");
    reveal_strlit("Upsilon");
    reveal_strlit("Phi");
    reveal_strlit("Psi");
    reveal_strlit("Omega");
    reveal_strlit("cdot");
    reveal_strlit("·");
    assert(command.len() == 4 && command[0] == 'c' && command[1] == 'd' && command[2] == 'o' && command[3] == 't');
}

/// `\\exp` reads as `exp`, which holds no backslash.
proof fn lemma_latex_symbol_exp(command: Seq<char>)
    requires
        command =~= "exp"@,
    ensures
        spec_latex_symbol(command) == Some("exp"@),
        has_no_backslash("exp"@),
{
    reveal_strlit("alpha");
    reveal_strlit("beta");
    reveal_strlit("gamma");
    reveal_strlit("delta");
    reveal_strlit("epsilon");
    reveal_strlit("zeta");
    reveal_strlit("eta");
    reveal_strlit("theta");
    reveal_strlit("iota");
    reveal_strlit("kappa");
    reveal_strlit("lambda");
    reveal_strlit("mu");
    reveal_strlit("nu");
    reveal_strlit("xi");
    reveal_strlit("pi");
    reveal_strlit("rho");
    reveal_strlit("sigma");
    reveal_strlit("tau");
    reveal_strlit("upsilon");
    reveal_strlit("phi");
    reveal_strlit("chi");
    reveal_strlit("psi");
    reveal_strlit("omega");
    reveal_strlit("Gamma");
    reveal_strlit("Delta");
    reveal_strlit("Theta");
    reveal_strlit("Lambda");
    reveal_strlit("Xi");
    reveal_strlit("Pi");
    reveal_strlit("Sigma");
    reveal_strlit("Upsilon");
    reveal_strlit("Phi");
    reveal_strlit("Psi");
    reveal_strlit("Omega");
    reveal_strlit("cdot");
    reveal_strlit("times");
    reveal_strlit("pm");
    reveal_strlit("leq");
    reveal_strlit("geq");
    reveal_strlit("infty");
    reveal_strlit("exp");
    reveal_strlit("exp");
    assert(command.len() == 3 && command[0] == 'e' && command[1] == 'x' && command[2] == 'p');
}

/// `\\ln` reads as `ln`, which holds no backslash.
proof fn lemma_latex_symbol_ln(command: Seq<char>)
    requires
        command =~= "ln"@,
    ensures
        spec_latex_symbol(command) == Some("ln"@),
        has_no_backslash("ln"@),
{
    reveal_strlit("alpha");
    reveal_strlit("beta");
    reveal_strlit("gamma");
    reveal_strlit("delta");
    reveal_strlit("epsilon");
    reveal_strlit("zeta");
    reveal_strlit("eta");
    reveal_strlit("theta");
    reveal_strlit("iota");
    reveal_strlit("kappa");
    reveal_strlit("lambda");
    reveal_strlit("mu");
    reveal_strlit("nu");
    reveal_strlit("xi");
    reveal_strlit("pi");
    reveal_strlit("rho");
    reveal_strlit("sigma");
    reveal_strlit("tau");
    reveal_strlit("upsilon");
    reveal_strlit("phi");
    reveal_strlit("chi");
    reveal_strlit("psi");
    reveal_strlit("omega");
    reveal_strlit("Gamma");
    reveal_strlit("Delta");
    reveal_strlit("Theta");
    reveal_strlit("Lambda");
    reveal_strlit("Xi");
    reveal_strlit("Pi");
    reveal_strlit("Sigma");
    reveal_strlit("Upsilon");
    reveal_strlit("Phi");
    reveal_strlit("Psi");
    reveal_strlit("Omega");
    reveal_strlit("cdot");
    reveal_strlit("times");
    reveal_strlit("pm");
    reveal_strlit("leq");
    reveal_strlit("geq");
    reveal_strlit("infty");
    reveal_strlit("exp");
    reveal_strlit("ln");
    reveal_strlit("ln");
    assert(command.len() == 2 && command[0] == 'l' && command[1] == 'n');
}

/// `\\sin` reads as `sin`, which holds no backslash.
proof fn lemma_latex_symbol_sin(command: Seq<char>)
    requires
        command =~= "sin"@,
    ensures
        spec_latex_symbol(command) == Some("sin"@),
        has_no_backslash("sin"@),
{
    reveal_strlit("alpha");
    reveal_strlit("beta");
    reveal_strlit("gamma");
    reveal_strlit("delta");
    reveal_strlit("epsilon");
    reveal_strlit("zeta");
    reveal_strlit("eta");
    reveal_strlit("theta");
    reveal_strlit("iota");
    reveal_strlit("kappa");
    reveal_strlit("lambda");
    reveal_strlit("mu");
    reveal_strlit("nu");
    reveal_strlit("xi");
    reveal_strlit("pi");
    reveal_strlit("rho");
    reveal_strlit("sigma");
    reveal_strlit("tau");
    reveal_strlit("upsilon");
    reveal_strlit("phi");
    reveal_strlit("chi");
    reveal_strlit("psi");
    reveal_strlit("omega");
    reveal_strlit("Gamma");
    reveal_strlit("Delta");
    reveal_strlit("Theta");
    reveal_strlit("Lambda");
    reveal_strlit("Xi");
    reveal_strlit("Pi");
    reveal_strlit("Sigma");
    reveal_strlit("Upsilon");
    reveal_strlit("Phi");
    reveal_strlit("Psi");
    reveal_strlit("Omega");
    reveal_strlit("cdot");
    reveal_strlit("times");
    reveal_strlit("pm");
    reveal_strlit("leq");
    reveal_strlit("geq");
    reveal_strlit("infty");
    reveal_strlit("exp");
    reveal_strlit("ln");
    reveal_strlit("sin");
    reveal_strlit("sin");
    assert(command.len() == 3 && command[0] == 's' && command[1] == 'i' && command[2] == 'n');
}

/// `\\tanh` reads as `tanh`, which holds no backslash.
proof fn lemma_latex_symbol_tanh(command: Seq<char>)
    requires
        command =~= "tanh"@,
    ensures
        spec_latex_symbol(command) == Some("tanh"@),
        has_no_backslash("tanh"@),
{
    reveal_strlit("alpha");
    reveal_strlit("beta");
    reveal_strlit("gamma");
    reveal_strlit("delta");
    reveal_strlit("epsilon");
    reveal_strlit("zeta");
    reveal_strlit("eta");
    reveal_strlit("theta");
    reveal_strlit("iota");
    reveal_strlit("kappa");
    reveal_strlit("lambda");
    reveal_strlit("mu");
    reveal_strlit("nu");
    reveal_strlit("xi");
    reveal_strlit("pi");
    reveal_strlit("rho");
    reveal_strlit("sigma");
    reveal_strlit("tau");
    reveal_strlit("upsilon");
    reveal_strlit("phi");
    reveal_strlit("chi");
    reveal_strlit("psi");
    reveal_strlit("omega");
    reveal_strlit("Gamma");
    reveal_strlit("Delta");
    reveal_strlit("Theta");
    reveal_strlit("Lambda");
    reveal_strlit("Xi");
    reveal_strlit("Pi");
    reveal_strlit("Sigma");
    reveal_strlit("Upsilon");
    reveal_strlit("Phi");
    reveal_strlit("Psi");
    reveal_strlit("Omega");
    reveal_strlit("cdot");
    reveal_strlit("times");
    reveal_strlit("pm");
    reveal_strlit("leq");
    reveal_strlit("geq");
    reveal_strlit("infty");
    reveal_strlit("exp");
    reveal_strlit("ln");
    reveal_strlit("sin");
    reveal_strlit("tanh");
    reveal_strlit("tanh");
    assert(command.len() == 4 && command[0] == 't' && command[1] == 'a' && command[2] == 'n' && command[3] == 'h');
}

/// `\\arctan` reads as `arctan`, which holds no backslash.
proof fn lemma_latex_symbol_arctan(command: Seq<char>)
    requires
        command =~= "arctan"@,
    ensures
        spec_latex_symbol(command) == Some("arctan"@),
        has_no_backslash("arctan"@),
{
    reveal_strlit("alpha");
    reveal_strlit("beta");
    reveal_strlit("gamma");
    reveal_strlit("delta");
    reveal_strlit("epsilon");
    reveal_strlit("zeta");
    reveal_strlit("eta");
    reveal_strlit("theta");
    reveal_strlit("iota");
    reveal_strlit("kappa");
    reveal_strlit("lambda");
    reveal_strlit("mu");
    reveal_strlit("nu");
    reveal_strlit("xi");
    reveal_strlit("pi");
    reveal_strlit("rho");
    reveal_strlit("sigma");
    reveal_strlit("tau");
    reveal_strlit("upsilon");
    reveal_strlit("phi");
    reveal_strlit("chi");
    reveal_strlit("psi");
    reveal_strlit("omega");
    reveal_strlit("Gamma");
    reveal_strlit("Delta");
    reveal_strlit("Theta");
    reveal_strlit("Lambda");
    reveal_strlit("Xi");
    reveal_strlit("Pi");
    reveal_strlit("Sigma");
    reveal_strlit("Upsilon");
    reveal_strlit("Phi");
    reveal_strlit("Psi");
    reveal_strlit("Omega");
    reveal_strlit("cdot");
    reveal_strlit("times");
    reveal_strlit("pm");
    reveal_strlit("leq");
    reveal_strlit("geq");
    reveal_strlit("infty");
    reveal_strlit("exp");
    reveal_strlit("ln");
    reveal_strlit("sin");
    reveal_strlit("tanh");
    reveal_strlit("arctan");
    reveal_strlit("arctan");
    assert(command.len() == 6 && command[0] == 'a' && command[1] == 'r' && command[2] == 'c' && command[3] == 't' && command[4] == 'a' && command[5] == 'n');
}


} // verus!
