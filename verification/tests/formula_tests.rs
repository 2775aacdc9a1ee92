use curve_fit::formula::{
    extract_svg_body, formula_preview_text, latex_symbol, latex_to_plain_text, model_formula_info,
    polynomial_formula_full, polynomial_parameter_symbols, rational_formula_full, read_braced_group,
    read_latex_command, FormulaSource,
};
use curve_fit::i18n::UiLanguage;
use curve_fit::model_catalog::ModelChoice;

fn chars(text: &str) -> Vec<char> {
    text.chars().collect()
}

#[test]
fn pseudo_voigt_plain_text_is_human_readable() {
    let formula = model_formula_info(UiLanguage::English, ModelChoice::PseudoVoigt, 1, 1);

    assert!(formula.plain_text.contains('\n'));
    assert!(formula.plain_text.contains("η"));
    assert!(!formula.plain_text.contains(r"\begin"));
}

#[test]
fn every_model_plain_text_stays_readable() {
    for model in ModelChoice::all() {
        let degrees = if model.is_polynomial() || model == ModelChoice::Rational {
            [1_usize, 9].as_slice()
        } else {
            [1_usize].as_slice()
        };
        for &degree in degrees {
            let formula = model_formula_info(UiLanguage::English, model, degree, degree);
            let plain_text = formula.plain_text.trim();

            assert!(
                !plain_text.is_empty(),
                "{model:?} degree {degree} plain text must not be empty"
            );
            assert!(
                formula.notes.starts_with("Minimum points: "),
                "{model:?} degree {degree} notes must start with the minimum number of points"
            );
            assert!(
                !plain_text.contains('\\'),
                "{model:?} degree {degree} plain text must not leak LaTeX commands: {plain_text}"
            );
        }
    }
}

#[test]
fn latex_reads_as_plain_text() {
    assert_eq!(latex_to_plain_text(r"y = \frac{a}{x + 1}"), "y = (a)∕(x + 1)");
    assert_eq!(latex_to_plain_text(r"y = a \cdot x^{2}"), "y = a · x^2");
    assert_eq!(latex_to_plain_text(r"\sqrt{2}\quad\alpha_{0}"), "√(2) α_0");
    assert_eq!(latex_to_plain_text(r"\text{erfc}(\mu) \\ b"), "erfc(μ) \n b");
    assert_eq!(latex_to_plain_text(r"a &= \unknown{b}"), r"a = \unknown{b}");
    assert_eq!(latex_to_plain_text(r"\frac{\frac{1}{2}}{3}"), "((1)∕(2))∕(3)");
    assert_eq!(latex_to_plain_text(r"\frac"), r"\frac");
    assert_eq!(latex_to_plain_text(r"\frac x"), r"\fracx");
    assert_eq!(latex_to_plain_text(r"\fracx"), r"\fracx");
    assert_eq!(latex_to_plain_text(r"\frac{a}b"), r"\frac{a");
    assert_eq!(latex_to_plain_text(r"\sqrt"), "√");
    assert_eq!(latex_to_plain_text("\\"), "\\");
}

#[test]
fn latex_helpers_read_commands_and_groups() {
    let text = chars(r"\cdot{a{b}c}d");
    assert_eq!(read_latex_command(&text, 1), 5);
    let (group, next) = read_braced_group(&text, 6);
    assert_eq!(group, chars("a{b}c"));
    assert_eq!(next, 12);
    let (open, end) = read_braced_group(&chars("{ab"), 1);
    assert_eq!(open, chars("ab"));
    assert_eq!(end, 3);
    assert_eq!(latex_symbol(&chars("omega")), Some("ω"));
    assert_eq!(latex_symbol(&chars("arctan")), Some("arctan"));
    assert_eq!(latex_symbol(&chars("nope")), None);
}

#[test]
fn polynomial_formula_lists_terms_from_the_highest_power() {
    assert_eq!(polynomial_formula_full(1), r"y = a \cdot x + b");
    assert_eq!(polynomial_formula_full(3), r"y = a \cdot x^{3} + b \cdot x^{2} + c \cdot x + d");
    assert_eq!(polynomial_formula_full(0), polynomial_formula_full(1));
    assert!(polynomial_formula_full(12).ends_with(r"+ i \cdot x + j"));
    assert_eq!(polynomial_parameter_symbols()[9], 'j');
}

#[test]
fn rational_formula_follows_the_degree() {
    assert_eq!(rational_formula_full(1), r"y = d + \frac{a \cdot x + b}{1 + c \cdot x}");
    assert_eq!(
        rational_formula_full(2),
        r"y = \frac{a \cdot x^{2} + b \cdot x + c}{1 + d \cdot x + e \cdot x^{2}}"
    );
    assert!(rational_formula_full(7).ends_with(r"k \cdot x^{5}}"));
}

#[test]
fn formula_notes_list_minimum_points_constraint_and_note() {
    let info = model_formula_info(UiLanguage::English, ModelChoice::Power, 1, 1);
    assert_eq!(
        info.notes,
        "Minimum points: 2\nConstraint: x > 0\nParametric nonlinear regression model."
    );
    assert_eq!(info.render_latex, r"y = a \cdot x^{b}");
    assert_eq!(info.plain_text, "y = a · x^b");
    let polynomial = model_formula_info(UiLanguage::Russian, ModelChoice::Polynomial, 4, 1);
    assert!(polynomial.notes.starts_with("Минимум точек: 5\n"));
}

#[test]
fn formula_source_constructors_keep_their_text() {
    let single = FormulaSource::single(r"\pi");
    assert_eq!(single.render_latex, r"\pi");
    assert_eq!(single.plain_text, "π");
    let explicit = FormulaSource::explicit(r"\pi", "pi");
    assert_eq!(explicit.plain_text, "pi");
}

#[test]
fn formula_preview_truncates_with_ellipsis() {
    assert_eq!(formula_preview_text("abcdef", 3), "...");
    assert_eq!(formula_preview_text("abcdef", 6), "abcdef");
    assert_eq!(formula_preview_text("abcdef", 5), "ab...");
    assert_eq!(formula_preview_text("αβγδε", 4), "α...");
}

#[test]
fn svg_body_is_cut_between_the_root_tags() {
    let svg = chars(r#"<svg a="1"><path/></svg>"#);
    assert_eq!(extract_svg_body(&svg), Some(chars("<path/>")));
    assert_eq!(extract_svg_body(&chars("<svg>")), None);
    assert_eq!(extract_svg_body(&chars("no tags")), None);
}

#[test]
fn environments_are_dropped_from_plain_text() {
    assert_eq!(latex_to_plain_text(r"\begin{aligned}a &= b \\ c\end{aligned}"), "a = b \n c");
    assert_eq!(latex_to_plain_text(r"\begin x"), r"\begin x");
}

#[test]
fn rational_models_of_degree_one_and_two_have_their_own_notes() {
    let compact = model_formula_info(UiLanguage::English, ModelChoice::Rational, 1, 1);
    assert!(compact.notes.ends_with("\nCompact rational model with one linear pole term."));
    let flexible = model_formula_info(UiLanguage::English, ModelChoice::Rational, 1, 2);
    assert!(flexible.notes.ends_with("\nFlexible rational model with quadratic numerator/denominator."));
    let general = model_formula_info(UiLanguage::English, ModelChoice::Rational, 1, 4);
    assert!(general.notes.ends_with("\nParametric nonlinear regression model."));
    let russian = model_formula_info(UiLanguage::Russian, ModelChoice::Rational, 1, 2);
    assert!(russian.notes.ends_with("\nГибкая рациональная модель с квадратами в числителе и знаменателе."));
}
