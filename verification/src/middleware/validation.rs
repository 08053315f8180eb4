//! Validation of text that arrives from outside.
//!
//! Every value is first searched for the marks of SQL injection and of
//! cross-site scripting. A value for a field that has a rule must then keep
//! to the rule: bounds on its length in bytes, and regular expressions that
//! it must match, which are left to the `regex` crate.

use vstd::prelude::*;
use vstd::hash_map::StringHashMap;
use vstd::string::StringExecFns;
use vstd::utf8::encode_utf8;
use crate::chars::{contains, is_substring, str_lowercase, str_uppercase, to_lowercase, to_uppercase};

verus! {

/// Why a value was not accepted.
#[derive(Clone, Copy, Debug, PartialEq, Eq, Structural)]
pub enum InputValidationError {
    InvalidFormat,
    TooLong,
    TooShort,
    InvalidCharacters,
    InvalidRange,
    SqlInjection,
    XssAttempt,
}

/// Whether the regular expression `pattern` matches somewhere in `text`,
/// for `Regex::new` and `Regex::is_match` of the `regex` crate; `None` where
/// `Regex::new` rejects `pattern`.
pub uninterp spec fn regex_match(pattern: Seq<char>, text: Seq<char>) -> Option<bool>;

/// `Regex::new` and `Regex::is_match`. The contract names what comes back.
#[verifier::external_body]
pub(crate) fn regex_is_match(pattern: &str, text: &str) -> (matched: Option<bool>)
    ensures
        matched == regex_match(pattern@, text@),
{
    Some(regex::Regex::new(pattern).ok()?.is_match(text))
}

/// What a value for one field must keep to.
#[derive(Debug)]
pub struct ValidationRule {
    /// Least length in bytes.
    pub min_length: Option<usize>,
    /// Greatest length in bytes.
    pub max_length: Option<usize>,
    /// A regular expression that the value must match.
    pub pattern: Option<String>,
    /// A regular expression that admits only the characters allowed.
    pub allowed_chars: Option<String>,
}

/// A `ValidationRule`, as mathematical values.
pub struct ValidationRuleView {
    pub min_length: Option<usize>,
    pub max_length: Option<usize>,
    pub pattern: Option<Seq<char>>,
    pub allowed_chars: Option<Seq<char>>,
}

impl View for ValidationRule {
    type V = ValidationRuleView;

    open spec fn view(&self) -> ValidationRuleView {
        ValidationRuleView {
            min_length: self.min_length,
            max_length: self.max_length,
            pattern: match self.pattern {
                Some(pattern) => Some(pattern@),
                None => None,
            },
            allowed_chars: match self.allowed_chars {
                Some(pattern) => Some(pattern@),
                None => None,
            },
        }
    }
}

/// Greatest length of a value where a rule names none.
pub const DEFAULT_MAX_LENGTH: usize = 1000;

impl Default for ValidationRule {
    /// The rule that bounds the length at a thousand bytes and asks no more.
    fn default() -> (rule: Self)
        ensures
            rule@ == (ValidationRuleView {
                min_length: None,
                max_length: Some(DEFAULT_MAX_LENGTH),
                pattern: None,
                allowed_chars: None,
            }),
    {
        ValidationRule {
            min_length: None,
            max_length: Some(DEFAULT_MAX_LENGTH),
            pattern: None,
            allowed_chars: None,
        }
    }
}

/// `upper`, a value in upper case, holds a keyword or a comment mark of
/// SQL.
pub open spec fn has_sql_mark(upper: Seq<char>) -> bool {
    ||| is_substring("SELECT"@, upper)
    ||| is_substring("INSERT"@, upper)
    ||| is_substring("UPDATE"@, upper)
    ||| is_substring("DELETE"@, upper)
    ||| is_substring("DROP"@, upper)
    ||| is_substring("CREATE"@, upper)
    ||| is_substring("ALTER"@, upper)
    ||| is_substring("EXEC"@, upper)
    ||| is_substring("UNION"@, upper)
    ||| is_substring("SCRIPT"@, upper)
    ||| is_substring("--"@, upper)
    ||| is_substring("/*"@, upper)
    ||| is_substring("*/"@, upper)
}

/// `lower`, a value in lower case, holds a mark of script injection.
pub open spec fn has_xss_mark(lower: Seq<char>) -> bool {
    ||| is_substring("<script"@, lower)
    ||| is_substring("</script>"@, lower)
    ||| is_substring("javascript:"@, lower)
    ||| is_substring("onload="@, lower)
    ||| is_substring("onerror="@, lower)
    ||| is_substring("onclick="@, lower)
}

/// The threat that a value carries, if any. SQL is looked for first.
pub open spec fn security_threat(value: Seq<char>) -> Option<InputValidationError> {
    if has_sql_mark(str_uppercase(value)) {
        Some(InputValidationError::SqlInjection)
    } else if has_xss_mark(str_lowercase(value)) {
        Some(InputValidationError::XssAttempt)
    } else {
        None
    }
}

/// Tells whether a value in upper case holds a mark of SQL.
pub fn find_sql_mark(upper: &str) -> (found: bool)
    ensures
        found == has_sql_mark(upper@),
{
    contains(upper, "SELECT") || contains(upper, "INSERT") || contains(upper, "UPDATE")
        || contains(upper, "DELETE") || contains(upper, "DROP") || contains(upper, "CREATE")
        || contains(upper, "ALTER") || contains(upper, "EXEC") || contains(upper, "UNION")
        || contains(upper, "SCRIPT") || contains(upper, "--") || contains(upper, "/*")
        || contains(upper, "*/")
}

/// Tells whether a value in lower case holds a mark of script injection.
pub fn find_xss_mark(lower: &str) -> (found: bool)
    ensures
        found == has_xss_mark(lower@),
{
    contains(lower, "<script") || contains(lower, "</script>") || contains(lower, "javascript:")
        || contains(lower, "onload=") || contains(lower, "onerror=") || contains(
        lower,
        "onclick=",
    )
}

/// Searches a value for threats.
pub fn check_security_threats(value: &str) -> (checked: Result<(), InputValidationError>)
    ensures
        checked == match security_threat(value@) {
            Some(threat) => Err::<(), InputValidationError>(threat),
            None => Ok::<(), InputValidationError>(()),
        },
{
    let upper: String = to_uppercase(value);
    if find_sql_mark(upper.as_str()) {
        return Err(InputValidationError::SqlInjection);
    }
    let lower: String = to_lowercase(value);
    if find_xss_mark(lower.as_str()) {
        return Err(InputValidationError::XssAttempt);
    }
    Ok(())
}

/// What the bounds of a rule make of a length: the least length is checked
/// first.
pub open spec fn length_verdict(length: nat, least: Option<usize>, most: Option<usize>) -> Result<
    (),
    InputValidationError,
> {
    if least matches Some(bound) && length < bound {
        Err(InputValidationError::TooShort)
    } else if most matches Some(bound) && length > bound {
        Err(InputValidationError::TooLong)
    } else {
        Ok(())
    }
}

/// Holds a length to the bounds of a rule.
pub fn check_length(length: usize, least: Option<usize>, most: Option<usize>) -> (checked: Result<
    (),
    InputValidationError,
>)
    ensures
        checked == length_verdict(length as nat, least, most),
{
    match least {
        Some(bound) => {
            if length < bound {
                return Err(InputValidationError::TooShort);
            }
        },
        None => {},
    }
    match most {
        Some(bound) => {
            if length > bound {
                return Err(InputValidationError::TooLong);
            }
        },
        None => {},
    }
    Ok(())
}

/// The value does not match: the pattern matches nowhere in it, or is no
/// regular expression at all.
pub open spec fn fails_pattern(pattern: Option<Seq<char>>, value: Seq<char>) -> bool {
    pattern matches Some(expression) && regex_match(expression, value) != Some(true)
}

/// What a rule makes of a value. The least length is checked first, then
/// the greatest, then the pattern, then the allowed characters.
pub open spec fn rule_verdict(value: Seq<char>, rule: ValidationRuleView) -> Result<
    (),
    InputValidationError,
> {
    if length_verdict(encode_utf8(value).len(), rule.min_length, rule.max_length) is Err {
        length_verdict(encode_utf8(value).len(), rule.min_length, rule.max_length)
    } else if fails_pattern(rule.pattern, value) {
        Err(InputValidationError::InvalidFormat)
    } else if fails_pattern(rule.allowed_chars, value) {
        Err(InputValidationError::InvalidCharacters)
    } else {
        Ok(())
    }
}

/// Tells whether a value fails a pattern.
fn check_pattern(pattern: &Option<String>, value: &str) -> (fails: bool)
    ensures
        fails == fails_pattern(
            match *pattern {
                Some(expression) => Some(expression@),
                None => None,
            },
            value@,
        ),
{
    match pattern {
        Some(expression) => match regex_is_match(expression.as_str(), value) {
            Some(true) => false,
            _ => true,
        },
        None => false,
    }
}

/// Holds a value to a rule.
pub fn apply_rule(value: &str, rule: &ValidationRule) -> (checked: Result<
    (),
    InputValidationError,
>)
    ensures
        checked == rule_verdict(value@, rule@),
{
    let length: usize = value.as_bytes().len();
    match check_length(length, rule.min_length, rule.max_length) {
        Err(error) => {
            return Err(error);
        },
        Ok(()) => {},
    }
    if check_pattern(&rule.pattern, value) {
        return Err(InputValidationError::InvalidFormat);
    }
    if check_pattern(&rule.allowed_chars, value) {
        return Err(InputValidationError::InvalidCharacters);
    }
    Ok(())
}

/// The rules of the fields that are known, by the name of the field.
pub struct InputValidator {
    rules: StringHashMap<ValidationRule>,
}

/// Rules by the name of the field.
pub type Rules = Map<Seq<char>, ValidationRuleView>;

impl View for InputValidator {
    type V = Rules;

    closed spec fn view(&self) -> Rules {
        self.rules@.map_values(|rule: ValidationRule| rule@)
    }
}

/// The rule of `field`, if it has one.
pub open spec fn find_rule(rules: Rules, field: Seq<char>) -> Option<ValidationRuleView> {
    if rules.contains_key(field) {
        Some(rules[field])
    } else {
        None
    }
}

/// What the rules make of a value for `field`: a threat comes first, then
/// the field's rule, if it has one.
pub open spec fn input_verdict(rules: Rules, field: Seq<char>, value: Seq<char>) -> Result<
    (),
    InputValidationError,
> {
    match security_threat(value) {
        Some(threat) => Err(threat),
        None => match find_rule(rules, field) {
            Some(rule) => rule_verdict(value, rule),
            None => Ok(()),
        },
    }
}

/// A rule with bounds on the length and a pattern to match.
pub open spec fn pattern_rule(least: usize, most: usize, pattern: Seq<char>) -> ValidationRuleView {
    ValidationRuleView {
        min_length: Some(least),
        max_length: Some(most),
        pattern: Some(pattern),
        allowed_chars: None,
    }
}

/// A rule that bounds the length only.
pub open spec fn length_rule(most: usize) -> ValidationRuleView {
    ValidationRuleView {
        min_length: None,
        max_length: Some(most),
        pattern: None,
        allowed_chars: None,
    }
}

/// The rules of the fields that the dashboard takes: identifiers of
/// recommendations, public keys of nodes, identifiers of channels, amounts
/// and fee rates as text, and free messages.
pub open spec fn default_rules() -> Rules {
    Map::<Seq<char>, ValidationRuleView>::empty().insert(
        "recommendation_id"@,
        pattern_rule(1, 100, "^[a-zA-Z0-9_-]+$"@),
    ).insert("pubkey"@, pattern_rule(66, 68, "^[0-9a-fA-F]{66,68}$"@)).insert(
        "channel_id"@,
        pattern_rule(1, 50, "^[0-9]+$"@),
    ).insert("amount"@, length_rule(DEFAULT_MAX_LENGTH)).insert(
        "fee_rate"@,
        length_rule(DEFAULT_MAX_LENGTH),
    ).insert(
        "message"@,
        ValidationRuleView {
            min_length: None,
            max_length: Some(500),
            pattern: None,
            allowed_chars: Some("^[a-zA-Z0-9\\s\\.,!?\\-_()]+$"@),
        },
    )
}

/// A rule with bounds on the length and a pattern to match.
fn rule_with_pattern(least: usize, most: usize, pattern: &str) -> (made: ValidationRule)
    ensures
        made@ == pattern_rule(least, most, pattern@),
{
    ValidationRule {
        min_length: Some(least),
        max_length: Some(most),
        pattern: Some(String::from_str(pattern)),
        allowed_chars: None,
    }
}

/// A rule that bounds the length only.
fn rule_with_length(most: usize) -> (made: ValidationRule)
    ensures
        made@ == length_rule(most),
{
    ValidationRule { min_length: None, max_length: Some(most), pattern: None, allowed_chars: None }
}

impl Default for InputValidator {
    /// The validator of the dashboard's fields.
    fn default() -> (validator: Self)
        ensures
            validator@ == default_rules(),
    {
        let mut rules: StringHashMap<ValidationRule> = StringHashMap::new();
        rules.insert(
            String::from_str("recommendation_id"),
            rule_with_pattern(1, 100, "^[a-zA-Z0-9_-]+$"),
        );
        rules.insert(String::from_str("pubkey"), rule_with_pattern(66, 68, "^[0-9a-fA-F]{66,68}$"));
        rules.insert(String::from_str("channel_id"), rule_with_pattern(1, 50, "^[0-9]+$"));
        rules.insert(String::from_str("amount"), rule_with_length(DEFAULT_MAX_LENGTH));
        rules.insert(String::from_str("fee_rate"), rule_with_length(DEFAULT_MAX_LENGTH));
        rules.insert(
            String::from_str("message"),
            ValidationRule {
                min_length: None,
                max_length: Some(500),
                pattern: None,
                allowed_chars: Some(String::from_str("^[a-zA-Z0-9\\s\\.,!?\\-_()]+$")),
            },
        );
        let validator = InputValidator { rules };
        assert(validator@ =~= default_rules());
        validator
    }
}

impl InputValidator {
    /// The rule of `field`, if it has one.
    pub fn rule_for(&self, field_name: &str) -> (found: Option<&ValidationRule>)
        ensures
            match found {
                Some(rule) => find_rule(self@, field_name@) == Some(rule@),
                None => find_rule(self@, field_name@) is None,
            },
    {
        self.rules.get(field_name)
    }

    /// Validates a value for a field: threats first, then the field's rule.
    pub fn validate(&self, field_name: &str, value: &str) -> (checked: Result<
        (),
        InputValidationError,
    >)
        ensures
            checked == input_verdict(self@, field_name@, value@),
    {
        match check_security_threats(value) {
            Err(threat) => {
                return Err(threat);
            },
            Ok(()) => {},
        }
        match self.rule_for(field_name) {
            Some(rule) => apply_rule(value, rule),
            None => Ok(()),
        }
    }
}

/// Validates a value for a field by the dashboard's rules.
pub fn validate_input(field_name: &str, value: &str) -> (checked: Result<(), InputValidationError>)
    ensures
        checked == input_verdict(default_rules(), field_name@, value@),
{
    let validator = InputValidator::default();
    validator.validate(field_name, value)
}

/// A value that carries a threat is refused for every field, whatever the
/// field's rule.
pub proof fn lemma_threat_refused_everywhere(rules: Rules, field: Seq<char>, value: Seq<char>)
    requires
        security_threat(value) is Some,
    ensures
        input_verdict(rules, field, value) == Err::<(), InputValidationError>(
            security_threat(value)->0,
        ),
{
}

/// A field without a rule takes every value that carries no threat.
pub proof fn lemma_unruled_field_accepts(rules: Rules, field: Seq<char>, value: Seq<char>)
    requires
        security_threat(value) is None,
        find_rule(rules, field) is None,
    ensures
        input_verdict(rules, field, value) == Ok::<(), InputValidationError>(()),
{
}

} // verus!
