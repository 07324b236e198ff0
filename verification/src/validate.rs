//! The validator chain: gates which candidate selections the operator may
//! confirm. A selection is rejected when any candidate name contains a
//! protected substring, when it holds more names than the configured maximum,
//! or when it is empty. The checks run in that fixed order and the first
//! failure wins.

use vstd::prelude::*;
use vstd::string::{StrSliceExecFns, StringExecFns};

verus! {

/// Why a candidate selection was rejected.
#[derive(Clone, Copy, Debug, PartialEq, Eq, Structural)]
pub enum ValidationError {
    /// Some candidate name contains a protected substring.
    ProtectedName,
    /// More candidates than the configured maximum: `max` is the cap and
    /// `actual` the size of the rejected selection, so the reason shown to
    /// the operator can name both.
    TooMany { max: usize, actual: usize },
    /// No candidate was selected.
    EmptySelection,
    /// A submitted name was not among the enumerated buckets.
    NotEnumerated,
}

/// Outcome of running the validator chain over a candidate selection.
/// There is no partially-valid state.
#[derive(Clone, Copy, Debug, PartialEq, Eq, Structural)]
pub enum ValidationOutcome {
    Valid,
    Invalid(ValidationError),
}

/// The limits the validator chain enforces. Passed in explicitly so that
/// callers and tests can inject different limits.
#[derive(Clone, Debug)]
pub struct ValidatorConfig {
    /// Largest number of buckets one run may delete.
    pub max_buckets: usize,
    /// Substrings that mark a bucket name as off limits.
    pub protected_names: Vec<String>,
}

/// Default cap on how many buckets one run may delete.
pub const MAX_BUCKETS: usize = 5;

/// `p` occurs in `s` starting at position `i`.
pub open spec fn substring_at(s: Seq<char>, p: Seq<char>, i: int) -> bool {
    0 <= i && i + p.len() <= s.len() && s.subrange(i, i + p.len() as int) == p
}

/// `p` occurs somewhere in `s`.
pub open spec fn has_substring(s: Seq<char>, p: Seq<char>) -> bool {
    exists|i: int| substring_at(s, p, i)
}

/// `name` contains at least one of the protected substrings.
pub open spec fn spec_name_protected(name: Seq<char>, protected: Seq<Seq<char>>) -> bool {
    exists|k: int| 0 <= k < protected.len() && has_substring(name, protected[k])
}

/// Some candidate name contains a protected substring.
pub open spec fn spec_any_protected(names: Seq<Seq<char>>, protected: Seq<Seq<char>>) -> bool {
    exists|j: int| 0 <= j < names.len() && spec_name_protected(names[j], protected)
}

/// What the cardinality check returns for a selection of `n` names under a
/// cap of `max`: too many first, then empty, else valid.
pub open spec fn spec_length_outcome(n: int, max: int) -> ValidationOutcome {
    if n > max {
        ValidationOutcome::Invalid(ValidationError::TooMany { max: max as usize, actual: n as usize })
    } else if n == 0 {
        ValidationOutcome::Invalid(ValidationError::EmptySelection)
    } else {
        ValidationOutcome::Valid
    }
}

/// What the whole validator chain returns: the protected-name check runs
/// first, then the cardinality check; the first failure wins.
pub open spec fn spec_validate(names: Seq<Seq<char>>, protected: Seq<Seq<char>>, max: int) -> ValidationOutcome {
    if spec_any_protected(names, protected) {
        ValidationOutcome::Invalid(ValidationError::ProtectedName)
    } else {
        spec_length_outcome(names.len() as int, max)
    }
}

/// Substring search over characters: does `p` occur anywhere in `s`?
pub fn contains_substring(s: &str, p: &str) -> (r: bool)
    ensures
        r == has_substring(s@, p@),
{
    let n: usize = s.unicode_len();
    let m: usize = p.unicode_len();
    if m > n {
        return false;
    }
    if m == 0 {
        proof {
            assert(s@.subrange(0, 0) =~= p@);
            assert(substring_at(s@, p@, 0));
        }
        return true;
    }
    let mut i: usize = 0;
    while i <= n - m
        invariant
            1 <= m <= n,
            n == s@.len(),
            m == p@.len(),
            i <= n - m + 1,
            forall|k: int| 0 <= k < i ==> !substring_at(s@, p@, k),
        decreases n - m + 1 - i,
    {
        let mut j: usize = 0;
        let mut matched: bool = true;
        while matched && j < m
            invariant
                m <= n,
                n == s@.len(),
                m == p@.len(),
                i + m <= n,
                j <= m,
                matched ==> forall|t: int| 0 <= t < j ==> s@[i + t] == p@[t],
                !matched ==> !substring_at(s@, p@, i as int),
            decreases m - j,
        {
            if s.get_char(i + j) == p.get_char(j) {
                j += 1;
            } else {
                proof {
                    if substring_at(s@, p@, i as int) {
                        assert(s@.subrange(i as int, i + p@.len() as int)[j as int] == s@[i + j]);
                    }
                }
                matched = false;
                j = m;
            }
        }
        if matched {
            proof {
                assert(s@.subrange(i as int, i + m as int) =~= p@);
                assert(substring_at(s@, p@, i as int));
            }
            return true;
        }
        i += 1;
    }
    false
}

/// Does `name` contain any of the protected substrings?
pub fn name_is_protected(name: &str, protected: &Vec<String>) -> (r: bool)
    ensures
        r == spec_name_protected(name@, protected.deep_view()),
{
    let mut k: usize = 0;
    while k < protected.len()
        invariant
            k <= protected.len(),
            forall|t: int| 0 <= t < k ==> !has_substring(name@, protected.deep_view()[t]),
        decreases protected.len() - k,
    {
        if contains_substring(name, protected[k].as_str()) {
            proof {
                assert(protected.deep_view()[k as int] == protected@[k as int]@);
            }
            return true;
        }
        proof {
            assert(protected.deep_view()[k as int] == protected@[k as int]@);
        }
        k += 1;
    }
    false
}

/// Protected-name check: rejects the selection when any candidate name
/// contains a protected substring, so that variants and prefixed names of an
/// important bucket are caught as well.
pub fn protect_names_validator(options: &Vec<String>, config: &ValidatorConfig) -> (r: ValidationOutcome)
    ensures
        r == (if spec_any_protected(options.deep_view(), config.protected_names.deep_view()) {
            ValidationOutcome::Invalid(ValidationError::ProtectedName)
        } else {
            ValidationOutcome::Valid
        }),
{
    let mut j: usize = 0;
    while j < options.len()
        invariant
            j <= options.len(),
            forall|t: int| 0 <= t < j ==> !spec_name_protected(
                options.deep_view()[t],
                config.protected_names.deep_view(),
            ),
        decreases options.len() - j,
    {
        if name_is_protected(options[j].as_str(), &config.protected_names) {
            proof {
                assert(options.deep_view()[j as int] == options@[j as int]@);
            }
            return ValidationOutcome::Invalid(ValidationError::ProtectedName);
        }
        proof {
            assert(options.deep_view()[j as int] == options@[j as int]@);
        }
        j += 1;
    }
    ValidationOutcome::Valid
}

/// Cardinality check: rejects a selection that is larger than the configured
/// maximum, then one that is empty.
pub fn length_validator(options: &Vec<String>, config: &ValidatorConfig) -> (r: ValidationOutcome)
    ensures
        r == spec_length_outcome(options@.len() as int, config.max_buckets as int),
{
    if options.len() > config.max_buckets {
        return ValidationOutcome::Invalid(ValidationError::TooMany {
            max: config.max_buckets,
            actual: options.len(),
        });
    }
    if options.len() == 0 {
        return ValidationOutcome::Invalid(ValidationError::EmptySelection);
    }
    ValidationOutcome::Valid
}

/// The whole validator chain, run on every change to the selection: the
/// protected-name check first, then the cardinality check; the first
/// failure wins.
pub fn validate(options: &Vec<String>, config: &ValidatorConfig) -> (r: ValidationOutcome)
    ensures
        r == spec_validate(
            options.deep_view(),
            config.protected_names.deep_view(),
            config.max_buckets as int,
        ),
{
    let first = protect_names_validator(options, config);
    if let ValidationOutcome::Invalid(e) = first {
        return ValidationOutcome::Invalid(e);
    }
    length_validator(options, config)
}

/// Law: a selection containing any name with a protected substring is
/// rejected, whatever the other candidates are and whatever the cap is.
pub proof fn lemma_protected_name_rejected(
    names: Seq<Seq<char>>,
    protected: Seq<Seq<char>>,
    max: int,
    j: int,
)
    requires
        0 <= j < names.len(),
        spec_name_protected(names[j], protected),
    ensures
        spec_validate(names, protected, max) == ValidationOutcome::Invalid(
            ValidationError::ProtectedName,
        ),
{
    assert(spec_any_protected(names, protected));
}

/// Law: a selection larger than the cap is rejected, an empty selection is
/// rejected, and a selection of one through `max` names none of which holds a
/// protected substring is accepted.
pub proof fn lemma_cardinality_bounds(names: Seq<Seq<char>>, protected: Seq<Seq<char>>, max: int)
    ensures
        names.len() > max ==> spec_validate(names, protected, max) is Invalid,
        names.len() == 0 ==> spec_validate(names, protected, max) is Invalid,
        (1 <= names.len() <= max && !spec_any_protected(names, protected)) ==> spec_validate(
            names,
            protected,
            max,
        ) == ValidationOutcome::Valid,
{
}

/// The character for one decimal digit.
pub open spec fn spec_digit(d: int) -> char {
    if d == 0 {
        '0'
    } else if d == 1 {
        '1'
    } else if d == 2 {
        '2'
    } else if d == 3 {
        '3'
    } else if d == 4 {
        '4'
    } else if d == 5 {
        '5'
    } else if d == 6 {
        '6'
    } else if d == 7 {
        '7'
    } else if d == 8 {
        '8'
    } else {
        '9'
    }
}

/// The usual decimal rendering of `n`: most significant digit first, no
/// leading zero except for zero itself.
pub open spec fn spec_decimal(n: int) -> Seq<char>
    decreases n,
{
    if n < 10 {
        seq![spec_digit(n)]
    } else {
        spec_decimal(n / 10) + seq![spec_digit(n % 10)]
    }
}

/// The one-character string for a decimal digit.
fn digit_str(d: usize) -> (s: &'static str)
    requires
        d < 10,
    ensures
        s@ == seq![spec_digit(d as int)],
{
    proof {
        reveal_strlit("0");
        reveal_strlit("1");
        reveal_strlit("2");
        reveal_strlit("3");
        reveal_strlit("4");
        reveal_strlit("5");
        reveal_strlit("6");
        reveal_strlit("7");
        reveal_strlit("8");
        reveal_strlit("9");
    }
    let s: &'static str = match d {
        0 => "0",
        1 => "1",
        2 => "2",
        3 => "3",
        4 => "4",
        5 => "5",
        6 => "6",
        7 => "7",
        8 => "8",
        _ => "9",
    };
    proof {
        assert(s@ =~= seq![spec_digit(d as int)]);
    }
    s
}

/// Render `n` in decimal.
pub fn usize_to_decimal(n: usize) -> (s: String)
    ensures
        s@ == spec_decimal(n as int),
    decreases n,
{
    if n < 10 {
        digit_str(n).to_owned()
    } else {
        let mut s = usize_to_decimal(n / 10);
        s.append(digit_str(n % 10));
        proof {
            assert(s@ =~= spec_decimal(n as int));
        }
        s
    }
}

impl ValidationError {
    /// Spec-level text of the reason shown to the operator; the over-cap
    /// reason names the configured maximum and the actual count.
    pub open spec fn spec_message(self) -> Seq<char> {
        match self {
            ValidationError::ProtectedName => "Cannot delete buckets with protected names"@,
            ValidationError::TooMany { max, actual } => "Maximum of "@ + spec_decimal(max as int)
                + " selections. You have "@ + spec_decimal(actual as int),
            ValidationError::EmptySelection => "Must select a bucket"@,
            ValidationError::NotEnumerated => "No such bucket was found"@,
        }
    }

    /// Human-readable reason, shown beside the selection prompt.
    pub fn message(&self) -> (m: String)
        ensures
            m@ == self.spec_message(),
    {
        match self {
            ValidationError::ProtectedName => "Cannot delete buckets with protected names".to_owned(),
            ValidationError::TooMany { max, actual } => {
                let mut m = "Maximum of ".to_owned();
                m.append(usize_to_decimal(*max).as_str());
                m.append(" selections. You have ");
                m.append(usize_to_decimal(*actual).as_str());
                proof {
                    assert(m@ =~= self.spec_message());
                }
                m
            },
            ValidationError::EmptySelection => "Must select a bucket".to_owned(),
            ValidationError::NotEnumerated => "No such bucket was found".to_owned(),
        }
    }
}

impl Default for ValidatorConfig {
    /// The shipped limits: at most five buckets, and the protected substrings
    /// "backup", "do-not-delete" and "console".
    fn default() -> (c: ValidatorConfig)
        ensures
            c.max_buckets == MAX_BUCKETS,
            c.protected_names.deep_view() =~= seq!["backup"@, "do-not-delete"@, "console"@],
    {
        let mut names: Vec<String> = Vec::new();
        names.push("backup".to_owned());
        names.push("do-not-delete".to_owned());
        names.push("console".to_owned());
        proof {
            assert(names.deep_view() =~= seq!["backup"@, "do-not-delete"@, "console"@]);
        }
        ValidatorConfig { max_buckets: MAX_BUCKETS, protected_names: names }
    }
}

} // verus!
