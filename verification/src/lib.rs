//! Typed retrieval of named configuration values from an in-memory
//! environment accessor, with a selectable policy for absent names:
//! fail, return nothing, or substitute a caller-supplied default.

use vstd::prelude::*;

pub mod accessor;
pub mod convert;
pub mod errors;
pub mod parse;

pub use accessor::EnvAccessor;
pub use convert::IntoTarget;
pub use errors::EnvOptionError;
pub use errors::ErrorMessage;
pub use parse::FromEnvStr;
pub use parse::IntParseError;
pub use parse::NeverError;

use vstd::pervasive::unreached;

verus! {

/// The behavior when the named value is not set in the accessor.
pub enum OptionType<T> {
    /// Absence is not an error: return no value.
    Optional,
    /// Absence is an error.
    Required,
    /// Absence substitutes the given default value.
    Default(T),
}

/// The abstract outcome of one retrieval: a value (described by its
/// view), success with no value, a missing required name, or a failed
/// parse (with its conversion error).
pub enum Outcome<V, E> {
    /// Success carrying a value with view `V`.
    Value(V),
    /// Success carrying no value.
    NoValue,
    /// Failure: the name was required but absent.
    MissingVar,
    /// Failure: the raw string was present but did not parse.
    ParseFailed(E),
}

/// What one retrieval of `name` from the accessor contents `m` under
/// `mode` must produce: a present raw string is parsed regardless of
/// the policy; the policy decides only the absent case.
pub open spec fn retrieval_outcome<T: FromEnvStr, B: IntoTarget<T>>(
    m: Map<Seq<char>, Seq<char>>,
    name: Seq<char>,
    mode: OptionType<B>,
) -> Outcome<T::V, T::Err> {
    if m.contains_key(name) {
        if T::parse_ok(m[name]) {
            Outcome::Value(T::parse_value(m[name]))
        } else {
            Outcome::ParseFailed(T::parse_err(m[name]))
        }
    } else {
        match mode {
            OptionType::Optional => Outcome::NoValue,
            OptionType::Required => Outcome::MissingVar,
            OptionType::Default(d) => Outcome::Value(d.target_view()),
        }
    }
}

/// Whether the optional-form result `r` of a retrieval of `name`
/// realizes the abstract outcome `o`.
pub open spec fn result_matches_outcome<T: FromEnvStr>(
    r: Result<Option<T>, EnvOptionError<T::Err>>,
    name: Seq<char>,
    o: Outcome<T::V, T::Err>,
) -> bool {
    match o {
        Outcome::Value(v) => r matches Ok(p) && p matches Some(x) && x@ == v,
        Outcome::NoValue => r matches Ok(p) && p is None,
        Outcome::MissingVar => r matches Err(e) && (e matches EnvOptionError::Missing(n) &&
            n@ == name),
        Outcome::ParseFailed(c) => r matches Err(e) && (e matches EnvOptionError::ParseError(
            n,
            c2,
        ) && n@ == name && c2 == c),
    }
}

/// Whether the plain (unwrapped) result `r` of a retrieval of `name`
/// realizes the abstract outcome `o`. A plain result cannot realize
/// the no-value outcome.
pub open spec fn plain_matches_outcome<T: FromEnvStr>(
    r: Result<T, EnvOptionError<T::Err>>,
    name: Seq<char>,
    o: Outcome<T::V, T::Err>,
) -> bool {
    match o {
        Outcome::Value(v) => r matches Ok(x) && x@ == v,
        Outcome::NoValue => false,
        Outcome::MissingVar => r matches Err(e) && (e matches EnvOptionError::Missing(n) &&
            n@ == name),
        Outcome::ParseFailed(c) => r matches Err(e) && (e matches EnvOptionError::ParseError(
            n,
            c2,
        ) && n@ == name && c2 == c),
    }
}

/// Get the value named `var_name` from `env`, using `mode` to decide
/// the behavior when it is not set. A present raw string is always
/// parsed, whatever the policy; the policy applies only to absence.
pub fn get<T: FromEnvStr, B: IntoTarget<T>>(
    env: &EnvAccessor,
    var_name: &str,
    mode: OptionType<B>,
) -> (r: Result<Option<T>, EnvOptionError<T::Err>>)
    ensures
        result_matches_outcome::<T>(
            r,
            var_name@,
            retrieval_outcome::<T, B>(env@, var_name@, mode),
        ),
{
    match env.lookup(var_name) {
        Some(value) => match T::from_env_str(value.as_str()) {
            Ok(v) => Ok(Some(v)),
            Err(e) => Err(EnvOptionError::ParseError(var_name.to_owned(), e)),
        },
        None => match mode {
            OptionType::Optional => Ok(None),
            OptionType::Required => Err(EnvOptionError::Missing(var_name.to_owned())),
            OptionType::Default(d) => Ok(Some(d.into_target())),
        },
    }
}

/// Get a required value: absence is an error, so a successful result
/// carries the value directly rather than an optional of it.
pub fn require<T: FromEnvStr>(env: &EnvAccessor, var_name: &str) -> (r: Result<
    T,
    EnvOptionError<T::Err>,
>)
    ensures
        plain_matches_outcome::<T>(
            r,
            var_name@,
            retrieval_outcome::<T, T>(env@, var_name@, OptionType::Required),
        ),
{
    match get::<T, T>(env, var_name, OptionType::Required) {
        Ok(p) => match p {
            Some(v) => Ok(v),
            None => unreached(),
        },
        Err(e) => Err(e),
    }
}

/// Get a value, substituting `default` when the name is absent: the
/// result carries the value directly and fails only on a present but
/// unparseable raw string.
pub fn with_default<T: FromEnvStr, B: IntoTarget<T>>(
    env: &EnvAccessor,
    var_name: &str,
    default: B,
) -> (r: Result<T, EnvOptionError<T::Err>>)
    ensures
        plain_matches_outcome::<T>(
            r,
            var_name@,
            retrieval_outcome::<T, B>(env@, var_name@, OptionType::Default(default)),
        ),
{
    match get::<T, B>(env, var_name, OptionType::Default(default)) {
        Ok(p) => match p {
            Some(v) => Ok(v),
            None => unreached(),
        },
        Err(e) => Err(e),
    }
}

/// Get an optional value: absence is not an error, and the result
/// fails only on a present but unparseable raw string.
pub fn optional<T: FromEnvStr>(env: &EnvAccessor, var_name: &str) -> (r: Result<
    Option<T>,
    EnvOptionError<T::Err>,
>)
    ensures
        result_matches_outcome::<T>(
            r,
            var_name@,
            retrieval_outcome::<T, T>(env@, var_name@, OptionType::Optional),
        ),
{
    get::<T, T>(env, var_name, OptionType::Optional)
}

/// Whether two optional-form results are equivalent: the same shape,
/// with equal value views and equivalent errors.
pub open spec fn results_equivalent<T: FromEnvStr>(
    r1: Result<Option<T>, EnvOptionError<T::Err>>,
    r2: Result<Option<T>, EnvOptionError<T::Err>>,
) -> bool {
    match (r1, r2) {
        (Ok(p1), Ok(p2)) => match (p1, p2) {
            (Some(a), Some(b)) => a@ == b@,
            (None, None) => true,
            _ => false,
        },
        (Err(e1), Err(e2)) => errors_equivalent(e1, e2),
        _ => false,
    }
}

/// Whether two retrieval errors are equivalent: the same kind, naming
/// the same variable, with equal causes.
pub open spec fn errors_equivalent<E>(e1: EnvOptionError<E>, e2: EnvOptionError<E>) -> bool {
    match (e1, e2) {
        (EnvOptionError::Missing(n1), EnvOptionError::Missing(n2)) => n1@ == n2@,
        (EnvOptionError::ParseError(n1, c1), EnvOptionError::ParseError(n2, c2)) => n1@ == n2@
            && c1 == c2,
        _ => false,
    }
}

/// A name absent from the accessor fails under the required policy
/// with the missing-variable outcome, so `get` returns the missing
/// error naming it, and `require` fails identically: both contracts
/// route through this one outcome.
pub proof fn lemma_absent_required<T: FromEnvStr>(m: Map<Seq<char>, Seq<char>>, name: Seq<char>)
    requires
        !m.contains_key(name),
    ensures
        retrieval_outcome::<T, T>(m, name, OptionType::Required) == Outcome::<
            T::V,
            T::Err,
        >::MissingVar,
        forall|r: Result<Option<T>, EnvOptionError<T::Err>>|
            #[trigger] result_matches_outcome::<T>(
                r,
                name,
                retrieval_outcome::<T, T>(m, name, OptionType::Required),
            ) ==> (r matches Err(e) && e matches EnvOptionError::Missing(n) && n@ == name),
{
}

/// A name absent from the accessor succeeds with no value under the
/// optional policy: `get` and `optional` never error on absence.
pub proof fn lemma_absent_optional<T: FromEnvStr>(m: Map<Seq<char>, Seq<char>>, name: Seq<char>)
    requires
        !m.contains_key(name),
    ensures
        retrieval_outcome::<T, T>(m, name, OptionType::Optional) == Outcome::<
            T::V,
            T::Err,
        >::NoValue,
        forall|r: Result<Option<T>, EnvOptionError<T::Err>>|
            #[trigger] result_matches_outcome::<T>(
                r,
                name,
                retrieval_outcome::<T, T>(m, name, OptionType::Optional),
            ) ==> (r matches Ok(p) && p is None),
{
}

/// A name absent from the accessor succeeds under the default policy
/// with the default converted into the target type, whatever the
/// target type's parse rules: `get` and `with_default` return it.
pub proof fn lemma_absent_default<T: FromEnvStr, B: IntoTarget<T>>(
    m: Map<Seq<char>, Seq<char>>,
    name: Seq<char>,
    d: B,
)
    requires
        !m.contains_key(name),
    ensures
        retrieval_outcome::<T, B>(m, name, OptionType::Default(d)) == Outcome::<
            T::V,
            T::Err,
        >::Value(d.target_view()),
        forall|r: Result<Option<T>, EnvOptionError<T::Err>>|
            #[trigger] result_matches_outcome::<T>(
                r,
                name,
                retrieval_outcome::<T, B>(m, name, OptionType::Default(d)),
            ) ==> (r matches Ok(p) && p matches Some(x) && x@ == d.target_view()),
{
}

/// A name present in the accessor with a raw string that parses
/// yields the parsed value under every policy: presence takes
/// priority, and any default or required/optional distinction is
/// irrelevant.
pub proof fn lemma_present_parses<T: FromEnvStr, B: IntoTarget<T>>(
    m: Map<Seq<char>, Seq<char>>,
    name: Seq<char>,
    mode: OptionType<B>,
)
    requires
        m.contains_key(name),
        T::parse_ok(m[name]),
    ensures
        retrieval_outcome::<T, B>(m, name, mode) == Outcome::<T::V, T::Err>::Value(
            T::parse_value(m[name]),
        ),
{
}

/// A name present in the accessor with a raw string that fails to
/// parse yields the parse error under every policy, independent of
/// any configured default.
pub proof fn lemma_present_fails_parse<T: FromEnvStr, B: IntoTarget<T>>(
    m: Map<Seq<char>, Seq<char>>,
    name: Seq<char>,
    mode: OptionType<B>,
)
    requires
        m.contains_key(name),
        !T::parse_ok(m[name]),
    ensures
        retrieval_outcome::<T, B>(m, name, mode) == Outcome::<T::V, T::Err>::ParseFailed(
            T::parse_err(m[name]),
        ),
        forall|r: Result<Option<T>, EnvOptionError<T::Err>>|
            #[trigger] result_matches_outcome::<T>(r, name, retrieval_outcome::<T, B>(m, name, mode))
                ==> (r matches Err(e) && e matches EnvOptionError::ParseError(n, c) && n@ == name
                && c == T::parse_err(m[name])),
{
}

/// Retrieval is idempotent: any two results that realize the outcome
/// of the same name, accessor contents and policy are equivalent, so
/// repeated calls with unchanged accessor state produce identical
/// results.
pub proof fn lemma_retrieval_deterministic<T: FromEnvStr, B: IntoTarget<T>>(
    m: Map<Seq<char>, Seq<char>>,
    name: Seq<char>,
    mode: OptionType<B>,
    r1: Result<Option<T>, EnvOptionError<T::Err>>,
    r2: Result<Option<T>, EnvOptionError<T::Err>>,
)
    requires
        result_matches_outcome::<T>(r1, name, retrieval_outcome::<T, B>(m, name, mode)),
        result_matches_outcome::<T>(r2, name, retrieval_outcome::<T, B>(m, name, mode)),
    ensures
        results_equivalent(r1, r2),
{
}

} // verus!
