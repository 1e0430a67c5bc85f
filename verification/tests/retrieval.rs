use envoption::{get, optional, require, with_default, EnvAccessor, EnvOptionError, OptionType};

const UNSET_OPTION: &str = "__ENVOPTION_TEST_NOT_SET";
const SET_OPTION: &str = "__ENVOPTION_TEST_OPTION";

fn set_env() -> EnvAccessor {
    let mut acc = EnvAccessor::new();
    acc.set(SET_OPTION, "10");
    acc
}

#[test]
fn lib_required() {
    let acc = EnvAccessor::new();
    assert_eq!(
        get::<String, String>(&acc, UNSET_OPTION, OptionType::Required),
        Result::Err(EnvOptionError::Missing(String::from(UNSET_OPTION)))
    );
}

#[test]
fn lib_optional() {
    let acc = EnvAccessor::new();
    assert_eq!(
        get::<String, String>(&acc, UNSET_OPTION, OptionType::Optional),
        Result::Ok(None)
    );
}

#[test]
fn lib_default_value() {
    let acc = EnvAccessor::new();
    assert_eq!(
        get(&acc, UNSET_OPTION, OptionType::Default(String::from("abcdef"))),
        Result::Ok(Some(String::from("abcdef")))
    );
}

#[test]
fn lib_default_value_str() {
    let acc = EnvAccessor::new();
    assert_eq!(
        get(&acc, UNSET_OPTION, OptionType::Default("abcdef")),
        Result::Ok(Some(String::from("abcdef")))
    );
}

#[test]
fn lib_required_usize() {
    let acc = EnvAccessor::new();
    assert_eq!(
        get::<usize, usize>(&acc, UNSET_OPTION, OptionType::Required),
        Result::Err(EnvOptionError::Missing(String::from(UNSET_OPTION)))
    );
}

#[test]
fn lib_optional_usize() {
    let acc = EnvAccessor::new();
    assert_eq!(
        get::<usize, usize>(&acc, UNSET_OPTION, OptionType::Optional),
        Result::Ok(None)
    );
}

#[test]
fn lib_default_value_usize() {
    let acc = EnvAccessor::new();
    assert_eq!(
        get::<usize, usize>(&acc, UNSET_OPTION, OptionType::Default(50)),
        Result::Ok(Some(50))
    );
}

#[test]
fn present_required() {
    let acc = set_env();
    assert_eq!(
        get::<String, String>(&acc, SET_OPTION, OptionType::Required),
        Result::Ok(Some(String::from("10")))
    );
}

#[test]
fn present_optional() {
    let acc = set_env();
    assert_eq!(
        get::<String, String>(&acc, SET_OPTION, OptionType::Optional),
        Result::Ok(Some(String::from("10")))
    );
}

#[test]
fn present_default_value() {
    let acc = set_env();
    assert_eq!(
        get(&acc, SET_OPTION, OptionType::Default(String::from("abcdef"))),
        Result::Ok(Some(String::from("10")))
    );
}

#[test]
fn present_default_value_str() {
    let acc = set_env();
    assert_eq!(
        get(&acc, SET_OPTION, OptionType::Default("abcdef")),
        Result::Ok(Some(String::from("10")))
    );
}

#[test]
fn present_required_usize() {
    let acc = set_env();
    assert_eq!(
        get::<usize, usize>(&acc, SET_OPTION, OptionType::Required),
        Result::Ok(Some(10))
    );
}

#[test]
fn present_optional_usize() {
    let acc = set_env();
    assert_eq!(
        get::<usize, usize>(&acc, SET_OPTION, OptionType::Optional),
        Result::Ok(Some(10))
    );
}

#[test]
fn present_default_value_usize() {
    let acc = set_env();
    assert_eq!(
        get::<usize, usize>(&acc, SET_OPTION, OptionType::Default(25)),
        Result::Ok(Some(10))
    );
}

#[test]
fn lib_default_string() {
    let acc = EnvAccessor::new();
    assert_eq!(
        with_default(&acc, UNSET_OPTION, String::from("abcdef")),
        Result::Ok(String::from("abcdef"))
    );
}

#[test]
fn lib_default_str() {
    let acc = EnvAccessor::new();
    assert_eq!(
        with_default(&acc, UNSET_OPTION, "abcdef"),
        Result::Ok(String::from("abcdef"))
    );
}

#[test]
fn with_default_usize() {
    let acc = EnvAccessor::new();
    assert_eq!(
        with_default::<usize, usize>(&acc, UNSET_OPTION, 20),
        Result::Ok(20)
    );
}

#[test]
fn present_default_string() {
    let acc = set_env();
    assert_eq!(
        with_default(&acc, SET_OPTION, String::from("abcdef")),
        Result::Ok(String::from("10"))
    );
}

#[test]
fn present_default_str() {
    let acc = set_env();
    assert_eq!(
        with_default(&acc, SET_OPTION, "abcdef"),
        Result::Ok(String::from("10"))
    );
}

#[test]
fn default_usize() {
    let acc = set_env();
    assert_eq!(
        with_default::<usize, usize>(&acc, SET_OPTION, 20),
        Result::Ok(10)
    );
}

#[test]
fn lib_var_not_present() {
    let acc = EnvAccessor::new();
    assert_eq!(optional::<String>(&acc, UNSET_OPTION), Result::Ok(None));
}

#[test]
fn optional_var_is_present() {
    let acc = set_env();
    assert_eq!(
        optional::<String>(&acc, SET_OPTION),
        Result::Ok(Some(String::from("10")))
    );
}

#[test]
fn require_var_not_present() {
    let acc = EnvAccessor::new();
    assert_eq!(
        require::<String>(&acc, UNSET_OPTION),
        Result::Err(EnvOptionError::Missing(String::from(UNSET_OPTION)))
    );
}

#[test]
fn require_var_is_present() {
    let acc = set_env();
    assert_eq!(
        require::<String>(&acc, SET_OPTION),
        Result::Ok(String::from("10"))
    );
}
