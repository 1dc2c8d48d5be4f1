use gh_bofh_lib::{parse_args, Cli, ExcuseType, ParseError};

#[test]
fn test_default_classic_excuse() {
    let args = vec!["test"];
    let parsed = Cli::try_parse_from(args);
    assert!(parsed.is_ok());
    let opts = parsed.unwrap();
    assert_eq!(opts.excuse_type, ExcuseType::Classic);
}

#[test]
fn test_specify_classic_excuse() {
    let args = vec!["test", "--type", "classic"];
    let parsed = Cli::try_parse_from(args);
    assert!(parsed.is_ok());
    let opts = parsed.unwrap();
    assert_eq!(opts.excuse_type, ExcuseType::Classic);
}

#[test]
fn test_specify_modern_excuse() {
    let args = vec!["test", "--type", "modern"];
    let parsed = Cli::try_parse_from(args);
    assert!(parsed.is_ok());
    let opts = parsed.unwrap();
    assert_eq!(opts.excuse_type, ExcuseType::Modern);
}

#[test]
fn test_short_flag_classic() {
    let args = vec!["test", "-c"];
    let parsed = Cli::try_parse_from(args);
    assert!(parsed.is_ok());
    let opts = parsed.unwrap();
    assert!(opts.classic);
    assert!(!opts.modern);
}

#[test]
fn test_short_flag_modern() {
    let args = vec!["test", "-m"];
    let parsed = Cli::try_parse_from(args);
    assert!(parsed.is_ok());
    let opts = parsed.unwrap();
    assert!(!opts.classic);
    assert!(opts.modern);
}

#[test]
fn classic_flag_resolves_to_classic() {
    let opts = Cli::try_parse_from(vec!["test", "-c"]).unwrap();
    assert_eq!(opts.resolve(), ExcuseType::Classic);
}

#[test]
fn modern_flag_resolves_to_modern() {
    let opts = Cli::try_parse_from(vec!["test", "-m"]).unwrap();
    assert_eq!(opts.resolve(), ExcuseType::Modern);
}

#[test]
fn typed_modern_resolves_to_modern() {
    let opts = Cli::try_parse_from(vec!["test", "--type", "modern"]).unwrap();
    assert_eq!(opts.resolve(), ExcuseType::Modern);
}

#[test]
fn no_flags_resolve_to_classic_default() {
    let opts = Cli::try_parse_from(vec!["test"]).unwrap();
    assert_eq!(opts.resolve(), ExcuseType::Classic);
    assert!(!opts.classic);
    assert!(!opts.modern);
}

#[test]
fn env_modern_without_flags_resolves_to_modern() {
    let parsed = parse_args(vec!["test"], Some("modern"));
    assert!(parsed.is_ok());
    let opts = parsed.unwrap();
    assert_eq!(opts.excuse_type, ExcuseType::Modern);
    assert!(!opts.classic);
    assert!(!opts.modern);
    assert_eq!(opts.resolve(), ExcuseType::Modern);
}

#[test]
fn env_classic_without_flags_resolves_to_classic() {
    let parsed = parse_args(vec!["test"], Some("classic"));
    assert!(parsed.is_ok());
    let opts = parsed.unwrap();
    assert_eq!(opts.excuse_type, ExcuseType::Classic);
    assert!(!opts.classic);
    assert!(!opts.modern);
}

#[test]
fn explicit_type_wins_over_env() {
    let opts = parse_args(vec!["test", "--type", "classic"], Some("modern")).unwrap();
    assert_eq!(opts.excuse_type, ExcuseType::Classic);
}

#[test]
fn both_short_flags_conflict() {
    let parsed = Cli::try_parse_from(vec!["test", "-c", "-m"]);
    assert_eq!(parsed, Err(ParseError::ConflictingSelection));
}

#[test]
fn typed_selection_conflicts_with_flag() {
    let parsed = Cli::try_parse_from(vec!["test", "--type", "modern", "-c"]);
    assert_eq!(parsed, Err(ParseError::ConflictingSelection));
}

#[test]
fn repeated_flag_conflicts() {
    let parsed = Cli::try_parse_from(vec!["test", "-c", "--classic"]);
    assert_eq!(parsed, Err(ParseError::ConflictingSelection));
}

#[test]
fn type_flag_without_value_is_rejected() {
    let parsed = Cli::try_parse_from(vec!["test", "-t"]);
    assert_eq!(parsed, Err(ParseError::MissingTypeValue));
}

#[test]
fn unknown_type_value_is_rejected() {
    let parsed = Cli::try_parse_from(vec!["test", "--type", "ancient"]);
    assert_eq!(parsed, Err(ParseError::InvalidTypeValue));
}

#[test]
fn unknown_env_value_is_rejected() {
    let parsed = parse_args(vec!["test"], Some("postmodern"));
    assert_eq!(parsed, Err(ParseError::InvalidTypeValue));
}

#[test]
fn unknown_argument_is_rejected() {
    let parsed = Cli::try_parse_from(vec!["test", "--bogus"]);
    assert_eq!(parsed, Err(ParseError::UnknownArgument));
}

#[test]
fn long_flags_parse_like_short_ones() {
    let classic = Cli::try_parse_from(vec!["test", "--classic"]).unwrap();
    assert!(classic.classic);
    assert!(!classic.modern);
    let modern = Cli::try_parse_from(vec!["test", "--modern"]).unwrap();
    assert!(!modern.classic);
    assert!(modern.modern);
    let typed = Cli::try_parse_from(vec!["test", "-t", "modern"]).unwrap();
    assert_eq!(typed.excuse_type, ExcuseType::Modern);
}

#[test]
fn empty_argument_vector_parses_to_default() {
    let args: Vec<&str> = vec![];
    let opts = Cli::try_parse_from(args).unwrap();
    assert_eq!(opts.excuse_type, ExcuseType::Classic);
    assert!(!opts.classic);
    assert!(!opts.modern);
}
