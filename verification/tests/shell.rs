use irongate::process_alive::state_of;
use irongate::process_alive::State;
use irongate::process_alive::STILL_ACTIVE;
use irongate::shell::argument::Argument;
use irongate::shell::environment::Environment;
use irongate::shell::errors::ShellError;
use irongate::shell::script::Script;
use irongate::shell::shell::Shell;
use irongate::sqlite_regex::cache::RegexCache;
use irongate::sqlite_regex::operator::RegexpOperator;
use irongate::sqlite_regex::wrapper::SQLiteRegexWrapper;

#[test]
fn arguments_keep_name_and_value() {
    let argument = Argument::new("depth", "3");
    assert_eq!(argument.name(), "depth");
    assert_eq!(argument.value(), "3");
}

#[test]
fn shells_and_their_invocation() {
    assert_eq!(Shell::for_platform(false), Shell::Sh);
    assert_eq!(Shell::for_platform(true), Shell::PowerShell);
    assert_eq!(Shell::Sh.binary(), "sh");
    assert_eq!(Shell::PowerShell.binary(), "powershell.exe");
    assert_eq!(Shell::Sh.args(), vec!["-s"]);
    assert_eq!(Shell::PowerShell.args(), vec!["-ExecutionPolicy", "Bypass", "-Command", "-"]);
}

#[test]
fn scripts_keep_their_content() {
    let script = Script::new(b"echo 'hello world'".to_vec());
    assert_eq!(script.content(), b"echo 'hello world'");
    assert_eq!(Script::new(vec![]).content(), b"");
}

#[test]
fn environment_replaces_values() {
    let mut env = Environment::new();
    assert!(env.variables().is_empty());
    env.insert(b"IRONGATE_TEST".to_vec(), b"verified".to_vec());
    env.insert(b"PATH".to_vec(), b"/bin".to_vec());
    env.insert(b"IRONGATE_TEST".to_vec(), b"again".to_vec());
    env.insert(b"".to_vec(), b"".to_vec());
    assert_eq!(
        env.variables().clone(),
        vec![
            (b"IRONGATE_TEST".to_vec(), b"again".to_vec()),
            (b"PATH".to_vec(), b"/bin".to_vec()),
            (b"".to_vec(), b"".to_vec()),
        ]
    );
}

#[test]
fn shell_error_messages() {
    assert_eq!(ShellError::Io("denied".to_string()).to_string(), "IO error: denied");
    assert_eq!(
        ShellError::ExecutionFailed("x".to_string()).to_string(),
        "Process execution failed: x"
    );
    assert_eq!(
        ShellError::invalid_env_key("bad").to_string(),
        "Process execution failed: Invalid env key: bad"
    );
    assert_eq!(
        ShellError::invalid_env_value("bad").to_string(),
        "Process execution failed: Invalid env value: bad"
    );
    assert_eq!(
        ShellError::stdin_unavailable().to_string(),
        "Process execution failed: Failed to open stdin for shell process"
    );
}

#[test]
fn process_states() {
    assert_eq!(state_of(None), State::Unknown);
    assert_eq!(state_of(Some(259)), State::Alive);
    assert_eq!(state_of(Some(STILL_ACTIVE)), State::Alive);
    assert_eq!(state_of(Some(0)), State::Dead);
    assert_eq!(state_of(Some(1)), State::Dead);
}

#[test]
fn patterns_are_compiled_once_and_kept() {
    let mut cache = RegexCache::new();
    assert_eq!(cache.len(), 0);
    assert!(cache.get_or_insert("^A").unwrap().is_match("Alice"));
    assert_eq!(cache.len(), 1);
    assert!(!cache.get_or_insert("^A").unwrap().is_match("Bob"));
    assert_eq!(cache.len(), 1);
    assert_eq!(cache.get_or_insert("^A").unwrap().as_str(), "^A");
    assert!(cache.get_or_insert("[").is_err());
    assert_eq!(cache.len(), 1);
    assert!(cache.get_or_insert("rli").is_ok());
    assert_eq!(cache.len(), 2);
}

#[test]
fn regexp_operator_matches() {
    let mut operator = RegexpOperator::new(RegexCache::new());
    assert!(operator.is_match("^A", "Alice").unwrap());
    assert!(!operator.is_match("alice", "Alice").unwrap());
    assert!(operator.is_match("rli", "Charlie").unwrap());
    assert!(!operator.is_match("rli", "Bob").unwrap());
    assert!(operator.is_match("[", "test").is_err());
    assert!(operator.is_match(r"\w{1000}", "test").is_err());
    assert_eq!(SQLiteRegexWrapper::function_name(), "regexp");
    assert_eq!(SQLiteRegexWrapper::argument_count(), 2);
}

#[test]
fn environment_copies_are_independent() {
    let mut env = Environment::new();
    env.insert(b"A".to_vec(), b"1".to_vec());
    let mut copy = env.clone();
    assert_eq!(copy.variables(), env.variables());
    copy.insert(b"A".to_vec(), b"2".to_vec());
    copy.insert(b"B".to_vec(), b"3".to_vec());
    assert_eq!(env.variables().clone(), vec![(b"A".to_vec(), b"1".to_vec())]);
    assert_eq!(copy.variables().len(), 2);
}
