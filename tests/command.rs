use ghss::command::{parse_command, CliError, Command, Verb};

fn args(a: &[&str]) -> Vec<String> {
    a.iter().map(|s| s.to_string()).collect()
}

#[test]
fn no_command() {
    let e = parse_command(&args(&["ghss"])).unwrap_err();
    assert_eq!(e, CliError::NoCommand);
    assert_eq!(e.output_line(), "error=No command provided");
}

#[test]
fn clean_needs_nothing() {
    assert_eq!(parse_command(&args(&["ghss", "clean"])), Ok(Command::Clean));
}

#[test]
fn run_needs_owner() {
    let e = parse_command(&args(&["ghss", "run"])).unwrap_err();
    assert_eq!(e, CliError::NoParameter(Verb::Run));
    assert_eq!(e.message(), "No parameter provided for 'run'");
    assert_eq!(
        parse_command(&args(&["ghss", "run", "acme"])),
        Ok(Command::Run("acme".to_string()))
    );
}

#[test]
fn plan_needs_owner() {
    let e = parse_command(&args(&["ghss", "plan"])).unwrap_err();
    assert_eq!(e.message(), "No parameter provided for 'plan'");
    assert_eq!(
        parse_command(&args(&["ghss", "plan", "acme"])),
        Ok(Command::Plan("acme".to_string()))
    );
}

#[test]
fn unknown_command() {
    let e = parse_command(&args(&["ghss", "deploy", "x"])).unwrap_err();
    assert_eq!(e, CliError::InvalidCommand("deploy".to_string()));
    assert_eq!(e.output_line(), "error=Invalid command: deploy");
}
