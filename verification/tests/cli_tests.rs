use todo_cli::cli::{parse_args, parse_i32, run_command, CliError, Command, Outcome};
use todo_cli::db::initialize_memory_database;

fn argv(words: &[&str]) -> Vec<String> {
    words.iter().map(|w| w.to_string()).collect()
}

#[test]
fn parse_add_command() {
    let args = argv(&["add", "--title", "t1", "--description", "d1"]);
    match parse_args(&args).unwrap() {
        Command::Add { title, description } => {
            assert_eq!(title, "t1");
            assert_eq!(description, "d1");
        }
        other => panic!("parsed {:?}", other),
    }
}

#[test]
fn parse_remove_command() {
    let args = argv(&["remove", "--id", "7"]);
    match parse_args(&args).unwrap() {
        Command::Remove { id } => assert_eq!(id, 7),
        other => panic!("parsed {:?}", other),
    }
}

#[test]
fn parse_update_command() {
    let args = argv(&["update", "--id", "-3", "--title", "t2", "--description", "d2"]);
    match parse_args(&args).unwrap() {
        Command::Update { id, title, description } => {
            assert_eq!(id, -3);
            assert_eq!(title, "t2");
            assert_eq!(description, "d2");
        }
        other => panic!("parsed {:?}", other),
    }
}

#[test]
fn parse_get_command() {
    let args = argv(&["get"]);
    assert!(matches!(parse_args(&args).unwrap(), Command::Get));
}

#[test]
fn parse_rejects_empty_argument_list() {
    let args: Vec<String> = Vec::new();
    assert_eq!(parse_args(&args).unwrap_err(), CliError::MissingCommand);
}

#[test]
fn parse_rejects_unknown_subcommand() {
    let args = argv(&["frobnicate"]);
    assert_eq!(parse_args(&args).unwrap_err(), CliError::UnknownCommand);
}

#[test]
fn parse_rejects_missing_or_misplaced_flags() {
    let args = argv(&["add", "--title", "t1"]);
    assert_eq!(parse_args(&args).unwrap_err(), CliError::BadArguments);
    let args = argv(&["add", "--description", "d1", "--title", "t1"]);
    assert_eq!(parse_args(&args).unwrap_err(), CliError::BadArguments);
    let args = argv(&["get", "now"]);
    assert_eq!(parse_args(&args).unwrap_err(), CliError::BadArguments);
    let args = argv(&["remove", "--identifier", "1"]);
    assert_eq!(parse_args(&args).unwrap_err(), CliError::BadArguments);
}

#[test]
fn parse_rejects_bad_ids() {
    let args = argv(&["remove", "--id", "seven"]);
    assert_eq!(parse_args(&args).unwrap_err(), CliError::BadId);
    let args = argv(&["remove", "--id", ""]);
    assert_eq!(parse_args(&args).unwrap_err(), CliError::BadId);
    let args = argv(&["remove", "--id", "-"]);
    assert_eq!(parse_args(&args).unwrap_err(), CliError::BadId);
    let args = argv(&["remove", "--id", "2147483648"]);
    assert_eq!(parse_args(&args).unwrap_err(), CliError::BadId);
    let args = argv(&["update", "--id", "-2147483649", "--title", "t", "--description", "d"]);
    assert_eq!(parse_args(&args).unwrap_err(), CliError::BadId);
}

#[test]
fn parse_i32_accepts_the_full_range() {
    assert_eq!(parse_i32(&"0".to_string()), Some(0));
    assert_eq!(parse_i32(&"12".to_string()), Some(12));
    assert_eq!(parse_i32(&"007".to_string()), Some(7));
    assert_eq!(parse_i32(&"-1".to_string()), Some(-1));
    assert_eq!(parse_i32(&"2147483647".to_string()), Some(i32::MAX));
    assert_eq!(parse_i32(&"-2147483648".to_string()), Some(i32::MIN));
    assert_eq!(parse_i32(&"2147483648".to_string()), None);
    assert_eq!(parse_i32(&"-2147483649".to_string()), None);
    assert_eq!(parse_i32(&"99999999999999999999".to_string()), None);
    assert_eq!(parse_i32(&"1x".to_string()), None);
    assert_eq!(parse_i32(&"".to_string()), None);
}

#[test]
fn scenario_add_get_update_get_remove_get() {
    let mut conn = initialize_memory_database().unwrap();

    let cmd = parse_args(&argv(&["add", "--title", "t1", "--description", "d1"])).unwrap();
    match run_command(&mut conn, cmd) {
        Outcome::Added { title } => assert_eq!(title, "t1"),
        other => panic!("got {:?}", other),
    }

    let cmd = parse_args(&argv(&["get"])).unwrap();
    match run_command(&mut conn, cmd) {
        Outcome::Listed { todos } => {
            assert_eq!(todos.len(), 1);
            assert_eq!(todos[0].id, 1);
            assert_eq!(todos[0].title, "t1");
            assert_eq!(todos[0].description.as_deref(), Some("d1"));
        }
        other => panic!("got {:?}", other),
    }

    let cmd = parse_args(&argv(&["update", "--id", "1", "--title", "t2", "--description", "d2"]))
        .unwrap();
    match run_command(&mut conn, cmd) {
        Outcome::Updated { title } => assert_eq!(title, "t2"),
        other => panic!("got {:?}", other),
    }

    let cmd = parse_args(&argv(&["get"])).unwrap();
    match run_command(&mut conn, cmd) {
        Outcome::Listed { todos } => {
            assert_eq!(todos.len(), 1);
            assert_eq!(todos[0].id, 1);
            assert_eq!(todos[0].title, "t2");
            assert_eq!(todos[0].description.as_deref(), Some("d2"));
        }
        other => panic!("got {:?}", other),
    }

    let cmd = parse_args(&argv(&["remove", "--id", "1"])).unwrap();
    match run_command(&mut conn, cmd) {
        Outcome::Removed { id } => assert_eq!(id, 1),
        other => panic!("got {:?}", other),
    }

    let cmd = parse_args(&argv(&["get"])).unwrap();
    match run_command(&mut conn, cmd) {
        Outcome::Listed { todos } => assert!(todos.is_empty()),
        other => panic!("got {:?}", other),
    }
}

#[test]
fn run_command_reports_storage_failure_without_changing_anything() {
    // No migration has run, so the store has no todos table and every
    // command's storage operation fails.
    let mut conn = rusqlite::Connection::open_in_memory().unwrap();
    let cmd = parse_args(&argv(&["add", "--title", "t", "--description", "d"])).unwrap();
    match run_command(&mut conn, cmd) {
        Outcome::Failed { message } => assert!(!message.is_empty()),
        other => panic!("got {:?}", other),
    }
}
