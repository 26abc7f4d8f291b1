use see::app::App;

fn app_of(args: &[&str]) -> App {
    App { args: args.iter().map(|a| a.as_bytes().to_vec()).collect() }
}

#[test]
fn flags_accept_both_spellings() {
    assert!(app_of(&["see", "-d"]).detach());
    assert!(app_of(&["see", "detach"]).detach());
    assert!(!app_of(&["see"]).detach());
    assert!(app_of(&["see", "-h"]).help());
    assert!(app_of(&["see", "help"]).help());
    assert!(app_of(&["see", "-s"]).stop());
    assert!(app_of(&["see", "stop"]).stop());
    assert!(app_of(&["see", "-t"]).test());
    assert!(app_of(&["see", "test"]).test());
    assert!(app_of(&["see", "-v"]).version());
    assert!(app_of(&["see", "version"]).version());
    assert!(app_of(&["see", "start"]).start());
    assert!(!app_of(&["see", "-x"]).start());
}

#[test]
fn config_takes_the_following_value() {
    assert_eq!(
        app_of(&["see", "-c", "conf.yml"]).config(),
        Some(b"conf.yml".to_vec())
    );
    assert_eq!(app_of(&["see", "-c"]).config(), None);
    assert_eq!(app_of(&["see"]).config(), None);
}

#[test]
fn port_parses_or_hands_the_value_back() {
    assert_eq!(app_of(&["see", "start", "8080"]).port(), Ok(Some(8080)));
    assert_eq!(app_of(&["see", "start"]).port(), Ok(None));
    assert_eq!(app_of(&["see"]).port(), Ok(None));
    assert_eq!(
        app_of(&["see", "start", "later"]).port(),
        Err(b"later".to_vec())
    );
    assert_eq!(
        app_of(&["see", "start", "99999999999999999999"]).port(),
        Err(b"99999999999999999999".to_vec())
    );
}

#[test]
fn detach_args_name_both_spellings() {
    let app = app_of(&["see"]);
    let (short, long) = app.detach_args();
    assert_eq!(short, b"-d".to_vec());
    assert_eq!(long, b"detach".to_vec());
}
