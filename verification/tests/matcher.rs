use process_watch::config::ProcessSpec;
use process_watch::matcher::ProcessInfo;

fn strings(items: &[&str]) -> Vec<String> {
    items.iter().map(|s| s.to_string()).collect()
}

fn process(name: &str, args: &[&str]) -> ProcessInfo {
    ProcessInfo { name: name.to_string(), args: strings(args) }
}

fn wanted(name: &str, required: &[&str]) -> ProcessSpec {
    ProcessSpec::new(name.to_string(), strings(required)).unwrap()
}

#[test]
fn empty_snapshot_never_matches() {
    let spec = wanted("game.exe", &[]);
    assert!(!process_watch::matcher::matches(&Vec::new(), &spec));
}

#[test]
fn name_alone_suffices_without_required_arguments() {
    let spec = wanted("game.exe", &[]);
    let list = vec![process("shell", &[]), process("game.exe", &["-windowed"])];
    assert!(process_watch::matcher::matches(&list, &spec));
}

#[test]
fn name_must_be_equal_not_contained() {
    let spec = wanted("game", &[]);
    let list = vec![process("game.exe", &[]), process("minigame", &[]), process("Game", &[])];
    assert!(!process_watch::matcher::matches(&list, &spec));
}

#[test]
fn every_required_argument_must_be_present() {
    let spec = wanted("game.exe", &["-fullscreen", "-nosound"]);
    let only_one = vec![process("game.exe", &["game.exe", "-fullscreen"])];
    let both = vec![process("game.exe", &["game.exe", "-fullscreen", "-nosound"])];
    assert!(!process_watch::matcher::matches(&only_one, &spec));
    assert!(process_watch::matcher::matches(&both, &spec));
}

#[test]
fn arguments_match_as_whole_elements() {
    let spec = wanted("game.exe", &["-full"]);
    let list = vec![process("game.exe", &["-fullscreen", "x-full", "-full "])];
    assert!(!process_watch::matcher::matches(&list, &spec));
}

#[test]
fn argument_order_and_repetition_do_not_matter() {
    let spec = wanted("game.exe", &["-b", "-a", "-b"]);
    let list = vec![process("game.exe", &["-a", "-c", "-b"])];
    assert!(process_watch::matcher::matches(&list, &spec));
}

#[test]
fn process_without_arguments_fails_required_arguments() {
    let spec = wanted("game.exe", &["-fullscreen"]);
    let list = vec![process("game.exe", &[])];
    assert!(!process_watch::matcher::matches(&list, &spec));
}

#[test]
fn arguments_of_another_process_do_not_count() {
    let spec = wanted("game.exe", &["-fullscreen"]);
    let list = vec![process("game.exe", &["-windowed"]), process("player", &["-fullscreen"])];
    assert!(!process_watch::matcher::matches(&list, &spec));
}

#[test]
fn duplicates_are_checked_one_by_one() {
    let spec = wanted("game.exe", &["-fullscreen"]);
    let last_fits = vec![
        process("game.exe", &[]),
        process("game.exe", &["-windowed"]),
        process("game.exe", &["-fullscreen"]),
    ];
    let first_fits = vec![
        process("game.exe", &["-fullscreen"]),
        process("game.exe", &["-windowed"]),
    ];
    assert!(process_watch::matcher::matches(&last_fits, &spec));
    assert!(process_watch::matcher::matches(&first_fits, &spec));
}

#[test]
fn single_process_checks() {
    let spec = wanted("game.exe", &["-fullscreen"]);
    let fits = process("game.exe", &["-v", "-fullscreen"]);
    let wrong_name = process("game", &["-fullscreen"]);
    assert!(fits.has_argument(&"-fullscreen".to_string()));
    assert!(!fits.has_argument(&"-full".to_string()));
    assert!(fits.satisfies(&spec));
    assert!(!wrong_name.satisfies(&spec));
}
