use asimov_cli::dispatch::{split_help_request, wants_debug, HelpCmdCommand};
use asimov_cli::roles::{modules_with_role, provides, ModuleRole};
use asimov_cli::status::Termination;

fn strings(list: &[&str]) -> Vec<String> {
    list.iter().map(|s| s.to_string()).collect()
}

#[test]
fn help_request_skips_flags_before_the_name() {
    let args = strings(&["asimov", "help", "-d", "--color", "module", "list", "-x"]);
    assert_eq!(
        split_help_request(&args),
        Some(("module".to_string(), strings(&["list", "-x"])))
    );
}

#[test]
fn help_request_without_a_name() {
    assert_eq!(split_help_request(&strings(&["asimov", "help", "-d"])), None);
    assert_eq!(split_help_request(&strings(&["asimov", "help"])), None);
    assert_eq!(split_help_request(&strings(&["asimov"])), None);
}

#[test]
fn debug_flag_is_recognised() {
    assert!(wants_debug(&strings(&["asimov", "help", "-d", "x"])));
    assert!(wants_debug(&strings(&["asimov", "--debug"])));
    assert!(!wants_debug(&strings(&["asimov", "help", "-dd", "--debugging"])));
}

#[test]
fn help_arguments_lead_with_help_flag() {
    let cmd = HelpCmdCommand { is_debug: false };
    assert_eq!(cmd.help_arguments(&strings(&["a", "b"])), strings(&["--help", "a", "b"]));
    assert_eq!(cmd.help_arguments(&Vec::new()), strings(&["--help"]));
}

#[test]
fn help_outcome_follows_the_child_status() {
    let cmd = HelpCmdCommand { is_debug: true };
    assert_eq!(cmd.outcome(Termination::Exited(0)), Ok(0));
    assert_eq!(cmd.outcome(Termination::Exited(2)), Err(70));
    assert_eq!(cmd.outcome(Termination::Signaled(11)), Err(70));
    assert_eq!(cmd.outcome(Termination::Unknown), Err(70));
}

#[test]
fn program_names_follow_the_convention() {
    assert_eq!(ModuleRole::Fetcher.program("http"), "asimov-http-fetcher");
    assert_eq!(ModuleRole::Reader.program("pdf"), "asimov-pdf-reader");
    assert_eq!(ModuleRole::Cataloger.program("fs"), "asimov-fs-cataloger");
    assert_eq!(ModuleRole::Importer.program("x"), "asimov-x-importer");
    assert_eq!(ModuleRole::Prompter.program("llm"), "asimov-llm-prompter");
    assert_eq!(ModuleRole::Other("indexer".to_string()).program("y"), "asimov-y-indexer");
}

#[test]
fn roles_match_the_last_program_segment() {
    let programs = strings(&["asimov-serpapi-fetcher", "asimov-serpapi-cataloger"]);
    assert!(provides(&programs, &ModuleRole::Fetcher));
    assert!(provides(&programs, &ModuleRole::Cataloger));
    assert!(!provides(&programs, &ModuleRole::Reader));
    assert!(provides(&strings(&["fetcher"]), &ModuleRole::Fetcher));
    assert!(!provides(&strings(&["asimov-fetcher-x"]), &ModuleRole::Fetcher));
    assert!(!provides(&Vec::new(), &ModuleRole::Fetcher));
}

#[test]
fn modules_are_filtered_by_role() {
    let modules = vec![
        strings(&["asimov-a-fetcher"]),
        strings(&["asimov-b-reader", "asimov-b-fetcher"]),
        strings(&["asimov-c-reader"]),
        Vec::new(),
    ];
    assert_eq!(
        modules_with_role(&modules, Some(&ModuleRole::Reader)),
        vec![false, true, true, false]
    );
    assert_eq!(modules_with_role(&modules, None), vec![true, true, true, true]);
}
