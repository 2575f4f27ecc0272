use datenbriefd::text::{file_name, same_text};
use datenbriefd::{
    effective_interval, shell, Company, CompletionShell, Config, Encryption, ServerConfig,
    Timestamp, DEFAULT_INTERVAL,
};

#[test]
fn encryption_parse_knows_tls_in_any_case() {
    assert_eq!(Encryption::parse("tls"), Encryption::tls);
    assert_eq!(Encryption::parse("TLS"), Encryption::tls);
    assert_eq!(Encryption::parse("Tls"), Encryption::tls);
    assert_eq!(Encryption::parse("starttls"), Encryption::starttls);
    assert_eq!(Encryption::parse("STARTTLS"), Encryption::starttls);
}

#[test]
fn encryption_parse_falls_back_to_starttls() {
    assert_eq!(Encryption::parse(""), Encryption::starttls);
    assert_eq!(Encryption::parse("none"), Encryption::starttls);
    assert_eq!(Encryption::parse(" tls"), Encryption::starttls);
    assert_eq!(Encryption::parse("tls "), Encryption::starttls);
    assert_eq!(Encryption::parse("ssl"), Encryption::starttls);
}

#[test]
fn encryption_of_lowercase_is_exact_about_case() {
    assert_eq!(Encryption::of_lowercase("tls"), Encryption::tls);
    assert_eq!(Encryption::of_lowercase("TLS"), Encryption::starttls);
    assert_eq!(Encryption::of_lowercase("starttls"), Encryption::starttls);
}

#[test]
fn a_new_server_is_not_configured() {
    let server = ServerConfig::new();
    assert_eq!(server.port, 0);
    assert_eq!(server.host, "");
    assert_eq!(server.encryption, Encryption::starttls);
    assert_eq!(server.user, "");
    assert_eq!(server.password, "");
}

#[test]
fn a_new_config_is_empty() {
    let config = Config::new();
    assert_eq!(config.companies.len(), 0);
    assert!(!config.dry_run);
    assert_eq!(config.time_file, "time.json");
    assert_eq!(config.smtp.port, 0);
    assert_eq!(config.smtp.host, "");
    assert_eq!(config.imap.encryption, Encryption::starttls);
    assert_eq!(config.imap_control.user, "");
    let other = Config::default();
    assert_eq!(other.time_file, "time.json");
    assert_eq!(other.companies.len(), 0);
}

#[test]
fn a_new_company_is_due_at_once() {
    let before = Timestamp::now();
    let company = Company::new();
    let after = Timestamp::now();
    assert_eq!(company.name, "");
    assert_eq!(company.mail, "");
    assert_eq!(company.alias, "");
    assert_eq!(company.onw_name, "");
    assert_eq!(company.interval, 365);
    assert_eq!(company.reminder, 0);
    assert!(before.le(&company.next_hit));
    assert!(company.next_hit.le(&after));
    assert!(company.is_due(&after));
}

#[test]
fn a_company_due_at_an_instant_holds_it() {
    let at = Timestamp::new(1_569_755_636, 692_549_889).unwrap();
    let company = Company::due_at(at);
    assert_eq!(company.next_hit, at);
    assert_eq!(company.interval, DEFAULT_INTERVAL);
    assert_eq!(company.reminder, 0);
    assert_eq!(company.name, "");
}

#[test]
fn the_interval_falls_back_to_the_global_one_and_then_to_a_year() {
    assert_eq!(effective_interval(Some(7), Some(30)), 7);
    assert_eq!(effective_interval(Some(7), None), 7);
    assert_eq!(effective_interval(None, Some(30)), 30);
    assert_eq!(effective_interval(None, None), 365);
    assert_eq!(effective_interval(Some(0), Some(30)), 0);
}

#[test]
fn shell_is_the_last_component_of_the_path() {
    assert_eq!(shell(Some(String::from("/bin/bash"))), "bash");
    assert_eq!(shell(Some(String::from("/usr/bin/zsh"))), "zsh");
    assert_eq!(shell(Some(String::from("/usr/local/bin/fish"))), "fish");
    assert_eq!(shell(Some(String::from("elvish"))), "elvish");
    assert_eq!(shell(Some(String::from("/usr/bin/"))), "bin");
}

#[test]
fn shell_is_bash_where_nothing_names_one() {
    assert_eq!(shell(None), "bash");
    assert_eq!(shell(Some(String::from(""))), "bash");
    assert_eq!(shell(Some(String::from("/"))), "bash");
    assert_eq!(shell(Some(String::from(".."))), "bash");
    assert_eq!(shell(Some(String::from("/usr/bin/.."))), "bash");
}

#[test]
fn completion_shell_is_known_in_any_case() {
    assert_eq!(CompletionShell::parse("fish"), CompletionShell::Fish);
    assert_eq!(CompletionShell::parse("Fish"), CompletionShell::Fish);
    assert_eq!(CompletionShell::parse("ZSH"), CompletionShell::Zsh);
    assert_eq!(CompletionShell::parse("PowerShell"), CompletionShell::PowerShell);
    assert_eq!(CompletionShell::parse("elvish"), CompletionShell::Elvish);
    assert_eq!(CompletionShell::parse("bash"), CompletionShell::Bash);
}

#[test]
fn completion_shell_falls_back_to_bash() {
    assert_eq!(CompletionShell::parse(""), CompletionShell::Bash);
    assert_eq!(CompletionShell::parse("sh"), CompletionShell::Bash);
    assert_eq!(CompletionShell::parse("tcsh"), CompletionShell::Bash);
    assert_eq!(CompletionShell::of_lowercase("FISH"), CompletionShell::Bash);
    assert_eq!(CompletionShell::of_lowercase("fish"), CompletionShell::Fish);
}

#[test]
fn completion_shell_of_the_users_shell() {
    let name = shell(Some(String::from("/usr/bin/Zsh")));
    assert_eq!(CompletionShell::parse(name.as_str()), CompletionShell::Zsh);
    assert_eq!(CompletionShell::parse(shell(None).as_str()), CompletionShell::Bash);
}

#[test]
fn file_name_is_the_last_component() {
    assert_eq!(file_name("/bin/bash"), Some(String::from("bash")));
    assert_eq!(file_name("bash"), Some(String::from("bash")));
    assert_eq!(file_name("/usr/bin/"), Some(String::from("bin")));
    assert_eq!(file_name("/usr/bin/."), Some(String::from("bin")));
    assert_eq!(file_name("/usr//bin/./"), Some(String::from("bin")));
    assert_eq!(file_name("./fish"), Some(String::from("fish")));
    assert_eq!(file_name("a/.b"), Some(String::from(".b")));
    assert_eq!(file_name("a/..."), Some(String::from("...")));
    assert_eq!(file_name("/opt/schale/z\u{fc}rich"), Some(String::from("z\u{fc}rich")));
    assert_eq!(file_name(""), None);
    assert_eq!(file_name("/"), None);
    assert_eq!(file_name("//"), None);
    assert_eq!(file_name("."), None);
    assert_eq!(file_name("./"), None);
    assert_eq!(file_name("./."), None);
    assert_eq!(file_name(".."), None);
    assert_eq!(file_name("/usr/.."), None);
    assert_eq!(file_name("/usr/../"), None);
    assert_eq!(file_name("/."), None);
}

#[test]
fn file_name_is_that_of_the_standard_library() {
    let letters = ['/', '.', 'a', '\u{e9}'];
    let mut paths: Vec<String> = vec![String::new()];
    let mut from = 0;
    for _ in 0..7 {
        let upto = paths.len();
        for i in from..upto {
            for letter in letters {
                let mut longer = paths[i].clone();
                longer.push(letter);
                paths.push(longer);
            }
        }
        from = upto;
    }
    assert_eq!(paths.len(), 21_845);
    for path in paths {
        let theirs = std::path::Path::new(path.as_str())
            .file_name()
            .map(|name| name.to_string_lossy().into_owned());
        assert_eq!(file_name(path.as_str()), theirs, "{:?}", path);
    }
}

#[test]
fn same_text_compares_character_by_character() {
    assert!(same_text("", ""));
    assert!(same_text("tls", "tls"));
    assert!(!same_text("tls", "TLS"));
    assert!(!same_text("tls", "tls "));
    assert!(!same_text("tls", ""));
}
