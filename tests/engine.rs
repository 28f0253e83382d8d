use regex_validator::candidates::CandidateList;
use regex_validator::pattern::{compile, evaluate, CompilationResult};
use regex_validator::presets::{get_preset_names, lookup};
use regex_validator::session::Session;

fn strings(items: &[&str]) -> Vec<String> {
    items.iter().map(|s| s.to_string()).collect()
}

#[test]
fn empty_pattern_compiles_and_accepts_only_empty() {
    let c = compile("");
    assert!(c.is_compiled());
    assert!(c.is_match(""));
    assert!(!c.is_match("a"));
    assert!(!c.is_match(" "));
    assert_eq!(evaluate(&c, &strings(&["", "x", "hello"])), vec![true, false, false]);
}

#[test]
fn nonempty_pattern_matches_anywhere() {
    let c = compile("b");
    assert!(c.is_compiled());
    assert!(c.is_match("abc"));
    assert!(!c.is_match("xyz"));
}

#[test]
fn email_preset_scenario() {
    let c = compile(r"^[\w.-]+@([\w-]+\.)+[\w-]{2,4}$");
    assert!(c.is_compiled());
    assert!(c.is_match("user@example.com"));
    assert!(!c.is_match("not-an-email"));
}

#[test]
fn ipv4_preset_scenario() {
    let c = compile(
        r"^(?:(?:25[0-5]|2[0-4][0-9]|[01]?[0-9][0-9]?)\.){3}(?:25[0-5]|2[0-4][0-9]|[01]?[0-9][0-9]?)$",
    );
    assert!(c.is_compiled());
    assert!(c.is_match("192.168.1.1"));
    assert!(!c.is_match("999.1.1.1"));
}

#[test]
fn unbalanced_group_is_invalid() {
    let c = compile("(");
    assert!(!c.is_compiled());
    let msg = c.error_message().expect("an invalid pattern carries a description");
    assert!(!msg.is_empty());
    assert_eq!(evaluate(&c, &strings(&["(", "a", ""])), vec![false, false, false]);
}

#[test]
fn invalid_pattern_matches_nothing() {
    let c = compile("a{2,1}");
    assert!(matches!(c, CompilationResult::Invalid(_)));
    let list = strings(&["a", "aa", "aaa", "", "b"]);
    let r = evaluate(&c, &list);
    assert_eq!(r.len(), list.len());
    assert!(r.iter().all(|m| !m));
    assert!(evaluate(&c, &Vec::new()).is_empty());
}

#[test]
fn compiling_twice_gives_same_results() {
    let list = strings(&["user@example.com", "a@b.cd", "nope", ""]);
    let p = r"^[\w.-]+@([\w-]+\.)+[\w-]{2,4}$";
    assert_eq!(evaluate(&compile(p), &list), evaluate(&compile(p), &list));
    let q = "[";
    assert_eq!(compile(q).is_compiled(), compile(q).is_compiled());
    assert_eq!(compile(q).error_message(), compile(q).error_message());
}

#[test]
fn compiled_matcher_keeps_its_source() {
    match compile("a+b") {
        CompilationResult::Compiled(m) => {
            assert_eq!(m.source(), "a+b");
            assert!(m.is_match("xaab"));
            assert!(!m.is_match("ba"));
        }
        CompilationResult::Invalid(_) => panic!("a+b is a valid pattern"),
    }
}

#[test]
fn append_then_remove_keeps_order() {
    let mut c = CandidateList::new();
    c.append("a".to_string());
    c.append("b".to_string());
    c.append("c".to_string());
    c.remove_at(1);
    assert_eq!(c.items(), &strings(&["a", "c"]));
    assert_eq!(c.len(), 2);
    assert_eq!(c.get(0), "a");
    assert_eq!(c.get(1), "c");
}

#[test]
fn append_empty_is_ignored_and_duplicates_kept() {
    let mut c = CandidateList::new();
    c.append(String::new());
    assert_eq!(c.len(), 0);
    c.append("x".to_string());
    c.append("x".to_string());
    assert_eq!(c.items(), &strings(&["x", "x"]));
}

#[test]
fn remove_out_of_range_changes_nothing() {
    let mut c = CandidateList::new();
    c.append("a".to_string());
    c.remove_at(1);
    c.remove_at(usize::MAX);
    assert_eq!(c.items(), &strings(&["a"]));
    c.remove_at(0);
    assert_eq!(c.len(), 0);
}

#[test]
fn preset_names_in_order() {
    let names = get_preset_names();
    assert_eq!(
        names,
        strings(&["Email", "Phone", "CURP", "Mexican RFC", "IPv4", "Date (DD/MM/YY)"])
    );
}

#[test]
fn preset_lookup() {
    assert_eq!(lookup("Phone"), Some(r"^\+?1?\d{10}$".to_string()));
    assert_eq!(
        lookup("Date (DD/MM/YY)"),
        Some(r"^(0[1-9]|[12][0-9]|3[01])/(0[1-9]|1[0-2])/\d{2}$".to_string())
    );
    assert_eq!(lookup("email"), None);
    assert_eq!(lookup(""), None);
}

#[test]
fn every_preset_compiles() {
    for name in get_preset_names() {
        let p = lookup(&name).expect("each listed name has a pattern");
        assert!(compile(&p).is_compiled(), "{}", name);
    }
}

#[test]
fn date_and_phone_presets_match() {
    let date = compile(&lookup("Date (DD/MM/YY)").unwrap());
    assert!(date.is_match("31/12/99"));
    assert!(!date.is_match("32/12/99"));
    let phone = compile(&lookup("Phone").unwrap());
    assert!(phone.is_match("+15551234567"));
    assert!(!phone.is_match("555-1234"));
}

#[test]
fn new_session_state() {
    let s = Session::new();
    assert_eq!(s.pattern_text(), "");
    assert!(s.compilation().is_compiled());
    assert_eq!(s.candidate_count(), 0);
    assert_eq!(s.staged_text(), "");
    assert!(s.current_match_results().is_empty());
}

#[test]
fn commit_empty_staged_text_changes_nothing() {
    let mut s = Session::new();
    s.stage_candidate_text("a".to_string());
    s.commit_staged_candidate();
    s.commit_staged_candidate();
    assert_eq!(s.candidate_count(), 1);
    s.stage_candidate_text(String::new());
    s.commit_staged_candidate();
    assert_eq!(s.candidate_count(), 1);
    assert_eq!(s.candidate(0), "a");
}

#[test]
fn commit_clears_staging() {
    let mut s = Session::new();
    s.stage_candidate_text("user@example.com".to_string());
    assert_eq!(s.staged_text(), "user@example.com");
    s.commit_staged_candidate();
    assert_eq!(s.staged_text(), "");
    assert_eq!(s.candidate(0), "user@example.com");
}

#[test]
fn session_recompiles_on_every_edit() {
    let mut s = Session::new();
    for c in ["user@example.com", "not-an-email"] {
        s.stage_candidate_text(c.to_string());
        s.commit_staged_candidate();
    }
    assert_eq!(
        s.current_match_results(),
        vec![("user@example.com".to_string(), false), ("not-an-email".to_string(), false)]
    );
    assert!(s.select_preset("Email"));
    assert_eq!(s.pattern_text(), r"^[\w.-]+@([\w-]+\.)+[\w-]{2,4}$");
    assert_eq!(
        s.current_match_results(),
        vec![("user@example.com".to_string(), true), ("not-an-email".to_string(), false)]
    );
    assert!(!s.set_pattern_text("(".to_string()));
    assert!(s.compilation().error_message().is_some());
    assert_eq!(
        s.current_match_results(),
        vec![("user@example.com".to_string(), false), ("not-an-email".to_string(), false)]
    );
    assert!(s.set_pattern_text("email".to_string()));
    assert_eq!(
        s.current_match_results(),
        vec![("user@example.com".to_string(), false), ("not-an-email".to_string(), true)]
    );
}

#[test]
fn unknown_preset_leaves_session() {
    let mut s = Session::new();
    s.set_pattern_text("abc".to_string());
    assert!(!s.select_preset("Nothing"));
    assert_eq!(s.pattern_text(), "abc");
}

#[test]
fn session_remove_candidate() {
    let mut s = Session::new();
    for c in ["a", "b", "c"] {
        s.stage_candidate_text(c.to_string());
        s.commit_staged_candidate();
    }
    s.remove_candidate(1);
    s.remove_candidate(5);
    assert_eq!(s.candidate_count(), 2);
    assert_eq!(s.candidate(0), "a");
    assert_eq!(s.candidate(1), "c");
}
