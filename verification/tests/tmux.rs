use flow::ids::SessionName;
use flow::tmux::{
    command_outcome, parse_sessions, sessions_from_output, switch_failed_message, AttachPlan, Tmux,
    TmuxError,
};

#[test]
fn parses_session_lines() {
    let raw = "alpha\t1\t/home/u/repo\t3\nbeta\t0\t/tmp\t1\n";
    let v = parse_sessions(raw).unwrap();
    assert_eq!(v.len(), 2);
    assert!(v[0].attached);
    assert_eq!(v[0].windows, 3);
    assert!(!v[1].attached);
}

#[test]
fn session_lines_with_missing_fields_are_refused() {
    match parse_sessions("alpha\t1\n") {
        Err(TmuxError::Parse(l)) => assert_eq!(l, "alpha\t1"),
        other => panic!("unexpected: {:?}", other),
    }
    match parse_sessions("bad.name\t0\t/x\t1\n") {
        Err(TmuxError::Parse(l)) => assert_eq!(l, "bad.name\t0\t/x\t1"),
        other => panic!("unexpected: {:?}", other),
    }
    let v = parse_sessions("\nalpha\t0\t/x\tmany\n").unwrap();
    assert_eq!(v.len(), 1);
    assert_eq!(v[0].windows, 0);
    assert_eq!(v[0].cwd, "/x");
    assert_eq!(v[0].name.as_str(), "alpha");
}

#[test]
fn tmux_argument_lists() {
    let name = SessionName::new("pfc").unwrap();
    let plain = Tmux::new();
    assert_eq!(plain.target_args("kill-session", &name), vec!["kill-session", "-t", "pfc"]);
    assert_eq!(plain.new_session_args(&name, "/w"), vec!["new-session", "-d", "-s", "pfc", "-c", "/w"]);
    let pinned = Tmux::with_socket("sock");
    assert_eq!(pinned.socket_args(), vec!["-L", "sock"]);
    assert_eq!(
        pinned.target_args("has-session", &name),
        vec!["-L", "sock", "has-session", "-t", "pfc"]
    );
    assert_eq!(
        pinned.list_sessions_args(),
        vec![
            "-L",
            "sock",
            "list-sessions",
            "-F",
            "#{session_name}\t#{session_attached}\t#{session_path}\t#{session_windows}"
        ]
    );
}

#[test]
fn tmux_outcomes() {
    assert!(command_outcome(true, "x".to_string(), String::new()).is_ok());
    match command_outcome(false, "tmux kill-session -t a".to_string(), "no server".to_string()) {
        Err(TmuxError::Command { cmd, stderr }) => {
            assert_eq!(cmd, "tmux kill-session -t a");
            assert_eq!(stderr, "no server");
        }
        other => panic!("unexpected: {:?}", other),
    }
    assert_eq!(sessions_from_output(false, "garbage").unwrap().len(), 0);
    assert_eq!(sessions_from_output(true, "a\t0\t/\t2\n").unwrap().len(), 1);
}

#[test]
fn a_written_session_line_reads_back() {
    for (name, attached, cwd, windows) in [("work", true, "/home/u/x y", 12u32), ("pfc-1", false, "", 0)] {
        let line = format!("{}\t{}\t{}\t{}\n", name, if attached { "1" } else { "0" }, cwd, windows);
        let v = parse_sessions(&line).unwrap();
        assert_eq!(v.len(), 1);
        assert_eq!(v[0].name.as_str(), name);
        assert_eq!(v[0].attached, attached);
        assert_eq!(v[0].cwd, cwd);
        assert_eq!(v[0].windows, windows);
    }
}

#[test]
fn attaching_switches_the_client_inside_tmux() {
    let name = SessionName::new("PFC-7").unwrap();
    let pinned = Tmux::with_socket("sock");
    match pinned.attach_plan(true, &name) {
        AttachPlan::SwitchClient(a) => assert_eq!(a, vec!["-L", "sock", "switch-client", "-t", "PFC-7"]),
        other => panic!("unexpected: {:?}", other),
    }
    match Tmux::new().attach_plan(false, &name) {
        AttachPlan::Attach(a) => assert_eq!(a, vec!["attach-session", "-t", "PFC-7"]),
        other => panic!("unexpected: {:?}", other),
    }
    assert_eq!(switch_failed_message("no server"), "switch-client failed: no server");
}
