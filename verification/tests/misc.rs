use liborchestra::commons::{
    EnvironmentStore, ExitStatus, Output, OutputBuf, Table, TerminalContext,
};
use liborchestra::misc::{
    ancestors, check_git_lfs_versions, compact_outputs, file_name, find_version,
    format_commands_outputs, get_hostname, is_wouldblock_ssh, parent, parse_parameters, retry_n,
    retry_n_ssh, retry_ssh, root_markers, search_expegit_root, Error,
};
use liborchestra::primitives::{
    current_time, AsResult, AtDrop, DropBack, Dropper, Error as PrimitivesError, Expire, Timestamp,
};

fn output(code: i32, stdout: &str, stderr: &str) -> Output {
    Output {
        status: ExitStatus::from_raw(code),
        stdout: stdout.as_bytes().to_vec(),
        stderr: stderr.as_bytes().to_vec(),
    }
}

#[test]
fn test_check_git_lfs_versions() {
    let (git, lfs) = check_git_lfs_versions(
        "git version 2.20.1\n",
        "git-lfs/2.7.1 (GitHub; linux amd64; go 1.11.5)\n",
    );
    assert_eq!(git, "2.20.1");
    assert_eq!(lfs, "2.7.1");
}

#[test]
fn versions_are_found_leftmost_and_whole() {
    assert_eq!(find_version("a 1.2 10.20.301b 4.5.6"), Some("10.20.301".to_owned()));
    assert_eq!(find_version("1.2.3.4"), Some("1.2.3".to_owned()));
    assert_eq!(find_version("no version: 1.2"), None);
}

#[test]
fn paths_are_taken_apart() {
    assert_eq!((parent("/tmp/cmp/run"), file_name("/tmp/cmp/run")), ("/tmp/cmp".to_owned(), "run".to_owned()));
    assert_eq!((parent("/run"), file_name("/run")), ("/".to_owned(), "run".to_owned()));
}

/// Searches from a folder, where the marker stands in the folders that are given.
fn search(start: &str, marked: &[&str]) -> Result<String, Error> {
    let folders = ancestors(start);
    let found = folders
        .iter()
        .map(|f| {
            let (conf, marker) = root_markers(f);
            marked.contains(&conf.as_str()) || marked.contains(&marker.as_str())
        })
        .collect();
    search_expegit_root(&folders, &found)
}

#[test]
fn test_search_expegit_root() {
    let files = ["/tmp/liborchestra/misc/search_expegit_root/yes/.expegit"];
    let test_path = "/tmp/liborchestra/misc/search_expegit_root";
    let no_res = search(&format!("{}/no/1/2", test_path), &files);
    assert!(no_res.is_err());
    assert_eq!(no_res.unwrap_err().message(), "Invalid expegit repository");
    let yes_res = search(&format!("{}/yes/1/2", test_path), &files);
    assert!(yes_res.is_ok());
    assert_eq!(yes_res.unwrap(), format!("{}/yes", test_path));
    let yes_res = search(&format!("{}/yes", test_path), &files);
    assert!(yes_res.is_ok());
    assert_eq!(yes_res.unwrap(), format!("{}/yes", test_path));
}

#[test]
fn nearest_root_comes_first() {
    assert_eq!(ancestors("/a/bc"), vec!["/a/bc", "/a", "/"]);
    assert_eq!(ancestors("/"), vec!["/"]);
    assert_eq!(search("/a/b/c", &["/a/.cmpconf", "/a/b/.cmpconf"]), Ok("/a/b".to_owned()));
    assert_eq!(search("/a/b/c", &["/.cmpconf"]), Ok("/".to_owned()));
    assert_eq!(Error::Unknown.message(), "Unknown error occured");
}

#[test]
fn parameters_are_combined() {
    assert_eq!(parse_parameters("-a 1;-a 2", 1), vec!["-a 1", "-a 2"]);
    assert_eq!(parse_parameters("-a 1;-a 2", 2), vec!["-a 1", "-a 1", "-a 2", "-a 2"]);
    assert_eq!(
        parse_parameters("--x=1;--x=2\u{a4} --y=1 ; --y=2 ", 1),
        vec!["--x=1 --y=1", "--x=1 --y=2", "--x=2 --y=1", "--x=2 --y=2"]
    );
    assert_eq!(parse_parameters("a\u{a4}b\u{a4}c;d", 3).len(), 6);
    assert_eq!(parse_parameters("a ;b\u{a4}c", 1), vec!["a  c", "b c"]);
    assert_eq!(parse_parameters("", 1), vec![""]);
    assert!(parse_parameters("a;b", 0).is_empty());
}

#[test]
fn combinations_are_repeated_in_adjacent_places() {
    let parameters = "--x=1;--x=2\u{a4}--y=1;--y=2;--y=3";
    let once = parse_parameters(parameters, 1);
    for repeats in 1..5 {
        let all = parse_parameters(parameters, repeats);
        assert_eq!(all.len(), repeats * once.len());
        for (i, text) in all.iter().enumerate() {
            assert_eq!(*text, once[i / repeats]);
        }
    }
    assert_eq!(
        parse_parameters("a;b\u{a4}c;d", 2),
        vec!["a c", "a c", "a d", "a d", "b c", "b c", "b d", "b d"]
    );
}

#[test]
fn hostname_of_user_and_host() {
    assert_eq!(get_hostname("apere\n", "machine\n"), "apere@machine");
}

#[test]
fn outputs_are_compacted() {
    let all = compact_outputs(vec![output(0, "1\n", "a"), output(256, "2\n", ""), output(0, "", "b")]);
    assert_eq!(all.stdout, b"1\n2\n".to_vec());
    assert_eq!(all.stderr, b"ab".to_vec());
    assert_eq!(all.status.raw, 0);
    let none = compact_outputs(vec![]);
    assert_eq!(none.status.raw, 0);
    assert!(none.stdout.is_empty() && none.stderr.is_empty());
    // In two goes.
    let first = compact_outputs(vec![output(0, "1", ""), output(3, "2", "x")]);
    let second = compact_outputs(vec![output(5, "3", "y")]);
    let both = compact_outputs(vec![first, second]);
    let whole = compact_outputs(vec![output(0, "1", ""), output(3, "2", "x"), output(5, "3", "y")]);
    assert_eq!(both.stdout, whole.stdout);
    assert_eq!(both.stderr, whole.stderr);
    assert_eq!(both.status, whole.status);
}

#[test]
fn commands_and_outputs_are_formatted() {
    let commands = vec!["echo 'a'\n".to_owned(), "ls".to_owned()];
    let shown = format_commands_outputs(&commands, &vec![output(256, "a\n", "\"b\"")]);
    assert_eq!(
        shown,
        "\"echo 'a'\\n\" :\n    stdout: \"a\\n\"\n    stderr: \"\\\"b\\\"\"\n    ecode: 1\n"
    );
    assert_eq!(format_commands_outputs(&vec![], &vec![output(0, "", "")]), "");
}

#[test]
fn retries_are_limited() {
    assert!(is_wouldblock_ssh(-37) && is_wouldblock_ssh(-21) && !is_wouldblock_ssh(-14));
    assert!(retry_ssh(-21, &vec![-21]) && !retry_ssh(-1, &vec![-21]));
    assert!(retry_n(9, 10) && !retry_n(10, 10));
    assert!(retry_n_ssh(1, 10, -14, &vec![-14]));
    assert!(!retry_n_ssh(10, 10, -14, &vec![-14]));
    assert!(!retry_n_ssh(1, 10, -13, &vec![-14]));
}

#[test]
fn statuses_are_read() {
    let exited = ExitStatus::from_raw(3 << 8);
    assert_eq!(exited.code(), Some(3));
    assert_eq!(exited.signal(), None);
    assert!(!exited.success());
    let killed = ExitStatus::from_raw(9);
    assert_eq!(killed.code(), None);
    assert_eq!(killed.signal(), Some(9));
    assert!(ExitStatus::from_raw(0).success());
    assert_eq!(ExitStatus::from_raw(0).code(), Some(0));
    assert_eq!(ExitStatus::from_raw(0x7f).signal(), None);
}

#[test]
fn outputs_are_results() {
    assert_eq!(
        output(0, "out", "err").result(),
        Ok("Successful execution\nstdout: out\nstderr: err".to_owned())
    );
    assert_eq!(
        output(2 << 8, "out", "err").result(),
        Err("Failed execution(2)\nstdout: out\nstderr: err".to_owned())
    );
    assert_eq!(
        output(9, "\u{e9}", "").result(),
        Err("Failed execution(911)\nstdout: \u{e9}\nstderr: ".to_owned())
    );
    let buf = OutputBuf::from_output(&output(1, "a", "b"));
    assert_eq!((buf.stdout.as_str(), buf.stderr.as_str(), buf.ecode), ("a", "b", 911));
}

#[test]
fn environments_keep_the_last_value() {
    let mut envs = EnvironmentStore::new();
    assert!(envs.get("A").is_none());
    envs.insert("A".to_owned(), "1".to_owned());
    envs.insert("RUNAWAY_NODES".to_owned(), "n1 n2".to_owned());
    envs.insert("A".to_owned(), "2".to_owned());
    assert_eq!(envs.get("A").unwrap(), "2");
    assert_eq!(envs.entries.len(), 2);
    let kept = envs.retain_runaway(&EnvironmentStore::new());
    assert!(kept.get("A").is_none());
    assert_eq!(kept.get("RUNAWAY_NODES").unwrap(), "n1 n2");
    let kept = envs.retain_runaway(&envs);
    assert_eq!(kept.get("A").unwrap(), "2");
    let context = TerminalContext { cwd: "/".to_owned(), envs: kept };
    assert_eq!(context.clone().envs.entries, context.envs.entries);
}

#[test]
fn tables_hold_one_value_by_name() {
    let mut table: Table<u64> = Table::new();
    table.insert("a".to_owned(), 1);
    table.insert("b".to_owned(), 2);
    table.insert("a".to_owned(), 3);
    assert_eq!(table.get("a"), Some(&3));
    assert_eq!(table.get("b"), Some(&2));
    table.remove("a");
    assert_eq!(table.get("a"), None);
    table.remove("c");
    assert_eq!(table.entries.len(), 1);
}

#[test]
fn last_strong_dropper_joins() {
    let mut first = Dropper::from_closure("Handle".to_owned());
    let second = first.clone();
    assert_eq!(second.at_drop(2), AtDrop::Nothing);
    assert_eq!(first.at_drop(1), AtDrop::Join);
    assert_eq!(first.downgrade(2), AtDrop::Nothing);
    assert_eq!(first.at_drop(1), AtDrop::Nothing);
    let mut last = second;
    assert_eq!(last.downgrade(1), AtDrop::Join);
}

#[test]
fn values_expire() {
    let date = Timestamp { secs: 100, nanos: 5 };
    let value = Expire::new(7, date);
    assert_eq!(*value.get(), 7);
    assert!(!value.is_expired_at(date));
    assert!(value.is_expired_at(Timestamp { secs: 100, nanos: 6 }));
    assert!(!value.is_expired_at(Timestamp { secs: 99, nanos: 999 }));
    assert!(value.is_expired_at(Timestamp { secs: 101, nanos: 0 }));
    assert!(value.is_expired());
    let later = current_time().plus_minutes(60);
    assert!(!Expire::new(7, later).is_expired());
    assert_eq!(later.after(&current_time()), true);
    assert_eq!(Timestamp { secs: 1, nanos: 2 }.plus_minutes(3), Timestamp { secs: 181, nanos: 2 });
}

#[test]
fn time_goes_on() {
    // The clock of a machine that runs this is past 2020.
    assert!(current_time().secs > 1_577_836_800);
    assert!(!current_time().after(&current_time().plus_minutes(1)));
}

#[test]
fn dropped_values_come_back() {
    let value = DropBack::new("node");
    assert_eq!(*value.get(), "node");
    assert_eq!(value.at_drop(), Some("node"));
    let mut value = DropBack::new("node");
    assert_eq!(value.consume(), "node");
    assert_eq!(value.at_drop(), None);
}

#[test]
fn primitive_errors_have_texts() {
    assert_eq!(
        PrimitivesError::FuturePoll("x".to_owned()).message(),
        "An error occurred while polling a future:\nx"
    );
    assert_eq!(
        PrimitivesError::Operation("x".to_owned()).clone().message(),
        "An error occurred while performing the operation:\nx"
    );
}
