use liborchestra::git::{
    abort_rebase, add_remote, add_submodule, all_commits_result, checkout, clean, clone_local_repo,
    clone_remote_repo, commit, fetch, get_all_commits, get_last_commit, get_origin_url,
    get_staged_files, get_tip, init, last_commit_result, origin_url_result, pull, push, stage,
    staged_files_result, tip_result, unit_result, update_submodule, Command, CommandOutcome, Error,
};

fn line(command: Command) -> String {
    assert_eq!(command.dir, "/repo");
    command.args.join(" ")
}

fn wrote(text: &str) -> CommandOutcome {
    CommandOutcome::Success(text.as_bytes().to_vec())
}

#[test]
fn git_commands() {
    assert_eq!(
        line(clone_remote_repo("git://localhost/x", "/repo")),
        "git clone --recurse-submodule git://localhost/x"
    );
    assert_eq!(line(clone_local_repo("/other", "/repo")), "git clone -ls /other .");
    assert_eq!(line(get_tip("HEAD", "/repo")), "git rev-parse HEAD");
    assert_eq!(line(checkout("abc", "/repo")), "git checkout abc");
    assert_eq!(line(get_origin_url("/repo")), "git remote get-url origin");
    assert_eq!(line(add_submodule("url", "xprp", "/repo")), "git submodule add url xprp");
    assert_eq!(line(update_submodule("/repo")), "git submodule update --remote --merge");
    assert_eq!(line(get_staged_files("/repo")), "git diff --name-only --cached");
    assert_eq!(line(stage(".", "/repo")), "git add .");
    assert_eq!(line(commit("Test Commit", "/repo")), "git commit -m Test Commit");
    assert_eq!(line(abort_rebase("/repo")), "git rebase --abort");
    assert_eq!(
        line(pull("/repo")),
        "git pull --rebase --autostash --no-edit origin master"
    );
    assert_eq!(line(fetch("origin", "/repo")), "git fetch origin");
    assert_eq!(
        line(get_last_commit("master", "/repo")),
        "git log -n 1 --pretty=format:\"%H\" master"
    );
    assert_eq!(line(get_all_commits("/repo")), "git log --pretty=format:\"%H\"");
    assert_eq!(line(clean("/repo")), "git clean -dxf");
    assert_eq!(line(add_remote("origin", "url", "/repo")), "git remote add origin url");
    assert_eq!(line(init("/repo")), "git init");
    assert_eq!(line(push(None, "/repo")), "git push");
    assert_eq!(line(push(Some("origin"), "/repo")), "git push -u origin --all");
    assert_eq!(push(None, "/repo").description, "push in /repo");
}

#[test]
fn git_results() {
    assert_eq!(tip_result(wrote("abc\n")).unwrap(), "abc");
    assert_eq!(origin_url_result(wrote("git://x\n")).unwrap(), "git://x");
    assert_eq!(last_commit_result(wrote("\"abc\"")).unwrap(), "abc");
    assert_eq!(all_commits_result(wrote("\"abc\"\n\"def\"")).unwrap(), vec!["abc", "def"]);
    assert_eq!(
        staged_files_result(wrote("touch.md\n"), "/repo").unwrap(),
        vec!["/repo/touch.md", "/repo/"]
    );
    assert_eq!(staged_files_result(wrote(""), "/repo").unwrap(), vec!["/repo/"]);
    assert!(unit_result(wrote("anything")).is_ok());
    let failed = || CommandOutcome::Failed("fatal".to_owned());
    assert!(matches!(unit_result(failed()), Err(Error::Git(m)) if m == "fatal"));
    assert!(matches!(tip_result(failed()), Err(Error::Git(m)) if m == "fatal"));
    assert!(matches!(all_commits_result(CommandOutcome::NotRun), Err(Error::Unknown)));
    assert!(matches!(staged_files_result(CommandOutcome::NotRun, "/r"), Err(Error::Unknown)));
}
