use liborchestra::asynclets::{
    check_before_fetch, check_before_send, compute_local_sha1, compute_remote_sha1,
    fetch_remote_file, find_command, list_local_folder, list_remote_folder, read_globs_from_file,
    send_local_file, sha1_command, sha1_of, tar_command, tar_local_files, tar_remote_files,
    test_command, untar_command, untar_local_archive, untar_remote_archive, Glob, ReadBytes,
    ReadText, Tarred, Untarred,
};
use liborchestra::commons::{ExitStatus, Output};

fn output(raw: i32, stdout: &str) -> Output {
    Output { status: ExitStatus::from_raw(raw), stdout: stdout.as_bytes().to_vec(), stderr: vec![] }
}

fn glob(pattern: &str) -> Glob<String> {
    Glob(pattern.to_owned())
}

/// What is met when the folder of the tests is walked.
fn met(root: &str) -> Vec<(String, bool)> {
    vec![
        (root.to_owned(), false),
        (format!("{}/1", root), true),
        (format!("{}/folder", root), false),
        (format!("{}/folder/2", root), true),
        (format!("{}/3", root), true),
    ]
}

fn contains(files: &Vec<String>, name: &str) -> bool {
    files.iter().any(|f| f == name)
}

#[test]
fn test_read_globs_from_file() {
    let globs = read_globs_from_file(ReadText::Text("*.gz\nfolder/*\n".to_owned())).unwrap();
    assert_eq!(globs.len(), 2);
    assert_eq!(&glob("*.gz"), globs.get(0).unwrap());
    assert_eq!(&glob("folder/*"), globs.get(1).unwrap());
    assert_eq!(
        read_globs_from_file(ReadText::Unopened("x".to_owned())).unwrap_err(),
        "Failed to open glob file: x"
    );
    assert_eq!(
        read_globs_from_file(ReadText::Unread("x".to_owned())).unwrap_err(),
        "Failed to read blog file: x"
    );
}

#[test]
fn test_list_local_folder() {
    let root = "/tmp/test_dir";
    let files = list_local_folder(root, &vec![], &vec![], &met(root)).unwrap();
    assert_eq!(files.len(), 3);
    assert!(contains(&files, "1"));
    assert!(contains(&files, "3"));
    assert!(contains(&files, "folder/2"));
    // With ignore
    let files = list_local_folder(root, &vec![glob("folder/*")], &vec![], &met(root)).unwrap();
    assert_eq!(files.len(), 2);
    assert!(contains(&files, "1"));
    assert!(contains(&files, "3"));
    // With include
    let files =
        list_local_folder(root, &vec![glob("folder/*")], &vec![glob("**/2")], &met(root)).unwrap();
    assert_eq!(files.len(), 3);
    assert!(contains(&files, "1"));
    assert!(contains(&files, "3"));
    assert!(contains(&files, "folder/2"));
}

#[test]
fn bad_globs_are_refused() {
    let root = "/tmp/test_dir";
    let error = list_local_folder(root, &vec![glob("a"), glob("[")], &vec![], &vec![]).unwrap_err();
    assert!(error.starts_with("Failed to parse ignore glob: "), "{}", error);
    let error = list_local_folder(root, &vec![], &vec![glob("{")], &vec![]).unwrap_err();
    assert!(error.starts_with("Failed to parse include glob: "), "{}", error);
    let error =
        list_remote_folder(root, &vec![glob("{")], &vec![], Ok(output(0, ""))).unwrap_err();
    assert!(error.starts_with("Failed to parse ignore glob: "), "{}", error);
}

#[test]
fn test_tar_untar_local_file() {
    let archive =
        tar_local_files("/tmp/test_archive", Tarred::Archive(b"hello world".to_vec())).unwrap();
    assert_eq!(archive.file, "/tmp/test_archive");
    assert_eq!("2aae6c35c94fcfb415dbe95f408b9ce91ee846ed", archive.hash);
    let root = "/tmp/test_dir2";
    let files = untar_local_archive(root, Untarred::Met(met(root))).unwrap();
    let expected_files = vec!["1".to_owned(), "3".to_owned(), "folder/2".to_owned()];
    for a in expected_files.iter() {
        assert!(files.contains(a))
    }
    for a in files.iter() {
        assert!(expected_files.contains(a))
    }
}

#[test]
fn local_archives_that_fail() {
    let tar = |tarred| tar_local_files("/tmp/test_archive", tarred).unwrap_err();
    assert_eq!(tar(Tarred::NotAdded("x".to_owned())), "Failed to add file to the archive: x");
    assert_eq!(tar(Tarred::NotFinished("x".to_owned())), "Failed to finish the archive: x");
    assert_eq!(tar(Tarred::Unopened), "Failed to open file");
    assert_eq!(tar(Tarred::Unread), "Failed to compute hash");
    let untar = |untarred| untar_local_archive("/tmp", untarred).unwrap_err();
    assert_eq!(untar(Untarred::Unopened("x".to_owned())), "Failed to open archive: x");
    assert_eq!(untar(Untarred::NotUnpacked("x".to_owned())), "Failed to unpack archive: x");
}

#[test]
fn hashes_of_contents() {
    assert_eq!(sha1_of(&vec![]), "da39a3ee5e6b4b0d3255bfef95601890afd80709");
    assert_eq!(sha1_of(&b"abc".to_vec()), "a9993e364706816aba3e25717850c26c9cd0d89d");
    assert_eq!(
        compute_local_sha1(ReadBytes::Bytes(b"abc".to_vec())).unwrap(),
        "a9993e364706816aba3e25717850c26c9cd0d89d"
    );
    assert_eq!(compute_local_sha1(ReadBytes::Unopened).unwrap_err(), "Failed to open file");
    assert_eq!(compute_local_sha1(ReadBytes::Unread).unwrap_err(), "Failed to compute hash");
}

#[test]
fn test_send_fetch() {
    assert_eq!(test_command("/tmp/test_file2"), "test -f /tmp/test_file2");
    assert!(check_before_send(Ok(output(256, ""))).is_ok());
    assert_eq!(send_local_file("/tmp/test_file2", Ok(())).unwrap(), "/tmp/test_file2");
    assert!(check_before_fetch(false).is_ok());
    assert_eq!(fetch_remote_file("/tmp/test_file3", Ok(())).unwrap(), "/tmp/test_file3");
}

#[test]
fn existing_files_are_not_overwritten() {
    assert_eq!(check_before_send(Ok(output(0, ""))).unwrap_err(), "File already exists");
    assert_eq!(check_before_send(Err("x".to_owned())).unwrap_err(), "Failed to test file: x");
    assert_eq!(check_before_fetch(true).unwrap_err(), "File already exists");
    assert_eq!(
        send_local_file("/tmp/a", Err("x".to_owned())).unwrap_err(),
        "Failed to send input data: x"
    );
    assert_eq!(
        fetch_remote_file("/tmp/a", Err("x".to_owned())).unwrap_err(),
        "Failed to fetch file: x"
    );
}

#[test]
fn test_list_remote_folder() {
    let root = "/tmp/test_dir";
    assert_eq!(find_command(root), "find /tmp/test_dir -type f");
    let listed = || Ok(output(0, "/tmp/test_dir/1\n/tmp/test_dir/folder/2\n/tmp/test_dir/3\n"));
    let files = list_remote_folder(root, &vec![], &vec![], listed()).unwrap();
    assert_eq!(files.len(), 3);
    assert!(contains(&files, "1"));
    assert!(contains(&files, "3"));
    assert!(contains(&files, "folder/2"));
    // With ignore
    let files = list_remote_folder(root, &vec![glob("folder/*")], &vec![], listed()).unwrap();
    assert_eq!(files.len(), 2);
    assert!(contains(&files, "1"));
    assert!(contains(&files, "3"));
    // With include
    let files =
        list_remote_folder(root, &vec![glob("folder/*")], &vec![glob("**/2")], listed()).unwrap();
    assert_eq!(files.len(), 3);
    assert!(contains(&files, "1"));
    assert!(contains(&files, "3"));
    assert!(contains(&files, "folder/2"));
    assert_eq!(
        list_remote_folder(root, &vec![], &vec![], Err("x".to_owned())).unwrap_err(),
        "Failed to list remote files: x"
    );
}

#[test]
fn test_tar_untar_remote_file() {
    let files = vec!["1".to_owned(), "3".to_owned(), "folder/2".to_owned()];
    assert_eq!(
        tar_command("/tmp/test_dir", "/tmp/test_archive", &files),
        "cd /tmp/test_dir && tar -cvf /tmp/test_archive 1 3 folder/2 "
    );
    tar_remote_files(Ok(output(0, "1\n3\nfolder/2\n"))).unwrap();
    assert_eq!(sha1_command("/tmp/test_archive"), "sha1sum /tmp/test_archive");
    let sha1 = "2aae6c35c94fcfb415dbe95f408b9ce91ee846ed";
    let written = format!("{}  /tmp/test_archive\n", sha1);
    assert_eq!(sha1, compute_remote_sha1(Ok(output(0, &written))).unwrap());
    assert_eq!(
        untar_command("/tmp/test_archive", "/tmp/test_dir2"),
        "tar -xvf /tmp/test_archive -C /tmp/test_dir2"
    );
    untar_remote_archive(Ok(output(0, ""))).unwrap();
    let listed = "/tmp/test_dir2/1\n/tmp/test_dir2/folder/2\n/tmp/test_dir2/3\n";
    let listed = list_remote_folder("/tmp/test_dir2", &vec![], &vec![], Ok(output(0, listed)));
    let listed = listed.unwrap();
    for a in files.iter() {
        assert!(listed.contains(a))
    }
    for a in listed.iter() {
        assert!(files.contains(a))
    }
}

#[test]
fn remote_archives_that_fail() {
    assert_eq!(
        tar_remote_files(Err("x".to_owned())).unwrap_err(),
        "Failed to execute tar command: x"
    );
    let error = tar_remote_files(Ok(output(512, "out"))).unwrap_err();
    assert!(error.starts_with("Failed to tar files: "), "{}", error);
    let error = untar_remote_archive(Ok(output(512, "out"))).unwrap_err();
    assert!(error.starts_with("Failed to untar files: "), "{}", error);
    assert_eq!(
        compute_remote_sha1(Ok(output(256, ""))).unwrap_err(),
        "Failed to compute sha1 hash"
    );
    assert_eq!(
        compute_remote_sha1(Err("x".to_owned())).unwrap_err(),
        "Failed to execute sha1sum command: x"
    );
}
