use rfe::{
    Construction, ErrorKind, PathProbe, ScratchStep, SourceContentReader, SourceKind,
};

#[test]
fn local_directory_is_read_in_place() {
    let probe = PathProbe::Directory { has_git_entry: false };
    match SourceContentReader::new("/srv/templates", &probe) {
        Construction::Ready(reader) => {
            assert_eq!(reader.source(), "/srv/templates");
            assert_eq!(reader.kind(), SourceKind::LocalDirectory);
            assert_eq!(reader.location(), Some("/srv/templates"));
            assert_eq!(reader.scratch(), None);
        }
        Construction::NeedsScratch(_) => panic!("a local directory needs no temporary directory"),
    }
}

#[test]
fn unknown_source_is_complete_at_once() {
    for probe in [PathProbe::Missing, PathProbe::NotDirectory] {
        match SourceContentReader::new("invalid/path", &probe) {
            Construction::Ready(reader) => {
                assert_eq!(reader.source(), "invalid/path");
                assert_eq!(reader.kind(), SourceKind::Unknown);
                assert_eq!(reader.location(), None);
                assert_eq!(reader.scratch(), None);
            }
            Construction::NeedsScratch(_) => panic!("an unknown source needs nothing"),
        }
    }
}

#[test]
fn remote_repository_is_cloned_into_the_temporary_directory() {
    let url = "https://github.com/mrityunjaygr8/guzei";
    let setup = match SourceContentReader::new(url, &PathProbe::Missing) {
        Construction::NeedsScratch(setup) => setup,
        Construction::Ready(_) => panic!("a remote repository needs a temporary directory"),
    };
    assert!(!setup.in_place());
    let request = match setup.setup_git_repository(Ok("/tmp/.tmpQ7".to_string())) {
        Ok(ScratchStep::NeedsClone(request)) => request,
        Ok(ScratchStep::Ready(_)) => panic!("a remote repository must be cloned"),
        Err(e) => panic!("{}", e.message()),
    };
    assert_eq!(request.url(), url);
    assert_eq!(request.directory(), "/tmp/.tmpQ7");
    let reader = match request.finish(Ok(())) {
        Ok(reader) => reader,
        Err(e) => panic!("{}", e.message()),
    };
    assert_eq!(reader.source(), url);
    assert_eq!(reader.kind(), SourceKind::GitRepository);
    assert_eq!(reader.location(), Some("/tmp/.tmpQ7"));
    assert_eq!(reader.scratch(), Some("/tmp/.tmpQ7"));
}

#[test]
fn failed_clone_leaves_no_reader() {
    let url = "https://gitlab.com/nobody/nothing.git";
    let setup = match SourceContentReader::new(url, &PathProbe::Missing) {
        Construction::NeedsScratch(setup) => setup,
        Construction::Ready(_) => panic!("a remote repository needs a temporary directory"),
    };
    let request = match setup.setup_git_repository(Ok("/tmp/.tmpQ8".to_string())) {
        Ok(ScratchStep::NeedsClone(request)) => request,
        _ => panic!("a remote repository must be cloned"),
    };
    let cause = "remote authentication required but no callback set";
    match request.finish(Err(cause.to_string())) {
        Ok(_) => panic!("a failed clone must not give a reader"),
        Err(e) => assert_eq!(e, ErrorKind::SourceUnavailable(cause.to_string())),
    }
}

#[test]
fn missing_temporary_directory_fails_the_setup() {
    let setup = match SourceContentReader::new("https://bitbucket.org/team/repo", &PathProbe::Missing)
    {
        Construction::NeedsScratch(setup) => setup,
        Construction::Ready(_) => panic!("a remote repository needs a temporary directory"),
    };
    let cause = "No space left on device (os error 28)";
    match setup.setup_git_repository(Err(cause.to_string())) {
        Ok(_) => panic!("without a temporary directory the setup must fail"),
        Err(e) => assert_eq!(e, ErrorKind::SourceUnavailable(cause.to_string())),
    }
}

#[test]
fn repository_on_disk_is_read_in_place_and_keeps_its_temporary_directory() {
    let probe = PathProbe::Directory { has_git_entry: true };
    let setup =
        match SourceContentReader::resolve("/home/me/my-redis", SourceKind::GitRepository, &probe) {
            Construction::NeedsScratch(setup) => setup,
            Construction::Ready(_) => panic!("a git repository needs a temporary directory"),
        };
    assert!(setup.in_place());
    match setup.setup_git_repository(Ok("/tmp/.tmpQ9".to_string())) {
        Ok(ScratchStep::Ready(reader)) => {
            assert_eq!(reader.kind(), SourceKind::GitRepository);
            assert_eq!(reader.location(), Some("/home/me/my-redis"));
            assert_eq!(reader.scratch(), Some("/tmp/.tmpQ9"));
        }
        Ok(ScratchStep::NeedsClone(_)) => panic!("a repository on disk is not cloned"),
        Err(e) => panic!("{}", e.message()),
    }
}

#[test]
fn resolve_goes_by_the_kind_it_is_given() {
    match SourceContentReader::resolve("somewhere", SourceKind::LocalDirectory, &PathProbe::Missing) {
        Construction::Ready(reader) => {
            assert_eq!(reader.kind(), SourceKind::LocalDirectory);
            assert_eq!(reader.location(), Some("somewhere"));
        }
        Construction::NeedsScratch(_) => panic!("a local directory needs no temporary directory"),
    }
    let probe = PathProbe::Directory { has_git_entry: false };
    match SourceContentReader::resolve("somewhere", SourceKind::Unknown, &probe) {
        Construction::Ready(reader) => {
            assert_eq!(reader.kind(), SourceKind::Unknown);
            assert_eq!(reader.location(), None);
        }
        Construction::NeedsScratch(_) => panic!("an unknown source needs nothing"),
    }
    match SourceContentReader::resolve("somewhere", SourceKind::GitRepository, &PathProbe::Missing) {
        Construction::NeedsScratch(setup) => assert!(!setup.in_place()),
        Construction::Ready(_) => panic!("a git repository needs a temporary directory"),
    }
}

#[test]
fn error_messages_carry_the_cause() {
    assert_eq!(
        ErrorKind::SourceUnavailable("failed to resolve address".to_string()).message(),
        "source unavailable: failed to resolve address"
    );
    assert_eq!(
        ErrorKind::IOFailure("Permission denied (os error 13)".to_string()).message(),
        "read failed: Permission denied (os error 13)"
    );
    assert_eq!(ErrorKind::FileNotFound.message(), "file not found");
}
