use include_dir::{Dir, DirEntry, File};
use rfe::bundle::lookup;

#[test]
fn lookup_gives_the_text_of_the_named_file() {
    let entries = [
        DirEntry::File(File::new(".envrc", b"use devenv\n")),
        DirEntry::File(File::new("devenv.nix", b"{ pkgs, ... }: { }\n")),
    ];
    let bundle = Dir::new("", &entries);
    assert_eq!(lookup(&bundle, "devenv.nix"), Some("{ pkgs, ... }: { }\n".to_string()));
    assert_eq!(lookup(&bundle, ".envrc"), Some("use devenv\n".to_string()));
}

#[test]
fn lookup_of_a_missing_name_gives_nothing() {
    let entries = [DirEntry::File(File::new("devenv.nix", b"{ }\n"))];
    let bundle = Dir::new("", &entries);
    assert_eq!(lookup(&bundle, "devenv.yaml"), None);
    assert_eq!(lookup(&bundle, ""), None);
    assert_eq!(lookup(&Dir::new("", &[]), "devenv.nix"), None);
}

#[test]
fn lookup_descends_into_directories() {
    let inner = [DirEntry::File(File::new("hooks/pre-commit", b"#!/bin/sh\n"))];
    let entries = [
        DirEntry::Dir(Dir::new("hooks", &inner)),
        DirEntry::File(File::new("devenv.nix", b"{ }\n")),
    ];
    let bundle = Dir::new("", &entries);
    assert_eq!(lookup(&bundle, "hooks/pre-commit"), Some("#!/bin/sh\n".to_string()));
    assert_eq!(lookup(&bundle, "pre-commit"), None);
}

#[test]
fn lookup_of_a_directory_gives_nothing() {
    let inner = [DirEntry::File(File::new("hooks/pre-commit", b"#!/bin/sh\n"))];
    let entries = [DirEntry::Dir(Dir::new("hooks", &inner))];
    let bundle = Dir::new("", &entries);
    assert_eq!(lookup(&bundle, "hooks"), None);
}

#[test]
fn lookup_of_a_file_that_is_no_text_gives_nothing() {
    let entries = [
        DirEntry::File(File::new("logo.png", &[0x89, 0x50, 0x4e, 0x47, 0xff, 0xfe])),
        DirEntry::File(File::new("truncated.txt", &[0x68, 0x69, 0xe2, 0x82])),
    ];
    let bundle = Dir::new("", &entries);
    assert_eq!(lookup(&bundle, "logo.png"), None);
    assert_eq!(lookup(&bundle, "truncated.txt"), None);
}

#[test]
fn lookup_decodes_text_beyond_ascii() {
    let entries = [DirEntry::File(File::new("notes.md", "việt nam ✓\n".as_bytes()))];
    let bundle = Dir::new("", &entries);
    assert_eq!(lookup(&bundle, "notes.md"), Some("việt nam ✓\n".to_string()));
}

#[test]
fn lookup_takes_the_first_of_two_files_with_one_name() {
    let entries = [
        DirEntry::File(File::new("devenv.nix", b"first\n")),
        DirEntry::File(File::new("devenv.nix", b"second\n")),
    ];
    let bundle = Dir::new("", &entries);
    assert_eq!(lookup(&bundle, "devenv.nix"), Some("first\n".to_string()));
}
