//! Whole runs against a disk held in memory, with real certificates and real
//! encryption.

use pgp_encrypt::crypto::SealStage;
use pgp_encrypt::failure::{
    Cause, Failure, EXIT_ENCRYPTION_ERROR, EXIT_INVALID_INPUT, EXIT_IO_ERROR, EXIT_KEY_ERROR,
};
use pgp_encrypt::session::{Config, Event, Placement, Request, Session};
use sequoia_openpgp::cert::CertBuilder;
use sequoia_openpgp::crypto::SessionKey;
use sequoia_openpgp::packet::{PKESK, SKESK};
use sequoia_openpgp::parse::stream::{
    DecryptionHelper, DecryptorBuilder, MessageStructure, VerificationHelper,
};
use sequoia_openpgp::parse::Parse;
use sequoia_openpgp::policy::StandardPolicy;
use sequoia_openpgp::serialize::Marshal;
use sequoia_openpgp::types::SymmetricAlgorithm;
use sequoia_openpgp::{Cert, Fingerprint, KeyHandle};
use std::collections::{BTreeMap, BTreeSet};
use std::io::Read;

const EXIT_SUCCESS: i32 = 0;

/// A file system in memory: directories, files, and the operations that are
/// set to fail.
struct Disk {
    directories: BTreeSet<String>,
    files: BTreeMap<String, Vec<u8>>,
    unreadable: BTreeSet<String>,
    unwritable: BTreeSet<String>,
    renames_fail: bool,
    removals_fail: bool,
    unwalkable: BTreeSet<String>,
    walk: Option<Vec<(String, bool)>>,
    log: Vec<String>,
}

impl Disk {
    fn new() -> Disk {
        Disk {
            directories: BTreeSet::new(),
            files: BTreeMap::new(),
            unreadable: BTreeSet::new(),
            unwritable: BTreeSet::new(),
            renames_fail: false,
            removals_fail: false,
            unwalkable: BTreeSet::new(),
            walk: None,
            log: Vec::new(),
        }
    }

    fn directory(mut self, path: &str) -> Disk {
        self.directories.insert(path.to_string());
        self
    }

    fn file(mut self, path: &str, data: &[u8]) -> Disk {
        self.files.insert(path.to_string(), data.to_vec());
        self
    }

    fn parent(path: &str) -> String {
        match path.rfind('/') {
            Some(at) => path[..at].to_string(),
            None => String::new(),
        }
    }

    fn create_directories(&mut self, path: &str) -> Result<(), String> {
        if self.files.contains_key(path) {
            return Err("File exists".to_string());
        }
        let mut at = path.to_string();
        while !at.is_empty() {
            self.directories.insert(at.clone());
            at = Disk::parent(&at);
        }
        Ok(())
    }

    fn write(&mut self, path: &str, data: Vec<u8>) -> Result<(), String> {
        let above = Disk::parent(path);
        if self.unwritable.contains(path) {
            return Err("Permission denied".to_string());
        }
        if !above.is_empty() && !self.directories.contains(&above) {
            return Err("No such file or directory".to_string());
        }
        self.files.insert(path.to_string(), data);
        Ok(())
    }

    /// The folder itself, then everything below it, in the order of their
    /// paths.
    fn entries(&self, folder: &str) -> Vec<(String, bool)> {
        let below = format!("{}/", folder);
        let mut found = vec![(folder.to_string(), false)];
        let mut rest: Vec<(String, bool)> = Vec::new();
        for path in self.directories.iter().filter(|p| p.starts_with(&below)) {
            rest.push((path.clone(), false));
        }
        for path in self.files.keys().filter(|p| p.starts_with(&below)) {
            rest.push((path.clone(), true));
        }
        rest.sort();
        found.extend(rest);
        found.reverse();
        found
    }

    fn answer(&mut self, folder: &str, request: Request) -> Event {
        let done = |outcome: Result<(), String>| match outcome {
            Ok(()) => Event::Completed,
            Err(detail) => Event::Failed { detail },
        };
        match request {
            Request::Probe { path } => {
                self.log.push(format!("probe {}", path));
                let is_dir = self.directories.contains(&path);
                Event::Probed { present: is_dir || self.files.contains_key(&path), is_dir }
            },
            Request::CreateDirectories { path } => {
                self.log.push(format!("mkdir {}", path));
                done(self.create_directories(&path))
            },
            Request::Read { path } => {
                self.log.push(format!("read {}", path));
                match self.files.get(&path) {
                    Some(data) if !self.unreadable.contains(&path) => {
                        Event::Contents { data: data.clone() }
                    },
                    Some(_) => Event::Failed { detail: "Permission denied".to_string() },
                    None => Event::Failed { detail: "No such file or directory".to_string() },
                }
            },
            Request::NextEntry => {
                if self.walk.is_none() {
                    self.walk = Some(self.entries(folder));
                }
                match self.walk.as_mut().unwrap().pop() {
                    Some((path, _)) if self.unwalkable.contains(&path) => {
                        self.log.push(format!("walk {}", path));
                        Event::EntryUnreadable { detail: format!("{}: Permission denied", path) }
                    },
                    Some((path, is_file)) => Event::Entry { path, is_file },
                    None => Event::WalkFinished,
                }
            },
            Request::Write { path, data } => {
                self.log.push(format!("write {}", path));
                done(self.write(&path, data))
            },
            Request::Rename { from, to } => {
                self.log.push(format!("rename {} {}", from, to));
                if self.renames_fail {
                    done(Err("Device or resource busy".to_string()))
                } else {
                    let data = self.files.remove(&from).expect("the source exists");
                    self.files.insert(to, data);
                    Event::Completed
                }
            },
            Request::Remove { path } => {
                self.log.push(format!("remove {}", path));
                if self.removals_fail {
                    done(Err("Permission denied".to_string()))
                } else {
                    self.files.remove(&path);
                    Event::Completed
                }
            },
            Request::LoadKey { .. } | Request::Seal { .. } | Request::Succeed
            | Request::Fail { .. } => unreachable!("not a request for the disk"),
        }
    }

    fn wrote(&self) -> Vec<&String> {
        self.log.iter().filter(|line| line.starts_with("write ")).collect()
    }
}

/// Runs a session to its end, as a caller does.
fn run(config: Config, disk: &mut Disk) -> Result<(), Failure> {
    let folder = config.folder.clone();
    let (mut session, mut request) = Session::new(config);
    loop {
        let event = match request {
            Request::Succeed => {
                assert!(session.is_finished());
                return Ok(());
            },
            Request::Fail { failure } => {
                assert!(session.is_finished());
                return Err(failure);
            },
            other => disk.answer(&folder, other),
        };
        let (next, answer) = session.advance(event);
        session = next;
        request = answer.expect("every answer of the disk is accepted");
    }
}

fn args(folder: &str, output: &str, key: &str) -> Config {
    Config {
        folder: folder.to_string(),
        key: key.to_string(),
        placement: Placement::Mirrored { output: output.to_string() },
    }
}

fn args_in_place(folder: &str, key: &str) -> Config {
    Config { folder: folder.to_string(), key: key.to_string(), placement: Placement::InPlace }
}

/// Runs with the three arguments of the command line, and reports as the
/// program does: its exit status and message.
fn run_test_with_args(
    disk: &mut Disk,
    folder: &str,
    output: &str,
    key: &str,
) -> Result<(), (i32, String)> {
    run(args(folder, output, key), disk).map_err(|failure| failure.report())
}

/// A certificate with a subkey for transport encryption, and its public
/// part in armor.
fn recipient() -> (Cert, Vec<u8>) {
    let (cert, _) = CertBuilder::new()
        .add_userid("test@example.com")
        .add_transport_encryption_subkey()
        .generate()
        .unwrap();
    let mut armored = Vec::new();
    cert.armored().serialize(&mut armored).unwrap();
    (cert, armored)
}

/// An input folder that holds the key, an empty output folder, and the path
/// of the key.
fn prepared_disk() -> (Disk, Cert, String) {
    let (cert, armored) = recipient();
    let disk = Disk::new().directory("input").directory("output").file("input/test_key.pgp", &armored);
    (disk, cert, "input/test_key.pgp".to_string())
}

struct Holder {
    cert: Cert,
}

impl VerificationHelper for Holder {
    fn get_certs(&mut self, _ids: &[KeyHandle]) -> sequoia_openpgp::Result<Vec<Cert>> {
        Ok(Vec::new())
    }

    fn check(&mut self, _structure: MessageStructure) -> sequoia_openpgp::Result<()> {
        Ok(())
    }
}

impl DecryptionHelper for Holder {
    fn decrypt<D>(
        &mut self,
        pkesks: &[PKESK],
        _skesks: &[SKESK],
        sym_algo: Option<SymmetricAlgorithm>,
        mut decrypt: D,
    ) -> sequoia_openpgp::Result<Option<Fingerprint>>
    where
        D: FnMut(SymmetricAlgorithm, &SessionKey) -> bool,
    {
        let policy = StandardPolicy::new();
        for key in self.cert.keys().unencrypted_secret().with_policy(&policy, None)
            .for_transport_encryption()
        {
            let mut pair = key.key().clone().into_keypair()?;
            for pkesk in pkesks {
                let opened = pkesk.decrypt(&mut pair, sym_algo);
                if opened.map(|(algo, session_key)| decrypt(algo, &session_key)).unwrap_or(false) {
                    return Ok(None);
                }
            }
        }
        Err(anyhow::Error::msg("no key opens the message"))
    }
}

/// The plaintext of `ciphertext`, opened with the secret key of `cert`.
fn open(cert: &Cert, ciphertext: &[u8]) -> Vec<u8> {
    let policy = StandardPolicy::new();
    let mut decryptor = DecryptorBuilder::from_bytes(ciphertext)
        .unwrap()
        .with_policy(&policy, None, Holder { cert: cert.clone() })
        .unwrap();
    let mut plaintext = Vec::new();
    decryptor.read_to_end(&mut plaintext).unwrap();
    plaintext
}

/// A session that has loaded the key of `disk` and is walking; sealing and
/// the file system can then be answered by hand.
fn walking(config: Config, disk: &mut Disk) -> Session {
    let folder = config.folder.clone();
    let (mut session, mut request) = Session::new(config);
    while request != Request::NextEntry {
        let event = disk.answer(&folder, request);
        let (next, answer) = session.advance(event);
        session = next;
        request = answer.unwrap();
    }
    session
}

fn entry(path: &str) -> Event {
    Event::Entry { path: path.to_string(), is_file: true }
}

#[test]
fn test_successful_encryption() {
    let (mut disk, _, key_path) = prepared_disk();
    assert!(run_test_with_args(&mut disk, "input", "output", &key_path).is_ok());
}

#[test]
fn test_invalid_input_directory() {
    let (mut disk, _, key_path) = prepared_disk();
    let result = run_test_with_args(&mut disk, "/nonexistent/directory", "output", &key_path);
    assert!(result.is_err());
    assert_eq!(result.unwrap_err().0, EXIT_INVALID_INPUT);
}

#[test]
fn test_invalid_key_file() {
    let (mut disk, _, _) = prepared_disk();
    let result = run_test_with_args(&mut disk, "input", "output", "/nonexistent/key.pgp");
    assert!(result.is_err());
    assert_eq!(result.unwrap_err().0, EXIT_INVALID_INPUT);
}

#[test]
fn test_empty_input_directory() {
    let (mut disk, _, key_path) = prepared_disk();
    assert!(run_test_with_args(&mut disk, "input", "output", &key_path).is_ok());
    assert!(disk.files.keys().filter(|path| path.starts_with("output/")).count() == 0);
}

#[test]
fn a_folder_without_entries_succeeds_and_writes_nothing() {
    let (_, armored) = recipient();
    let mut disk = Disk::new().directory("input").directory("output").file("key.asc", &armored);
    assert_eq!(run(args("input", "output", "key.asc"), &mut disk), Ok(()));
    assert!(disk.wrote().is_empty());
    assert_eq!(disk.files.len(), 1);
    assert_eq!(disk.log, vec!["probe input", "probe output", "probe key.asc", "read key.asc"]);
}

#[test]
fn a_missing_input_folder_creates_nothing() {
    let (_, armored) = recipient();
    let mut disk = Disk::new().file("key.asc", &armored);
    let failure = run(args("/nonexistent/directory", "output", "key.asc"), &mut disk).unwrap_err();
    assert_eq!(failure.cause, Cause::InputFolder);
    assert_eq!(
        failure.report(),
        (
            EXIT_INVALID_INPUT,
            "Input folder '/nonexistent/directory' does not exist or is not a directory".to_string()
        )
    );
    assert_eq!(disk.log, vec!["probe /nonexistent/directory"]);
    assert!(disk.directories.is_empty());
    assert_eq!(disk.files.len(), 1);
}

#[test]
fn every_plaintext_file_gets_one_ciphertext() {
    let (cert, armored) = recipient();
    let mut disk = Disk::new()
        .directory("input")
        .directory("input/sub")
        .directory("input/sub/deep")
        .file("key.asc", &armored)
        .file("input/a.txt", b"alpha")
        .file("input/b", b"")
        .file("input/sub/c.tar.gz", b"gamma gamma")
        .file("input/sub/deep/d.bin", &[0, 159, 146, 150]);
    assert_eq!(run(args("input", "output", "key.asc"), &mut disk), Ok(()));
    assert_eq!(disk.wrote().len(), 4);
    assert_eq!(open(&cert, &disk.files["output/a.pgp"]), b"alpha");
    assert_eq!(open(&cert, &disk.files["output/b.pgp"]), b"");
    assert_eq!(open(&cert, &disk.files["output/sub/c.tar.pgp"]), b"gamma gamma");
    assert_eq!(open(&cert, &disk.files["output/sub/deep/d.pgp"]), &[0, 159, 146, 150]);
    assert_ne!(disk.files["output/a.pgp"], b"alpha");
    // The inputs are as they were.
    assert_eq!(disk.files["input/a.txt"], b"alpha");
    assert_eq!(disk.files["input/sub/c.tar.gz"], b"gamma gamma");
    assert_eq!(disk.files.len(), 9);
}

#[test]
fn the_output_root_and_parents_are_created_as_needed() {
    let (_, armored) = recipient();
    let mut disk = Disk::new()
        .directory("input")
        .directory("input/sub")
        .file("key.asc", &armored)
        .file("input/sub/c.txt", b"gamma");
    assert_eq!(run(args("input", "backup/new", "key.asc"), &mut disk), Ok(()));
    assert!(disk.directories.contains("backup/new"));
    assert!(disk.directories.contains("backup/new/sub"));
    assert!(disk.files.contains_key("backup/new/sub/c.pgp"));
    assert_eq!(
        disk.log,
        vec![
            "probe input",
            "probe backup/new",
            "mkdir backup/new",
            "probe key.asc",
            "read key.asc",
            "read input/sub/c.txt",
            "mkdir backup/new/sub",
            "write backup/new/sub/c.pgp",
        ]
    );
}

#[test]
fn encrypted_files_are_not_processed_again() {
    let (_, armored) = recipient();
    let mut disk = Disk::new()
        .directory("input")
        .directory("output")
        .file("input/key.pgp", &armored)
        .file("input/a.txt", b"alpha")
        .file("input/old.pgp", b"sealed before")
        .file("input/b.txt", b"beta")
        .file("input/c.PGP", b"upper case is no marker");
    assert_eq!(run(args("input", "output", "input/key.pgp"), &mut disk), Ok(()));
    // Five files, two of them excluded: three outputs.
    assert_eq!(disk.wrote(), vec!["write output/a.pgp", "write output/b.pgp", "write output/c.pgp"]);
    assert!(!disk.log.contains(&"read input/old.pgp".to_string()));
    assert_eq!(disk.files["input/old.pgp"], b"sealed before");
}

#[test]
fn a_second_run_over_its_own_output_writes_nothing() {
    let (_, armored) = recipient();
    let mut disk =
        Disk::new().directory("tree").file("key.asc", &armored).file("tree/a.txt", b"alpha");
    assert_eq!(run(args("tree", "tree", "key.asc"), &mut disk), Ok(()));
    let sealed = disk.files["tree/a.pgp"].clone();
    disk.files.remove("tree/a.txt");
    disk.walk = None;
    disk.log.clear();
    assert_eq!(run(args("tree", "tree", "key.asc"), &mut disk), Ok(()));
    assert!(disk.wrote().is_empty());
    assert_eq!(disk.files["tree/a.pgp"], sealed);
}

#[test]
fn unparseable_key_data_is_a_key_error() {
    let mut disk = Disk::new()
        .directory("input")
        .directory("output")
        .file("key.asc", b"this is no certificate")
        .file("input/a.txt", b"alpha");
    let failure = run(args("input", "output", "key.asc"), &mut disk).unwrap_err();
    assert_eq!(failure.cause, Cause::InvalidKey);
    assert_eq!(failure.exit_code(), EXIT_KEY_ERROR);
    assert!(failure.message().starts_with("Invalid public key: "));
    assert!(failure.message().len() > "Invalid public key: ".len());
    assert!(disk.wrote().is_empty());
}

#[test]
fn an_empty_key_file_is_a_key_error() {
    let mut disk = Disk::new().directory("input").directory("output").file("key.asc", b"");
    let failure = run(args("input", "output", "key.asc"), &mut disk).unwrap_err();
    assert_eq!(failure.cause, Cause::InvalidKey);
    assert_eq!(failure.exit_code(), EXIT_KEY_ERROR);
}

#[test]
fn a_certificate_without_encryption_key_fails_before_any_file() {
    let (cert, _) = CertBuilder::new().add_userid("signer@example.com").add_signing_subkey()
        .generate().unwrap();
    let mut armored = Vec::new();
    cert.armored().serialize(&mut armored).unwrap();
    let mut disk = Disk::new()
        .directory("input")
        .directory("output")
        .file("key.asc", &armored)
        .file("input/a.txt", b"alpha");
    let failure = run(args("input", "output", "key.asc"), &mut disk).unwrap_err();
    assert_eq!(
        failure.report(),
        (EXIT_KEY_ERROR, "No valid encryption key found in the certificate".to_string())
    );
    assert_eq!(disk.log, vec!["probe input", "probe output", "probe key.asc", "read key.asc"]);
    assert_eq!(disk.walk, None);
}

#[test]
fn an_unreadable_key_file_ends_the_run() {
    let (_, armored) = recipient();
    let mut disk = Disk::new().directory("input").directory("output").file("key.asc", &armored);
    disk.unreadable.insert("key.asc".to_string());
    let failure = run(args("input", "output", "key.asc"), &mut disk).unwrap_err();
    assert_eq!(
        failure.report(),
        (EXIT_IO_ERROR, "Failed to read public key: Permission denied".to_string())
    );
}

#[test]
fn the_first_unreadable_file_ends_the_run() {
    let (_, armored) = recipient();
    let mut disk = Disk::new()
        .directory("input")
        .directory("output")
        .file("key.asc", &armored)
        .file("input/a.txt", b"alpha")
        .file("input/b.txt", b"beta")
        .file("input/c.txt", b"gamma");
    disk.unreadable.insert("input/b.txt".to_string());
    let failure = run(args("input", "output", "key.asc"), &mut disk).unwrap_err();
    assert_eq!(
        failure.report(),
        (EXIT_IO_ERROR, "Failed to read input/b.txt: Permission denied".to_string())
    );
    // What was written before the failure stays; nothing follows it.
    assert_eq!(disk.wrote(), vec!["write output/a.pgp"]);
    assert!(disk.files.contains_key("output/a.pgp"));
    assert!(!disk.log.contains(&"read input/c.txt".to_string()));
}

#[test]
fn a_failed_write_ends_the_run() {
    let (_, armored) = recipient();
    let mut disk = Disk::new()
        .directory("input")
        .directory("output")
        .file("key.asc", &armored)
        .file("input/a.txt", b"alpha")
        .file("input/b.txt", b"beta");
    disk.unwritable.insert("output/a.pgp".to_string());
    let failure = run(args("input", "output", "key.asc"), &mut disk).unwrap_err();
    assert_eq!(
        failure.report(),
        (EXIT_IO_ERROR, "Failed to write encrypted file output/a.pgp: Permission denied".to_string())
    );
    assert!(!disk.log.contains(&"read input/b.txt".to_string()));
}

#[test]
fn parents_that_cannot_be_created_end_the_run() {
    let (_, armored) = recipient();
    let mut disk = Disk::new()
        .directory("input")
        .directory("input/sub")
        .directory("output")
        .file("key.asc", &armored)
        .file("output/sub", b"a file where a directory is needed")
        .file("input/sub/a.txt", b"alpha");
    let failure = run(args("input", "output", "key.asc"), &mut disk).unwrap_err();
    assert_eq!(
        failure.report(),
        (EXIT_IO_ERROR, "Failed to create output directories: File exists".to_string())
    );
    assert!(disk.wrote().is_empty());
}

#[test]
fn in_place_replaces_each_file_with_its_ciphertext() {
    let (cert, armored) = recipient();
    let mut disk = Disk::new()
        .directory("input")
        .directory("input/sub")
        .file("key.asc", &armored)
        .file("input/a.txt", b"alpha")
        .file("input/sub/b.txt", b"beta")
        .file("input/old.pgp", b"sealed before");
    assert_eq!(run(args_in_place("input", "key.asc"), &mut disk), Ok(()));
    assert_ne!(disk.files["input/a.txt"], b"alpha");
    assert_eq!(open(&cert, &disk.files["input/a.txt"]), b"alpha");
    assert_eq!(open(&cert, &disk.files["input/sub/b.txt"]), b"beta");
    assert_eq!(disk.files["input/old.pgp"], b"sealed before");
    // No temporary file is left, and no file was added.
    assert!(disk.files.keys().all(|path| !path.ends_with(".tmp")));
    assert_eq!(disk.files.len(), 4);
    assert_eq!(
        disk.log,
        vec![
            "probe input",
            "probe key.asc",
            "read key.asc",
            "read input/a.txt",
            "write input/a.txt.pgp.tmp",
            "rename input/a.txt.pgp.tmp input/a.txt",
            "read input/sub/b.txt",
            "write input/sub/b.txt.pgp.tmp",
            "rename input/sub/b.txt.pgp.tmp input/sub/b.txt",
        ]
    );
}

#[test]
fn a_failed_rename_removes_the_temporary_file() {
    let (_, armored) = recipient();
    let mut disk = Disk::new()
        .directory("input")
        .file("key.asc", &armored)
        .file("input/a.txt", b"alpha")
        .file("input/b.txt", b"beta");
    disk.renames_fail = true;
    let failure = run(args_in_place("input", "key.asc"), &mut disk).unwrap_err();
    assert_eq!(
        failure.report(),
        (EXIT_IO_ERROR, "Failed to replace input/a.txt: Device or resource busy".to_string())
    );
    assert_eq!(disk.files["input/a.txt"], b"alpha");
    assert_eq!(disk.files["input/b.txt"], b"beta");
    assert!(!disk.files.contains_key("input/a.txt.pgp.tmp"));
    assert_eq!(disk.log.last().unwrap(), "remove input/a.txt.pgp.tmp");
    assert!(!disk.log.contains(&"read input/b.txt".to_string()));
}

#[test]
fn a_failed_removal_still_reports_the_rename() {
    let (_, armored) = recipient();
    let mut disk =
        Disk::new().directory("input").file("key.asc", &armored).file("input/a.txt", b"alpha");
    disk.renames_fail = true;
    disk.removals_fail = true;
    let failure = run(args_in_place("input", "key.asc"), &mut disk).unwrap_err();
    assert_eq!(failure.cause, Cause::Replace);
    assert_eq!(failure.path, "input/a.txt");
    assert_eq!(failure.exit_code(), EXIT_IO_ERROR);
    assert_eq!(disk.files["input/a.txt"], b"alpha");
}

#[test]
fn a_failed_temporary_write_ends_the_run() {
    let (_, armored) = recipient();
    let mut disk =
        Disk::new().directory("input").file("key.asc", &armored).file("input/a.txt", b"alpha");
    disk.unwritable.insert("input/a.txt.pgp.tmp".to_string());
    let failure = run(args_in_place("input", "key.asc"), &mut disk).unwrap_err();
    assert_eq!(
        failure.report(),
        (
            EXIT_IO_ERROR,
            "Failed to write temporary file input/a.txt.pgp.tmp: Permission denied".to_string()
        )
    );
    assert_eq!(disk.files["input/a.txt"], b"alpha");
    assert_eq!(disk.log.last().unwrap(), "write input/a.txt.pgp.tmp");
}

#[test]
fn every_stage_of_sealing_fails_as_an_encryption_error() {
    let (_, armored) = recipient();
    let stages = [
        (SealStage::Encryptor, "Failed to create encryptor: broken"),
        (SealStage::Writer, "Failed to create writer: broken"),
        (SealStage::Write, "Failed to write data: broken"),
        (SealStage::Finalize, "Failed to finalize encryption: broken"),
    ];
    for (stage, message) in stages {
        let mut disk = Disk::new().directory("input").directory("output").file("key.asc", &armored);
        let session = walking(args("input", "output", "key.asc"), &mut disk);
        let (session, request) = session.react(entry("input/a.txt"));
        assert_eq!(request, Some(Request::Read { path: "input/a.txt".to_string() }));
        let (session, request) = session.react(Event::Contents { data: vec![7, 7] });
        assert_eq!(request, Some(Request::Seal { data: vec![7, 7] }));
        let (session, request) =
            session.react(Event::SealFailed { stage, detail: "broken".to_string() });
        assert!(session.is_finished());
        match request {
            Some(Request::Fail { failure }) => {
                assert_eq!(failure.report(), (EXIT_ENCRYPTION_ERROR, message.to_string()));
            },
            _ => unreachable!(),
        }
    }
}

#[test]
fn sealed_bytes_wait_for_their_directory() {
    let (_, armored) = recipient();
    let mut disk = Disk::new().directory("input").directory("output").file("key.asc", &armored);
    let session = walking(args("input", "output", "key.asc"), &mut disk);
    let (session, _) = session.react(entry("input/sub/a.txt"));
    let (session, _) = session.react(Event::Contents { data: vec![1] });
    let (session, request) = session.react(Event::Sealed { data: vec![9, 8, 7] });
    assert_eq!(request, Some(Request::CreateDirectories { path: "output/sub".to_string() }));
    let (session, request) = session.react(Event::Completed);
    assert_eq!(
        request,
        Some(Request::Write { path: "output/sub/a.pgp".to_string(), data: vec![9, 8, 7] })
    );
    let (session, request) = session.react(Event::Completed);
    assert_eq!(request, Some(Request::NextEntry));
    let (session, request) = session.react(Event::WalkFinished);
    assert_eq!(request, Some(Request::Succeed));
    assert!(session.is_finished());
}

#[test]
fn an_entry_that_cannot_be_read_ends_the_run() {
    let (_, armored) = recipient();
    let mut disk = Disk::new().directory("input").directory("output").file("key.asc", &armored);
    let session = walking(args("input", "output", "key.asc"), &mut disk);
    let (session, request) =
        session.react(Event::EntryUnreadable { detail: "input/sub: Permission denied".into() });
    assert!(session.is_finished());
    match request {
        Some(Request::Fail { failure }) => {
            assert_eq!(failure.cause, Cause::WalkEntry);
            assert_eq!(
                failure.report(),
                (
                    EXIT_IO_ERROR,
                    "Failed to walk input folder: input/sub: Permission denied".to_string()
                )
            );
        },
        _ => unreachable!(),
    }
    let (session, request) = session.react(entry("input/todo.txt"));
    assert_eq!(request, None);
    let (_, request) = session.advance(Event::WalkFinished);
    assert_eq!(request, None);
}

#[test]
fn a_walk_that_fails_stops_between_files() {
    let (_, armored) = recipient();
    let mut disk = Disk::new()
        .directory("input")
        .directory("input/locked")
        .directory("output")
        .file("key.asc", &armored)
        .file("input/a.txt", b"alpha")
        .file("input/z.txt", b"omega");
    disk.unwalkable.insert("input/locked".to_string());
    let failure = run(args("input", "output", "key.asc"), &mut disk).unwrap_err();
    assert_eq!(
        failure.report(),
        (
            EXIT_IO_ERROR,
            "Failed to walk input folder: input/locked: Permission denied".to_string()
        )
    );
    // What was written before the failure stays; nothing is read or written
    // after it.
    assert_eq!(disk.wrote(), vec!["write output/a.pgp"]);
    assert!(disk.files.contains_key("output/a.pgp"));
    assert_eq!(disk.log.last().unwrap(), "walk input/locked");
    assert!(!disk.log.contains(&"read input/z.txt".to_string()));
    assert!(!disk.files.contains_key("output/z.pgp"));
}

#[test]
fn a_walk_that_fails_in_place_leaves_later_files_alone() {
    let (_, armored) = recipient();
    let mut disk = Disk::new()
        .directory("input")
        .directory("input/locked")
        .file("key.asc", &armored)
        .file("input/z.txt", b"omega");
    disk.unwalkable.insert("input/locked".to_string());
    let failure = run(args_in_place("input", "key.asc"), &mut disk).unwrap_err();
    assert_eq!(failure.exit_code(), EXIT_IO_ERROR);
    assert_eq!(disk.files["input/z.txt"], b"omega");
    assert!(disk.wrote().is_empty());
}

#[test]
fn entries_that_are_no_plaintext_files_are_passed_over() {
    let (_, armored) = recipient();
    let mut disk = Disk::new().directory("input").directory("output").file("key.asc", &armored);
    let session = walking(args("input", "output", "key.asc"), &mut disk);
    let (session, request) =
        session.react(Event::Entry { path: "input/sub".to_string(), is_file: false });
    assert_eq!(request, Some(Request::NextEntry));
    let (session, request) = session.react(entry("input/done.pgp"));
    assert_eq!(request, Some(Request::NextEntry));
    let (session, request) =
        session.react(Event::Entry { path: "input/link.txt".to_string(), is_file: false });
    assert_eq!(request, Some(Request::NextEntry));
    let (_, request) = session.react(entry("input/todo.txt"));
    assert_eq!(request, Some(Request::Read { path: "input/todo.txt".to_string() }));
}

#[test]
fn advance_seals_what_react_only_asks_for() {
    let (cert, armored) = recipient();
    let mut disk = Disk::new().directory("input").file("key.asc", &armored);
    let session = walking(args_in_place("input", "key.asc"), &mut disk);
    let (session, _) = session.advance(entry("input/a.txt"));
    let (_, request) = session.advance(Event::Contents { data: b"plain words".to_vec() });
    match request {
        Some(Request::Write { path, data }) => {
            assert_eq!(path, "input/a.txt.pgp.tmp");
            assert_ne!(data, b"plain words");
            assert_eq!(open(&cert, &data), b"plain words");
        },
        _ => unreachable!(),
    }
}

#[test]
fn two_seals_of_the_same_bytes_differ_and_both_open() {
    let (cert, armored) = recipient();
    let mut sealed = Vec::new();
    for _ in 0..2 {
        let mut disk = Disk::new()
            .directory("input")
            .directory("output")
            .file("key.asc", &armored)
            .file("input/a.txt", b"alpha");
        assert_eq!(run(args("input", "output", "key.asc"), &mut disk), Ok(()));
        sealed.push(disk.files["output/a.pgp"].clone());
    }
    assert_ne!(sealed[0], sealed[1]);
    assert_eq!(open(&cert, &sealed[0]), b"alpha");
    assert_eq!(open(&cert, &sealed[1]), b"alpha");
    assert_eq!(EXIT_SUCCESS, pgp_encrypt::failure::EXIT_SUCCESS);
}
