use std::collections::HashMap;

use remotty::secret::{
    legacy_secret_key_alias, legacy_secret_path, legacy_secret_paths, load_secret, secret_path,
    secret_paths_for_delete, LoadAction, LoadEvent, LoadStage, SecretError, SecretPath,
};

fn base() -> Option<String> {
    Some("C:\\Users\\me\\AppData\\Local".to_owned())
}

fn path(product: &str, key: &str) -> SecretPath {
    SecretPath {
        base: "C:\\Users\\me\\AppData\\Local".to_owned(),
        product_dir: product.to_owned(),
        file_name: format!("{key}.bin"),
    }
}

/// A file system for the load: what exists, and what each file reads as.
struct Disk {
    files: HashMap<String, Result<String, String>>,
    writes: Vec<(String, String)>,
    writable: bool,
}

fn name(p: &SecretPath) -> String {
    format!("{}/{}/secrets/{}", p.base, p.product_dir, p.file_name)
}

impl Disk {
    fn new() -> Self {
        Disk { files: HashMap::new(), writes: Vec::new(), writable: true }
    }

    fn put(&mut self, p: &SecretPath, content: Result<&str, &str>) {
        self.files.insert(name(p), content.map(str::to_owned).map_err(str::to_owned));
    }

    fn load(&mut self, key: &str, base: &Option<String>) -> Result<String, SecretError> {
        let (mut loader, mut action) = load_secret(key, base);
        loop {
            action = match action {
                LoadAction::CheckExists(p) => loader.advance(LoadEvent::Exists(self.files.contains_key(&name(&p)))),
                LoadAction::Read(p) => loader.advance(LoadEvent::Read(self.files[&name(&p)].clone())),
                LoadAction::Migrate { key, secret } => {
                    if self.writable {
                        let target = secret_path(&key, base).unwrap();
                        self.files.insert(name(&target), Ok(secret.clone()));
                        self.writes.push((key, secret));
                    }
                    loader.advance(LoadEvent::Migrated)
                }
                LoadAction::Finish(result) => {
                    assert_eq!(loader.stage(), LoadStage::Finished);
                    return result;
                }
            }
        }
    }
}

#[test]
fn secret_lives_under_product_directory() {
    let p = secret_path("bot", &base()).unwrap();
    assert_eq!(p, path("remotty", "bot"));
    let legacy = legacy_secret_path("bot", &base()).unwrap();
    assert_eq!(legacy, path("codex-telegram-bridge", "bot"));
}

#[test]
fn blank_key_and_missing_base_are_rejected() {
    assert_eq!(secret_path(" \t", &base()), Err(SecretError::EmptyKey));
    assert_eq!(secret_path("", &None), Err(SecretError::EmptyKey));
    assert_eq!(secret_path("bot", &None), Err(SecretError::MissingBaseDir));
}

#[test]
fn legacy_alias_paths_follow_the_old_key_name() {
    assert_eq!(legacy_secret_key_alias("remotty-telegram-bot"), Some("codex-telegram-bot"));
    assert_eq!(legacy_secret_key_alias("bot"), None);
    assert_eq!(legacy_secret_paths("bot", &base()).unwrap(), vec![path("codex-telegram-bridge", "bot")]);
    assert_eq!(
        legacy_secret_paths("remotty-telegram-bot", &base()).unwrap(),
        vec![
            path("codex-telegram-bridge", "remotty-telegram-bot"),
            path("remotty", "codex-telegram-bot"),
            path("codex-telegram-bridge", "codex-telegram-bot"),
        ]
    );
}

#[test]
fn delete_secret_removes_legacy_alias_key_name() {
    assert_eq!(
        secret_paths_for_delete("remotty-telegram-bot", &base()).unwrap(),
        vec![
            path("remotty", "remotty-telegram-bot"),
            path("codex-telegram-bridge", "remotty-telegram-bot"),
            path("remotty", "codex-telegram-bot"),
            path("codex-telegram-bridge", "codex-telegram-bot"),
        ]
    );
}

#[test]
fn load_reads_current_location_first() {
    let mut disk = Disk::new();
    disk.put(&path("remotty", "bot"), Ok("new-token"));
    disk.put(&path("codex-telegram-bridge", "bot"), Ok("legacy-token"));
    assert_eq!(disk.load("bot", &base()), Ok("new-token".to_owned()));
    assert!(disk.writes.is_empty());
}

#[test]
fn load_secret_migrates_legacy_path() {
    let mut disk = Disk::new();
    disk.put(&path("codex-telegram-bridge", "bot"), Ok("legacy-token"));
    assert_eq!(disk.load("bot", &base()), Ok("legacy-token".to_owned()));
    assert_eq!(disk.writes, vec![("bot".to_owned(), "legacy-token".to_owned())]);
    assert!(disk.files.contains_key(&name(&path("remotty", "bot"))));
}

#[test]
fn load_secret_migrates_legacy_secret_key_name() {
    let mut disk = Disk::new();
    disk.put(&path("codex-telegram-bridge", "codex-telegram-bot"), Ok("legacy-token"));
    assert_eq!(disk.load("remotty-telegram-bot", &base()), Ok("legacy-token".to_owned()));
    assert_eq!(disk.writes, vec![("remotty-telegram-bot".to_owned(), "legacy-token".to_owned())]);
}

#[test]
fn load_secret_falls_back_to_legacy_when_new_secret_is_corrupt() {
    let mut disk = Disk::new();
    disk.put(&path("remotty", "remotty-telegram-bot"), Err("corrupt"));
    disk.put(&path("codex-telegram-bridge", "codex-telegram-bot"), Ok("legacy-token"));
    assert_eq!(disk.load("remotty-telegram-bot", &base()), Ok("legacy-token".to_owned()));
    assert_eq!(disk.writes.len(), 1);
    assert_eq!(disk.load("remotty-telegram-bot", &base()), Ok("legacy-token".to_owned()));
    assert_eq!(disk.writes.len(), 1);
}

#[test]
fn store_secret_uses_new_path() {
    let p = secret_path("bot", &base()).unwrap();
    assert_eq!(p.product_dir, "remotty");
    assert_eq!(p.file_name, "bot.bin");
}

#[test]
fn load_secret_uses_legacy_value_when_migration_write_fails() {
    let mut disk = Disk::new();
    disk.writable = false;
    disk.put(&path("codex-telegram-bridge", "bot"), Ok("legacy-token"));
    assert_eq!(disk.load("bot", &base()), Ok("legacy-token".to_owned()));
    assert!(!disk.files.contains_key(&name(&path("remotty", "bot"))));
}

#[test]
fn load_reports_current_read_error_when_no_legacy_secret_exists() {
    let mut disk = Disk::new();
    disk.put(&path("remotty", "bot"), Err("bad data"));
    assert_eq!(disk.load("bot", &base()), Err(SecretError::Read("bad data".to_owned())));
}

#[test]
fn load_reports_not_found_and_legacy_read_errors() {
    let mut disk = Disk::new();
    assert_eq!(disk.load("bot", &base()), Err(SecretError::NotFound(path("remotty", "bot"))));
    disk.put(&path("codex-telegram-bridge", "bot"), Err("unreadable"));
    assert_eq!(disk.load("bot", &base()), Err(SecretError::Read("unreadable".to_owned())));
    assert_eq!(disk.load("", &base()), Err(SecretError::EmptyKey));
    assert_eq!(disk.load("bot", &None), Err(SecretError::MissingBaseDir));
}

#[test]
fn load_repeats_its_question_for_an_unexpected_event() {
    let (mut loader, action) = load_secret("bot", &base());
    assert!(matches!(action, LoadAction::CheckExists(ref p) if *p == path("remotty", "bot")));
    let again = loader.advance(LoadEvent::Migrated);
    assert!(matches!(again, LoadAction::CheckExists(ref p) if *p == path("remotty", "bot")));
    assert_eq!(loader.stage(), LoadStage::CheckPrimary);
}
