//! Where protected secrets live, and the decisions of loading one.
//!
//! A secret for `key` is stored under
//! `<LOCALAPPDATA>\<product>\secrets\<key>.bin`. The current product
//! directory is `remotty`; older releases used `codex-telegram-bridge`,
//! and the bot token used to be stored under another key name.

use vstd::prelude::*;
use crate::text::{is_blank, is_blank_text, join2, text_eq};

verus! {

/// The current product directory.
pub open spec fn product_dir_text() -> Seq<char> {
    "remotty"@
}

/// The product directory of older releases.
pub open spec fn legacy_product_dir_text() -> Seq<char> {
    "codex-telegram-bridge"@
}

/// A secret file location, as the path components joined under the base
/// directory: `base`, `product_dir`, `secrets`, `file_name`.
#[derive(Debug, PartialEq, Eq)]
pub struct SecretPath {
    pub base: String,
    pub product_dir: String,
    pub file_name: String,
}

/// The components of a secret path, as character sequences.
pub struct SecretPathView {
    pub base: Seq<char>,
    pub product_dir: Seq<char>,
    pub file_name: Seq<char>,
}

impl Clone for SecretPath {
    fn clone(&self) -> (r: Self)
        ensures
            r == *self,
    {
        SecretPath { base: self.base.clone(), product_dir: self.product_dir.clone(), file_name: self.file_name.clone() }
    }
}

impl View for SecretPath {
    type V = SecretPathView;

    open spec fn view(&self) -> SecretPathView {
        SecretPathView { base: self.base@, product_dir: self.product_dir@, file_name: self.file_name@ }
    }
}

/// Why a secret could not be located or loaded.
#[derive(Debug, Clone, PartialEq, Eq)]
pub enum SecretError {
    /// The key is empty or white space only.
    EmptyKey,
    /// The base directory (`LOCALAPPDATA`) is not available.
    MissingBaseDir,
    /// Reading or decrypting a secret file failed, with the reason.
    Read(String),
    /// No secret file exists; the path is the current location.
    NotFound(SecretPath),
}

/// The location of the secret `key` under `product_dir`.
pub open spec fn spec_secret_path_in(key: Seq<char>, product_dir: Seq<char>, base: Option<Seq<char>>) -> Option<SecretPathView> {
    if is_blank(key) || base is None {
        None
    } else {
        Some(SecretPathView { base: base->0, product_dir, file_name: key + ".bin"@ })
    }
}

/// The error that locating a secret for `key` gives, when it fails.
pub open spec fn spec_path_error(key: Seq<char>) -> SecretError {
    if is_blank(key) { SecretError::EmptyKey } else { SecretError::MissingBaseDir }
}

pub open spec fn opt_view(base: Option<String>) -> Option<Seq<char>> {
    match base {
        Some(b) => Some(b@),
        None => None,
    }
}

fn secret_path_with_product_dir(key: &str, product_dir: &str, base: &Option<String>) -> (r: Result<SecretPath, SecretError>)
    ensures
        match r {
            Ok(p) => spec_secret_path_in(key@, product_dir@, opt_view(*base)) == Some(p@),
            Err(e) => spec_secret_path_in(key@, product_dir@, opt_view(*base)) is None
                && e == spec_path_error(key@),
        },
{
    if is_blank_text(key) {
        return Err(SecretError::EmptyKey);
    }
    match base {
        None => Err(SecretError::MissingBaseDir),
        Some(b) => Ok(SecretPath { base: b.clone(), product_dir: product_dir.to_owned(), file_name: join2(key, ".bin") }),
    }
}

/// The current location of the secret `key`.
pub fn secret_path(key: &str, base: &Option<String>) -> (r: Result<SecretPath, SecretError>)
    ensures
        match r {
            Ok(p) => spec_secret_path_in(key@, product_dir_text(), opt_view(*base)) == Some(p@),
            Err(e) => spec_secret_path_in(key@, product_dir_text(), opt_view(*base)) is None
                && e == spec_path_error(key@),
        },
{
    secret_path_with_product_dir(key, "remotty", base)
}

/// The location of the secret `key` in the older product directory.
pub fn legacy_secret_path(key: &str, base: &Option<String>) -> (r: Result<SecretPath, SecretError>)
    ensures
        match r {
            Ok(p) => spec_secret_path_in(key@, legacy_product_dir_text(), opt_view(*base)) == Some(p@),
            Err(e) => spec_secret_path_in(key@, legacy_product_dir_text(), opt_view(*base)) is None
                && e == spec_path_error(key@),
        },
{
    secret_path_with_product_dir(key, "codex-telegram-bridge", base)
}

/// The key name under which older releases stored the secret `key`.
pub open spec fn spec_key_alias(key: Seq<char>) -> Option<Seq<char>> {
    if key == "remotty-telegram-bot"@ { Some("codex-telegram-bot"@) } else { None }
}

pub fn legacy_secret_key_alias(key: &str) -> (r: Option<&'static str>)
    ensures
        match r {
            Some(a) => spec_key_alias(key@) == Some(a@),
            None => spec_key_alias(key@) is None,
        },
{
    if text_eq(key, "remotty-telegram-bot") {
        Some("codex-telegram-bot")
    } else {
        None
    }
}


/// Every place where older releases may have stored the secret `key`, in
/// the order in which they are tried.
pub open spec fn spec_legacy_paths(key: Seq<char>, base: Option<Seq<char>>) -> Option<Seq<SecretPathView>> {
    match spec_secret_path_in(key, legacy_product_dir_text(), base) {
        None => None,
        Some(first) => match spec_key_alias(key) {
            None => Some(seq![first]),
            Some(alias) => Some(seq![
                first,
                SecretPathView { base: base->0, product_dir: product_dir_text(), file_name: alias + ".bin"@ },
                SecretPathView { base: base->0, product_dir: legacy_product_dir_text(), file_name: alias + ".bin"@ },
            ]),
        },
    }
}

pub open spec fn paths_view(v: Seq<SecretPath>) -> Seq<SecretPathView> {
    v.map_values(|p: SecretPath| p@)
}

proof fn lemma_alias_not_blank()
    ensures
        !is_blank("codex-telegram-bot"@),
{
    reveal_strlit("codex-telegram-bot");
    assert(!crate::text::is_white_space("codex-telegram-bot"@[0]));
}

pub fn legacy_secret_paths(key: &str, base: &Option<String>) -> (r: Result<Vec<SecretPath>, SecretError>)
    ensures
        match r {
            Ok(v) => spec_legacy_paths(key@, opt_view(*base)) == Some(paths_view(v@)),
            Err(e) => spec_legacy_paths(key@, opt_view(*base)) is None && e == spec_path_error(key@),
        },
{
    let first = legacy_secret_path(key, base)?;
    let mut paths: Vec<SecretPath> = Vec::new();
    paths.push(first);
    if let Some(legacy_key) = legacy_secret_key_alias(key) {
        proof { lemma_alias_not_blank(); reveal_strlit("remotty-telegram-bot"); }
        assert(legacy_key@ == "codex-telegram-bot"@);
        let second = secret_path_with_product_dir(legacy_key, "remotty", base)?;
        let third = secret_path_with_product_dir(legacy_key, "codex-telegram-bridge", base)?;
        paths.push(second);
        paths.push(third);
    }
    assert(paths_view(paths@) =~= spec_legacy_paths(key@, opt_view(*base))->0);
    Ok(paths)
}

/// Every place that deleting the secret `key` clears: the current
/// location, then the older ones.
pub open spec fn spec_delete_paths(key: Seq<char>, base: Option<Seq<char>>) -> Option<Seq<SecretPathView>> {
    match (spec_secret_path_in(key, product_dir_text(), base), spec_legacy_paths(key, base)) {
        (Some(p), Some(rest)) => Some(seq![p] + rest),
        _ => None,
    }
}

pub fn secret_paths_for_delete(key: &str, base: &Option<String>) -> (r: Result<Vec<SecretPath>, SecretError>)
    ensures
        match r {
            Ok(v) => spec_delete_paths(key@, opt_view(*base)) == Some(paths_view(v@)),
            Err(e) => spec_delete_paths(key@, opt_view(*base)) is None && e == spec_path_error(key@),
        },
{
    let first = secret_path(key, base)?;
    let ghost first_view = first@;
    let mut paths: Vec<SecretPath> = Vec::new();
    paths.push(first);
    let rest = legacy_secret_paths(key, base)?;
    let mut i: usize = 0;
    while i < rest.len()
        invariant
            0 <= i <= rest@.len(),
            paths@.len() == i + 1,
            paths@[0]@ == first_view,
            forall|j: int| 0 <= j < i ==> paths@[j + 1] == rest@[j],
        decreases rest@.len() - i,
    {
        paths.push(rest[i].clone());
        i = i + 1;
    }
    assert(paths_view(paths@) =~= seq![first_view] + paths_view(rest@));
    Ok(paths)
}


/// `SecretError` with its texts as character sequences.
pub enum SecretErrorView {
    EmptyKey,
    MissingBaseDir,
    Read(Seq<char>),
    NotFound(SecretPathView),
}

impl View for SecretError {
    type V = SecretErrorView;

    open spec fn view(&self) -> SecretErrorView {
        match self {
            SecretError::EmptyKey => SecretErrorView::EmptyKey,
            SecretError::MissingBaseDir => SecretErrorView::MissingBaseDir,
            SecretError::Read(m) => SecretErrorView::Read(m@),
            SecretError::NotFound(p) => SecretErrorView::NotFound(p@),
        }
    }
}

pub open spec fn spec_path_error_view(key: Seq<char>) -> SecretErrorView {
    if is_blank(key) { SecretErrorView::EmptyKey } else { SecretErrorView::MissingBaseDir }
}

/// Where a secret load stands: which question it waits on.
#[derive(Debug, Clone, Copy, PartialEq, Eq, Structural)]
pub enum LoadStage {
    /// Waiting to learn whether the current location exists.
    CheckPrimary,
    /// Waiting for the current location to be read.
    ReadPrimary,
    /// Waiting to learn whether the legacy location at `index` exists.
    CheckLegacy,
    /// Waiting for the legacy location at `index` to be read.
    ReadLegacy,
    /// A legacy secret was read; waiting to learn whether the current
    /// location exists now.
    RecheckPrimary,
    /// Waiting for the legacy secret to be stored at the current location.
    Migrate,
    /// The load is over.
    Finished,
}

/// What the caller must do next for a secret load.
#[derive(Debug)]
pub enum LoadAction {
    /// Report whether the file at this location exists.
    CheckExists(SecretPath),
    /// Read and decrypt the file at this location.
    Read(SecretPath),
    /// Store `secret` as the secret `key` at its current location; the
    /// outcome of that store does not change the load's result.
    Migrate { key: String, secret: String },
    /// The load's result.
    Finish(Result<String, SecretError>),
}

/// What the caller observed while doing the last action.
#[derive(Debug)]
pub enum LoadEvent {
    Exists(bool),
    /// The decrypted secret, or why reading it failed.
    Read(Result<String, String>),
    Migrated,
}

pub enum LoadActionView {
    CheckExists(SecretPathView),
    Read(SecretPathView),
    Migrate(Seq<char>, Seq<char>),
    Finish(Result<Seq<char>, SecretErrorView>),
}

pub enum LoadEventView {
    Exists(bool),
    Read(Result<Seq<char>, Seq<char>>),
    Migrated,
}

impl View for LoadAction {
    type V = LoadActionView;

    open spec fn view(&self) -> LoadActionView {
        match self {
            LoadAction::CheckExists(p) => LoadActionView::CheckExists(p@),
            LoadAction::Read(p) => LoadActionView::Read(p@),
            LoadAction::Migrate { key, secret } => LoadActionView::Migrate(key@, secret@),
            LoadAction::Finish(r) => LoadActionView::Finish(match r {
                Ok(s) => Ok(s@),
                Err(e) => Err(e@),
            }),
        }
    }
}

impl View for LoadEvent {
    type V = LoadEventView;

    open spec fn view(&self) -> LoadEventView {
        match self {
            LoadEvent::Exists(b) => LoadEventView::Exists(*b),
            LoadEvent::Read(r) => LoadEventView::Read(match r {
                Ok(s) => Ok(s@),
                Err(m) => Err(m@),
            }),
            LoadEvent::Migrated => LoadEventView::Migrated,
        }
    }
}

/// The state of a secret load, as plain values.
pub struct LoaderView {
    pub key: Seq<char>,
    pub primary: SecretPathView,
    pub legacy: Seq<SecretPathView>,
    pub stage: LoadStage,
    pub index: int,
    pub primary_error: Option<Seq<char>>,
    pub secret: Seq<char>,
    pub outcome: Result<Seq<char>, SecretErrorView>,
}

/// The load of one secret: the current location first, then each legacy
/// location in turn; a secret found only at a legacy location is written
/// back to the current location.
pub struct SecretLoader {
    key: String,
    primary: SecretPath,
    legacy: Vec<SecretPath>,
    stage: LoadStage,
    index: usize,
    primary_error: Option<String>,
    secret: String,
    outcome: Result<String, SecretError>,
}

pub open spec fn result_view(r: Result<String, SecretError>) -> Result<Seq<char>, SecretErrorView> {
    match r {
        Ok(s) => Ok(s@),
        Err(e) => Err(e@),
    }
}

pub open spec fn opt_text_view(o: Option<String>) -> Option<Seq<char>> {
    match o {
        Some(s) => Some(s@),
        None => None,
    }
}

impl View for SecretLoader {
    type V = LoaderView;

    closed spec fn view(&self) -> LoaderView {
        LoaderView {
            key: self.key@,
            primary: self.primary@,
            legacy: paths_view(self.legacy@),
            stage: self.stage,
            index: self.index as int,
            primary_error: opt_text_view(self.primary_error),
            secret: self.secret@,
            outcome: result_view(self.outcome),
        }
    }
}

/// A load that waits on a legacy location stays within the list.
pub open spec fn loader_wf(s: LoaderView) -> bool {
    (s.stage == LoadStage::CheckLegacy || s.stage == LoadStage::ReadLegacy) ==> 0 <= s.index < s.legacy.len()
}

/// What a load asks for in its present state.
pub open spec fn pending_action(s: LoaderView) -> LoadActionView {
    match s.stage {
        LoadStage::CheckPrimary => LoadActionView::CheckExists(s.primary),
        LoadStage::ReadPrimary => LoadActionView::Read(s.primary),
        LoadStage::CheckLegacy => LoadActionView::CheckExists(s.legacy[s.index]),
        LoadStage::ReadLegacy => LoadActionView::Read(s.legacy[s.index]),
        LoadStage::RecheckPrimary => LoadActionView::CheckExists(s.primary),
        LoadStage::Migrate => LoadActionView::Migrate(s.key, s.secret),
        LoadStage::Finished => LoadActionView::Finish(s.outcome),
    }
}

/// Moves on to the legacy location at `i`, or ends the load when none is
/// left: with the current location's read error if there was one, else
/// with "not found".
pub open spec fn enter_legacy(s: LoaderView, i: int) -> (LoaderView, LoadActionView) {
    if i < s.legacy.len() {
        let t = LoaderView { stage: LoadStage::CheckLegacy, index: i, ..s };
        (t, LoadActionView::CheckExists(s.legacy[i]))
    } else {
        let outcome = match s.primary_error {
            Some(m) => Err(SecretErrorView::Read(m)),
            None => Err(SecretErrorView::NotFound(s.primary)),
        };
        (LoaderView { stage: LoadStage::Finished, index: i, outcome, ..s }, LoadActionView::Finish(outcome))
    }
}

pub open spec fn finish(s: LoaderView, outcome: Result<Seq<char>, SecretErrorView>) -> (LoaderView, LoadActionView) {
    (LoaderView { stage: LoadStage::Finished, outcome, ..s }, LoadActionView::Finish(outcome))
}

/// One decision of a secret load: the next state and the next action,
/// given what the caller observed. An event that does not answer the
/// pending action leaves the state as it is and repeats the action.
pub open spec fn load_step(s: LoaderView, e: LoadEventView) -> (LoaderView, LoadActionView) {
    match (s.stage, e) {
        (LoadStage::CheckPrimary, LoadEventView::Exists(b)) => if b {
            (LoaderView { stage: LoadStage::ReadPrimary, ..s }, LoadActionView::Read(s.primary))
        } else {
            enter_legacy(s, 0)
        },
        (LoadStage::ReadPrimary, LoadEventView::Read(r)) => match r {
            Ok(secret) => finish(s, Ok(secret)),
            Err(m) => enter_legacy(LoaderView { primary_error: Some(m), ..s }, 0),
        },
        (LoadStage::CheckLegacy, LoadEventView::Exists(b)) => if b {
            (LoaderView { stage: LoadStage::ReadLegacy, ..s }, LoadActionView::Read(s.legacy[s.index]))
        } else {
            enter_legacy(s, s.index + 1)
        },
        (LoadStage::ReadLegacy, LoadEventView::Read(r)) => match r {
            Ok(secret) => (
                LoaderView { stage: LoadStage::RecheckPrimary, secret, ..s },
                LoadActionView::CheckExists(s.primary),
            ),
            Err(m) => finish(s, Err(SecretErrorView::Read(m))),
        },
        (LoadStage::RecheckPrimary, LoadEventView::Exists(b)) => if !b || s.primary_error is Some {
            (LoaderView { stage: LoadStage::Migrate, ..s }, LoadActionView::Migrate(s.key, s.secret))
        } else {
            finish(s, Ok(s.secret))
        },
        (LoadStage::Migrate, LoadEventView::Migrated) => finish(s, Ok(s.secret)),
        _ => (s, pending_action(s)),
    }
}


impl SecretLoader {
    #[verifier::type_invariant]
    spec fn inv(&self) -> bool {
        (self.stage == LoadStage::CheckLegacy || self.stage == LoadStage::ReadLegacy) ==> self.index < self.legacy@.len()
    }

    /// The stage the load waits in.
    pub fn stage(&self) -> (r: LoadStage)
        ensures
            r == self@.stage,
    {
        self.stage
    }

    fn pending(&self) -> (r: LoadAction)
        ensures
            r@ == pending_action(self@),
    {
        proof { use_type_invariant(self); }
        match self.stage {
            LoadStage::CheckPrimary => LoadAction::CheckExists(self.primary.clone()),
            LoadStage::ReadPrimary => LoadAction::Read(self.primary.clone()),
            LoadStage::CheckLegacy => LoadAction::CheckExists(self.legacy[self.index].clone()),
            LoadStage::ReadLegacy => LoadAction::Read(self.legacy[self.index].clone()),
            LoadStage::RecheckPrimary => LoadAction::CheckExists(self.primary.clone()),
            LoadStage::Migrate => LoadAction::Migrate { key: self.key.clone(), secret: self.secret.clone() },
            LoadStage::Finished => LoadAction::Finish(clone_outcome(&self.outcome)),
        }
    }

    fn enter_legacy(&mut self, i: usize) -> (r: LoadAction)
        ensures
            (final(self)@, r@) == enter_legacy(old(self)@, i as int),
    {
        if i < self.legacy.len() {
            let action = LoadAction::CheckExists(self.legacy[i].clone());
            self.index = i;
            self.stage = LoadStage::CheckLegacy;
            action
        } else {
            let outcome = match &self.primary_error {
                Some(m) => Err(SecretError::Read(m.clone())),
                None => Err(SecretError::NotFound(self.primary.clone())),
            };
            let reported = clone_outcome(&outcome);
            self.stage = LoadStage::Finished;
            self.index = i;
            self.outcome = outcome;
            LoadAction::Finish(reported)
        }
    }

    fn finish(&mut self, outcome: Result<String, SecretError>) -> (r: LoadAction)
        ensures
            (final(self)@, r@) == finish(old(self)@, result_view(outcome)),
    {
        let reported = clone_outcome(&outcome);
        self.stage = LoadStage::Finished;
        self.outcome = outcome;
        LoadAction::Finish(reported)
    }

    /// Takes what the caller observed for the pending action and decides
    /// the next one.
    pub fn advance(&mut self, event: LoadEvent) -> (r: LoadAction)
        ensures
            (final(self)@, r@) == load_step(old(self)@, event@),
    {
        proof { use_type_invariant(&*self); }
        match (self.stage, event) {
            (LoadStage::CheckPrimary, LoadEvent::Exists(b)) => {
                if b {
                    self.stage = LoadStage::ReadPrimary;
                    LoadAction::Read(self.primary.clone())
                } else {
                    self.enter_legacy(0)
                }
            },
            (LoadStage::ReadPrimary, LoadEvent::Read(r)) => match r {
                Ok(secret) => self.finish(Ok(secret)),
                Err(m) => {
                    self.primary_error = Some(m);
                    self.enter_legacy(0)
                },
            },
            (LoadStage::CheckLegacy, LoadEvent::Exists(b)) => {
                if b {
                    self.stage = LoadStage::ReadLegacy;
                    LoadAction::Read(self.legacy[self.index].clone())
                } else {
                    let n: usize = self.legacy.len();
                    assert(self.index < n);
                    let next = self.index + 1;
                    self.enter_legacy(next)
                }
            },
            (LoadStage::ReadLegacy, LoadEvent::Read(r)) => match r {
                Ok(secret) => {
                    self.secret = secret;
                    self.stage = LoadStage::RecheckPrimary;
                    LoadAction::CheckExists(self.primary.clone())
                },
                Err(m) => self.finish(Err(SecretError::Read(m))),
            },
            (LoadStage::RecheckPrimary, LoadEvent::Exists(b)) => {
                if !b || self.primary_error.is_some() {
                    self.stage = LoadStage::Migrate;
                    LoadAction::Migrate { key: self.key.clone(), secret: self.secret.clone() }
                } else {
                    let secret = self.secret.clone();
                    self.finish(Ok(secret))
                }
            },
            (LoadStage::Migrate, LoadEvent::Migrated) => {
                let secret = self.secret.clone();
                self.finish(Ok(secret))
            },
            _ => self.pending(),
        }
    }
}

fn clone_error(e: &SecretError) -> (r: SecretError)
    ensures
        r@ == e@,
{
    match e {
        SecretError::EmptyKey => SecretError::EmptyKey,
        SecretError::MissingBaseDir => SecretError::MissingBaseDir,
        SecretError::Read(m) => SecretError::Read(m.clone()),
        SecretError::NotFound(p) => SecretError::NotFound(p.clone()),
    }
}

fn clone_outcome(r: &Result<String, SecretError>) -> (c: Result<String, SecretError>)
    ensures
        result_view(c) == result_view(*r),
{
    match r {
        Ok(s) => Ok(s.clone()),
        Err(e) => Err(clone_error(e)),
    }
}

/// The state in which a load of `key` starts.
pub open spec fn initial_loader(key: Seq<char>, base: Option<Seq<char>>) -> LoaderView {
    LoaderView {
        key,
        primary: spec_secret_path_in(key, product_dir_text(), base)->0,
        legacy: spec_legacy_paths(key, base)->0,
        stage: LoadStage::CheckPrimary,
        index: 0,
        primary_error: None,
        secret: Seq::empty(),
        outcome: Ok(Seq::empty()),
    }
}

/// Starts loading the secret `key`, where `base` is the base directory
/// (`LOCALAPPDATA`) if it is set. When the key or the base directory
/// leaves no location, the load is over at once with that error;
/// otherwise the first action asks whether the current location exists.
pub fn load_secret(key: &str, base: &Option<String>) -> (r: (SecretLoader, LoadAction))
    ensures
        match spec_secret_path_in(key@, product_dir_text(), opt_view(*base)) {
            None => r.0@.stage == LoadStage::Finished
                && r.1@ == LoadActionView::Finish(Err(spec_path_error_view(key@)))
                && r.0@.outcome == Err::<Seq<char>, SecretErrorView>(spec_path_error_view(key@)),
            Some(p) => r.0@ == initial_loader(key@, opt_view(*base))
                && r.1@ == LoadActionView::CheckExists(p),
        },
{
    let primary = match secret_path(key, base) {
        Ok(p) => p,
        Err(e) => return failed_loader(key, e),
    };
    let legacy = match legacy_secret_paths(key, base) {
        Ok(v) => v,
        Err(e) => return failed_loader(key, e),
    };
    let action = LoadAction::CheckExists(primary.clone());
    let loader = SecretLoader {
        key: key.to_owned(),
        primary,
        legacy,
        stage: LoadStage::CheckPrimary,
        index: 0,
        primary_error: None,
        secret: String::new(),
        outcome: Ok(String::new()),
    };
    (loader, action)
}

fn failed_loader(key: &str, e: SecretError) -> (r: (SecretLoader, LoadAction))
    ensures
        r.0@.stage == LoadStage::Finished,
        r.1@ == LoadActionView::Finish(Err(e@)),
        r.0@.outcome == Err::<Seq<char>, SecretErrorView>(e@),
{
    let reported = clone_error(&e);
    let placeholder = SecretPath { base: String::new(), product_dir: String::new(), file_name: String::new() };
    let loader = SecretLoader {
        key: key.to_owned(),
        primary: placeholder,
        legacy: Vec::new(),
        stage: LoadStage::Finished,
        index: 0,
        primary_error: None,
        secret: String::new(),
        outcome: Err(e),
    };
    (loader, LoadAction::Finish(Err(reported)))
}


/// The result of a secret load and the secret that it writes back to the
/// current location, if it writes one.
pub type LoadReport = (Result<Seq<char>, SecretErrorView>, Option<Seq<char>>);

/// Looks for the secret at the legacy locations from `i` on: the first
/// one that exists decides. A secret read there is written back to the
/// current location `primary` when that location does not exist or could
/// not be read (`primary_error`).
pub open spec fn spec_scan_legacy(
    primary: SecretPathView,
    legacy: Seq<SecretPathView>,
    i: int,
    primary_error: Option<Seq<char>>,
    present: spec_fn(SecretPathView) -> bool,
    read: spec_fn(SecretPathView) -> Result<Seq<char>, Seq<char>>,
) -> LoadReport
    decreases legacy.len() - i,
{
    if i < 0 || i >= legacy.len() {
        (match primary_error {
            Some(m) => Err(SecretErrorView::Read(m)),
            None => Err(SecretErrorView::NotFound(primary)),
        }, None)
    } else if !present(legacy[i]) {
        spec_scan_legacy(primary, legacy, i + 1, primary_error, present, read)
    } else {
        match read(legacy[i]) {
            Err(m) => (Err(SecretErrorView::Read(m)), None),
            Ok(secret) => (Ok(secret), if !present(primary) || primary_error is Some { Some(secret) } else { None }),
        }
    }
}

/// What loading the secret `key` gives when the file system answers
/// `exists` and `read` and does not change during the load: the secret at
/// the current location if it can be read; otherwise the one at the first
/// legacy location that exists, written back to the current location;
/// otherwise the current location's read error, or "not found".
pub open spec fn spec_load_secret(
    key: Seq<char>,
    base: Option<Seq<char>>,
    present: spec_fn(SecretPathView) -> bool,
    read: spec_fn(SecretPathView) -> Result<Seq<char>, Seq<char>>,
) -> LoadReport {
    match spec_secret_path_in(key, product_dir_text(), base) {
        None => (Err(spec_path_error_view(key)), None),
        Some(p) => if present(p) && read(p) is Ok {
            (Ok(read(p)->Ok_0), None)
        } else {
            let primary_error = if present(p) { Some(read(p)->Err_0) } else { None };
            spec_scan_legacy(p, spec_legacy_paths(key, base)->0, 0, primary_error, present, read)
        },
    }
}

/// Runs a load against a file system that answers `exists` and `read`,
/// for at most `fuel` actions; `migrated` records the secret written back.
pub open spec fn drive_load(
    s: LoaderView,
    a: LoadActionView,
    present: spec_fn(SecretPathView) -> bool,
    read: spec_fn(SecretPathView) -> Result<Seq<char>, Seq<char>>,
    migrated: Option<Seq<char>>,
    fuel: nat,
) -> Option<LoadReport>
    decreases fuel,
{
    if fuel == 0 {
        None
    } else {
        match a {
            LoadActionView::Finish(r) => Some((r, migrated)),
            LoadActionView::CheckExists(p) => {
                let (t, b) = load_step(s, LoadEventView::Exists(present(p)));
                drive_load(t, b, present, read, migrated, (fuel - 1) as nat)
            },
            LoadActionView::Read(p) => {
                let (t, b) = load_step(s, LoadEventView::Read(read(p)));
                drive_load(t, b, present, read, migrated, (fuel - 1) as nat)
            },
            LoadActionView::Migrate(k, secret) => {
                let (t, b) = load_step(s, LoadEventView::Migrated);
                drive_load(t, b, present, read, Some(secret), (fuel - 1) as nat)
            },
        }
    }
}

proof fn lemma_scan(
    s: LoaderView,
    present: spec_fn(SecretPathView) -> bool,
    read: spec_fn(SecretPathView) -> Result<Seq<char>, Seq<char>>,
    fuel: nat,
)
    requires
        s.stage == LoadStage::CheckLegacy,
        0 <= s.index < s.legacy.len(),
        fuel >= s.legacy.len() - s.index + 4,
    ensures
        drive_load(s, LoadActionView::CheckExists(s.legacy[s.index]), present, read, None, fuel)
            == Some(spec_scan_legacy(s.primary, s.legacy, s.index, s.primary_error, present, read)),
    decreases s.legacy.len() - s.index,
{
    let i = s.index;
    let f1 = (fuel - 1) as nat;
    let (s1, a1) = load_step(s, LoadEventView::Exists(present(s.legacy[i])));
    assert(drive_load(s, LoadActionView::CheckExists(s.legacy[i]), present, read, None, fuel)
        == drive_load(s1, a1, present, read, None, f1));
    if !present(s.legacy[i]) {
        if i + 1 < s.legacy.len() {
            lemma_scan(s1, present, read, f1);
        } else {
            assert(drive_load(s1, a1, present, read, None, f1) == Some((s1.outcome, None::<Seq<char>>)));
            assert(spec_scan_legacy(s.primary, s.legacy, i + 1, s.primary_error, present, read)
                == (s1.outcome, None::<Seq<char>>));
        }
    } else {
        let f2 = (fuel - 2) as nat;
        let (s2, a2) = load_step(s1, LoadEventView::Read(read(s.legacy[i])));
        assert(drive_load(s1, a1, present, read, None, f1) == drive_load(s2, a2, present, read, None, f2));
        match read(s.legacy[i]) {
            Err(m) => {
                assert(drive_load(s2, a2, present, read, None, f2) == Some((s2.outcome, None::<Seq<char>>)));
            },
            Ok(secret) => {
                let f3 = (fuel - 3) as nat;
                let (s3, a3) = load_step(s2, LoadEventView::Exists(present(s.primary)));
                assert(drive_load(s2, a2, present, read, None, f2) == drive_load(s3, a3, present, read, None, f3));
                if !present(s.primary) || s.primary_error is Some {
                    let f4 = (fuel - 4) as nat;
                    let (s4, a4) = load_step(s3, LoadEventView::Migrated);
                    assert(drive_load(s3, a3, present, read, None, f3)
                        == drive_load(s4, a4, present, read, Some(secret), f4));
                    assert(drive_load(s4, a4, present, read, Some(secret), f4)
                        == Some((s4.outcome, Some(secret))));
                } else {
                    assert(drive_load(s3, a3, present, read, None, f3) == Some((s3.outcome, None::<Seq<char>>)));
                }
            },
        }
    }
}

/// The law of a secret load: driven against a file system that does not
/// change meanwhile, the load that `load_secret` starts ends with the
/// result of `spec_load_secret`, and writes a secret back exactly when it
/// says so.
pub proof fn lemma_load_secret_outcome(
    key: Seq<char>,
    base: Option<Seq<char>>,
    s0: LoaderView,
    a0: LoadActionView,
    present: spec_fn(SecretPathView) -> bool,
    read: spec_fn(SecretPathView) -> Result<Seq<char>, Seq<char>>,
)
    requires
        match spec_secret_path_in(key, product_dir_text(), base) {
            None => a0 == LoadActionView::Finish(Err(spec_path_error_view(key))),
            Some(p) => s0 == initial_loader(key, base) && a0 == LoadActionView::CheckExists(p),
        },
    ensures
        drive_load(s0, a0, present, read, None, 10) == Some(spec_load_secret(key, base, present, read)),
{
    match spec_secret_path_in(key, product_dir_text(), base) {
        None => {},
        Some(p) => {
            let legacy = spec_legacy_paths(key, base)->0;
            assert(legacy.len() == 1 || legacy.len() == 3);
            let (s1, a1) = load_step(s0, LoadEventView::Exists(present(p)));
            assert(drive_load(s0, a0, present, read, None, 10) == drive_load(s1, a1, present, read, None, 9));
            if present(p) {
                let (s2, a2) = load_step(s1, LoadEventView::Read(read(p)));
                assert(drive_load(s1, a1, present, read, None, 9) == drive_load(s2, a2, present, read, None, 8));
                match read(p) {
                    Ok(secret) => {
                        assert(drive_load(s2, a2, present, read, None, 8) == Some((s2.outcome, None::<Seq<char>>)));
                    },
                    Err(m) => {
                        lemma_scan(s2, present, read, 8);
                    },
                }
            } else {
                lemma_scan(s1, present, read, 9);
            }
        },
    }
}


/// A secret written back by a load is found at the current location by
/// the next load, which then writes nothing: once the current location
/// holds the secret and reads back as it, loading gives that secret.
pub proof fn lemma_migrated_secret_reloads(
    key: Seq<char>,
    base: Option<Seq<char>>,
    present: spec_fn(SecretPathView) -> bool,
    read: spec_fn(SecretPathView) -> Result<Seq<char>, Seq<char>>,
    present_after: spec_fn(SecretPathView) -> bool,
    read_after: spec_fn(SecretPathView) -> Result<Seq<char>, Seq<char>>,
    secret: Seq<char>,
)
    requires
        spec_load_secret(key, base, present, read) == (Ok::<Seq<char>, SecretErrorView>(secret), Some(secret)),
        present_after(spec_secret_path_in(key, product_dir_text(), base)->0),
        read_after(spec_secret_path_in(key, product_dir_text(), base)->0) == Ok::<Seq<char>, Seq<char>>(secret),
    ensures
        spec_load_secret(key, base, present_after, read_after) == (Ok::<Seq<char>, SecretErrorView>(secret), None::<Seq<char>>),
{
}

/// Where the secret `key` lives: nowhere for a blank key (`EmptyKey`) or
/// without a base directory (`MissingBaseDir`); otherwise the file
/// `key.bin` in `remotty` under the base directory. Older releases kept it
/// in `codex-telegram-bridge`, and deleting it clears the current place
/// first, then the older ones.
pub proof fn lemma_secret_locations(key: Seq<char>, base: Option<Seq<char>>)
    ensures
        is_blank(key) ==> spec_secret_path_in(key, product_dir_text(), base) is None && spec_path_error(key) == SecretError::EmptyKey,
        !is_blank(key) && base is None ==> spec_secret_path_in(key, product_dir_text(), base) is None && spec_path_error(key)
            == SecretError::MissingBaseDir,
        !is_blank(key) ==> (base matches Some(b) ==> {
            &&& spec_secret_path_in(key, product_dir_text(), base) == Some(
                SecretPathView { base: b, product_dir: "remotty"@, file_name: key + ".bin"@ },
            )
            &&& spec_legacy_paths(key, base) matches Some(legacy) && legacy[0] == (SecretPathView {
                base: b,
                product_dir: "codex-telegram-bridge"@,
                file_name: key + ".bin"@,
            }) && spec_delete_paths(key, base) == Some(
                seq![(SecretPathView { base: b, product_dir: "remotty"@, file_name: key + ".bin"@ })] + legacy,
            )
        }),
{
}

} // verus!
