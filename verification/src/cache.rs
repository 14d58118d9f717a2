//! The cache of one run: the store, and the inputs of the cache keys, each
//! resolved once.
//!
//! A cache key is the tool's version, the fingerprint of its configuration
//! and the fingerprint of the source. Version and configuration are the same
//! for every file of a run, so they are resolved once and kept: the first
//! value given stays, whatever is given later.

use crate::config::all_named;
use crate::config::combined_fingerprint_of;
use crate::config::snapshot_configs;
use crate::config::snapshot_paths_of;
use crate::config::ConfigFile;
use crate::hashing::fingerprint;
use crate::hashing::xxh3_64;
use crate::locate::no_paths;
use crate::locate::paths_get;
use crate::locate::paths_new;
use crate::locate::paths_or_insert;
use crate::locate::resolved;
use crate::locate::ToolPaths;
use crate::store::blocked;
use crate::store::count_constraint;
use crate::store::found;
use crate::store::inserted;
use crate::store::lemma_found_blocks;
use crate::store::lemma_insert_or_ignore;
use crate::store::lemma_inserted_found;
use crate::store::lemma_inserted_other_key;
use crate::store::payload_of;
use crate::store::unique;
use crate::store::Key;
use crate::store::Record;
use crate::store::Row;
use crate::store::Store;
use crate::store::StoreView;
use crate::store::ToolKind;
use crate::text::decimal_digits;
use crate::text::trimmed_end;
use crate::text::trimmed_text;
use crate::text::InvalidUtf8;
use crate::yaml::extensions_outcome;
use crate::yaml::read_extensions;
use crate::yaml::ExtensionsError;
use vstd::prelude::*;
use vstd::string::StringExecFns;
use vstd::utf8::decode_utf8;
use vstd::utf8::valid_utf8;

verus! {

/// An input of a cache key.
#[derive(Clone, Copy, PartialEq, Eq, Structural, Debug)]
pub enum Input {
    FourmoluVersion,
    FourmoluConfig,
    FourmoluExtensions,
    NixfmtVersion,
    HlintVersion,
    HlintConfigs,
}

/// Why the cache cannot answer.
#[derive(Clone, Copy, PartialEq, Eq, Structural, Debug)]
pub enum CacheError {
    /// An input of the key has not been resolved yet; it is the first that
    /// is missing.
    Unresolved(Input),
}

/// What a cache holds.
pub struct CacheView {
    pub store: StoreView,
    pub git_root: Option<Seq<char>>,
    pub which: Map<Seq<char>, Seq<char>>,
    pub fourmolu_version: Option<Seq<char>>,
    pub fourmolu_config: Option<(Seq<char>, u64)>,
    pub fourmolu_extensions: Option<(Seq<Seq<char>>, u64)>,
    pub nixfmt_version: Option<Seq<char>>,
    pub hlint_version: Option<Seq<char>>,
    pub hlint_configs: Option<(Seq<Seq<char>>, u64)>,
}

impl CacheView {
    /// The key of a source under the first formatter, or the first input
    /// that is missing for it.
    pub open spec fn fourmolu_key(self, source_hash: u64) -> Result<Key, Input> {
        match self.fourmolu_version {
            None => Err(Input::FourmoluVersion),
            Some(version) => match self.fourmolu_config {
                None => Err(Input::FourmoluConfig),
                Some((_, config_hash)) => match self.fourmolu_extensions {
                    None => Err(Input::FourmoluExtensions),
                    Some((_, extensions_hash)) => Ok(
                        Key {
                            version,
                            config_hash: Some(config_hash),
                            extensions_hash: Some(extensions_hash),
                            source_hash,
                        },
                    ),
                },
            },
        }
    }

    /// The key of a source under the second formatter, or the input that is
    /// missing for it.
    pub open spec fn nixfmt_key(self, source_hash: u64) -> Result<Key, Input> {
        match self.nixfmt_version {
            None => Err(Input::NixfmtVersion),
            Some(version) => Ok(
                Key { version, config_hash: None, extensions_hash: None, source_hash },
            ),
        }
    }

    /// The key of a source under the linter, or the first input that is
    /// missing for it.
    pub open spec fn hlint_key(self, source_hash: u64) -> Result<Key, Input> {
        match self.hlint_version {
            None => Err(Input::HlintVersion),
            Some(version) => match self.hlint_configs {
                None => Err(Input::HlintConfigs),
                Some((_, configs_hash)) => Ok(
                    Key {
                        version,
                        config_hash: Some(configs_hash),
                        extensions_hash: None,
                        source_hash,
                    },
                ),
            },
        }
    }

    /// The key of a source under a tool kind.
    pub open spec fn key(self, kind: ToolKind, source_hash: u64) -> Result<Key, Input> {
        match kind {
            ToolKind::Fourmolu => self.fourmolu_key(source_hash),
            ToolKind::Nixfmt => self.nixfmt_key(source_hash),
            ToolKind::Hlint => self.hlint_key(source_hash),
        }
    }

    /// What a lookup answers: whether the table of `kind` holds the key of
    /// the source, or the first input that is missing for the key.
    pub open spec fn hit(self, kind: ToolKind, source_hash: u64) -> Result<bool, CacheError> {
        match self.key(kind, source_hash) {
            Ok(key) => Ok(found(self.store.table(kind), key)),
            Err(input) => Err(CacheError::Unresolved(input)),
        }
    }

    /// The cache after the key of a source was recorded in the table of
    /// `kind`, with a payload or without: unchanged where an input of the
    /// key is missing.
    pub open spec fn marked(self, kind: ToolKind, source_hash: u64, payload: Option<Seq<u8>>)
        -> CacheView {
        match self.key(kind, source_hash) {
            Ok(key) => CacheView { store: self.store.recorded(kind, Record { key, payload }), ..self },
            Err(_) => self,
        }
    }
}

/// The value that a cell keeps when it is given one: the one it has, or
/// else the one given.
pub open spec fn kept<T>(cell: Option<T>, given: T) -> Option<T> {
    match cell {
        Some(_) => cell,
        None => Some(given),
    }
}

/// The text that a cell keeps when it is given a tool's output: the one it
/// has, or else the output decoded and trimmed; an empty cell stays empty
/// where the output is not UTF-8.
pub open spec fn kept_text(cell: Option<Seq<char>>, stdout: Seq<u8>) -> Option<Seq<char>> {
    if cell is None && valid_utf8(stdout) {
        Some(trimmed_end(decode_utf8(stdout)))
    } else {
        cell
    }
}

/// A cell that was given a value keeps it, whatever it is
/// given later.
pub proof fn lemma_kept_first<T>(cell: Option<T>, first: T, second: T)
    ensures
        kept(kept(cell, first), second) == kept(cell, first),
        kept(cell, first) is Some,
{
}

/// A cell that holds a text keeps it, whatever output it is
/// given later.
pub proof fn lemma_kept_text_first(cell: Option<Seq<char>>, first: Seq<u8>, second: Seq<u8>)
    requires
        kept_text(cell, first) is Some,
    ensures
        kept_text(kept_text(cell, first), second) == kept_text(cell, first),
{
}

/// Recording the key of a source twice, with whatever
/// payloads, leaves what recording it once leaves, and exactly one row under
/// the key's constraint.
pub proof fn lemma_marked_twice(
    cache: CacheView,
    kind: ToolKind,
    source_hash: u64,
    first: Option<Seq<u8>>,
    second: Option<Seq<u8>>,
)
    requires
        unique(cache.store.table(kind)),
    ensures
        cache.marked(kind, source_hash, first).marked(kind, source_hash, second) == cache.marked(
            kind,
            source_hash,
            first,
        ),
        cache.key(kind, source_hash) matches Ok(key) ==> count_constraint(
            cache.marked(kind, source_hash, first).store.table(kind),
            key,
        ) == 1,
{
    match cache.key(kind, source_hash) {
        Ok(key) => {
            let once = cache.marked(kind, source_hash, first);
            assert(once.key(kind, source_hash) == cache.key(kind, source_hash));
            lemma_insert_or_ignore(
                cache.store.table(kind),
                Record { key, payload: first },
                Record { key, payload: second },
            );
            assert(once.store.table(kind) == inserted(
                cache.store.table(kind),
                Record { key, payload: first },
            ));
            assert(once.marked(kind, source_hash, second).store =~= once.store);
        },
        Err(_) => {},
    }
}

/// Whether a record of `key` would be ignored although no lookup finds the
/// key: a row agrees with it in the columns of the constraint and differs in
/// another.
pub open spec fn shadowed(rows: Seq<Record>, key: Key) -> bool {
    blocked(rows, key) && !found(rows, key)
}

/// Once the key of a source is recorded, a lookup under the same
/// version, configuration and source finds it, unless the key is shadowed.
pub proof fn lemma_marked_hits(
    cache: CacheView,
    kind: ToolKind,
    source_hash: u64,
    payload: Option<Seq<u8>>,
)
    requires
        unique(cache.store.table(kind)),
        cache.key(kind, source_hash) matches Ok(key) && !shadowed(cache.store.table(kind), key),
    ensures
        cache.marked(kind, source_hash, payload).hit(kind, source_hash) == Ok::<bool, CacheError>(
            true,
        ),
{
    let key = cache.key(kind, source_hash)->Ok_0;
    let rows = cache.store.table(kind);
    let row = Record { key, payload };
    let after = cache.marked(kind, source_hash, payload);
    assert(after.key(kind, source_hash) == cache.key(kind, source_hash));
    assert(after.store.table(kind) == inserted(rows, row));
    if blocked(rows, key) {
        lemma_found_blocks(rows, row);
    } else {
        lemma_inserted_found(rows, row);
    }
}

/// Recording the key of one source changes the answer for
/// no key that differs from it, be it in the version, in a hash of the
/// configuration or in the hash of the source. `other` is the cache of any
/// run over the store that the record left.
pub proof fn lemma_marked_other_key(
    cache: CacheView,
    other: CacheView,
    kind: ToolKind,
    source_hash: u64,
    payload: Option<Seq<u8>>,
    other_hash: u64,
)
    requires
        other.store == cache.marked(kind, source_hash, payload).store,
        cache.key(kind, source_hash) is Ok,
        other.key(kind, other_hash) is Ok,
        other.key(kind, other_hash) != cache.key(kind, source_hash),
    ensures
        other.hit(kind, other_hash) == Ok::<bool, CacheError>(
            found(cache.store.table(kind), other.key(kind, other_hash)->Ok_0),
        ),
{
    let key = cache.key(kind, source_hash)->Ok_0;
    let other_key = other.key(kind, other_hash)->Ok_0;
    let rows = cache.store.table(kind);
    assert(other.store.table(kind) == inserted(rows, Record { key, payload }));
    lemma_inserted_other_key(rows, Record { key, payload }, other_key);
}

/// Keys differ exactly where the version, a hash of the configuration or
/// the hash of the source differs.
pub proof fn lemma_key_differs(a: Key, b: Key)
    ensures
        a != b <==> a.version != b.version || a.config_hash != b.config_hash || a.extensions_hash
            != b.extensions_hash || a.source_hash != b.source_hash,
{
}

/// The text of a cell.
pub open spec fn text_view(cell: Option<String>) -> Option<Seq<char>> {
    match cell {
        Some(text) => Some(text@),
        None => None,
    }
}

/// The path and the fingerprint of a cell.
pub open spec fn config_view(cell: Option<(String, u64)>) -> Option<(Seq<char>, u64)> {
    match cell {
        Some((path, hash)) => Some((path@, hash)),
        None => None,
    }
}

/// The texts and the fingerprint of a cell.
pub open spec fn list_view(cell: Option<(Vec<String>, u64)>) -> Option<(Seq<Seq<char>>, u64)> {
    match cell {
        Some((list, hash)) => Some((list.deep_view(), hash)),
        None => None,
    }
}

fn keep_text(cell: &mut Option<String>, stdout: &[u8]) -> (result: Result<(), InvalidUtf8>)
    ensures
        text_view(*final(cell)) == kept_text(text_view(*old(cell)), stdout@),
        result is Err <==> *old(cell) is None && !valid_utf8(stdout@),
{
    if cell.is_some() {
        return Ok(());
    }
    match trimmed_text(stdout) {
        Ok(text) => {
            *cell = Some(text);
            Ok(())
        },
        Err(err) => Err(err),
    }
}

/// The cache of one run.
pub struct Cache {
    store: Store,
    git_root: Option<String>,
    which: ToolPaths,
    fourmolu_version: Option<String>,
    fourmolu_config: Option<(String, u64)>,
    fourmolu_extensions: Option<(Vec<String>, u64)>,
    nixfmt_version: Option<String>,
    hlint_version: Option<String>,
    hlint_configs: Option<(Vec<String>, u64)>,
}

impl View for Cache {
    type V = CacheView;

    closed spec fn view(&self) -> CacheView {
        CacheView {
            store: self.store@,
            git_root: text_view(self.git_root),
            which: resolved(self.which),
            fourmolu_version: text_view(self.fourmolu_version),
            fourmolu_config: config_view(self.fourmolu_config),
            fourmolu_extensions: list_view(self.fourmolu_extensions),
            nixfmt_version: text_view(self.nixfmt_version),
            hlint_version: text_view(self.hlint_version),
            hlint_configs: list_view(self.hlint_configs),
        }
    }
}

impl Cache {
    /// Opens the cache of the build `binary_id` over a store as it was read
    /// from disk: a store of that build is used as it is, any other is
    /// reset. Nothing is resolved yet.
    pub fn new(binary_id: u64, store: Store) -> (cache: Self)
        ensures
            cache@ == (CacheView {
                store: store@.opened(decimal_digits(binary_id as nat)),
                git_root: None,
                which: no_paths(),
                fourmolu_version: None,
                fourmolu_config: None,
                fourmolu_extensions: None,
                nixfmt_version: None,
                hlint_version: None,
                hlint_configs: None,
            }),
    {
        Cache {
            store: store.open(binary_id),
            git_root: None,
            which: paths_new(),
            fourmolu_version: None,
            fourmolu_config: None,
            fourmolu_extensions: None,
            nixfmt_version: None,
            hlint_version: None,
            hlint_configs: None,
        }
    }

    /// The store behind the cache.
    pub fn store(&self) -> (store: &Store)
        ensures
            store@ == self@.store,
    {
        &self.store
    }

    /// The root of the repository, once resolved.
    pub fn git_root(&self) -> (root: Option<&String>)
        ensures
            text_view(match root {
                Some(r) => Some(*r),
                None => None,
            }) == self@.git_root,
    {
        self.git_root.as_ref()
    }

    /// Resolves the root of the repository from the output of the query for
    /// it. The first root given stays.
    pub fn set_git_root(&mut self, stdout: &[u8]) -> (result: Result<(), InvalidUtf8>)
        ensures
            final(self)@ == (CacheView {
                git_root: kept_text(old(self)@.git_root, stdout@),
                ..old(self)@
            }),
            result is Err <==> old(self)@.git_root is None && !valid_utf8(stdout@),
    {
        keep_text(&mut self.git_root, stdout)
    }

    /// The path of a tool's binary, once resolved.
    pub fn which(&self, binary: &str) -> (path: Option<String>)
        ensures
            path is Some <==> self@.which.contains_key(binary@),
            path matches Some(p) ==> p@ == self@.which[binary@],
    {
        paths_get(&self.which, binary)
    }

    /// Resolves the path of a tool's binary. The first path given for a name
    /// stays, and is returned.
    pub fn set_which(&mut self, binary: &str, path: String) -> (held: String)
        ensures
            final(self)@ == (CacheView {
                which: if old(self)@.which.contains_key(binary@) {
                    old(self)@.which
                } else {
                    old(self)@.which.insert(binary@, path@)
                },
                ..old(self)@
            }),
            held@ == final(self)@.which[binary@],
    {
        paths_or_insert(&mut self.which, String::from_str(binary), path)
    }

    /// The version of the first formatter, once resolved.
    pub fn fourmolu_version(&self) -> (version: Option<&String>)
        ensures
            text_view(match version {
                Some(v) => Some(*v),
                None => None,
            }) == self@.fourmolu_version,
    {
        self.fourmolu_version.as_ref()
    }

    /// Resolves the version of the first formatter from what its version
    /// flag printed. The first version given stays.
    pub fn set_fourmolu_version(&mut self, stdout: &[u8]) -> (result: Result<(), InvalidUtf8>)
        ensures
            final(self)@ == (CacheView {
                fourmolu_version: kept_text(old(self)@.fourmolu_version, stdout@),
                ..old(self)@
            }),
            result is Err <==> old(self)@.fourmolu_version is None && !valid_utf8(stdout@),
    {
        keep_text(&mut self.fourmolu_version, stdout)
    }

    /// The snapshot of the first formatter's style file and the fingerprint
    /// of the file, once resolved.
    pub fn fourmolu_config(&self) -> (config: Option<&(String, u64)>)
        ensures
            config_view(match config {
                Some(c) => Some(*c),
                None => None,
            }) == self@.fourmolu_config,
    {
        self.fourmolu_config.as_ref()
    }

    /// Resolves the first formatter's style file: `snapshot` is where its
    /// copy lies, `bytes` what the file itself holds. The first given stays.
    pub fn set_fourmolu_config(&mut self, snapshot: String, bytes: &[u8])
        ensures
            final(self)@ == (CacheView {
                fourmolu_config: kept(old(self)@.fourmolu_config, (snapshot@, xxh3_64(bytes@))),
                ..old(self)@
            }),
    {
        if self.fourmolu_config.is_none() {
            self.fourmolu_config = Some((snapshot, fingerprint(bytes)));
        }
    }

    /// The enabled extensions and their fingerprint, once resolved.
    pub fn fourmolu_extensions(&self) -> (extensions: Option<&(Vec<String>, u64)>)
        ensures
            list_view(match extensions {
                Some(e) => Some(*e),
                None => None,
            }) == self@.fourmolu_extensions,
    {
        self.fourmolu_extensions.as_ref()
    }

    /// Resolves the enabled extensions from the bytes of the file that lists
    /// them. The first list given stays; a file that gives no list leaves an
    /// empty cell empty.
    pub fn set_fourmolu_extensions(&mut self, bytes: &[u8]) -> (result: Result<
        (),
        ExtensionsError,
    >)
        ensures
            final(self)@ == (CacheView {
                fourmolu_extensions: match (
                    old(self)@.fourmolu_extensions,
                    extensions_outcome(bytes@),
                ) {
                    (None, Ok(list)) => Some(list),
                    (cell, _) => cell,
                },
                ..old(self)@
            }),
            match (old(self)@.fourmolu_extensions, extensions_outcome(bytes@)) {
                (None, Err(err)) => result == Err::<(), ExtensionsError>(err),
                _ => result is Ok,
            },
    {
        if self.fourmolu_extensions.is_some() {
            return Ok(());
        }
        match read_extensions(bytes) {
            Ok(list) => {
                self.fourmolu_extensions = Some(list);
                Ok(())
            },
            Err(err) => Err(err),
        }
    }

    /// The version of the second formatter, once resolved.
    pub fn nixfmt_version(&self) -> (version: Option<&String>)
        ensures
            text_view(match version {
                Some(v) => Some(*v),
                None => None,
            }) == self@.nixfmt_version,
    {
        self.nixfmt_version.as_ref()
    }

    /// Resolves the version of the second formatter from what its version
    /// flag printed. The first version given stays.
    pub fn set_nixfmt_version(&mut self, stdout: &[u8]) -> (result: Result<(), InvalidUtf8>)
        ensures
            final(self)@ == (CacheView {
                nixfmt_version: kept_text(old(self)@.nixfmt_version, stdout@),
                ..old(self)@
            }),
            result is Err <==> old(self)@.nixfmt_version is None && !valid_utf8(stdout@),
    {
        keep_text(&mut self.nixfmt_version, stdout)
    }

    /// The version of the linter, once resolved.
    pub fn hlint_version(&self) -> (version: Option<&String>)
        ensures
            text_view(match version {
                Some(v) => Some(*v),
                None => None,
            }) == self@.hlint_version,
    {
        self.hlint_version.as_ref()
    }

    /// Resolves the version of the linter from what its version flag
    /// printed. The first version given stays.
    pub fn set_hlint_version(&mut self, stdout: &[u8]) -> (result: Result<(), InvalidUtf8>)
        ensures
            final(self)@ == (CacheView {
                hlint_version: kept_text(old(self)@.hlint_version, stdout@),
                ..old(self)@
            }),
            result is Err <==> old(self)@.hlint_version is None && !valid_utf8(stdout@),
    {
        keep_text(&mut self.hlint_version, stdout)
    }

    /// The snapshots of the linter's rule files and their combined
    /// fingerprint, once resolved.
    pub fn hlint_configs(&self) -> (configs: Option<&(Vec<String>, u64)>)
        ensures
            list_view(match configs {
                Some(c) => Some(*c),
                None => None,
            }) == self@.hlint_configs,
    {
        self.hlint_configs.as_ref()
    }

    /// Resolves the linter's rule files: `files` are the files themselves,
    /// in the order in which they count, and their copies go to
    /// `snapshot_dir`. The first given stay. Says whether the cell is filled afterwards: it is
    /// not where it was empty and a file has no name.
    pub fn set_hlint_configs(&mut self, snapshot_dir: &str, files: &Vec<ConfigFile>) -> (filled:
        bool)
        ensures
            final(self)@ == (CacheView {
                hlint_configs: if old(self)@.hlint_configs is None && all_named(files@) {
                    Some(
                        (
                            snapshot_paths_of(snapshot_dir@, files@),
                            combined_fingerprint_of(files@),
                        ),
                    )
                } else {
                    old(self)@.hlint_configs
                },
                ..old(self)@
            }),
            filled == final(self)@.hlint_configs is Some,
    {
        if self.hlint_configs.is_some() {
            return true;
        }
        match snapshot_configs(snapshot_dir, files) {
            Some(configs) => {
                self.hlint_configs = Some(configs);
                true
            },
            None => false,
        }
    }

    /// The row of a source under the first formatter, or the first input
    /// that is missing for its key.
    pub fn fourmolu_row(&self, source_hash: u64) -> (probe: Result<Row, CacheError>)
        ensures
            match self@.fourmolu_key(source_hash) {
                Ok(key) => probe matches Ok(row) && row@ == (Record { key, payload: None }),
                Err(input) => probe matches Err(err) && err == CacheError::Unresolved(input),
            },
    {
        let version = match &self.fourmolu_version {
            Some(version) => version,
            None => {
                return Err(CacheError::Unresolved(Input::FourmoluVersion));
            },
        };
        let config_hash = match &self.fourmolu_config {
            Some(config) => config.1,
            None => {
                return Err(CacheError::Unresolved(Input::FourmoluConfig));
            },
        };
        let extensions_hash = match &self.fourmolu_extensions {
            Some(extensions) => extensions.1,
            None => {
                return Err(CacheError::Unresolved(Input::FourmoluExtensions));
            },
        };
        Ok(
            Row {
                version: version.clone(),
                config_hash: Some(config_hash),
                extensions_hash: Some(extensions_hash),
                source_hash,
                payload: None,
            },
        )
    }

    /// The row of a source under the second formatter, or the input that is
    /// missing for its key.
    pub fn nixfmt_row(&self, source_hash: u64) -> (probe: Result<Row, CacheError>)
        ensures
            match self@.nixfmt_key(source_hash) {
                Ok(key) => probe matches Ok(row) && row@ == (Record { key, payload: None }),
                Err(input) => probe matches Err(err) && err == CacheError::Unresolved(input),
            },
    {
        match &self.nixfmt_version {
            Some(version) => Ok(
                Row {
                    version: version.clone(),
                    config_hash: None,
                    extensions_hash: None,
                    source_hash,
                    payload: None,
                },
            ),
            None => Err(CacheError::Unresolved(Input::NixfmtVersion)),
        }
    }

    /// The row of a source and its diagnostics under the linter, or the first
    /// input that is missing for its key.
    pub fn hlint_row(&self, source_hash: u64, hints: Vec<u8>) -> (probe: Result<Row, CacheError>)
        ensures
            match self@.hlint_key(source_hash) {
                Ok(key) => probe matches Ok(row) && row@ == (Record {
                    key,
                    payload: Some(hints@),
                }),
                Err(input) => probe matches Err(err) && err == CacheError::Unresolved(input),
            },
    {
        let version = match &self.hlint_version {
            Some(version) => version,
            None => {
                return Err(CacheError::Unresolved(Input::HlintVersion));
            },
        };
        let configs_hash = match &self.hlint_configs {
            Some(configs) => configs.1,
            None => {
                return Err(CacheError::Unresolved(Input::HlintConfigs));
            },
        };
        Ok(
            Row {
                version: version.clone(),
                config_hash: Some(configs_hash),
                extensions_hash: None,
                source_hash,
                payload: Some(hints),
            },
        )
    }

    /// Whether the first formatter has been run on a source with this
    /// fingerprint, under the version and configuration of this run.
    pub fn is_haskell_formatted(&self, source_hash: u64) -> (result: Result<bool, CacheError>)
        ensures
            result == self@.hit(ToolKind::Fourmolu, source_hash),
    {
        match self.fourmolu_row(source_hash) {
            Ok(probe) => Ok(self.store.lookup(ToolKind::Fourmolu, &probe).is_some()),
            Err(err) => Err(err),
        }
    }

    /// Records that the first formatter has been run on a source with this
    /// fingerprint, under the version and configuration of this run.
    pub fn mark_haskell_formatted(&mut self, source_hash: u64) -> (result: Result<(), CacheError>)
        ensures
            final(self)@ == old(self)@.marked(ToolKind::Fourmolu, source_hash, None),
            match old(self)@.fourmolu_key(source_hash) {
                Ok(_) => result is Ok,
                Err(input) => result == Err::<(), CacheError>(CacheError::Unresolved(input)),
            },
    {
        match self.fourmolu_row(source_hash) {
            Ok(row) => {
                let _ = self.store.record(ToolKind::Fourmolu, row);
                Ok(())
            },
            Err(err) => Err(err),
        }
    }

    /// Whether the second formatter has been run on a source with this
    /// fingerprint, under the version of this run.
    pub fn is_nix_formatted(&self, source_hash: u64) -> (result: Result<bool, CacheError>)
        ensures
            result == self@.hit(ToolKind::Nixfmt, source_hash),
    {
        match self.nixfmt_row(source_hash) {
            Ok(probe) => Ok(self.store.lookup(ToolKind::Nixfmt, &probe).is_some()),
            Err(err) => Err(err),
        }
    }

    /// Records that the second formatter has been run on a source with this
    /// fingerprint, under the version of this run.
    pub fn mark_nix_formatted(&mut self, source_hash: u64) -> (result: Result<(), CacheError>)
        ensures
            final(self)@ == old(self)@.marked(ToolKind::Nixfmt, source_hash, None),
            match old(self)@.nixfmt_key(source_hash) {
                Ok(_) => result is Ok,
                Err(input) => result == Err::<(), CacheError>(CacheError::Unresolved(input)),
            },
    {
        match self.nixfmt_row(source_hash) {
            Ok(row) => {
                let _ = self.store.record(ToolKind::Nixfmt, row);
                Ok(())
            },
            Err(err) => Err(err),
        }
    }

    /// The diagnostics, encoded, that the linter gave for a source with this
    /// fingerprint under the version and rules of this run, if it has been
    /// run on one.
    pub fn is_haskell_linted(&self, source_hash: u64) -> (result: Result<
        Option<Vec<u8>>,
        CacheError,
    >)
        ensures
            match self@.hlint_key(source_hash) {
                Ok(key) => result matches Ok(hit) && (hit is Some <==> found(self@.store.hlint, key))
                    && (hit matches Some(hints) ==> Some(hints@) == payload_of(
                    self@.store.hlint,
                    key,
                )),
                Err(input) => result matches Err(err) && err == CacheError::Unresolved(input),
            },
    {
        match self.hlint_row(source_hash, Vec::new()) {
            Ok(probe) => match self.store.lookup(ToolKind::Hlint, &probe) {
                Some(row) => match &row.payload {
                    Some(hints) => Ok(Some(hints.clone())),
                    None => Ok(None),
                },
                None => Ok(None),
            },
            Err(err) => Err(err),
        }
    }

    /// Records the diagnostics, encoded, that the linter gave for a source
    /// with this fingerprint under the version and rules of this run.
    pub fn mark_haskell_linted(&mut self, source_hash: u64, hints: Vec<u8>) -> (result: Result<
        (),
        CacheError,
    >)
        ensures
            final(self)@ == old(self)@.marked(ToolKind::Hlint, source_hash, Some(hints@)),
            match old(self)@.hlint_key(source_hash) {
                Ok(_) => result is Ok,
                Err(input) => result == Err::<(), CacheError>(CacheError::Unresolved(input)),
            },
    {
        match self.hlint_row(source_hash, hints) {
            Ok(row) => {
                let _ = self.store.record(ToolKind::Hlint, row);
                Ok(())
            },
            Err(err) => Err(err),
        }
    }
}

} // verus!
