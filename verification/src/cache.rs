//! The model cache manager.
//!
//! The manager owns a cache directory and keeps a record of the artifacts
//! known to be materialized there, one regular file per variant.  The
//! canonical file name of a variant is derived deterministically from its
//! identifier (slashes replaced by underscores, a fixed suffix appended), so
//! the same identifier always resolves to the same path for a given cache
//! root.
//!
//! The manager itself performs no filesystem or network work: `ensure_model`
//! plans what has to happen (use the cached artifact, or fetch into a staging
//! path and rename), the caller executes the plan and reports a completed
//! fetch back through `record_fetched`.  Writing through a staging path and
//! renaming keeps a failed or cancelled fetch from leaving a partial artifact
//! at the canonical path.

use crate::phi_models::{spec_hf_repo, spec_model_name, PhiFamily, PhiModel};
use crate::strutil::{push_char, spec_ends_with, str_ends_with, str_eq};
use vstd::prelude::*;
use vstd::string::StrSliceExecFns;
use vstd::string::StringExecFns;

verus! {

/// One artifact known to be materialized: the variant identifier it belongs
/// to and its size in bytes.
pub struct CacheEntry {
    /// Identifier of the variant the artifact belongs to.
    pub id: String,
    /// Size of the artifact in bytes.
    pub bytes: u64,
}

impl View for CacheEntry {
    type V = (Seq<char>, u64);

    open spec fn view(&self) -> (Seq<char>, u64) {
        (self.id@, self.bytes)
    }
}

/// Mathematical image of a [`PhiModelManager`]: the cache root and the
/// recorded artifacts in recording order.
#[verifier::ext_equal]
pub struct ManagerView {
    pub cache_dir: Seq<char>,
    pub entries: Seq<(Seq<char>, u64)>,
}

/// Total size of the recorded artifacts.
pub open spec fn spec_cache_size(entries: Seq<(Seq<char>, u64)>) -> int
    decreases entries.len(),
{
    if entries.len() == 0 {
        0
    } else {
        spec_cache_size(entries.drop_last()) + entries.last().1
    }
}

/// Appending one entry grows the total by that entry's size.
pub proof fn lemma_cache_size_push(entries: Seq<(Seq<char>, u64)>, e: (Seq<char>, u64))
    ensures
        spec_cache_size(entries.push(e)) == spec_cache_size(entries) + e.1,
{
    assert(entries.push(e).drop_last() =~= entries);
    assert(entries.push(e).last() == e);
}

/// A prefix of the entries never exceeds the total size.
pub proof fn lemma_cache_size_take(entries: Seq<(Seq<char>, u64)>, i: int)
    requires
        0 <= i <= entries.len(),
    ensures
        spec_cache_size(entries.take(i)) <= spec_cache_size(entries),
    decreases entries.len() - i,
{
    if i == entries.len() {
        assert(entries.take(i) =~= entries);
    } else {
        assert(entries.take(i + 1).drop_last() =~= entries.take(i));
        assert(entries.take(i + 1).last() == entries[i]);
        lemma_cache_size_take(entries, i + 1);
    }
}

/// The variant identifier with every slash replaced by an underscore, which
/// makes it usable as a file name.
pub open spec fn spec_sanitize_id(s: Seq<char>) -> Seq<char> {
    Seq::new(
        s.len(),
        |i: int|
            if s[i] == '/' {
                '_'
            } else {
                s[i]
            },
    )
}

/// The inverse transform applied when reading file names back: underscores
/// become slashes again.
pub open spec fn spec_restore_id(s: Seq<char>) -> Seq<char> {
    Seq::new(
        s.len(),
        |i: int|
            if s[i] == '_' {
                '/'
            } else {
                s[i]
            },
    )
}

/// Canonical file name of every variant of family `f`.
pub open spec fn spec_file_name(f: PhiFamily) -> Seq<char> {
    spec_sanitize_id(spec_model_name(f)) + ".onnx"@
}

/// Canonical path of every variant of family `f` under cache root `dir`.
pub open spec fn spec_model_path(dir: Seq<char>, f: PhiFamily) -> Seq<char> {
    dir + "/"@ + spec_file_name(f)
}

/// What has to happen so that a variant's artifact is materialized.
pub enum EnsureAction {
    /// The artifact is already present at its canonical path; nothing is to
    /// be fetched.
    Cached {
        /// The canonical path of the artifact.
        path: String,
    },
    /// The artifact is missing: fetch it from `repo`, write the bytes to
    /// `staging_path`, and atomically rename that file to `path`.  On
    /// failure remove the staging file; the canonical path must never hold a
    /// partial artifact.
    Fetch {
        /// External repository to fetch from.
        repo: String,
        /// Temporary path to write to; distinct from `path`.
        staging_path: String,
        /// The canonical path of the artifact.
        path: String,
    },
}

/// Plans fetches of model artifacts into a cache directory and records what
/// is materialized there.
pub struct PhiModelManager {
    cache_dir: String,
    entries: Vec<CacheEntry>,
}

impl View for PhiModelManager {
    type V = ManagerView;

    closed spec fn view(&self) -> ManagerView {
        ManagerView {
            cache_dir: self.cache_dir@,
            entries: Seq::new(self.entries@.len(), |i: int| self.entries@[i]@),
        }
    }
}

impl PhiModelManager {
    /// The identifiers of the recorded artifacts, in recording order.
    pub open spec fn spec_cached_ids(&self) -> Seq<Seq<char>> {
        Seq::new(self@.entries.len(), |i: int| self@.entries[i].0)
    }

    /// Whether the artifact of `m` is recorded as materialized.
    pub open spec fn spec_is_cached(&self, m: &PhiModel) -> bool {
        self.spec_cached_ids().contains(spec_model_name(m.family))
    }

    /// Internal consistency: one record per variant, and a total size that
    /// fits in a byte counter.
    pub open spec fn wf(&self) -> bool {
        &&& forall|i: int, j: int|
            0 <= i < j < self@.entries.len() ==> (#[trigger] self@.entries[i]).0 != (
            #[trigger] self@.entries[j]).0
        &&& spec_cache_size(self@.entries) <= u64::MAX
    }

    /// A fresh manager over `cache_dir`, with nothing recorded.
    pub fn new(cache_dir: String) -> (r: Self)
        ensures
            r@.cache_dir == cache_dir@,
            r@.entries == Seq::<(Seq<char>, u64)>::empty(),
            r.wf(),
    {
        let r = PhiModelManager { cache_dir, entries: Vec::new() };
        proof {
            assert(r@.entries =~= Seq::<(Seq<char>, u64)>::empty());
        }
        r
    }

    /// A manager over the standard cache location: the user's cache
    /// directory (or the current directory when the platform defines none),
    /// extended by a fixed application path.
    pub fn default() -> (r: Self)
        ensures
            exists|base: Seq<char>| r@.cache_dir == base + "/vibecode/phi-models"@,
            r@.entries == Seq::<(Seq<char>, u64)>::empty(),
            r.wf(),
    {
        let mut dir: String = match cache_base_dir() {
            Some(base) => base,
            None => ".".to_owned(),
        };
        let ghost base = dir@;
        dir.append("/vibecode/phi-models");
        let r = Self::new(dir);
        proof {
            assert(r@.cache_dir == base + "/vibecode/phi-models"@);
        }
        r
    }

    /// The cache root this manager was created over.
    pub fn cache_dir(&self) -> (r: &String)
        ensures
            r@ == self@.cache_dir,
    {
        &self.cache_dir
    }

    /// The artifacts recorded as materialized, in recording order.
    pub fn list_cached_models(&self) -> (r: Vec<String>)
        ensures
            r.deep_view() == self.spec_cached_ids(),
    {
        let mut out: Vec<String> = Vec::new();
        let n = self.entries.len();
        for i in 0..n
            invariant
                n == self.entries.len(),
                out.len() == i,
                forall|j: int| 0 <= j < i ==> out@[j]@ == self@.entries[j].0,
        {
            out.push(self.entries[i].id.clone());
        }
        proof {
            assert(out.deep_view() =~~= self.spec_cached_ids());
        }
        out
    }

    /// Canonical file name of `m`'s artifact.
    pub fn model_file_name(m: &PhiModel) -> (r: String)
        ensures
            r@ == spec_file_name(m.family),
    {
        let mut s = sanitize_id(m.model_name());
        s.append(".onnx");
        s
    }

    /// Canonical path of `m`'s artifact under this manager's cache root.
    /// The path depends only on the cache root and the variant's identifier,
    /// so the same identifier always resolves to the same path.
    pub fn model_path(&self, m: &PhiModel) -> (r: String)
        ensures
            r@ == spec_model_path(self@.cache_dir, m.family),
    {
        let mut s = self.cache_dir.clone();
        s.append("/");
        let file = Self::model_file_name(m);
        s.append(file.as_str());
        s
    }

    /// Whether the artifact of `m` is recorded as materialized.
    pub fn is_cached(&self, m: &PhiModel) -> (r: bool)
        ensures
            r == self.spec_is_cached(m),
    {
        let name = m.model_name();
        let n = self.entries.len();
        for i in 0..n
            invariant
                n == self.entries.len(),
                name@ == spec_model_name(m.family),
                forall|j: int| 0 <= j < i ==> self@.entries[j].0 != spec_model_name(m.family),
        {
            proof {
                assert(self@.entries[i as int] == self.entries@[i as int]@);
            }
            if str_eq(self.entries[i].id.as_str(), name) {
                assert(self.spec_cached_ids()[i as int] == spec_model_name(m.family));
                return true;
            }
        }
        assert(forall|j: int|
            0 <= j < self.spec_cached_ids().len() ==> #[trigger] self.spec_cached_ids()[j]
                != spec_model_name(m.family));
        false
    }

    /// Plans how to materialize `m`'s artifact: a recorded artifact is used
    /// as it is, otherwise the artifact is to be fetched from the variant's
    /// repository through a staging path distinct from the canonical one.
    pub fn ensure_model(&self, m: &PhiModel) -> (r: EnsureAction)
        ensures
            self.spec_is_cached(m) ==> (r matches EnsureAction::Cached { path } && path@
                == spec_model_path(self@.cache_dir, m.family)),
            !self.spec_is_cached(m) ==> (r matches EnsureAction::Fetch {
                repo,
                staging_path,
                path,
            } && repo@ == spec_hf_repo(m.family) && path@ == spec_model_path(
                self@.cache_dir,
                m.family,
            ) && staging_path@ == spec_model_path(self@.cache_dir, m.family) + ".part"@
                && staging_path@ != path@),
    {
        let path = self.model_path(m);
        if self.is_cached(m) {
            EnsureAction::Cached { path }
        } else {
            let mut staging_path = path.clone();
            staging_path.append(".part");
            proof {
                reveal_strlit(".part");
                assert(staging_path@.len() == path@.len() + 5);
            }
            EnsureAction::Fetch { repo: self.hf_repo_owned(m), staging_path, path }
        }
    }

    /// Records that a fetch of `m`'s artifact completed with `bytes` bytes
    /// written to the canonical path.
    pub fn record_fetched(&mut self, m: &PhiModel, bytes: u64)
        requires
            old(self).wf(),
            !old(self).spec_is_cached(m),
            spec_cache_size(old(self)@.entries) + bytes <= u64::MAX,
        ensures
            final(self)@.cache_dir == old(self)@.cache_dir,
            final(self)@.entries == old(self)@.entries.push(
                (spec_model_name(m.family), bytes),
            ),
            final(self).wf(),
            final(self).spec_is_cached(m),
    {
        let id = m.model_name().to_owned();
        self.entries.push(CacheEntry { id, bytes });
        proof {
            let new_entries = self@.entries;
            let old_entries = old(self)@.entries;
            assert(new_entries =~= old_entries.push((spec_model_name(m.family), bytes)));
            lemma_cache_size_push(old_entries, (spec_model_name(m.family), bytes));
            assert(forall|j: int|
                0 <= j < old_entries.len() ==> old(self).spec_cached_ids()[j] == (
                #[trigger] old_entries[j]).0);
            assert(self.spec_cached_ids()[old_entries.len() as int] == spec_model_name(m.family));
        }
    }

    /// Forgets every recorded artifact: afterwards no variant is cached.
    /// The caller removes the cache directory itself; removing the whole
    /// tree and starting over keeps the record and the directory in step.
    pub fn clear_cache(&mut self)
        ensures
            final(self)@.cache_dir == old(self)@.cache_dir,
            final(self)@.entries == Seq::<(Seq<char>, u64)>::empty(),
            forall|m: PhiModel| !final(self).spec_is_cached(&m),
            final(self).wf(),
    {
        self.entries.clear();
        proof {
            assert(self@.entries =~= Seq::<(Seq<char>, u64)>::empty());
        }
    }

    /// Total size in bytes of the recorded artifacts; zero when nothing is
    /// recorded.
    pub fn cache_size(&self) -> (r: u64)
        requires
            self.wf(),
        ensures
            r == spec_cache_size(self@.entries),
    {
        let mut total: u64 = 0;
        let n = self.entries.len();
        for i in 0..n
            invariant
                n == self.entries.len(),
                self.wf(),
                total == spec_cache_size(self@.entries.take(i as int)),
        {
            proof {
                assert(self@.entries.take(i + 1).drop_last() =~= self@.entries.take(i as int));
                assert(self@.entries.take(i + 1).last() == self@.entries[i as int]);
                lemma_cache_size_take(self@.entries, i + 1);
            }
            total = total + self.entries[i].bytes;
        }
        proof {
            assert(self@.entries.take(n as int) =~= self@.entries);
        }
        total
    }

    fn hf_repo_owned(&self, m: &PhiModel) -> (r: String)
        ensures
            r@ == spec_hf_repo(m.family),
    {
        m.hf_repo().to_owned()
    }
}

/// The variant identifier a cache file name stands for: file names carrying
/// the expected suffix are mapped back to an identifier, all others are
/// ignored.
pub open spec fn spec_cached_model_id(name: Seq<char>) -> Option<Seq<char>> {
    if spec_ends_with(name, ".onnx"@) {
        Some(spec_restore_id(name.take(name.len() - ".onnx"@.len())))
    } else {
        None
    }
}

/// Maps a file name found in the cache directory back to the variant
/// identifier it stands for, or `None` for a file that does not follow the
/// naming convention.
pub fn cached_model_id(name: &str) -> (r: Option<String>)
    ensures
        r matches Some(id) ==> Some(id@) == spec_cached_model_id(name@),
        r is None ==> spec_cached_model_id(name@) is None,
{
    proof {
        reveal_strlit(".onnx");
    }
    if !str_ends_with(name, ".onnx") {
        return None;
    }
    let n = name.unicode_len();
    let stem = name.substring_char(0, n - 5);
    let mut out = String::new();
    let m = stem.unicode_len();
    for i in 0..m
        invariant
            m == stem@.len(),
            out@ == spec_restore_id(stem@).take(i as int),
    {
        let c = stem.get_char(i);
        let rc = if c == '_' {
            '/'
        } else {
            c
        };
        push_char(&mut out, rc);
        proof {
            assert(spec_restore_id(stem@).take(i + 1) =~= spec_restore_id(stem@).take(
                i as int,
            ).push(spec_restore_id(stem@)[i as int]));
        }
    }
    proof {
        assert(spec_restore_id(stem@).take(m as int) =~= spec_restore_id(stem@));
        assert(stem@ =~= name@.take(name@.len() - 5));
    }
    Some(out)
}

fn sanitize_id(s: &str) -> (r: String)
    ensures
        r@ == spec_sanitize_id(s@),
{
    let mut out = String::new();
    let n = s.unicode_len();
    for i in 0..n
        invariant
            n == s@.len(),
            out@ == spec_sanitize_id(s@).take(i as int),
    {
        let c = s.get_char(i);
        let rc = if c == '/' {
            '_'
        } else {
            c
        };
        push_char(&mut out, rc);
        proof {
            assert(spec_sanitize_id(s@).take(i + 1) =~= spec_sanitize_id(s@).take(i as int).push(
                spec_sanitize_id(s@)[i as int],
            ));
        }
    }
    proof {
        assert(spec_sanitize_id(s@).take(n as int) =~= spec_sanitize_id(s@));
    }
    out
}

/// Relies on `dirs::cache_dir`: yields the platform's per-user cache
/// directory, if it defines one.  The result depends on the environment, so
/// nothing further is assumed of it.
#[verifier::external_body]
fn cache_base_dir() -> Option<String> {
    match dirs::cache_dir() {
        Some(p) => match p.to_str() {
            Some(s) => Some(s.to_owned()),
            None => None,
        },
        None => None,
    }
}

/// Recording a fetch makes the variant cached, whatever was recorded before:
/// together with the contract of `ensure_model` (a cached variant yields
/// `EnsureAction::Cached`), two `ensure_model` calls without an intervening
/// `clear_cache` perform at most one fetch.
pub proof fn lemma_second_ensure_is_cache_hit(
    before: PhiModelManager,
    after: PhiModelManager,
    model: PhiModel,
    bytes: u64,
)
    requires
        after@.entries == before@.entries.push((spec_model_name(model.family), bytes)),
    ensures
        after.spec_is_cached(&model),
{
    assert(after.spec_cached_ids()[before@.entries.len() as int] == spec_model_name(model.family));
}

/// Round trip of the size counter: recording a single artifact of `bytes`
/// bytes into an empty cache brings the total to exactly `bytes`, and an
/// empty cache always totals zero.
pub proof fn lemma_cache_size_round_trip(
    empty: PhiModelManager,
    after: PhiModelManager,
    model: PhiModel,
    bytes: u64,
)
    requires
        empty@.entries == Seq::<(Seq<char>, u64)>::empty(),
        after@.entries == empty@.entries.push((spec_model_name(model.family), bytes)),
    ensures
        spec_cache_size(empty@.entries) == 0,
        spec_cache_size(after@.entries) == bytes,
{
    lemma_cache_size_push(empty@.entries, (spec_model_name(model.family), bytes));
}

} // verus!
