//! Build provenance: locating the source repository and registering each
//! distinct build fingerprint once.
use vstd::prelude::*;

verus! {

/// A build of the node: source-control identity, package version and
/// compiler identity, with the identifier of its stored record.
#[derive(Debug, PartialEq, Eq)]
pub struct GraphNodeVersion {
    pub id: i32,
    pub git_commit_hash: String,
    pub git_repository_dirty: bool,
    pub crate_version: String,
    pub major: i32,
    pub minor: i32,
    pub patch: i32,
    pub pre_release: String,
    pub rustc_version: String,
    pub rustc_host: String,
    pub rustc_channel: String,
}

/// `a` and `b` have the same build fingerprint: every field but the
/// identifier agrees.
pub open spec fn same_build(a: GraphNodeVersion, b: GraphNodeVersion) -> bool {
    &&& a.git_commit_hash@ == b.git_commit_hash@
    &&& a.git_repository_dirty == b.git_repository_dirty
    &&& a.crate_version@ == b.crate_version@
    &&& a.major == b.major
    &&& a.minor == b.minor
    &&& a.patch == b.patch
    &&& a.pre_release@ == b.pre_release@
    &&& a.rustc_version@ == b.rustc_version@
    &&& a.rustc_host@ == b.rustc_host@
    &&& a.rustc_channel@ == b.rustc_channel@
}

/// `p` is `start` with its last `k` components taken off and the repository
/// marker directory `.git` added.
pub open spec fn repository_path_is(p: Seq<String>, start: Seq<String>, k: int) -> bool {
    &&& p.len() == start.len() - k + 1
    &&& forall|j: int| 0 <= j < start.len() - k ==> #[trigger] p[j] == start[j]
    &&& p[start.len() - k]@ == ".git"@
}

impl GraphNodeVersion {
    /// Whether `self` and `other` have the same build fingerprint.
    pub fn same_build_as(&self, other: &GraphNodeVersion) -> (r: bool)
        ensures
            r == same_build(*self, *other),
    {
        self.git_commit_hash == other.git_commit_hash && self.git_repository_dirty
            == other.git_repository_dirty && self.crate_version == other.crate_version
            && self.major == other.major && self.minor == other.minor && self.patch == other.patch
            && self.pre_release == other.pre_release && self.rustc_version == other.rustc_version
            && self.rustc_host == other.rustc_host && self.rustc_channel == other.rustc_channel
    }

    /// Walks upward from the directory whose path components are
    /// `starting_path` to the nearest one that holds a `.git` directory, and
    /// returns the path of that `.git` directory. `marker_present[k]` tells
    /// whether the ancestor with the last `k` components taken off holds one;
    /// the last entry is for the root. `None` where no ancestor does.
    pub fn find_git_repository_path(
        starting_path: &Vec<String>,
        marker_present: &Vec<bool>,
    ) -> (r: Option<Vec<String>>)
        requires
            marker_present@.len() == starting_path@.len() + 1,
        ensures
            r is None <==> forall|k: int| 0 <= k < marker_present@.len() ==> !#[trigger] marker_present@[k],
            r matches Some(p) ==> exists|k: int|
                0 <= k < marker_present@.len() && marker_present@[k] && (forall|j: int|
                    0 <= j < k ==> !#[trigger] marker_present@[j]) && repository_path_is(
                    p@,
                    starting_path@,
                    k,
                ),
    {
        let n = starting_path.len();
        let m = marker_present.len();
        let mut k: usize = 0;
        while k < m
            invariant
                n == starting_path@.len(),
                m == n + 1,
                marker_present@.len() == n + 1,
                k <= n + 1,
                forall|j: int| 0 <= j < k ==> !#[trigger] marker_present@[j],
            decreases n + 1 - k,
        {
            if marker_present[k] {
                let keep = n - k;
                let mut p: Vec<String> = Vec::new();
                let mut j: usize = 0;
                while j < keep
                    invariant
                        keep == n - k,
                        k <= n,
                        n == starting_path@.len(),
                        j <= keep,
                        p@.len() == j,
                        forall|i: int| 0 <= i < j ==> #[trigger] p@[i] == starting_path@[i],
                    decreases keep - j,
                {
                    p.push(starting_path[j].clone());
                    j = j + 1;
                }
                p.push(".git".to_owned());
                assert(repository_path_is(p@, starting_path@, k as int));
                return Some(p);
            }
            k = k + 1;
        }
        None
    }
}

/// An in-memory model of the stored build records, one per distinct build
/// fingerprint. `create_or_get` states the rule that the store enforces with
/// a uniqueness constraint on the fingerprint and an upsert that returns the
/// existing record's identifier on conflict. A running build registers
/// itself against the store, not through this type.
pub struct VersionTable {
    pub rows: Vec<GraphNodeVersion>,
}

/// `rows` holds build `b`.
pub open spec fn has_build(rows: Seq<GraphNodeVersion>, b: GraphNodeVersion) -> bool {
    exists|i: int| 0 <= i < rows.len() && same_build(#[trigger] rows[i], b)
}

/// `r` is the identifier that registering build `b` in `old` returns, and
/// `new` the table afterwards: the identifier of the record with the same
/// fingerprint where there is one, with the table unchanged; else a new
/// record is added with the next identifier.
pub open spec fn registered(
    old: Seq<GraphNodeVersion>,
    b: GraphNodeVersion,
    new: Seq<GraphNodeVersion>,
    r: i32,
) -> bool {
    &&& exists|i: int| 0 <= i < new.len() && #[trigger] new[i].id == r && same_build(new[i], b)
    &&& has_build(old, b) ==> new == old
    &&& !has_build(old, b) ==> new.len() == old.len() + 1 && new.subrange(0, old.len() as int) == old
        && r == old.len() + 1
}

impl VersionTable {
    /// Record `i` has identifier `i + 1`, no two records share a
    /// fingerprint, and identifiers fit in an `i32`.
    pub open spec fn wf(&self) -> bool {
        rows_wf(self.rows@)
    }

    /// A table with no records.
    pub fn new() -> (r: VersionTable)
        ensures
            r.wf(),
            r.rows@.len() == 0,
    {
        VersionTable { rows: Vec::new() }
    }

    /// Registers the build `b`, whose own identifier is not read, and
    /// returns the identifier of its record: an existing record with the same
    /// fingerprint, else a new one. `None`, with the table unchanged, where a
    /// new record is needed and no identifier is left.
    pub fn create_or_get(&mut self, b: GraphNodeVersion) -> (r: Option<i32>)
        requires
            old(self).wf(),
        ensures
            final(self).wf(),
            r matches Some(id) ==> registered(old(self).rows@, b, final(self).rows@, id),
            r is None <==> !has_build(old(self).rows@, b) && old(self).rows@.len() >= i32::MAX,
            r is None ==> final(self).rows@ == old(self).rows@,
    {
        let mut i: usize = 0;
        while i < self.rows.len()
            invariant
                self.rows@ == old(self).rows@,
                self.wf(),
                i <= self.rows@.len(),
                forall|j: int| 0 <= j < i ==> !same_build(#[trigger] self.rows@[j], b),
            decreases self.rows@.len() - i,
        {
            if self.rows[i].same_build_as(&b) {
                assert(self.rows@[i as int].id == i + 1);
                return Some(self.rows[i].id);
            }
            i = i + 1;
        }
        let n = self.rows.len();
        if n >= i32::MAX as usize {
            return None;
        }
        let id = (n + 1) as i32;
        let ghost prev = self.rows@;
        self.rows.push(
            GraphNodeVersion {
                id,
                git_commit_hash: b.git_commit_hash,
                git_repository_dirty: b.git_repository_dirty,
                crate_version: b.crate_version,
                major: b.major,
                minor: b.minor,
                patch: b.patch,
                pre_release: b.pre_release,
                rustc_version: b.rustc_version,
                rustc_host: b.rustc_host,
                rustc_channel: b.rustc_channel,
            },
        );
        assert(self.rows@.subrange(0, prev.len() as int) =~= prev);
        assert(same_build(self.rows@[n as int], b));
        assert(self.rows@[n as int].id == id);
        assert(!has_build(prev, b));
        Some(id)
    }
}

/// Record `i` of `rows` has identifier `i + 1`, no two share a fingerprint,
/// and identifiers fit in an `i32`.
pub open spec fn rows_wf(rows: Seq<GraphNodeVersion>) -> bool {
    &&& rows.len() <= i32::MAX
    &&& forall|i: int| 0 <= i < rows.len() ==> #[trigger] rows[i].id == i + 1
    &&& forall|i: int, j: int|
        0 <= i < rows.len() && 0 <= j < rows.len() && i != j ==> !same_build(
            #[trigger] rows[i],
            #[trigger] rows[j],
        )
}

} // verus!
