//! Staleness of a compiled artifact with respect to its sources.
//!
//! A modification time is a number of nanoseconds relative to the Unix epoch;
//! `None` stands for a time that could not be read, whatever the reason.
//! Every doubt is resolved towards rebuilding: an unnecessary rebuild is
//! cheap, a stale artifact that is silently reused is not.

use vstd::prelude::*;

verus! {

/// What the modification times say about an artifact.
#[derive(Clone, Copy, Debug, PartialEq, Eq, Structural)]
pub enum Freshness {
    /// Every time was read and no source is newer than the artifact.
    Fresh,
    /// A source is strictly newer than the artifact.
    Stale,
    /// A time that the comparison needed could not be read.
    Unknown,
}

impl Freshness {
    /// Unknown counts as dirty: only a fresh artifact is kept.
    pub open spec fn demands_rebuild(self) -> bool {
        !(self is Fresh)
    }

    /// Collapses the three outcomes to the decision whether to rebuild.
    pub fn needs_rebuild(&self) -> (rebuild: bool)
        ensures
            rebuild == self.demands_rebuild(),
    {
        match self {
            Freshness::Fresh => false,
            Freshness::Stale => true,
            Freshness::Unknown => true,
        }
    }
}

/// Both times are known and the source is strictly newer than the artifact.
pub open spec fn newer(artifact: Option<i128>, source: Option<i128>) -> bool {
    artifact matches Some(a) && source matches Some(t) && t > a
}

/// Both times are known and the source is not newer than the artifact.
pub open spec fn not_newer(artifact: Option<i128>, source: Option<i128>) -> bool {
    artifact matches Some(a) && source matches Some(t) && t <= a
}

/// The verdict of one source against an artifact whose time is known.
pub open spec fn compare(artifact: i128, source: Option<i128>) -> Freshness {
    match source {
        None => Freshness::Unknown,
        Some(t) => if t > artifact {
            Freshness::Stale
        } else {
            Freshness::Fresh
        },
    }
}

/// The sources are examined in order and the first one that is not fresh
/// decides; an artifact whose own time is unknown decides before any source.
pub open spec fn freshness(artifact: Option<i128>, sources: Seq<Option<i128>>) -> Freshness
    decreases sources.len(),
{
    match artifact {
        None => Freshness::Unknown,
        Some(a) => if sources.len() == 0 {
            Freshness::Fresh
        } else if compare(a, sources[0]) is Fresh {
            freshness(artifact, sources.drop_first())
        } else {
            compare(a, sources[0])
        },
    }
}

/// The artifact has to be rebuilt: its time is unknown, or some source is
/// unreadable or strictly newer than it.
pub open spec fn is_stale(artifact: Option<i128>, sources: Seq<Option<i128>>) -> bool {
    match artifact {
        None => true,
        Some(a) => exists|i: int|
            0 <= i < sources.len() && !(#[trigger] compare(a, sources[i]) is Fresh),
    }
}

/// Classifies an artifact against the modification times of its sources.
pub fn classify(artifact: Option<i128>, sources: &[Option<i128>]) -> (verdict: Freshness)
    ensures
        verdict == freshness(artifact, sources@),
{
    let a: i128 = match artifact {
        Some(a) => a,
        None => {
            return Freshness::Unknown;
        },
    };
    let mut i: usize = 0;
    assert(sources@.skip(0) =~= sources@);
    while i < sources.len()
        invariant
            i <= sources.len(),
            artifact == Some(a),
            freshness(artifact, sources@) == freshness(artifact, sources@.skip(i as int)),
        decreases sources.len() - i,
    {
        let ghost rest = sources@.skip(i as int);
        assert(rest.drop_first() =~= sources@.skip(i + 1));
        assert(rest[0] == sources@[i as int]);
        match sources[i] {
            None => {
                return Freshness::Unknown;
            },
            Some(t) => {
                if a < t {
                    return Freshness::Stale;
                }
            },
        }
        i += 1;
    }
    Freshness::Fresh
}

/// Decides whether the artifact has to be rebuilt.
///
/// `artifact` is the modification time of the artifact, `sources` those of
/// its sources, in their order. The answer is `true` as soon as anything is
/// in doubt: an artifact whose time is unknown is rebuilt whatever the
/// sources are, and so is one with a source that is unreadable or newer,
/// wherever that source stands. Only where every time is known and no source
/// is newer than the artifact is the answer `false`.
pub fn needs_rebuild(artifact: Option<i128>, sources: &[Option<i128>]) -> (stale: bool)
    ensures
        stale == is_stale(artifact, sources@),
        stale == freshness(artifact, sources@).demands_rebuild(),
        artifact is None ==> stale,
        (exists|i: int| 0 <= i < sources@.len() && newer(artifact, #[trigger] sources@[i])) ==> stale,
        (artifact is Some && forall|i: int|
            0 <= i < sources@.len() ==> not_newer(artifact, #[trigger] sources@[i])) ==> !stale,
{
    proof {
        freshness_agrees_with_is_stale(artifact, sources@);
        if exists|i: int| 0 <= i < sources@.len() && newer(artifact, #[trigger] sources@[i]) {
            let i: int = choose|i: int|
                0 <= i < sources@.len() && newer(artifact, #[trigger] sources@[i]);
            newer_source_is_stale(artifact, sources@, i);
        }
        if artifact is Some && forall|i: int|
            0 <= i < sources@.len() ==> not_newer(artifact, #[trigger] sources@[i]) {
            older_sources_are_fresh(artifact.unwrap(), sources@);
        }
    }
    classify(artifact, sources).needs_rebuild()
}

/// The three-valued verdict and the boolean decision agree: an artifact is
/// rebuilt exactly when it is not found fresh.
pub proof fn freshness_agrees_with_is_stale(artifact: Option<i128>, sources: Seq<Option<i128>>)
    ensures
        freshness(artifact, sources).demands_rebuild() == is_stale(artifact, sources),
    decreases sources.len(),
{
    if let Some(a) = artifact {
        if sources.len() > 0 {
            let rest = sources.drop_first();
            freshness_agrees_with_is_stale(artifact, rest);
            if compare(a, sources[0]) is Fresh {
                if is_stale(artifact, rest) {
                    let j: int = choose|j: int|
                        0 <= j < rest.len() && !(#[trigger] compare(a, rest[j]) is Fresh);
                    assert(!(compare(a, sources[j + 1]) is Fresh));
                }
                if is_stale(artifact, sources) {
                    let j: int = choose|j: int|
                        0 <= j < sources.len() && !(#[trigger] compare(a, sources[j]) is Fresh);
                    assert(!(compare(a, rest[j - 1]) is Fresh));
                }
            } else {
                assert(!(compare(a, sources[0]) is Fresh));
            }
        }
    }
}

/// An artifact whose modification time cannot be read is rebuilt, whatever
/// the sources are, an empty list included.
pub proof fn unreadable_artifact_is_stale(sources: Seq<Option<i128>>)
    ensures
        is_stale(None, sources),
        freshness(None, sources) == Freshness::Unknown,
{
}

/// Where every time was read and no source is newer than the artifact,
/// nothing is rebuilt.
pub proof fn older_sources_are_fresh(artifact: i128, sources: Seq<Option<i128>>)
    requires
        forall|i: int| 0 <= i < sources.len() ==> not_newer(Some(artifact), #[trigger] sources[i]),
    ensures
        !is_stale(Some(artifact), sources),
        freshness(Some(artifact), sources) == Freshness::Fresh,
{
    assert forall|i: int| 0 <= i < sources.len() implies #[trigger] compare(
        artifact,
        sources[i],
    ) is Fresh by {
        assert(not_newer(Some(artifact), sources[i]));
    }
    freshness_agrees_with_is_stale(Some(artifact), sources);
}

/// One source that is newer than the artifact is enough for a rebuild,
/// wherever it stands in the list and whatever the other entries hold.
pub proof fn newer_source_is_stale(artifact: Option<i128>, sources: Seq<Option<i128>>, i: int)
    requires
        0 <= i < sources.len(),
        newer(artifact, sources[i]),
    ensures
        is_stale(artifact, sources),
        freshness(artifact, sources).demands_rebuild(),
{
    assert(!(compare(artifact.unwrap(), sources[i]) is Fresh));
    freshness_agrees_with_is_stale(artifact, sources);
}

} // verus!
