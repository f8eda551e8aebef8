use vstd::prelude::*;
use crate::path::{AbsPath, AbsPathView, Anchor, AnchorError, AnchorView, is_within, segments_from};

verus! {

/// `markers[k]` tells whether the directory made of the first `k` segments of
/// the path holds a repository marker; an entry past the end counts as no
/// marker.
pub open spec fn marker_at(markers: Seq<bool>, k: int) -> bool {
    0 <= k < markers.len() && markers[k]
}

/// The depth of the nearest directory at or above depth `k` that holds a
/// marker, searching upward from depth `k` to the root (depth 0).
pub open spec fn nearest_marker(markers: Seq<bool>, k: int) -> Option<int>
    decreases k + 1,
{
    if k < 0 {
        None
    } else if marker_at(markers, k) {
        Some(k)
    } else {
        nearest_marker(markers, k - 1)
    }
}

/// The search finds the deepest marker at or above depth `k`, and finds none
/// only where there is none.
pub proof fn lemma_nearest_marker(markers: Seq<bool>, k: int)
    ensures
        match nearest_marker(markers, k) {
            Some(d) => 0 <= d <= k && marker_at(markers, d) && forall|j: int|
                d < j <= k ==> !marker_at(markers, j),
            None => forall|j: int| 0 <= j <= k ==> !marker_at(markers, j),
        },
    decreases k + 1,
{
    if k >= 0 && !marker_at(markers, k) {
        lemma_nearest_marker(markers, k - 1);
    }
}

/// The anchor that a path gets, given where the markers are and the home
/// directory: the nearest repository root first, then the home directory,
/// then the filesystem root.
pub open spec fn resolved(p: AbsPathView, home: AbsPathView, markers: Seq<bool>) -> Result<
    AnchorView,
    AnchorError,
> {
    match nearest_marker(markers, p.segments.len() as int) {
        Some(d) => if d == 0 {
            Err(AnchorError::MalformedPath)
        } else {
            Ok(AnchorView::Git(p.segments[d - 1], p.segments.skip(d)))
        },
        None => if is_within(p, home) {
            Ok(AnchorView::Home(p.segments.skip(home.segments.len() as int)))
        } else {
            Ok(AnchorView::Root(p.drive, p.segments))
        },
    }
}

/// Walks upward from `p` and returns the depth of the first directory that
/// holds a repository marker, or `None` when the root is passed without one.
pub fn get_git_dir(p: &AbsPath, markers: &Vec<bool>) -> (r: Option<usize>)
    ensures
        match r {
            Some(d) => nearest_marker(markers@, p.segments.len() as int) == Some(d as int),
            None => nearest_marker(markers@, p.segments.len() as int) == None::<int>,
        },
{
    let mut k: usize = p.segments.len();
    loop
        invariant
            k <= p.segments.len(),
            nearest_marker(markers@, p.segments.len() as int) == nearest_marker(markers@, k as int),
        decreases k,
    {
        if k < markers.len() && markers[k] {
            return Some(k);
        }
        if k == 0 {
            assert(nearest_marker(markers@, -1) == None::<int>);
            return None;
        }
        k = k - 1;
    }
}

/// Places the path `p` under its anchor. `home` is the user's home directory
/// and `markers` tells which directories on the way up from `p` hold a
/// repository marker.
pub fn determine_anchor(p: &AbsPath, home: &AbsPath, markers: &Vec<bool>) -> (r: Result<
    Anchor,
    AnchorError,
>)
    ensures
        match r {
            Ok(a) => resolved(p@, home@, markers@) == Ok::<AnchorView, AnchorError>(a@),
            Err(e) => resolved(p@, home@, markers@) == Err::<AnchorView, AnchorError>(e),
        },
{
    proof {
        lemma_nearest_marker(markers@, p.segments.len() as int);
    }
    match get_git_dir(p, markers) {
        Some(d) => {
            if d == 0 {
                Err(AnchorError::MalformedPath)
            } else {
                let name = p.segments[d - 1].clone();
                Ok(Anchor::Git(name, segments_from(&p.segments, d)))
            }
        },
        None => {
            if home_contains(p, home) {
                Ok(Anchor::Home(segments_from(&p.segments, home.segments.len())))
            } else {
                let rel = segments_from(&p.segments, 0);
                assert(p@.segments.skip(0) =~= p@.segments);
                Ok(Anchor::Root(p.drive.clone(), rel))
            }
        },
    }
}

/// Whether `home` is `p` or one of its ancestors.
pub fn home_contains(p: &AbsPath, home: &AbsPath) -> (r: bool)
    ensures
        r == is_within(p@, home@),
{
    if home.drive != p.drive {
        return false;
    }
    let n = home.segments.len();
    if n > p.segments.len() {
        return false;
    }
    let mut i: usize = 0;
    while i < n
        invariant
            n == home.segments.len(),
            n <= p.segments.len(),
            i <= n,
            p@.segments.take(i as int) == home@.segments.take(i as int),
        decreases n - i,
    {
        if home.segments[i] != p.segments[i] {
            assert(p@.segments[i as int] != home@.segments[i as int]);
            assert(p@.segments.take(n as int)[i as int] != home@.segments[i as int]);
            return false;
        }
        assert(p@.segments.take(i + 1) =~= p@.segments.take(i as int).push(p@.segments[i as int]));
        assert(home@.segments.take(i + 1) =~= home@.segments.take(i as int).push(
            home@.segments[i as int],
        ));
        i = i + 1;
    }
    assert(home@.segments.take(n as int) =~= home@.segments);
    true
}

/// A path with no repository marker anywhere from itself up to the root, at
/// or below the home directory, is anchored at home, with the home segments
/// taken off the front.
pub proof fn lemma_home_without_repository(p: AbsPathView, home: AbsPathView, markers: Seq<bool>)
    requires
        forall|j: int| 0 <= j <= p.segments.len() ==> !marker_at(markers, j),
        is_within(p, home),
    ensures
        resolved(p, home, markers) == Ok::<AnchorView, AnchorError>(
            AnchorView::Home(p.segments.skip(home.segments.len() as int)),
        ),
{
    lemma_nearest_marker(markers, p.segments.len() as int);
}

/// When the nearest directory at or above a path that holds a marker is `d`
/// segments deep (and is not the root), the path is anchored at that
/// repository, named by its last segment, whatever the home directory is.
pub proof fn lemma_repository_first(
    p: AbsPathView,
    home: AbsPathView,
    markers: Seq<bool>,
    d: int,
)
    requires
        1 <= d <= p.segments.len(),
        marker_at(markers, d),
        forall|j: int| d < j <= p.segments.len() ==> !marker_at(markers, j),
    ensures
        resolved(p, home, markers) == Ok::<AnchorView, AnchorError>(
            AnchorView::Git(p.segments[d - 1], p.segments.skip(d)),
        ),
{
    lemma_nearest_marker(markers, p.segments.len() as int);
}

/// A path with no marker on the way up and outside the home directory is
/// anchored at the filesystem root, with its drive label and all its segments.
pub proof fn lemma_root_fallback(p: AbsPathView, home: AbsPathView, markers: Seq<bool>)
    requires
        forall|j: int| 0 <= j <= p.segments.len() ==> !marker_at(markers, j),
        !is_within(p, home),
    ensures
        resolved(p, home, markers) == Ok::<AnchorView, AnchorError>(
            AnchorView::Root(p.drive, p.segments),
        ),
{
    lemma_nearest_marker(markers, p.segments.len() as int);
}

} // verus!
