use vstd::prelude::*;

verus! {

/// An absolute directory path: the drive label (empty where the system has no
/// drive letters) and the segments below the root, outermost first.
#[derive(Debug)]
pub struct AbsPath {
    pub drive: String,
    pub segments: Vec<String>,
}

/// The mathematical value of an [`AbsPath`].
pub ghost struct AbsPathView {
    pub drive: Seq<char>,
    pub segments: Seq<Seq<char>>,
}

impl View for AbsPath {
    type V = AbsPathView;

    open spec fn view(&self) -> AbsPathView {
        AbsPathView { drive: self.drive@, segments: self.segments.deep_view() }
    }
}

/// `home` is `p` itself or one of its ancestors.
pub open spec fn is_within(p: AbsPathView, home: AbsPathView) -> bool {
    &&& home.drive == p.drive
    &&& home.segments.len() <= p.segments.len()
    &&& p.segments.take(home.segments.len() as int) == home.segments
}

/// The directory that a path is displayed relative to, with the segments that
/// lead from it down to the current directory.
#[derive(Debug)]
pub enum Anchor {
    /// The home directory.
    Home(Vec<String>),
    /// The root of a repository, named by its last segment.
    Git(String, Vec<String>),
    /// The filesystem root, with its drive label.
    Root(String, Vec<String>),
}

/// The mathematical value of an [`Anchor`].
pub ghost enum AnchorView {
    Home(Seq<Seq<char>>),
    Git(Seq<char>, Seq<Seq<char>>),
    Root(Seq<char>, Seq<Seq<char>>),
}

impl View for Anchor {
    type V = AnchorView;

    open spec fn view(&self) -> AnchorView {
        match self {
            Anchor::Home(rel) => AnchorView::Home(rel.deep_view()),
            Anchor::Git(name, rel) => AnchorView::Git(name@, rel.deep_view()),
            Anchor::Root(drive, rel) => AnchorView::Root(drive@, rel.deep_view()),
        }
    }
}

/// Why no anchor could be given to a path.
#[derive(Clone, Copy, Debug, PartialEq, Eq, Structural)]
pub enum AnchorError {
    /// The repository marker sits at the filesystem root, which has no name to
    /// show for the repository.
    MalformedPath,
}

/// Copies the segments of `segs` from index `from` on.
pub fn segments_from(segs: &Vec<String>, from: usize) -> (r: Vec<String>)
    requires
        from <= segs.len(),
    ensures
        r.deep_view() == segs.deep_view().skip(from as int),
{
    let mut out: Vec<String> = Vec::new();
    let mut i: usize = from;
    while i < segs.len()
        invariant
            from <= i <= segs.len(),
            out.deep_view() == segs.deep_view().subrange(from as int, i as int),
        decreases segs.len() - i,
    {
        let seg = segs[i].clone();
        let ghost before = out@;
        out.push(seg);
        proof {
            assert(out@ == before.push(seg));
            assert(before.map_values(|s: String| s@) == segs.deep_view().subrange(from as int, i as int));
            assert(out.deep_view() =~= segs.deep_view().subrange(from as int, i + 1));
        }
        i = i + 1;
    }
    assert(segs.deep_view().skip(from as int) =~= segs.deep_view().subrange(
        from as int,
        segs.len() as int,
    ));
    out
}

} // verus!
