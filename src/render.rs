use vstd::prelude::*;
use crate::anchor::{determine_anchor, resolved};
use crate::path::{AbsPath, Anchor, AnchorError, AnchorView};
use crate::shorten::{shorten_relative, shortened};

verus! {

/// The icon shown before a path below the home directory.
pub open spec fn home_icon() -> Seq<char> {
    seq!['\u{f015}', ' ']
}

/// The icon shown before the name of a repository.
pub open spec fn git_icon() -> Seq<char> {
    seq!['\u{f02a2}', ' ']
}

/// The icon shown after the drive label of a path below the filesystem root.
pub open spec fn root_icon() -> Seq<char> {
    seq![]
}

/// The prompt text of an anchor: its icon and label, then the shortened
/// remainder. Only below the filesystem root does an empty remainder show as a
/// separator, and there the drive label comes before the icon.
pub open spec fn rendered(a: AnchorView) -> Seq<char> {
    match a {
        AnchorView::Home(rel) => home_icon() + shortened(rel, false),
        AnchorView::Git(name, rel) => git_icon() + name + shortened(rel, false),
        AnchorView::Root(drive, rel) => drive + root_icon() + shortened(rel, true),
    }
}

/// Builds the prompt text of an anchor.
pub fn render(a: &Anchor) -> (r: String)
    ensures
        r@ == rendered(a@),
{
    match a {
        Anchor::Home(rel) => {
            proof {
                reveal_strlit("\u{f015} ");
            }
            let mut s = String::from_str("\u{f015} ");
            assert(s@ =~= home_icon());
            let tail = shorten_relative(rel, false);
            s.append(tail.as_str());
            s
        },
        Anchor::Git(name, rel) => {
            proof {
                reveal_strlit("\u{f02a2} ");
            }
            let mut s = String::from_str("\u{f02a2} ");
            assert(s@ =~= git_icon());
            s.append(name.as_str());
            let tail = shorten_relative(rel, false);
            s.append(tail.as_str());
            s
        },
        Anchor::Root(drive, rel) => {
            proof {
                reveal_strlit("");
            }
            let mut s = drive.clone();
            s.append("");
            assert(s@ =~= drive@ + root_icon());
            let tail = shorten_relative(rel, true);
            s.append(tail.as_str());
            s
        },
    }
}

/// The prompt text for the directory `p`, given the home directory and which
/// directories on the way up from `p` hold a repository marker.
pub fn prompt(p: &AbsPath, home: &AbsPath, markers: &Vec<bool>) -> (r: Result<String, AnchorError>)
    ensures
        match r {
            Ok(s) => exists|v: AnchorView|
                resolved(p@, home@, markers@) == Ok::<AnchorView, AnchorError>(v) && s@ == rendered(v),
            Err(e) => resolved(p@, home@, markers@) == Err::<AnchorView, AnchorError>(e),
        },
{
    match determine_anchor(p, home, markers) {
        Ok(a) => Ok(render(&a)),
        Err(e) => Err(e),
    }
}

} // verus!
