//! The virtual-path model.
//!
//! A destination on the remote drive is a list of folder-name segments,
//! absolute or relative. The backend's configured root folder is absolute;
//! caller-supplied destinations must be relative and are joined beneath it.
//! [`calu_path`] splits that join into the parent folder to resolve and the
//! leaf name to upload as, rejecting absolute destinations before any request
//! is formed.

use vstd::prelude::*;
use vstd::string::StrSliceExecFns;
use vstd::string::StringExecFns;

use crate::error::Error;

verus! {

/// A folder-name segment is usable when it is nonempty and holds no
/// separator.
pub open spec fn valid_segment(s: Seq<char>) -> bool {
    s.len() > 0 && forall|i: int| 0 <= i < s.len() ==> #[trigger] s[i] != '/'
}

/// The segments joined with `/` separators, no leading or trailing separator.
pub open spec fn spec_join(segs: Seq<Seq<char>>) -> Seq<char>
    decreases segs.len(),
{
    if segs.len() == 0 {
        Seq::empty()
    } else if segs.len() == 1 {
        segs[0]
    } else {
        spec_join(segs.drop_last()) + seq!['/'] + segs.last()
    }
}

/// The textual rendering of a path: its segments joined with `/`, with a
/// leading `/` exactly when it is absolute.
pub open spec fn spec_render_path(absolute: bool, segs: Seq<Seq<char>>) -> Seq<char> {
    if absolute {
        seq!['/'] + spec_join(segs)
    } else {
        spec_join(segs)
    }
}

/// A path on the virtual filesystem: a run of folder-name segments, rooted or
/// relative.
#[derive(Debug, Clone)]
pub struct DrivePath {
    pub absolute: bool,
    pub segments: Vec<String>,
}

impl DrivePath {
    /// The segments as character sequences.
    pub open spec fn seg_views(&self) -> Seq<Seq<char>> {
        self.segments.deep_view()
    }

    /// Every segment is usable.
    pub open spec fn wf(&self) -> bool {
        forall|i: int| 0 <= i < self.seg_views().len() ==> valid_segment(#[trigger] self.seg_views()[i])
    }

    /// The textual rendering: segments joined with `/`, with a leading `/`
    /// exactly for an absolute path.
    pub open spec fn spec_render(&self) -> Seq<char> {
        spec_render_path(self.absolute, self.seg_views())
    }

    /// An empty path, rooted or relative.
    pub fn new(absolute: bool) -> (r: DrivePath)
        ensures
            r.absolute == absolute,
            r.seg_views() == Seq::<Seq<char>>::empty(),
            r.wf(),
    {
        let r = DrivePath { absolute, segments: Vec::new() };
        proof {
            assert(r.seg_views() =~= Seq::<Seq<char>>::empty());
        }
        r
    }

    /// Appends one segment, if it is usable; an unusable segment leaves the
    /// path unchanged.
    pub fn push_segment(&mut self, seg: String) -> (ok: bool)
        ensures
            ok == valid_segment(seg@),
            ok ==> final(self).absolute == old(self).absolute && final(self).seg_views() == old(
                self,
            ).seg_views().push(seg@),
            !ok ==> *final(self) == *old(self),
            old(self).wf() ==> final(self).wf(),
    {
        if !segment_is_valid(seg.as_str()) {
            return false;
        }
        let ghost pre = self.seg_views();
        self.segments.push(seg);
        proof {
            assert(self.seg_views() =~= pre.push(seg@));
        }
        true
    }

    /// Joins a relative path beneath this one.
    pub fn join(&self, other: &DrivePath) -> (r: DrivePath)
        requires
            !other.absolute,
        ensures
            r.absolute == self.absolute,
            r.seg_views() == self.seg_views() + other.seg_views(),
            self.wf() && other.wf() ==> r.wf(),
    {
        let mut segments: Vec<String> = Vec::new();
        let mut i: usize = 0;
        while i < self.segments.len()
            invariant
                0 <= i <= self.segments.len(),
                segments.deep_view() =~= self.seg_views().subrange(0, i as int),
            decreases self.segments.len() - i,
        {
            let ghost pre = segments.deep_view();
            segments.push(self.segments[i].clone());
            proof {
                assert(segments.deep_view() =~= pre.push(self.seg_views()[i as int]));
            }
            i = i + 1;
        }
        let mut j: usize = 0;
        while j < other.segments.len()
            invariant
                0 <= j <= other.segments.len(),
                segments.deep_view() =~= self.seg_views() + other.seg_views().subrange(
                    0,
                    j as int,
                ),
            decreases other.segments.len() - j,
        {
            let ghost pre = segments.deep_view();
            segments.push(other.segments[j].clone());
            proof {
                assert(segments.deep_view() =~= pre.push(other.seg_views()[j as int]));
            }
            j = j + 1;
        }
        let r = DrivePath { absolute: self.absolute, segments };
        proof {
            assert(r.seg_views() =~= self.seg_views() + other.seg_views());
        }
        r
    }

    /// Renders the path as text.
    pub fn render(&self) -> (r: String)
        ensures
            r@ == self.spec_render(),
    {
        let mut r = if self.absolute {
            let s = String::from_str("/");
            proof {
                reveal_strlit("/");
                assert(s@ =~= seq!['/']);
            }
            s
        } else {
            String::new()
        };
        let ghost lead = r@;
        let mut i: usize = 0;
        while i < self.segments.len()
            invariant
                0 <= i <= self.segments.len(),
                r@ =~= lead + spec_join(self.seg_views().subrange(0, i as int)),
            decreases self.segments.len() - i,
        {
            if i > 0 {
                r.append("/");
                proof {
                    reveal_strlit("/");
                }
            }
            r.append(self.segments[i].as_str());
            proof {
                let pre = self.seg_views().subrange(0, i as int);
                let cur = self.seg_views().subrange(0, i as int + 1);
                assert(cur.drop_last() =~= pre);
                assert(cur.last() == self.seg_views()[i as int]);
                if i > 0 {
                    assert(r@ =~= lead + spec_join(cur));
                } else {
                    assert(cur =~= seq![self.seg_views()[0]]);
                    assert(r@ =~= lead + spec_join(cur));
                }
            }
            i = i + 1;
        }
        proof {
            assert(self.seg_views().subrange(0, self.segments.len() as int) =~= self.seg_views());
            assert(r@ =~= self.spec_render());
        }
        r
    }
}

/// Whether one folder-name segment is usable.
fn segment_is_valid(s: &str) -> (r: bool)
    ensures
        r == valid_segment(s@),
{
    let len = s.unicode_len();
    if len == 0 {
        return false;
    }
    let mut i: usize = 0;
    while i < len
        invariant
            0 <= i <= len,
            len == s@.len(),
            forall|k: int| 0 <= k < i ==> #[trigger] s@[k] != '/',
        decreases len - i,
    {
        if s.get_char(i) == '/' {
            return false;
        }
        i = i + 1;
    }
    true
}

/// Splits the join of the configured root folder and a caller-supplied
/// destination into the parent folder to resolve and the leaf name to create.
///
/// An absolute destination is rejected here, before any request is formed, as
/// is a join with no leaf at all.
pub fn calu_path(root: &DrivePath, dest: &DrivePath) -> (r: Result<(DrivePath, String), Error>)
    requires
        root.wf(),
        dest.wf(),
    ensures
        match r {
            Ok((parent, leaf)) => {
                &&& !dest.absolute
                &&& root.seg_views().len() + dest.seg_views().len() > 0
                &&& parent.absolute == root.absolute
                &&& parent.wf()
                &&& parent.seg_views() == (root.seg_views() + dest.seg_views()).drop_last()
                &&& leaf@ == (root.seg_views() + dest.seg_views()).last()
                &&& valid_segment(leaf@)
            },
            Err(e) => {
                &&& dest.absolute || root.seg_views().len() + dest.seg_views().len() == 0
                &&& e matches Error::InvalidPath { path } && path@ == if dest.absolute {
                    dest.spec_render()
                } else {
                    spec_render_path(root.absolute, Seq::empty())
                }
            },
        },
{
    if dest.absolute {
        return Err(Error::InvalidPath { path: dest.render() });
    }
    let joined = root.join(dest);
    if joined.segments.len() == 0 {
        return Err(Error::InvalidPath { path: joined.render() });
    }
    let leaf = joined.segments[joined.segments.len() - 1].clone();
    let mut parent_segments: Vec<String> = Vec::new();
    let mut i: usize = 0;
    while i < joined.segments.len() - 1
        invariant
            joined.segments.len() > 0,
            0 <= i <= joined.segments.len() - 1,
            parent_segments.deep_view() =~= joined.seg_views().subrange(0, i as int),
        decreases joined.segments.len() - 1 - i,
    {
        let ghost pre = parent_segments.deep_view();
        parent_segments.push(joined.segments[i].clone());
        proof {
            assert(parent_segments.deep_view() =~= pre.push(joined.seg_views()[i as int]));
        }
        i = i + 1;
    }
    let parent = DrivePath { absolute: joined.absolute, segments: parent_segments };
    proof {
        assert(parent.seg_views() =~= (root.seg_views() + dest.seg_views()).drop_last());
        assert(leaf@ == (root.seg_views() + dest.seg_views()).last());
    }
    Ok((parent, leaf))
}

} // verus!
