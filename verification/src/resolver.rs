//! Resolution of a virtual folder path to a remote folder identifier.
//!
//! The remote drive is asked for a folder's metadata by path; a missing
//! folder is created under its parent, which may itself be missing, and so
//! on toward the root. Folder existence is checked and created in separate
//! requests without a lock, so a create can find its own parent gone; the
//! machine then restarts one level up, as the mutually recursive
//! resolve/create pair would. Each remaining request is one step shorter than
//! the last toward the root, so a resolution always takes finitely many
//! steps.
//!
//! The machine itself performs no request: it hands out a [`ResolveAction`],
//! the driver performs it and feeds back a [`ResolveOutcome`], until the
//! machine answers with the identifier or an error.

use vstd::prelude::*;
use vstd::string::StringExecFns;

use crate::error::Error;
use crate::paths::spec_render_path;
use crate::paths::valid_segment;
use crate::paths::DrivePath;

verus! {

/// The request the driver must perform next.
#[derive(Debug, Clone)]
pub enum ResolveAction {
    /// Fetch the drive root's metadata.
    LookupRoot,
    /// Fetch the metadata of this absolute folder path.
    LookupPath(DrivePath),
    /// Create a folder named `name` under the folder with id `parent_id`,
    /// replacing on conflict.
    CreateChild { parent_id: String, name: String },
}

/// What the remote answered, reduced to plain values.
#[derive(Debug, Clone)]
pub enum ResolveOutcome {
    /// The request succeeded and the response named this identifier.
    Found { id: String },
    /// The request answered not-found.
    NotFound,
    /// The request succeeded but the response named no identifier; the body
    /// text is carried for the error.
    NoId { context: String },
    /// The request failed in transport or with an unexpected status.
    Failed { message: String },
}

/// Where the machine stands on its target path.
#[derive(Debug, Clone, Copy, PartialEq, Eq, Structural)]
pub enum Phase {
    /// Awaiting the lookup of the target's prefix of this length.
    Descending { depth: usize },
    /// Awaiting the creation of the target's prefix of this length.
    Ascending { depth: usize },
}

/// What a step produced: the next action to perform, or the answer.
#[derive(Debug, Clone)]
pub enum ResolveStep {
    Next { resolver: Resolver, action: ResolveAction },
    Done { id: String },
}

/// The resolution machine: the absolute folder path being resolved and the
/// prefix currently in flight.
#[derive(Debug, Clone)]
pub struct Resolver {
    pub target: Vec<String>,
    pub phase: Phase,
}

/// The action that looks up the prefix of `segs` of length `depth`: the
/// drive-root lookup for the empty prefix, a by-path lookup otherwise.
pub open spec fn lookup_action_for(segs: Seq<Seq<char>>, depth: int, action: ResolveAction) -> bool {
    if depth == 0 {
        action is LookupRoot
    } else {
        action matches ResolveAction::LookupPath(p) && p.absolute && p.seg_views() == segs.subrange(
            0,
            depth,
        )
    }
}

/// The action that creates the prefix of `segs` of length `depth` under the
/// folder identified by `parent_id`.
pub open spec fn create_action_for(
    segs: Seq<Seq<char>>,
    depth: int,
    parent_id: Seq<char>,
    action: ResolveAction,
) -> bool {
    action matches ResolveAction::CreateChild { parent_id: pid, name } && pid@ == parent_id && name@
        == segs[depth - 1]
}

/// Clones the first `depth` segments.
fn clone_segments(segs: &Vec<String>, depth: usize) -> (r: Vec<String>)
    requires
        depth <= segs.len(),
    ensures
        r.deep_view() == segs.deep_view().subrange(0, depth as int),
{
    let mut r: Vec<String> = Vec::new();
    let mut i: usize = 0;
    while i < depth
        invariant
            0 <= i <= depth <= segs.len(),
            r.deep_view() =~= segs.deep_view().subrange(0, i as int),
        decreases depth - i,
    {
        let ghost pre = r.deep_view();
        r.push(segs[i].clone());
        proof {
            assert(r.deep_view() =~= pre.push(segs.deep_view()[i as int]));
        }
        i = i + 1;
    }
    proof {
        assert(r.deep_view() =~= segs.deep_view().subrange(0, depth as int));
    }
    r
}

/// Builds the lookup action for a prefix of the target.
fn lookup_action(target: &Vec<String>, depth: usize) -> (r: ResolveAction)
    requires
        depth <= target.len(),
    ensures
        lookup_action_for(target.deep_view(), depth as int, r),
{
    if depth == 0 {
        ResolveAction::LookupRoot
    } else {
        ResolveAction::LookupPath(
            DrivePath { absolute: true, segments: clone_segments(target, depth) },
        )
    }
}

/// The rendering of the root path alone.
fn root_string() -> (r: String)
    ensures
        r@ == seq!['/'],
{
    let r = String::from_str("/");
    proof {
        reveal_strlit("/");
        assert(r@ =~= seq!['/']);
    }
    r
}

impl Resolver {
    /// The target path's segments as character sequences.
    pub open spec fn target_views(&self) -> Seq<Seq<char>> {
        self.target.deep_view()
    }

    /// The in-flight prefix never reaches past the target, and a creation is
    /// always of a nonempty prefix.
    pub open spec fn wf(&self) -> bool {
        &&& forall|i: int|
            0 <= i < self.target_views().len() ==> valid_segment(#[trigger] self.target_views()[i])
        &&& match self.phase {
            Phase::Descending { depth } => depth <= self.target_views().len(),
            Phase::Ascending { depth } => 1 <= depth <= self.target_views().len(),
        }
    }

    /// Begins resolving an absolute folder path: the first request looks the
    /// whole path up.
    pub fn start(folder: &DrivePath) -> (r: (Resolver, ResolveAction))
        requires
            folder.absolute,
            folder.wf(),
        ensures
            r.0.wf(),
            r.0.target_views() == folder.seg_views(),
            r.0.phase matches Phase::Descending { depth } && depth == folder.seg_views().len(),
            lookup_action_for(folder.seg_views(), folder.seg_views().len() as int, r.1),
    {
        let len = folder.segments.len();
        let action = lookup_action(&folder.segments, len);
        let target = clone_segments(&folder.segments, len);
        proof {
            assert(target.deep_view() =~= folder.seg_views());
        }
        (Resolver { target, phase: Phase::Descending { depth: len } }, action)
    }

    /// Renders the target's prefix of length `depth` as an absolute path.
    fn render_prefix(&self, depth: usize) -> (r: String)
        requires
            depth <= self.target.len(),
        ensures
            r@ == spec_render_path(true, self.target_views().subrange(0, depth as int)),
    {
        let p = DrivePath { absolute: true, segments: clone_segments(&self.target, depth) };
        p.render()
    }

    /// Advances the machine by one answered request.
    ///
    /// A found identifier either answers the resolution (at the full target)
    /// or becomes the parent of the next missing folder to create. A
    /// not-found during lookup steps one level toward the root; a not-found
    /// during creation means the parent vanished concurrently, and the
    /// machine restarts one level up. A not-found at the root itself cannot
    /// be recovered. Failures surface as lookup or creation errors for the
    /// prefix in flight, and a success without an identifier as a parse
    /// error.
    pub fn step(&self, outcome: ResolveOutcome) -> (r: Result<ResolveStep, Error>)
        requires
            self.wf(),
        ensures
            match r {
                Ok(s) => match s {
                    ResolveStep::Done { id } => {
                        &&& outcome matches ResolveOutcome::Found { id: got } && got == id
                        &&& match self.phase {
                            Phase::Descending { depth } => depth == self.target_views().len(),
                            Phase::Ascending { depth } => depth == self.target_views().len(),
                        }
                    },
                    ResolveStep::Next { resolver, action } => resolver.wf() && match self.phase {
                        Phase::Descending { depth } => {
                            ||| {
                                &&& outcome matches ResolveOutcome::Found { id }
                                &&& depth < self.target_views().len()
                                &&& resolver.target_views() == self.target_views()
                                &&& resolver.phase matches Phase::Ascending { depth: d2 } && d2
                                    == depth + 1
                                &&& create_action_for(
                                    self.target_views(),
                                    depth + 1,
                                    id@,
                                    action,
                                )
                            }
                            ||| {
                                &&& outcome is NotFound
                                &&& depth >= 1
                                &&& resolver.target_views() == self.target_views()
                                &&& resolver.phase matches Phase::Descending { depth: d2 } && d2
                                    == depth - 1
                                &&& lookup_action_for(self.target_views(), depth - 1, action)
                            }
                        },
                        Phase::Ascending { depth } => {
                            ||| {
                                &&& outcome matches ResolveOutcome::Found { id }
                                &&& depth < self.target_views().len()
                                &&& resolver.target_views() == self.target_views()
                                &&& resolver.phase matches Phase::Ascending { depth: d2 } && d2
                                    == depth + 1
                                &&& create_action_for(
                                    self.target_views(),
                                    depth + 1,
                                    id@,
                                    action,
                                )
                            }
                            ||| {
                                &&& outcome is NotFound
                                &&& depth >= 2
                                &&& resolver.target_views() == self.target_views().subrange(
                                    0,
                                    depth - 1,
                                )
                                &&& resolver.phase matches Phase::Descending { depth: d2 } && d2
                                    == depth - 2
                                &&& lookup_action_for(self.target_views(), depth - 2, action)
                            }
                        },
                    },
                },
                Err(e) => match e {
                    Error::Parsing { context } => outcome matches ResolveOutcome::NoId {
                        context: c,
                    } && c == context,
                    Error::GetParentId { path, message } => {
                        &&& self.phase matches Phase::Descending { depth }
                        &&& outcome matches ResolveOutcome::Failed { message: m } && m == message
                        &&& path@ == spec_render_path(
                            true,
                            self.target_views().subrange(
                                0,
                                match self.phase {
                                    Phase::Descending { depth } => depth as int,
                                    Phase::Ascending { depth } => depth as int,
                                },
                            ),
                        )
                    },
                    Error::CreateDir { path, message } => {
                        &&& self.phase matches Phase::Ascending { depth }
                        &&& outcome matches ResolveOutcome::Failed { message: m } && m == message
                        &&& path@ == spec_render_path(
                            true,
                            self.target_views().subrange(
                                0,
                                match self.phase {
                                    Phase::Descending { depth } => depth as int,
                                    Phase::Ascending { depth } => depth as int,
                                },
                            ),
                        )
                    },
                    Error::InvalidPath { path } => {
                        &&& outcome is NotFound
                        &&& (self.phase matches Phase::Descending { depth: 0 } || self.phase
                            matches Phase::Ascending { depth: 1 })
                        &&& path@ == seq!['/']
                    },
                    _ => false,
                },
            },
    {
        match outcome {
            ResolveOutcome::NoId { context } => Err(Error::Parsing { context }),
            ResolveOutcome::Failed { message } => match self.phase {
                Phase::Descending { depth } => Err(
                    Error::GetParentId { path: self.render_prefix(depth), message },
                ),
                Phase::Ascending { depth } => Err(
                    Error::CreateDir { path: self.render_prefix(depth), message },
                ),
            },
            ResolveOutcome::Found { id } => {
                let depth = match self.phase {
                    Phase::Descending { depth } => depth,
                    Phase::Ascending { depth } => depth,
                };
                if depth == self.target.len() {
                    Ok(ResolveStep::Done { id })
                } else {
                    let name = self.target[depth].clone();
                    let resolver = Resolver {
                        target: clone_segments(&self.target, self.target.len()),
                        phase: Phase::Ascending { depth: depth + 1 },
                    };
                    proof {
                        assert(resolver.target_views() =~= self.target_views());
                    }
                    Ok(
                        ResolveStep::Next {
                            resolver,
                            action: ResolveAction::CreateChild { parent_id: id, name },
                        },
                    )
                }
            },
            ResolveOutcome::NotFound => match self.phase {
                Phase::Descending { depth } => {
                    if depth == 0 {
                        Err(Error::InvalidPath { path: root_string() })
                    } else {
                        let action = lookup_action(&self.target, depth - 1);
                        let resolver = Resolver {
                            target: clone_segments(&self.target, self.target.len()),
                            phase: Phase::Descending { depth: depth - 1 },
                        };
                        proof {
                            assert(resolver.target_views() =~= self.target_views());
                        }
                        Ok(ResolveStep::Next { resolver, action })
                    }
                },
                Phase::Ascending { depth } => {
                    if depth == 1 {
                        Err(Error::InvalidPath { path: root_string() })
                    } else {
                        let action = lookup_action(&self.target, depth - 2);
                        let resolver = Resolver {
                            target: clone_segments(&self.target, depth - 1),
                            phase: Phase::Descending { depth: depth - 2 },
                        };
                        Ok(ResolveStep::Next { resolver, action })
                    }
                },
            },
        }
    }
}

/// The status that answers a resolution request when it succeeds: a
/// metadata lookup answers "ok", a folder creation "created".
pub fn resolve_success(is_create: bool, status: u16) -> (r: bool)
    ensures
        r == (status == if is_create {
            201u16
        } else {
            200u16
        }),
{
    if is_create {
        status == 201
    } else {
        status == 200
    }
}

/// The remaining work of the machine, for termination measures: lookups
/// first walk down toward the root, creations then walk back up.
pub open spec fn phase_weight(st: Resolver) -> int {
    match st.phase {
        Phase::Descending { .. } => 1,
        Phase::Ascending { .. } => 0,
    }
}

/// How far the current walk still has to go.
pub open spec fn phase_progress(st: Resolver) -> int {
    match st.phase {
        Phase::Descending { depth } => depth as int,
        Phase::Ascending { depth } => st.target_views().len() - depth,
    }
}

/// Resolution against a drive that holds exactly the prefixes of the target
/// up to depth `existing_depth` issues one create-folder call per missing
/// path segment — for depths `existing_depth + 1` through the full length, in
/// that order, parents before children — and no other create.
///
/// The drive is modelled by its answers: a lookup of an existing prefix
/// finds it, a lookup of a missing one reports not-found, and every create
/// succeeds. The returned vector lists the depth of each created prefix in
/// the order the create calls were issued.
pub fn creates_for_missing(folder: &DrivePath, existing_depth: usize) -> (created: Vec<usize>)
    requires
        folder.absolute,
        folder.wf(),
        existing_depth <= folder.seg_views().len(),
    ensures
        created@.len() == folder.seg_views().len() - existing_depth,
        forall|i: int|
            0 <= i < created@.len() ==> #[trigger] created@[i] as int == existing_depth + 1 + i,
{
    let e = existing_depth;
    let ghost t = folder.seg_views();
    let ghost l = t.len();
    let (start_res, _start_act) = Resolver::start(folder);
    let mut st = start_res;
    let mut created: Vec<usize> = Vec::new();
    let mut done = false;
    while !done
        invariant
            st.wf(),
            e as int <= l,
            l == t.len(),
            st.target_views() == t,
            !done ==> match st.phase {
                Phase::Descending { depth } => e <= depth <= l && created@.len() == 0,
                Phase::Ascending { depth } => e + 1 <= depth <= l && created@.len() == depth - e
                    && forall|i: int|
                    0 <= i < created@.len() ==> #[trigger] created@[i] as int == e + 1 + i,
            },
            done ==> created@.len() == l - e && forall|i: int|
                0 <= i < created@.len() ==> #[trigger] created@[i] as int == e + 1 + i,
        decreases (if done {
            0int
        } else {
            1int
        }), phase_weight(st), phase_progress(st),
    {
        let outcome = match st.phase {
            Phase::Descending { depth } => if depth <= e {
                ResolveOutcome::Found { id: String::new() }
            } else {
                ResolveOutcome::NotFound
            },
            Phase::Ascending { depth: _ } => ResolveOutcome::Found { id: String::new() },
        };
        match st.step(outcome) {
            Ok(ResolveStep::Done { id: _ }) => {
                done = true;
            },
            Ok(ResolveStep::Next { resolver, action: _ }) => {
                match resolver.phase {
                    Phase::Ascending { depth } => {
                        created.push(depth);
                    },
                    Phase::Descending { depth: _ } => {},
                }
                st = resolver;
            },
            Err(_) => {
                proof {
                    assert(false);
                }
                done = true;
            },
        }
    }
    created
}

} // verus!
