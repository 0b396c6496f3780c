//! File-system and network permissions for sandboxed execution.
//!
//! Paths are compared component by component after a purely logical
//! normalisation that resolves `.` and `..` without touching the disk.

use vstd::prelude::*;
use crate::text::{chars_of, chars_eq, string_from_chars};

verus! {

/// One component of a path after the root: `..` or a name.
pub enum PathPart {
    Parent,
    Name(Vec<char>),
}

/// The mathematical form of a [`PathPart`].
pub enum Part {
    Parent,
    Name(Seq<char>),
}

impl View for PathPart {
    type V = Part;

    open spec fn view(&self) -> Part {
        match self {
            PathPart::Parent => Part::Parent,
            PathPart::Name(n) => Part::Name(n@),
        }
    }
}

pub open spec fn parts_view(v: Seq<PathPart>) -> Seq<Part> {
    v.map_values(|p: PathPart| p@)
}

/// The pieces of `s` between `/` separators, empty pieces included.
pub open spec fn split_segments(s: Seq<char>) -> Seq<Seq<char>>
    decreases s.len(),
{
    if s.len() == 0 {
        seq![Seq::<char>::empty()]
    } else {
        let prev = split_segments(s.drop_last());
        if s.last() == '/' {
            prev.push(Seq::<char>::empty())
        } else {
            prev.update(prev.len() - 1, prev.last().push(s.last()))
        }
    }
}

/// The component a segment stands for: empty pieces and `.` stand for none.
pub open spec fn segment_part(seg: Seq<char>) -> Option<Part> {
    if seg.len() == 0 || seg == seq!['.'] {
        None
    } else if seg == seq!['.', '.'] {
        Some(Part::Parent)
    } else {
        Some(Part::Name(seg))
    }
}

pub open spec fn option_seq(o: Option<Part>) -> Seq<Part> {
    match o {
        Some(p) => seq![p],
        None => Seq::empty(),
    }
}

/// The components of the segments, in order.
pub open spec fn segments_parts(segs: Seq<Seq<char>>) -> Seq<Part>
    decreases segs.len(),
{
    if segs.len() == 0 {
        Seq::empty()
    } else {
        segments_parts(segs.drop_last()) + option_seq(segment_part(segs.last()))
    }
}

/// A path is rooted when it starts with `/`.
pub open spec fn is_rooted(s: Seq<char>) -> bool {
    s.len() > 0 && s[0] == '/'
}

/// The components of a path string, after its root.
pub open spec fn path_parts(s: Seq<char>) -> Seq<Part> {
    segments_parts(split_segments(s))
}

/// One step of logical normalisation: `..` removes the previous name, stays
/// at the root, and is kept when there is nothing to remove (or only `..`).
pub open spec fn norm_step(root: bool, acc: Seq<Part>, p: Part) -> Seq<Part> {
    match p {
        Part::Parent => {
            if (!root && acc.len() == 0) || (acc.len() > 0 && acc.last() == Part::Parent) {
                acc.push(Part::Parent)
            } else if acc.len() == 0 {
                acc
            } else {
                acc.drop_last()
            }
        },
        Part::Name(n) => acc.push(Part::Name(n)),
    }
}

/// Normalisation of the components `parts` under a root (or not).
pub open spec fn normalize_parts(root: bool, parts: Seq<Part>) -> Seq<Part>
    decreases parts.len(),
{
    if parts.len() == 0 {
        Seq::empty()
    } else {
        norm_step(root, normalize_parts(root, parts.drop_last()), parts.last())
    }
}

/// The normal form of a path: whether it is rooted, and its components.
pub open spec fn normal_form(s: Seq<char>) -> (bool, Seq<Part>) {
    (is_rooted(s), normalize_parts(is_rooted(s), path_parts(s)))
}

/// Component-wise prefix: `base` is a leading part of `p`.
/// An empty relative base is a prefix of every path.
pub open spec fn path_starts_with(p: (bool, Seq<Part>), base: (bool, Seq<Part>)) -> bool {
    (!base.0 && base.1.len() == 0) || (p.0 == base.0 && base.1.len() <= p.1.len()
        && p.1.subrange(0, base.1.len() as int) == base.1)
}

/// A path is allowed when the list is not empty and the path, normalised,
/// lies under one of the listed paths, normalised.
pub open spec fn path_allowed(allowed: Seq<Seq<char>>, p: Seq<char>) -> bool {
    allowed.len() > 0 && exists|i: int|
        0 <= i < allowed.len() && path_starts_with(normal_form(p), #[trigger] normal_form(allowed[i]))
}

/// The text of a normal form: `/` for the root, components joined by `/`.
pub open spec fn render_parts(parts: Seq<Part>) -> Seq<char>
    decreases parts.len(),
{
    if parts.len() == 0 {
        Seq::empty()
    } else {
        let head = render_parts(parts.drop_last());
        let last = match parts.last() {
            Part::Parent => seq!['.', '.'],
            Part::Name(n) => n,
        };
        if parts.len() == 1 { last } else { head + seq!['/'] + last }
    }
}

pub open spec fn render_normal(n: (bool, Seq<Part>)) -> Seq<char> {
    if n.0 { seq!['/'] + render_parts(n.1) } else { render_parts(n.1) }
}

proof fn lemma_parts_push(v: Seq<PathPart>, p: PathPart)
    ensures
        parts_view(v.push(p)) =~= parts_view(v).push(p@),
{
}

/// Splits a path into its root flag and components.
pub fn split_path(path: &str) -> (res: (bool, Vec<PathPart>))
    ensures
        res.0 == is_rooted(path@),
        parts_view(res.1@) == path_parts(path@),
{
    let s = chars_of(path);
    let ghost sv = s@;
    let mut parts: Vec<PathPart> = Vec::new();
    let mut cur: Vec<char> = Vec::new();
    let mut i: usize = 0;
    assert(sv.take(0) =~= Seq::<char>::empty());
    while i < s.len()
        invariant
            sv == s@,
            i <= s@.len(),
            split_segments(sv.take(i as int)).len() > 0,
            cur@ == split_segments(sv.take(i as int)).last(),
            parts_view(parts@) == segments_parts(split_segments(sv.take(i as int)).drop_last()),
        decreases s.len() - i,
    {
        let ghost segs = split_segments(sv.take(i as int));
        assert(sv.take(i + 1).drop_last() =~= sv.take(i as int));
        let c = s[i];
        if c == '/' {
            let piece = segment_of(&cur);
            match piece {
                Some(p) => {
                    proof { lemma_parts_push(parts@, p); }
                    parts.push(p);
                },
                None => {},
            }
            assert(split_segments(sv.take(i + 1)).drop_last() =~= segs);
            assert(segs =~= segs.drop_last().push(segs.last()));
            cur = Vec::new();
        } else {
            cur.push(c);
            assert(split_segments(sv.take(i + 1)).drop_last() =~= segs.drop_last());
        }
        i += 1;
    }
    assert(sv.take(sv.len() as int) =~= sv);
    let ghost segs = split_segments(sv);
    assert(segs =~= segs.drop_last().push(segs.last()));
    let piece = segment_of(&cur);
    match piece {
        Some(p) => {
            proof { lemma_parts_push(parts@, p); }
            parts.push(p);
        },
        None => {},
    }
    let root = s.len() > 0 && s[0] == '/';
    (root, parts)
}


/// The component that one segment stands for, if any.
fn segment_of(seg: &Vec<char>) -> (r: Option<PathPart>)
    ensures
        match r {
            Some(p) => segment_part(seg@) == Some(p@),
            None => segment_part(seg@) is None,
        },
{
    if seg.len() == 0 {
        None
    } else if seg.len() == 1 && seg[0] == '.' {
        assert(seg@ =~= seq!['.']);
        None
    } else if seg.len() == 2 && seg[0] == '.' && seg[1] == '.' {
        assert(seg@ =~= seq!['.', '.']);
        Some(PathPart::Parent)
    } else {
        assert(seg@ != seq!['.']) by {
            if seg@ == seq!['.'] { assert(seg@.len() == 1); }
        }
        assert(seg@ != seq!['.', '.']) by {
            if seg@ == seq!['.', '.'] { assert(seg@.len() == 2); }
        }
        Some(PathPart::Name(seg.clone()))
    }
}

/// Logical normalisation of the components `parts` of a rooted (or relative) path.
pub fn normalize_components(root: bool, parts: &Vec<PathPart>) -> (r: Vec<PathPart>)
    ensures
        parts_view(r@) == normalize_parts(root, parts_view(parts@)),
{
    let mut acc: Vec<PathPart> = Vec::new();
    let mut i: usize = 0;
    while i < parts.len()
        invariant
            i <= parts@.len(),
            parts_view(acc@) == normalize_parts(root, parts_view(parts@).take(i as int)),
        decreases parts.len() - i,
    {
        let ghost pv = parts_view(parts@);
        assert(pv.take(i + 1).drop_last() =~= pv.take(i as int));
        assert(pv.take(i + 1).last() == parts@[i as int]@);
        let ghost before = parts_view(acc@);
        match &parts[i] {
            PathPart::Parent => {
                let n = acc.len();
                let last_is_parent = n > 0 && match &acc[n - 1] {
                    PathPart::Parent => true,
                    PathPart::Name(_) => false,
                };
                assert(n > 0 ==> before.last() == acc@[n - 1]@);
                if (!root && n == 0) || last_is_parent {
                    proof { lemma_parts_push(acc@, PathPart::Parent); }
                    acc.push(PathPart::Parent);
                } else if n == 0 {
                } else {
                    acc.pop();
                    assert(parts_view(acc@) =~= before.drop_last());
                }
            },
            PathPart::Name(nm) => {
                let q = PathPart::Name(nm.clone());
                proof { lemma_parts_push(acc@, q); }
                acc.push(q);
            },
        }
        i += 1;
    }
    assert(parts_view(parts@).take(parts@.len() as int) =~= parts_view(parts@));
    acc
}

/// The normal form of `path`: its root flag and normalised components.
pub fn normal_form_of(path: &str) -> (r: (bool, Vec<PathPart>))
    ensures
        (r.0, parts_view(r.1@)) == normal_form(path@),
{
    let (root, parts) = split_path(path);
    let n = normalize_components(root, &parts);
    (root, n)
}

fn part_eq(a: &PathPart, b: &PathPart) -> (r: bool)
    ensures
        r == (a@ == b@),
{
    match (a, b) {
        (PathPart::Parent, PathPart::Parent) => true,
        (PathPart::Name(x), PathPart::Name(y)) => chars_eq(x.as_slice(), y.as_slice()),
        _ => false,
    }
}

/// Component-wise prefix test on normal forms.
pub fn starts_with_normal(p: &(bool, Vec<PathPart>), base: &(bool, Vec<PathPart>)) -> (r: bool)
    ensures
        r == path_starts_with((p.0, parts_view(p.1@)), (base.0, parts_view(base.1@))),
{
    let ghost pv = parts_view(p.1@);
    let ghost bv = parts_view(base.1@);
    if !base.0 && base.1.len() == 0 {
        return true;
    }
    if p.0 != base.0 || base.1.len() > p.1.len() {
        return false;
    }
    let mut i: usize = 0;
    while i < base.1.len()
        invariant
            base.1@.len() <= p.1@.len(),
            i <= base.1@.len(),
            pv == parts_view(p.1@),
            bv == parts_view(base.1@),
            forall|j: int| 0 <= j < i ==> pv[j] == bv[j],
        decreases base.1.len() - i,
    {
        if !part_eq(&p.1[i], &base.1[i]) {
            assert(pv.subrange(0, bv.len() as int)[i as int] != bv[i as int]);
            return false;
        }
        i += 1;
    }
    assert(pv.subrange(0, bv.len() as int) =~= bv);
    true
}

fn render_into(root: bool, parts: &Vec<PathPart>) -> (r: Vec<char>)
    ensures
        r@ == render_normal((root, parts_view(parts@))),
{
    let mut out: Vec<char> = Vec::new();
    let mut i: usize = 0;
    while i < parts.len()
        invariant
            i <= parts@.len(),
            out@ == render_parts(parts_view(parts@).take(i as int)),
        decreases parts.len() - i,
    {
        let ghost pv = parts_view(parts@);
        assert(pv.take(i + 1).drop_last() =~= pv.take(i as int));
        assert(pv.take(i + 1).last() == parts@[i as int]@);
        if i > 0 {
            out.push('/');
        }
        match &parts[i] {
            PathPart::Parent => {
                out.push('.');
                out.push('.');
            },
            PathPart::Name(n) => {
                let mut k: usize = 0;
                let ghost start = out@;
                while k < n.len()
                    invariant
                        k <= n@.len(),
                        out@ == start + n@.take(k as int),
                    decreases n.len() - k,
                {
                    out.push(n[k]);
                    assert(n@.take(k + 1) =~= n@.take(k as int).push(n@[k as int]));
                    k += 1;
                }
                assert(n@.take(n@.len() as int) =~= n@);
            },
        }
        proof {
            let last = match pv[i as int] {
                Part::Parent => seq!['.', '.'],
                Part::Name(n) => n,
            };
            if i == 0 {
                assert(out@ =~= last);
            } else {
                assert(out@ =~= render_parts(pv.take(i as int)) + seq!['/'] + last);
            }
        }
        i += 1;
    }
    assert(parts_view(parts@).take(parts@.len() as int) =~= parts_view(parts@));
    if root {
        let mut full: Vec<char> = Vec::new();
        full.push('/');
        let mut k: usize = 0;
        while k < out.len()
            invariant
                k <= out@.len(),
                full@ == seq!['/'] + out@.take(k as int),
            decreases out.len() - k,
        {
            full.push(out[k]);
            assert(out@.take(k + 1) =~= out@.take(k as int).push(out@[k as int]));
            k += 1;
        }
        assert(out@.take(out@.len() as int) =~= out@);
        full
    } else {
        out
    }
}

/// Normalises a path logically, resolving `.` and `..` components.
///
/// `..` removes the preceding name, is dropped at the root, and is kept when
/// nothing precedes it (or only other `..`). The result is rendered with `/`.
pub fn normalize_path(path: &str) -> (r: String)
    ensures
        r@ == render_normal(normal_form(path@)),
{
    let (root, parts) = normal_form_of(path);
    let v = render_into(root, &parts);
    string_from_chars(v.as_slice())
}

/// Whether a path text begins with a `.` component (`.` alone or `./`), which
/// `Path::components` keeps as a leading current-directory component.
pub open spec fn leads_with_cur_dir(s: Seq<char>) -> bool {
    s.len() > 0 && s[0] == '.' && (s.len() == 1 || s[1] == '/')
}

/// What `std::path::Path` compares a path by: whether it has a root, whether
/// it begins with a `.` component, and its other components (no empty
/// pieces, no `.`, `..` kept).
pub open spec fn path_key(s: Seq<char>) -> (bool, bool, Seq<Part>) {
    (is_rooted(s), leads_with_cur_dir(s), path_parts(s))
}

/// Two path texts name the same path, component by component.
pub open spec fn same_path(a: Seq<char>, b: Seq<char>) -> bool {
    path_key(a) == path_key(b)
}

/// Some listed path is the same path as `p`.
pub open spec fn lists_path(paths: Seq<Seq<char>>, p: Seq<char>) -> bool {
    exists|i: int| 0 <= i < paths.len() && same_path(#[trigger] paths[i], p)
}

/// The list after adding `p`: unchanged when it already lists the same path.
pub open spec fn with_path(paths: Seq<Seq<char>>, p: Seq<char>) -> Seq<Seq<char>> {
    if lists_path(paths, p) { paths } else { paths.push(p) }
}

/// No two listed paths are the same path.
pub open spec fn distinct_paths(paths: Seq<Seq<char>>) -> bool {
    forall|i: int, j: int| 0 <= i < j < paths.len() ==> !same_path(#[trigger] paths[i], #[trigger] paths[j])
}

/// The comparison key of a path text.
pub fn path_key_of(path: &str) -> (r: (bool, bool, Vec<PathPart>))
    ensures
        (r.0, r.1, parts_view(r.2@)) == path_key(path@),
{
    let (root, parts) = split_path(path);
    let v = chars_of(path);
    let cur = v.len() > 0 && v[0] == '.' && (v.len() == 1 || v[1] == '/');
    (root, cur, parts)
}

/// Component sequences are equal.
fn parts_eq(a: &Vec<PathPart>, b: &Vec<PathPart>) -> (r: bool)
    ensures
        r == (parts_view(a@) == parts_view(b@)),
{
    let ghost av = parts_view(a@);
    let ghost bv = parts_view(b@);
    if a.len() != b.len() {
        assert(av.len() != bv.len());
        return false;
    }
    let mut i: usize = 0;
    while i < a.len()
        invariant
            a@.len() == b@.len(),
            i <= a@.len(),
            av == parts_view(a@),
            bv == parts_view(b@),
            forall|j: int| 0 <= j < i ==> av[j] == bv[j],
        decreases a.len() - i,
    {
        if !part_eq(&a[i], &b[i]) {
            assert(av[i as int] != bv[i as int]);
            return false;
        }
        i += 1;
    }
    assert(av =~= bv);
    true
}

/// Permission set for sandbox execution.
#[derive(Clone, Debug)]
pub struct PermissionSet {
    /// List of allowed file system paths.
    pub allowed_paths: Vec<String>,
    /// Whether network access is permitted.
    pub network_allowed: bool,
}

impl PermissionSet {
    /// The allowed paths, as character sequences.
    pub open spec fn allowed_view(&self) -> Seq<Seq<char>> {
        self.allowed_paths@.map_values(|s: String| s@)
    }

    /// Creates a new permission set.
    pub fn new(allowed_paths: Vec<String>, network_allowed: bool) -> (r: Self)
        ensures
            r.allowed_paths@ == allowed_paths@,
            r.network_allowed == network_allowed,
    {
        PermissionSet { allowed_paths, network_allowed }
    }

    /// Whether a file path is allowed: the set is not empty and the path,
    /// normalised, lies under one of the allowed paths, normalised.
    pub fn check_path(&self, path: &str) -> (r: bool)
        ensures
            r == path_allowed(self.allowed_view(), path@),
    {
        let ghost av = self.allowed_view();
        if self.allowed_paths.len() == 0 {
            return false;
        }
        let target = normal_form_of(path);
        let mut i: usize = 0;
        while i < self.allowed_paths.len()
            invariant
                i <= self.allowed_paths@.len(),
                av == self.allowed_view(),
                (target.0, parts_view(target.1@)) == normal_form(path@),
                forall|j: int| 0 <= j < i ==> !path_starts_with(normal_form(path@), #[trigger] normal_form(av[j])),
            decreases self.allowed_paths.len() - i,
        {
            let base = normal_form_of(self.allowed_paths[i].as_str());
            assert(av[i as int] == self.allowed_paths@[i as int]@);
            if starts_with_normal(&target, &base) {
                return true;
            }
            i += 1;
        }
        false
    }

    /// Whether network access is allowed.
    pub fn check_network(&self) -> (r: bool)
        ensures
            r == self.network_allowed,
    {
        self.network_allowed
    }

    /// Adds an allowed path unless one equal to it as a path is already
    /// listed. Paths are equal as `std::path::Path` compares them: by their
    /// components, so repeated and trailing `/` and inner `.` make no
    /// difference, while `..` is kept (see [`same_path`]).
    pub fn add_path(&mut self, path: String)
        ensures
            final(self).network_allowed == old(self).network_allowed,
            final(self).allowed_view() == with_path(old(self).allowed_view(), path@),
            lists_path(old(self).allowed_view(), path@) ==> final(self).allowed_paths@ == old(self).allowed_paths@,
            !lists_path(old(self).allowed_view(), path@) ==> final(self).allowed_paths@ == old(self).allowed_paths@.push(path),
    {
        let ghost av = self.allowed_view();
        let key = path_key_of(path.as_str());
        let mut i: usize = 0;
        while i < self.allowed_paths.len()
            invariant
                i <= self.allowed_paths@.len(),
                av == self.allowed_view(),
                (key.0, key.1, parts_view(key.2@)) == path_key(path@),
                forall|j: int| 0 <= j < i ==> !same_path(#[trigger] av[j], path@),
            decreases self.allowed_paths.len() - i,
        {
            let other = path_key_of(self.allowed_paths[i].as_str());
            assert(av[i as int] == self.allowed_paths@[i as int]@);
            if other.0 == key.0 && other.1 == key.1 && parts_eq(&other.2, &key.2) {
                assert(same_path(av[i as int], path@));
                return;
            }
            i += 1;
        }
        assert(!lists_path(av, path@));
        self.allowed_paths.push(path);
        assert(self.allowed_view() =~= av.push(path@));
    }

    /// Enables network access.
    pub fn enable_network(&mut self)
        ensures
            final(self).network_allowed,
            final(self).allowed_paths@ == old(self).allowed_paths@,
    {
        self.network_allowed = true;
    }

    /// Disables network access.
    pub fn disable_network(&mut self)
        ensures
            !final(self).network_allowed,
            final(self).allowed_paths@ == old(self).allowed_paths@,
    {
        self.network_allowed = false;
    }
}


impl Default for PermissionSet {
    /// No allowed paths and no network access.
    fn default() -> (r: Self)
        ensures
            r.allowed_paths@.len() == 0,
            !r.network_allowed,
    {
        PermissionSet { allowed_paths: Vec::new(), network_allowed: false }
    }
}

/// A normal form holds no `..` component.
pub open spec fn no_parent(parts: Seq<Part>) -> bool {
    forall|i: int| 0 <= i < parts.len() ==> parts[i] != Part::Parent
}

proof fn lemma_rooted_normalize_no_parent(parts: Seq<Part>)
    ensures
        no_parent(normalize_parts(true, parts)),
    decreases parts.len(),
{
    if parts.len() > 0 {
        lemma_rooted_normalize_no_parent(parts.drop_last());
        let acc = normalize_parts(true, parts.drop_last());
        let r = norm_step(true, acc, parts.last());
        assert forall|i: int| 0 <= i < r.len() implies r[i] != Part::Parent by {
            if i < acc.len() {
                assert(r[i] == acc[i]);
            }
        }
    }
}

/// Law: with no allowed paths, no path is allowed.
pub proof fn law_empty_set_denies_all(p: Seq<char>)
    ensures
        !path_allowed(Seq::<Seq<char>>::empty(), p),
{
}

/// Law: a listed path is itself allowed (every path lies under itself).
pub proof fn law_listed_path_is_allowed(allowed: Seq<Seq<char>>, p: Seq<char>)
    requires
        allowed.contains(p),
    ensures
        path_allowed(allowed, p),
{
    let i = choose|i: int| 0 <= i < allowed.len() && allowed[i] == p;
    let n = normal_form(p);
    assert(n.1.subrange(0, n.1.len() as int) =~= n.1);
    assert(path_starts_with(normal_form(p), normal_form(allowed[i])));
}

/// Law: listing one more path never withdraws a permission.
pub proof fn law_adding_a_path_keeps_permissions(allowed: Seq<Seq<char>>, extra: Seq<char>, p: Seq<char>)
    requires
        path_allowed(allowed, p),
    ensures
        path_allowed(allowed.push(extra), p),
{
    let i = choose|i: int|
        0 <= i < allowed.len() && path_starts_with(normal_form(p), #[trigger] normal_form(allowed[i]));
    assert(allowed.push(extra)[i] == allowed[i]);
}

/// Law: `..` cannot escape an absolute allowed directory. When every allowed
/// path is absolute, an allowed path normalises to an absolute path with no
/// `..` component whose leading components are those of an allowed path.
pub proof fn law_traversal_stays_inside(allowed: Seq<Seq<char>>, p: Seq<char>)
    requires
        forall|i: int| 0 <= i < allowed.len() ==> is_rooted(#[trigger] allowed[i]),
        path_allowed(allowed, p),
    ensures
        normal_form(p).0,
        no_parent(normal_form(p).1),
        exists|i: int| 0 <= i < allowed.len() && {
            let base = #[trigger] normal_form(allowed[i]).1;
            &&& base.len() <= normal_form(p).1.len()
            &&& normal_form(p).1.subrange(0, base.len() as int) == base
        },
{
    let i = choose|i: int|
        0 <= i < allowed.len() && path_starts_with(normal_form(p), #[trigger] normal_form(allowed[i]));
    assert(is_rooted(allowed[i]));
    assert(normal_form(p).0);
    lemma_rooted_normalize_no_parent(path_parts(p));
}

/// Law: adding a path twice is the same as adding it once.
pub proof fn law_add_path_is_idempotent(paths: Seq<Seq<char>>, p: Seq<char>)
    ensures
        with_path(with_path(paths, p), p) == with_path(paths, p),
{
    if !lists_path(paths, p) {
        let q = paths.push(p);
        assert(same_path(q[paths.len() as int], p));
    }
}

/// Law: adding a path never lists the same path twice.
pub proof fn law_add_path_keeps_paths_distinct(paths: Seq<Seq<char>>, p: Seq<char>)
    requires
        distinct_paths(paths),
    ensures
        distinct_paths(with_path(paths, p)),
{
    if !lists_path(paths, p) {
        let q = paths.push(p);
        assert forall|i: int, j: int| 0 <= i < j < q.len() implies !same_path(#[trigger] q[i], #[trigger] q[j]) by {
            if j == paths.len() {
                assert(q[i] == paths[i]);
            } else {
                assert(q[i] == paths[i] && q[j] == paths[j]);
            }
        }
    }
}

/// A component of a normal form: `..`, or a non-empty name other than `.`
/// and `..` with no `/` in it.
pub open spec fn proper_part(p: Part) -> bool {
    match p {
        Part::Parent => true,
        Part::Name(n) => n.len() > 0 && n != seq!['.'] && n != seq!['.', '.']
            && forall|k: int| 0 <= k < n.len() ==> n[k] != '/',
    }
}

/// Every component is proper.
pub open spec fn proper_parts(ps: Seq<Part>) -> bool {
    forall|i: int| 0 <= i < ps.len() ==> proper_part(#[trigger] ps[i])
}

/// Where `..` may stand in a normal form: nowhere under a root, and only in
/// front of every name in a relative path.
pub open spec fn parents_lead(root: bool, ps: Seq<Part>) -> bool {
    if root {
        no_parent(ps)
    } else {
        forall|i: int, j: int| #![trigger ps[i], ps[j]] 0 <= i < j < ps.len() && ps[j] == Part::Parent ==> ps[i] == Part::Parent
    }
}

/// No piece of a split holds a `/`.
pub open spec fn slash_free(segs: Seq<Seq<char>>) -> bool {
    forall|k: int, c: int| 0 <= k < segs.len() && 0 <= c < segs[k].len() ==> #[trigger] segs[k][c] != '/'
}

proof fn lemma_split_shape(s: Seq<char>)
    ensures
        split_segments(s).len() >= 1,
        slash_free(split_segments(s)),
    decreases s.len(),
{
    if s.len() > 0 {
        lemma_split_shape(s.drop_last());
        let prev = split_segments(s.drop_last());
        let r = split_segments(s);
        if s.last() != '/' {
            assert forall|k: int, c: int| 0 <= k < r.len() && 0 <= c < r[k].len() implies #[trigger] r[k][c] != '/' by {
                if k < prev.len() - 1 {
                    assert(r[k] == prev[k]);
                } else if c < prev.last().len() {
                    assert(r[k][c] == prev[k][c]);
                }
            }
        } else {
            assert forall|k: int, c: int| 0 <= k < r.len() && 0 <= c < r[k].len() implies #[trigger] r[k][c] != '/' by {
                assert(r[k] == prev[k]);
            }
        }
    }
}

proof fn lemma_segments_proper(segs: Seq<Seq<char>>)
    requires
        slash_free(segs),
    ensures
        proper_parts(segments_parts(segs)),
    decreases segs.len(),
{
    if segs.len() > 0 {
        let d = segs.drop_last();
        assert forall|k: int, c: int| 0 <= k < d.len() && 0 <= c < d[k].len() implies #[trigger] d[k][c] != '/' by {
            assert(d[k][c] == segs[k][c]);
        }
        lemma_segments_proper(d);
        let head = segments_parts(d);
        let tail = option_seq(segment_part(segs.last()));
        let r = segments_parts(segs);
        assert(r == head + tail);
        assert forall|i: int| 0 <= i < r.len() implies proper_part(#[trigger] r[i]) by {
            if i < head.len() {
                assert(r[i] == head[i]);
            } else {
                let w = segs.last();
                assert(forall|c: int| 0 <= c < w.len() ==> w[c] == segs[segs.len() - 1][c]);
            }
        }
    }
}

proof fn lemma_normalize_shape(root: bool, parts: Seq<Part>)
    requires
        proper_parts(parts),
    ensures
        proper_parts(normalize_parts(root, parts)),
        parents_lead(root, normalize_parts(root, parts)),
    decreases parts.len(),
{
    if parts.len() > 0 {
        let d = parts.drop_last();
        assert forall|i: int| 0 <= i < d.len() implies proper_part(#[trigger] d[i]) by {
            assert(d[i] == parts[i]);
        }
        lemma_normalize_shape(root, d);
        let acc = normalize_parts(root, d);
        let r = normalize_parts(root, parts);
        assert(r == norm_step(root, acc, parts.last()));
        assert(proper_part(parts[parts.len() - 1]));
        match parts.last() {
            Part::Parent => {
                if (!root && acc.len() == 0) || (acc.len() > 0 && acc.last() == Part::Parent) {
                    assert(r == acc.push(Part::Parent));
                    if root {
                        assert(acc[acc.len() - 1] != Part::Parent);
                    }
                    assert forall|i: int| 0 <= i < r.len() implies proper_part(#[trigger] r[i]) by {
                        if i < acc.len() { assert(r[i] == acc[i]); }
                    }
                    if !root {
                        assert forall|i: int, j: int| #![trigger r[i], r[j]] 0 <= i < j < r.len() && r[j] == Part::Parent
                            implies r[i] == Part::Parent by {
                            assert(r[i] == acc[i]);
                            if j < acc.len() {
                                assert(r[j] == acc[j]);
                            } else if i < acc.len() - 1 {
                                assert(acc[acc.len() - 1] == Part::Parent);
                            }
                        }
                    }
                } else if acc.len() == 0 {
                } else {
                    assert(r == acc.drop_last());
                    assert forall|i: int| 0 <= i < r.len() implies proper_part(#[trigger] r[i]) by {
                        assert(r[i] == acc[i]);
                    }
                    if root {
                        assert forall|i: int| 0 <= i < r.len() implies r[i] != Part::Parent by {
                            assert(r[i] == acc[i]);
                        }
                    } else {
                        assert forall|i: int, j: int| #![trigger r[i], r[j]] 0 <= i < j < r.len() && r[j] == Part::Parent
                            implies r[i] == Part::Parent by {
                            assert(r[i] == acc[i] && r[j] == acc[j]);
                        }
                    }
                }
            },
            Part::Name(n) => {
                assert(r == acc.push(Part::Name(n)));
                assert forall|i: int| 0 <= i < r.len() implies proper_part(#[trigger] r[i]) by {
                    if i < acc.len() { assert(r[i] == acc[i]); }
                }
                if root {
                    assert forall|i: int| 0 <= i < r.len() implies r[i] != Part::Parent by {
                        if i < acc.len() { assert(r[i] == acc[i]); }
                    }
                } else {
                    assert forall|i: int, j: int| #![trigger r[i], r[j]] 0 <= i < j < r.len() && r[j] == Part::Parent
                        implies r[i] == Part::Parent by {
                        assert(r[i] == acc[i]);
                        if j < acc.len() { assert(r[j] == acc[j]); }
                    }
                }
            },
        }
    }
}

proof fn lemma_normalize_fixed(root: bool, ps: Seq<Part>)
    requires
        parents_lead(root, ps),
    ensures
        normalize_parts(root, ps) == ps,
    decreases ps.len(),
{
    if ps.len() > 0 {
        let d = ps.drop_last();
        if root {
            assert forall|i: int| 0 <= i < d.len() implies d[i] != Part::Parent by {
                assert(d[i] == ps[i]);
            }
        } else {
            assert forall|i: int, j: int| #![trigger d[i], d[j]] 0 <= i < j < d.len() && d[j] == Part::Parent
                implies d[i] == Part::Parent by {
                assert(d[i] == ps[i] && d[j] == ps[j]);
            }
        }
        lemma_normalize_fixed(root, d);
        match ps.last() {
            Part::Parent => {
                assert(ps[ps.len() - 1] == Part::Parent);
                assert(!root);
                if d.len() > 0 {
                    assert(ps[d.len() - 1] == Part::Parent);
                }
                assert(d.push(Part::Parent) =~= ps);
            },
            Part::Name(n) => {
                assert(d.push(Part::Name(n)) =~= ps);
            },
        }
    }
}

proof fn lemma_split_append(a: Seq<char>, b: Seq<char>)
    ensures
        split_segments(a + seq!['/'] + b) == split_segments(a) + split_segments(b),
    decreases b.len(),
{
    let x = a + seq!['/'] + b;
    if b.len() == 0 {
        assert(x.drop_last() =~= a);
        assert(x.last() == '/');
        assert(split_segments(b) =~= seq![Seq::<char>::empty()]);
        assert(split_segments(x) =~= split_segments(a) + split_segments(b));
    } else {
        let b1 = b.drop_last();
        lemma_split_append(a, b1);
        lemma_split_shape(b1);
        assert(x.drop_last() =~= a + seq!['/'] + b1);
        assert(x.last() == b.last());
        let prev = split_segments(a) + split_segments(b1);
        if b.last() == '/' {
            assert(split_segments(x) =~= prev.push(Seq::<char>::empty()));
            assert(split_segments(x) =~= split_segments(a) + split_segments(b));
        } else {
            let sb = split_segments(b1);
            assert(split_segments(b) == sb.update(sb.len() - 1, sb.last().push(b.last())));
            assert(prev.last() == sb.last());
            assert(split_segments(x) =~= split_segments(a) + split_segments(b));
        }
    }
}

proof fn lemma_split_word(w: Seq<char>)
    requires
        forall|c: int| 0 <= c < w.len() ==> w[c] != '/',
    ensures
        split_segments(w) == seq![w],
    decreases w.len(),
{
    if w.len() == 0 {
        assert(w =~= Seq::<char>::empty());
        assert(seq![w] =~= seq![Seq::<char>::empty()]);
    } else {
        let d = w.drop_last();
        lemma_split_word(d);
        assert(w.last() == w[w.len() - 1]);
        assert(d.push(w.last()) =~= w);
        assert(split_segments(w) =~= seq![w]);
    }
}

proof fn lemma_segments_parts_add(x: Seq<Seq<char>>, y: Seq<Seq<char>>)
    ensures
        segments_parts(x + y) == segments_parts(x) + segments_parts(y),
    decreases y.len(),
{
    if y.len() == 0 {
        assert(x + y =~= x);
        assert(segments_parts(x) + segments_parts(y) =~= segments_parts(x));
    } else {
        lemma_segments_parts_add(x, y.drop_last());
        assert((x + y).drop_last() =~= x + y.drop_last());
        assert((x + y).last() == y.last());
        assert(segments_parts(x + y) =~= segments_parts(x) + segments_parts(y));
    }
}

/// The text a single component renders as.
pub open spec fn part_text(p: Part) -> Seq<char> {
    match p {
        Part::Parent => seq!['.', '.'],
        Part::Name(n) => n,
    }
}

proof fn lemma_empty_parts()
    ensures
        path_parts(Seq::<char>::empty()) == Seq::<Part>::empty(),
{
    let segs = split_segments(Seq::<char>::empty());
    assert(segs =~= seq![Seq::<char>::empty()]);
    assert(segs.drop_last() =~= Seq::<Seq<char>>::empty());
    assert(segments_parts(Seq::<Seq<char>>::empty()) == Seq::<Part>::empty());
    assert(segs.last() == Seq::<char>::empty());
    assert(segment_part(segs.last()) is None);
    assert(option_seq(segment_part(segs.last())) =~= Seq::<Part>::empty());
    assert(segments_parts(segs) =~= Seq::<Part>::empty());
}

proof fn lemma_word_parts(p: Part)
    requires
        proper_part(p),
    ensures
        path_parts(part_text(p)) == seq![p],
        forall|c: int| 0 <= c < part_text(p).len() ==> part_text(p)[c] != '/',
        part_text(p).len() > 0,
{
    let w = part_text(p);
    if p == Part::Parent {
        assert(w.len() == 2 && w[0] == '.' && w[1] == '.');
    }
    lemma_split_word(w);
    let segs = seq![w];
    assert(segs.drop_last() =~= Seq::<Seq<char>>::empty());
    assert(segs.last() == w);
    match p {
        Part::Parent => {
            assert(w =~= seq!['.', '.']);
            assert(w != seq!['.']) by { assert(seq!['.'].len() == 1); }
        },
        Part::Name(n) => {},
    }
    assert(segment_part(w) == Some(p));
    assert(segments_parts(Seq::<Seq<char>>::empty()) == Seq::<Part>::empty());
    assert(option_seq(Some(p)) =~= seq![p]);
    assert(segments_parts(segs) =~= Seq::<Part>::empty() + seq![p]);
    assert(path_parts(w) =~= seq![p]);
}

proof fn lemma_render_parts(ps: Seq<Part>)
    requires
        proper_parts(ps),
    ensures
        path_parts(render_parts(ps)) == ps,
        ps.len() > 0 ==> render_parts(ps).len() > 0 && render_parts(ps)[0] != '/',
    decreases ps.len(),
{
    if ps.len() == 0 {
        lemma_empty_parts();
        assert(ps =~= Seq::<Part>::empty());
    } else {
        let d = ps.drop_last();
        assert forall|i: int| 0 <= i < d.len() implies proper_part(#[trigger] d[i]) by {
            assert(d[i] == ps[i]);
        }
        lemma_render_parts(d);
        assert(proper_part(ps[ps.len() - 1]));
        let p = ps.last();
        let w = part_text(p);
        lemma_word_parts(p);
        assert(w == (match ps.last() { Part::Parent => seq!['.', '.'], Part::Name(n) => n }));
        if ps.len() == 1 {
            assert(render_parts(ps) == w);
            assert(ps =~= seq![p]);
        } else {
            let head = render_parts(d);
            assert(render_parts(ps) == head + seq!['/'] + w);
            lemma_split_append(head, w);
            lemma_segments_parts_add(split_segments(head), split_segments(w));
            assert(d.push(p) =~= ps);
            assert(path_parts(render_parts(ps)) =~= d + seq![p]);
            assert((head + seq!['/'] + w)[0] == head[0]);
        }
    }
}

proof fn lemma_render_normal(root: bool, ps: Seq<Part>)
    requires
        proper_parts(ps),
    ensures
        is_rooted(render_normal((root, ps))) == root,
        path_parts(render_normal((root, ps))) == ps,
{
    lemma_render_parts(ps);
    let r = render_parts(ps);
    if root {
        let e = Seq::<char>::empty();
        assert(seq!['/'] + r =~= e + seq!['/'] + r);
        lemma_split_append(e, r);
        lemma_segments_parts_add(split_segments(e), split_segments(r));
        lemma_empty_parts();
        assert(path_parts(seq!['/'] + r) =~= ps);
        assert((seq!['/'] + r)[0] == '/');
    } else {
        if ps.len() == 0 {
            assert(r.len() == 0);
        }
    }
}

proof fn lemma_normal_form_shape(p: Seq<char>)
    ensures
        proper_parts(normal_form(p).1),
        parents_lead(normal_form(p).0, normal_form(p).1),
{
    lemma_split_shape(p);
    lemma_segments_proper(split_segments(p));
    lemma_normalize_shape(is_rooted(p), path_parts(p));
}

/// Law: normalising is idempotent; the text `normalize_path` gives
/// normalises to itself, and its normal form is the one it came from.
pub proof fn law_normalize_path_is_idempotent(p: Seq<char>)
    ensures
        normal_form(render_normal(normal_form(p))) == normal_form(p),
        render_normal(normal_form(render_normal(normal_form(p)))) == render_normal(normal_form(p)),
{
    let n = normal_form(p);
    lemma_normal_form_shape(p);
    lemma_render_normal(n.0, n.1);
    lemma_normalize_fixed(n.0, n.1);
}

/// Law: a normalised path holds no `.` and no empty component; it keeps a
/// root exactly when the input has one; under a root it has no `..`, and
/// without one `..` stands only in front of every name.
pub proof fn law_normal_form_shape(p: Seq<char>)
    ensures
        proper_parts(normal_form(p).1),
        path_parts(render_normal(normal_form(p))) == normal_form(p).1,
        is_rooted(render_normal(normal_form(p))) == is_rooted(p),
        is_rooted(p) ==> no_parent(normal_form(p).1),
        !is_rooted(p) ==> parents_lead(false, normal_form(p).1),
{
    let n = normal_form(p);
    lemma_normal_form_shape(p);
    lemma_render_normal(n.0, n.1);
}

} // verus!
