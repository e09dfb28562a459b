//! Which changed files concern the test suite of a project.
//!
//! A path is read as a sequence of bytes cut at `/` into components. Empty
//! components (from a leading, doubled or trailing `/`) and `.` components
//! name no further directory and are skipped. A path lies under another where
//! both are absolute or both are relative and the components of the other
//! begin its own.
use vstd::prelude::*;
use vstd::string::StringSliceAdditionalSpecFns;

verus! {

/// The byte that separates path components.
pub const SEP: u8 = 0x2f;

/// The byte `.`.
pub const DOT: u8 = 0x2e;

/// The pieces of `p` between separators, in order, empty ones included.
pub open spec fn segments(p: Seq<u8>) -> Seq<Seq<u8>>
    decreases p.len(),
{
    if p.len() == 0 {
        seq![Seq::empty()]
    } else {
        let s = segments(p.drop_last());
        if p.last() == SEP {
            s.push(Seq::empty())
        } else {
            s.update(s.len() - 1, s.last().push(p.last()))
        }
    }
}

/// A segment that names a file or directory.
pub open spec fn is_component(seg: Seq<u8>) -> bool {
    seg.len() > 0 && seg != seq![DOT]
}

/// The segments of `segs` that name a file or directory, in order.
pub open spec fn kept(segs: Seq<Seq<u8>>) -> Seq<Seq<u8>>
    decreases segs.len(),
{
    if segs.len() == 0 {
        Seq::empty()
    } else if is_component(segs.last()) {
        kept(segs.drop_last()).push(segs.last())
    } else {
        kept(segs.drop_last())
    }
}

/// The components of the path `p`.
pub open spec fn components(p: Seq<u8>) -> Seq<Seq<u8>> {
    kept(segments(p))
}

pub open spec fn is_absolute(p: Seq<u8>) -> bool {
    p.len() > 0 && p[0] == SEP
}

pub open spec fn is_prefix(a: Seq<Seq<u8>>, b: Seq<Seq<u8>>) -> bool {
    a.len() <= b.len() && forall|i: int| 0 <= i < a.len() ==> #[trigger] a[i] == b[i]
}

/// The entries of a project whose change calls for a new test run: the
/// source and test directories, the manifest and lock file, and the build
/// script.
pub open spec fn watched_entries() -> Seq<Seq<u8>> {
    seq![
        seq![115u8, 114, 99], // src
        seq![116u8, 101, 115, 116, 115], // tests
        seq![67u8, 97, 114, 103, 111, 46, 116, 111, 109, 108], // Cargo.toml
        seq![67u8, 97, 114, 103, 111, 46, 108, 111, 99, 107], // Cargo.lock
        seq![98u8, 117, 105, 108, 100, 46, 114, 115], // build.rs
    ]
}

/// `path` is the entry `name` of the directory `dir`, or lies under it.
pub open spec fn lies_under_entry(dir: Seq<u8>, name: Seq<u8>, path: Seq<u8>) -> bool {
    is_absolute(dir) == is_absolute(path) && is_prefix(components(dir).push(name), components(path))
}

/// A change of `path` concerns the test suite of the project at `project_dir`.
pub open spec fn path_allowed(project_dir: Seq<u8>, path: Seq<u8>) -> bool {
    exists|k: int|
        0 <= k < watched_entries().len() && lies_under_entry(project_dir, #[trigger] watched_entries()[k], path)
}

/// The byte sequences held by a sequence of vectors.
pub open spec fn views(v: Seq<Vec<u8>>) -> Seq<Seq<u8>> {
    v.map_values(|x: Vec<u8>| x@)
}

proof fn lemma_segments_nonempty(p: Seq<u8>)
    ensures
        segments(p).len() >= 1,
    decreases p.len(),
{
    if p.len() > 0 {
        lemma_segments_nonempty(p.drop_last());
    }
}

/// The components of `p`, each as a vector of bytes.
fn split_components(p: &[u8]) -> (r: Vec<Vec<u8>>)
    ensures
        views(r@) == components(p@),
{
    let mut done: Vec<Vec<u8>> = Vec::new();
    let mut cur: Vec<u8> = Vec::new();
    let mut i: usize = 0;
    proof {
        assert(p@.take(0) =~= Seq::<u8>::empty());
        assert(views(done@) =~= kept(segments(p@.take(0)).drop_last()));
    }
    while i < p.len()
        invariant
            i <= p@.len(),
            segments(p@.take(i as int)).len() >= 1,
            views(done@) == kept(segments(p@.take(i as int)).drop_last()),
            cur@ == segments(p@.take(i as int)).last(),
        decreases p@.len() - i,
    {
        let b = p[i];
        let ghost before = segments(p@.take(i as int));
        proof {
            assert(p@.take(i + 1).drop_last() =~= p@.take(i as int));
            assert(p@.take(i + 1).last() == b);
        }
        if b == SEP {
            let seg_is_component = cur.len() > 0 && !(cur.len() == 1 && cur[0] == DOT);
            proof {
                assert(seg_is_component == is_component(cur@)) by {
                    if cur@.len() == 1 && cur@[0] == DOT {
                        assert(cur@ =~= seq![DOT]);
                    }
                    if cur@ == seq![DOT] {
                        assert(cur@[0] == DOT);
                    }
                }
                assert(segments(p@.take(i + 1)).drop_last() =~= before);
                assert(before.drop_last().push(before.last()) =~= before);
            }
            if seg_is_component {
                let ghost old_done = done@;
                done.push(cur);
                proof {
                    assert(views(done@) =~= views(old_done).push(before.last()));
                }
            }
            cur = Vec::new();
        } else {
            cur.push(b);
            proof {
                assert(segments(p@.take(i + 1)).drop_last() =~= before.drop_last());
            }
        }
        i = i + 1;
    }
    proof {
        assert(p@.take(p@.len() as int) =~= p@);
        let s = segments(p@);
        assert(s.drop_last().push(s.last()) =~= s);
    }
    let last_is_component = cur.len() > 0 && !(cur.len() == 1 && cur[0] == DOT);
    proof {
        assert(last_is_component == is_component(cur@)) by {
            if cur@.len() == 1 && cur@[0] == DOT {
                assert(cur@ =~= seq![DOT]);
            }
            if cur@ == seq![DOT] {
                assert(cur@[0] == DOT);
            }
        }
    }
    if last_is_component {
        let ghost old_done = done@;
        done.push(cur);
        proof {
            assert(views(done@) =~= views(old_done).push(segments(p@).last()));
        }
    }
    done
}

/// The watched entry at index `k`, as bytes.
fn watched_entry(k: usize) -> (r: Vec<u8>)
    requires
        k < watched_entries().len(),
    ensures
        r@ == watched_entries()[k as int],
{
    let r = if k == 0 {
        vec![115u8, 114, 99]
    } else if k == 1 {
        vec![116u8, 101, 115, 116, 115]
    } else if k == 2 {
        vec![67u8, 97, 114, 103, 111, 46, 116, 111, 109, 108]
    } else if k == 3 {
        vec![67u8, 97, 114, 103, 111, 46, 108, 111, 99, 107]
    } else {
        vec![98u8, 117, 105, 108, 100, 46, 114, 115]
    };
    assert(r@ =~= watched_entries()[k as int]);
    r
}

fn bytes_eq(a: &Vec<u8>, b: &Vec<u8>) -> (r: bool)
    ensures
        r == (a@ == b@),
{
    if a.len() != b.len() {
        return false;
    }
    let mut i: usize = 0;
    while i < a.len()
        invariant
            i <= a@.len(),
            a@.len() == b@.len(),
            forall|j: int| 0 <= j < i ==> a@[j] == b@[j],
        decreases a@.len() - i,
    {
        if a[i] != b[i] {
            return false;
        }
        i = i + 1;
    }
    assert(a@ =~= b@);
    true
}

/// Whether the components `dir` followed by `name` begin the components `path`.
fn begins_with_entry(dir: &Vec<Vec<u8>>, name: &Vec<u8>, path: &Vec<Vec<u8>>) -> (r: bool)
    ensures
        r == is_prefix(views(dir@).push(name@), views(path@)),
{
    let n = dir.len();
    if n >= path.len() {
        return false;
    }
    let mut i: usize = 0;
    while i < n
        invariant
            i <= n,
            n == dir@.len(),
            n < path@.len(),
            forall|j: int| 0 <= j < i ==> views(dir@)[j] == views(path@)[j],
        decreases n - i,
    {
        if !bytes_eq(&dir[i], &path[i]) {
            assert(views(dir@).push(name@)[i as int] != views(path@)[i as int]);
            return false;
        }
        i = i + 1;
    }
    let r = bytes_eq(name, &path[n]);
    proof {
        let a = views(dir@).push(name@);
        if r {
            assert forall|j: int| 0 <= j < a.len() implies #[trigger] a[j] == views(path@)[j] by {
                if j < n {
                    assert(a[j] == views(dir@)[j]);
                }
            }
        } else {
            assert(a[n as int] != views(path@)[n as int]);
        }
    }
    r
}

/// Should a change of the file at `path` trigger a run of the test suite of
/// the project at `project_dir`? It should where `path` is, or lies under,
/// one of the watched entries of the project.
pub fn filter_allows(project_dir: &str, path: &str) -> (r: bool)
    ensures
        r == path_allowed(project_dir.spec_bytes(), path.spec_bytes()),
{
    let dir_bytes = project_dir.as_bytes();
    let path_bytes = path.as_bytes();
    let same_kind = (dir_bytes.len() > 0 && dir_bytes[0] == SEP) == (path_bytes.len() > 0
        && path_bytes[0] == SEP);
    if !same_kind {
        return false;
    }
    let dir = split_components(dir_bytes);
    let comps = split_components(path_bytes);
    let mut k: usize = 0;
    while k < 5
        invariant
            k <= 5,
            watched_entries().len() == 5,
            dir_bytes@ == project_dir.spec_bytes(),
            path_bytes@ == path.spec_bytes(),
            is_absolute(dir_bytes@) == is_absolute(path_bytes@),
            views(dir@) == components(dir_bytes@),
            views(comps@) == components(path_bytes@),
            forall|j: int| 0 <= j < k ==> !lies_under_entry(dir_bytes@, #[trigger] watched_entries()[j], path_bytes@),
        decreases 5 - k,
    {
        let entry = watched_entry(k);
        if begins_with_entry(&dir, &entry, &comps) {
            assert(lies_under_entry(dir_bytes@, watched_entries()[k as int], path_bytes@));
            return true;
        }
        k = k + 1;
    }
    false
}

proof fn lemma_segments_join(a: Seq<u8>, b: Seq<u8>)
    ensures
        segments(a + seq![SEP] + b) == segments(a) + segments(b),
    decreases b.len(),
{
    let j = a + seq![SEP] + b;
    if b.len() == 0 {
        assert(j.drop_last() =~= a);
        assert(segments(a).push(Seq::empty()) =~= segments(a) + segments(b));
    } else {
        let b0 = b.drop_last();
        lemma_segments_join(a, b0);
        lemma_segments_nonempty(b0);
        assert(j.drop_last() =~= a + seq![SEP] + b0);
        assert(j.last() == b.last());
        let sa = segments(a);
        let sb0 = segments(b0);
        if b.last() == SEP {
            assert((sa + sb0).push(Seq::empty()) =~= sa + sb0.push(Seq::empty()));
        } else {
            let s = sa + sb0;
            assert(s.update(s.len() - 1, s.last().push(b.last())) =~= sa + sb0.update(
                sb0.len() - 1,
                sb0.last().push(b.last()),
            ));
        }
    }
}

proof fn lemma_kept_concat(s1: Seq<Seq<u8>>, s2: Seq<Seq<u8>>)
    ensures
        kept(s1 + s2) == kept(s1) + kept(s2),
    decreases s2.len(),
{
    if s2.len() == 0 {
        assert(s1 + s2 =~= s1);
        assert(kept(s1) + kept(s2) =~= kept(s1));
    } else {
        let s20 = s2.drop_last();
        lemma_kept_concat(s1, s20);
        assert((s1 + s2).drop_last() =~= s1 + s20);
        assert((s1 + s2).last() == s2.last());
        if is_component(s2.last()) {
            assert((kept(s1) + kept(s20)).push(s2.last()) =~= kept(s1) + kept(s20).push(s2.last()));
        }
    }
}

/// Joining two paths with a separator joins their components.
proof fn lemma_components_join(a: Seq<u8>, b: Seq<u8>)
    ensures
        components(a + seq![SEP] + b) == components(a) + components(b),
{
    lemma_segments_join(a, b);
    lemma_kept_concat(segments(a), segments(b));
}

pub open spec fn has_no_separator(name: Seq<u8>) -> bool {
    forall|i: int| 0 <= i < name.len() ==> name[i] != SEP
}

proof fn lemma_segments_of_name(name: Seq<u8>)
    requires
        has_no_separator(name),
    ensures
        segments(name) == seq![name],
    decreases name.len(),
{
    if name.len() == 0 {
        assert(name =~= Seq::<u8>::empty());
    } else {
        let n0 = name.drop_last();
        lemma_segments_of_name(n0);
        assert(name[name.len() - 1] != SEP);
        assert(n0.push(name.last()) =~= name);
        assert(seq![n0].update(0, n0.push(name.last())) =~= seq![name]);
    }
}

proof fn lemma_components_of_name(name: Seq<u8>)
    requires
        has_no_separator(name),
        is_component(name),
    ensures
        components(name) == seq![name],
{
    lemma_segments_of_name(name);
    let s = seq![name];
    assert(s.drop_last() =~= Seq::<Seq<u8>>::empty());
    assert(s.last() == name);
    assert(kept(Seq::<Seq<u8>>::empty()) == Seq::<Seq<u8>>::empty());
    assert(kept(s) == kept(s.drop_last()).push(name));
    assert(Seq::<Seq<u8>>::empty().push(name) =~= seq![name]);
}

proof fn lemma_watched_entries_are_names(k: int)
    requires
        0 <= k < watched_entries().len(),
    ensures
        has_no_separator(watched_entries()[k]),
        is_component(watched_entries()[k]),
{
    let e = watched_entries()[k];
    assert(e.len() > 1);
    assert(e != seq![DOT]) by {
        if e == seq![DOT] {
            assert(e.len() == 1);
        }
    }
}

proof fn lemma_join_keeps_kind(a: Seq<u8>, b: Seq<u8>)
    requires
        a.len() > 0,
    ensures
        is_absolute(a + seq![SEP] + b) == is_absolute(a),
{
    assert((a + seq![SEP] + b)[0] == a[0]);
}

/// A change of a watched entry of the project (the source or test directory,
/// the manifest, the lock file or the build script), or of anything under it,
/// is accepted.
pub proof fn lemma_watched_changes_accepted(root: Seq<u8>, k: int, rest: Seq<u8>)
    requires
        root.len() > 0,
        0 <= k < watched_entries().len(),
    ensures
        path_allowed(root, root + seq![SEP] + watched_entries()[k]),
        path_allowed(root, root + seq![SEP] + watched_entries()[k] + seq![SEP] + rest),
{
    let e = watched_entries()[k];
    lemma_watched_entries_are_names(k);
    lemma_components_of_name(e);
    let p1 = root + seq![SEP] + e;
    let p2 = root + seq![SEP] + (e + seq![SEP] + rest);
    assert(root + seq![SEP] + e + seq![SEP] + rest =~= p2);
    lemma_components_join(root, e);
    lemma_components_join(e, rest);
    lemma_components_join(root, e + seq![SEP] + rest);
    lemma_join_keeps_kind(root, e);
    lemma_join_keeps_kind(root, e + seq![SEP] + rest);
    let want = components(root).push(e);
    assert(want =~= components(p1));
    assert(is_prefix(want, components(p2))) by {
        assert(components(p2) =~= components(root) + (seq![e] + components(rest)));
        assert forall|i: int| 0 <= i < want.len() implies #[trigger] want[i] == components(p2)[i] by {
        }
    }
    assert(lies_under_entry(root, watched_entries()[k], p1));
    assert(lies_under_entry(root, watched_entries()[k], p2));
}

/// A change of any other entry of the project directory (a README, say), or
/// of anything under it, is rejected.
pub proof fn lemma_other_entries_rejected(root: Seq<u8>, name: Seq<u8>, rest: Seq<u8>)
    requires
        has_no_separator(name),
        is_component(name),
        !watched_entries().contains(name),
    ensures
        !path_allowed(root, root + seq![SEP] + name),
        !path_allowed(root, root + seq![SEP] + name + seq![SEP] + rest),
{
    lemma_components_of_name(name);
    let p1 = root + seq![SEP] + name;
    let p2 = root + seq![SEP] + (name + seq![SEP] + rest);
    assert(root + seq![SEP] + name + seq![SEP] + rest =~= p2);
    lemma_components_join(root, name);
    lemma_components_join(name, rest);
    lemma_components_join(root, name + seq![SEP] + rest);
    let n = components(root).len() as int;
    assert(components(p1)[n] == name);
    assert(components(p2) =~= components(root) + (seq![name] + components(rest)));
    assert(components(p2)[n] == name);
    assert forall|k: int| 0 <= k < watched_entries().len() implies !lies_under_entry(
        root,
        #[trigger] watched_entries()[k],
        p1,
    ) && !lies_under_entry(root, watched_entries()[k], p2) by {
        let w = components(root).push(watched_entries()[k]);
        assert(w[n] == watched_entries()[k]);
        assert(watched_entries()[k] != name);
    }
}

/// A change of a path that does not lie under the project directory is
/// rejected.
pub proof fn lemma_outside_changes_rejected(root: Seq<u8>, path: Seq<u8>)
    requires
        !is_prefix(components(root), components(path)),
    ensures
        !path_allowed(root, path),
{
    assert forall|k: int| 0 <= k < watched_entries().len() implies !lies_under_entry(
        root,
        #[trigger] watched_entries()[k],
        path,
    ) by {
        let w = components(root).push(watched_entries()[k]);
        if is_prefix(w, components(path)) {
            assert forall|i: int| 0 <= i < components(root).len() implies #[trigger] components(
                root,
            )[i] == components(path)[i] by {
                assert(w[i] == components(root)[i]);
            }
        }
    }
}

} // verus!
