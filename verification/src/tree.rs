//! Directory trees as the API lists them: each directory with its name, its
//! path below the tree's root, and its subdirectories ordered by name.
use vstd::prelude::*;
use crate::download::{components, path_components, path_has_prefix, path_starts_with};
use crate::lyrics::lines_view;
use crate::paths::{file_name, file_name_chars};
use crate::text::{chars_of, push_all, string_of};
use crate::types::DirectoryNode;

verus! {

/// `a` comes no later than `b` when strings are ordered by their characters'
/// code points, as Rust orders `str`.
pub open spec fn chars_le(a: Seq<char>, b: Seq<char>) -> bool
    decreases a.len(),
{
    if a.len() == 0 {
        true
    } else if b.len() == 0 {
        false
    } else if a[0] != b[0] {
        (a[0] as int) < (b[0] as int)
    } else {
        chars_le(a.drop_first(), b.drop_first())
    }
}

/// Of two strings, one comes no later than the other.
pub proof fn lemma_chars_le_total(a: Seq<char>, b: Seq<char>)
    ensures
        chars_le(a, b) || chars_le(b, a),
    decreases a.len(),
{
    if a.len() > 0 && b.len() > 0 {
        if a[0] == b[0] {
            lemma_chars_le_total(a.drop_first(), b.drop_first());
        }
    }
}

/// The order of strings is transitive.
pub proof fn lemma_chars_le_transitive(a: Seq<char>, b: Seq<char>, c: Seq<char>)
    requires
        chars_le(a, b),
        chars_le(b, c),
    ensures
        chars_le(a, c),
    decreases a.len(),
{
    if a.len() > 0 && b.len() > 0 && c.len() > 0 && a[0] == b[0] && b[0] == c[0] {
        lemma_chars_le_transitive(a.drop_first(), b.drop_first(), c.drop_first());
    }
}

/// Whether `a` comes no later than `b`.
pub fn name_le(a: &[char], b: &[char]) -> (r: bool)
    ensures
        r == chars_le(a@, b@),
{
    let mut i: usize = 0;
    assert(a@.skip(0) =~= a@);
    assert(b@.skip(0) =~= b@);
    while i < a.len() && i < b.len()
        invariant
            i <= a.len(),
            i <= b.len(),
            chars_le(a@, b@) == chars_le(a@.skip(i as int), b@.skip(i as int)),
        decreases a.len() - i,
    {
        assert(a@.skip(i as int)[0] == a@[i as int]);
        assert(b@.skip(i as int)[0] == b@[i as int]);
        if a[i] != b[i] {
            return a[i] < b[i];
        }
        assert(a@.skip(i as int).drop_first() =~= a@.skip(i + 1));
        assert(b@.skip(i as int).drop_first() =~= b@.skip(i + 1));
        i = i + 1;
    }
    i == a.len()
}

/// The nodes are ordered by name.
pub open spec fn names_sorted(s: Seq<DirectoryNode>) -> bool {
    forall|a: int, b: int| 0 <= a < b < s.len() ==> chars_le(#[trigger] s[a].name@, #[trigger] s[b].name@)
}

/// Orders the nodes by name; nodes of equal name keep their order.
pub fn sort_by_name(nodes: Vec<DirectoryNode>) -> (r: Vec<DirectoryNode>)
    ensures
        names_sorted(r@),
        r@.to_multiset() == nodes@.to_multiset(),
{
    broadcast use vstd::seq_lib::group_to_multiset_ensures;

    let ghost all = nodes@;
    let mut rest = nodes;
    let mut out: Vec<DirectoryNode> = Vec::new();
    let ghost mut i: int = 0;
    while rest.len() > 0
        invariant
            0 <= i <= all.len(),
            rest@ == all.skip(i),
            names_sorted(out@),
            out@.to_multiset() == all.take(i).to_multiset(),
        decreases rest.len(),
    {
        let node = rest.remove(0);
        let key = chars_of(node.name.as_str());
        let mut k: usize = 0;
        let mut found = false;
        while !found && k < out.len()
            invariant
                k <= out.len(),
                key@ == node.name@,
                forall|j: int| 0 <= j < k ==> chars_le(#[trigger] out@[j].name@, node.name@),
                found ==> k < out.len() && !chars_le(out@[k as int].name@, node.name@),
            decreases out.len() - k + (if found {
                0int
            } else {
                1int
            }),
        {
            let other = chars_of(out[k].name.as_str());
            if name_le(&other, &key) {
                k = k + 1;
            } else {
                found = true;
            }
        }
        let ghost before = out@;
        proof {
            assert(node == all[i]);
            assert(all.take(i + 1) =~= all.take(i).push(node));
            assert(rest@ =~= all.skip(i + 1));
            if k < before.len() {
                lemma_chars_le_total(before[k as int].name@, node.name@);
            }
        }
        out.insert(k, node);
        proof {
            assert(out@ == before.insert(k as int, node));
            vstd::seq_lib::to_multiset_insert(before, k as int, node);
            vstd::seq_lib::to_multiset_build(all.take(i), node);
            assert forall|a: int, b: int| 0 <= a < b < out@.len() implies chars_le(
                #[trigger] out@[a].name@,
                #[trigger] out@[b].name@,
            ) by {
                if b < k {
                    assert(out@[a] == before[a] && out@[b] == before[b]);
                } else if b == k {
                    assert(out@[a] == before[a]);
                } else if a == k {
                    assert(out@[b] == before[b - 1]);
                    if b - 1 > k {
                        assert(chars_le(before[k as int].name@, before[b - 1].name@));
                        lemma_chars_le_transitive(node.name@, before[k as int].name@, before[b - 1].name@);
                    }
                } else if a < k {
                    assert(out@[a] == before[a] && out@[b] == before[b - 1]);
                } else {
                    assert(out@[a] == before[a - 1] && out@[b] == before[b - 1]);
                }
            }
            i = i + 1;
        }
    }
    assert(all.take(all.len() as int) =~= all);
    out
}

/// Paths joined one component after another, as `PathBuf::push` joins them:
/// no separator after a leading root, one between the others.
pub open spec fn joined_components(cs: Seq<Seq<char>>) -> Seq<char>
    decreases cs.len(),
{
    if cs.len() == 0 {
        Seq::empty()
    } else {
        let init = joined_components(cs.drop_last());
        if init.len() == 0 || init == seq!['/'] {
            init + cs.last()
        } else {
            init + seq!['/'] + cs.last()
        }
    }
}

/// The path of `p` below `base` (`Path::strip_prefix`), with its components
/// joined by single separators; empty where `p` does not lie under `base`.
pub open spec fn relative_path(p: Seq<char>, base: Seq<char>) -> Seq<char> {
    if path_has_prefix(p, base) {
        joined_components(components(p).skip(components(base).len() as int))
    } else {
        Seq::empty()
    }
}

/// The path of `dir` below `base`.
pub fn relative_path_of(dir: &str, base: &str) -> (r: String)
    ensures
        r@ == relative_path(dir@, base@),
{
    if !path_starts_with(dir, base) {
        return String::new();
    }
    let pc = path_components(&chars_of(dir));
    let bc = path_components(&chars_of(base));
    let ghost rest = components(dir@).skip(components(base@).len() as int);
    let mut out: Vec<char> = Vec::new();
    let mut i: usize = bc.len();
    assert(rest.take(0) =~= Seq::<Seq<char>>::empty());
    while i < pc.len()
        invariant
            bc.len() <= i <= pc.len(),
            lines_view(pc@) == components(dir@),
            lines_view(bc@) == components(base@),
            rest == components(dir@).skip(components(base@).len() as int),
            out@ == joined_components(rest.take(i - bc.len())),
        decreases pc.len() - i,
    {
        let ghost n = i - bc.len();
        assert(rest.take(n + 1).drop_last() =~= rest.take(n));
        assert(rest.take(n + 1).last() == pc@[i as int]@) by {
            assert(lines_view(pc@)[i as int] == pc@[i as int]@);
        }
        if out.len() == 0 || (out.len() == 1 && out[0] == '/') {
            proof {
                if out@.len() == 1 {
                    assert(out@ =~= seq!['/']);
                }
            }
        } else {
            proof {
                if out@ == seq!['/'] {
                    assert(out@.len() == 1 && out@[0] == '/');
                }
            }
            out.push('/');
        }
        push_all(&mut out, &pc[i]);
        i = i + 1;
    }
    assert(rest.take(pc.len() - bc.len()) =~= rest);
    string_of(&out)
}

/// The subdirectories a node lists: none when there are none, else all of
/// them ordered by name.
pub open spec fn listed_children(given: Seq<DirectoryNode>, listed: Option<Vec<DirectoryNode>>) -> bool {
    match listed {
        None => given.len() == 0,
        Some(v) => given.len() > 0 && names_sorted(v@) && v@.to_multiset() == given.to_multiset(),
    }
}

fn children_of(children: Vec<DirectoryNode>) -> (r: Option<Vec<DirectoryNode>>)
    ensures
        listed_children(children@, r),
{
    if children.len() == 0 {
        None
    } else {
        let sorted = sort_by_name(children);
        proof {
            vstd::seq_lib::to_multiset_len(children@);
            vstd::seq_lib::to_multiset_len(sorted@);
        }
        Some(sorted)
    }
}

/// The node for the directory `dir` of a tree rooted at `base`, with its
/// subdirectories' nodes. A directory with no name of its own (the root `/`)
/// is called `根目录`.
pub fn download_tree_node(dir: &str, base: &str, children: Vec<DirectoryNode>) -> (r: DirectoryNode)
    ensures
        r.name@ == (match file_name(dir@) {
            Some(n) => n,
            None => "根目录"@,
        }),
        r.path@ == relative_path(dir@, base@),
        r.node_type@ == "directory"@,
        listed_children(children@, r.children),
{
    let name = match file_name_chars(&chars_of(dir)) {
        Some(n) => string_of(&n),
        None => "根目录".to_owned(),
    };
    DirectoryNode {
        name,
        path: relative_path_of(dir, base),
        node_type: "directory".to_owned(),
        children: children_of(children),
    }
}

/// The node for the directory `dir` of the music tree rooted at `base`, with
/// its subdirectories' nodes; none for a directory with no name of its own.
pub fn upload_tree_node(dir: &str, base: &str, children: Vec<DirectoryNode>) -> (r: Option<DirectoryNode>)
    ensures
        r is None <==> file_name(dir@) is None,
        r matches Some(node) ==> {
            &&& Some(node.name@) == file_name(dir@)
            &&& node.path@ == relative_path(dir@, base@)
            &&& node.node_type@ == "directory"@
            &&& listed_children(children@, node.children)
        },
{
    let name = match file_name_chars(&chars_of(dir)) {
        Some(n) => string_of(&n),
        None => return None,
    };
    Some(
        DirectoryNode {
            name,
            path: relative_path_of(dir, base),
            node_type: "directory".to_owned(),
            children: children_of(children),
        },
    )
}

} // verus!
