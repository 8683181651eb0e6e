//! The Alias Resolver: walks import declarations and builds a map from a
//! local name to the fully-qualified path it stands for. Grouped imports
//! expand recursively; wildcard imports introduce no tracked name.

use vstd::prelude::*;

use crate::ast::{ItemNode, UseTreeNode};
use crate::strutil::{join_seqs, join_strings, str_eq};

verus! {

/// The map that a sequence of (name, path) insertions builds; a later
/// insertion of the same name wins.
pub open spec fn assoc_map(pairs: Seq<(String, String)>) -> Map<Seq<char>, Seq<char>>
    decreases pairs.len(),
{
    if pairs.len() == 0 {
        Map::empty()
    } else {
        assoc_map(pairs.drop_last()).insert(pairs.last().0@, pairs.last().1@)
    }
}

/// A name-to-path map with string keys, stored as the sequence of its
/// insertions and read as the `Map` they build.
pub struct AliasMap {
    pairs: Vec<(String, String)>,
}

impl View for AliasMap {
    type V = Map<Seq<char>, Seq<char>>;

    closed spec fn view(&self) -> Map<Seq<char>, Seq<char>> {
        assoc_map(self.pairs@)
    }
}

proof fn lemma_assoc_found(pairs: Seq<(String, String)>, key: Seq<char>, j: int)
    requires
        0 <= j < pairs.len(),
        pairs[j].0@ == key,
        forall|k: int| j < k < pairs.len() ==> (#[trigger] pairs[k]).0@ != key,
    ensures
        assoc_map(pairs).contains_key(key),
        assoc_map(pairs)[key] == pairs[j].1@,
    decreases pairs.len(),
{
    if j + 1 < pairs.len() {
        lemma_assoc_found(pairs.drop_last(), key, j);
    }
}

proof fn lemma_assoc_absent(pairs: Seq<(String, String)>, key: Seq<char>)
    requires
        forall|k: int| 0 <= k < pairs.len() ==> (#[trigger] pairs[k]).0@ != key,
    ensures
        !assoc_map(pairs).contains_key(key),
    decreases pairs.len(),
{
    if pairs.len() > 0 {
        lemma_assoc_absent(pairs.drop_last(), key);
    }
}

impl AliasMap {
    /// An empty map.
    pub fn new() -> (r: AliasMap)
        ensures
            r@ == Map::<Seq<char>, Seq<char>>::empty(),
    {
        AliasMap { pairs: Vec::new() }
    }

    /// Records that `key` locally names the path `value`.
    pub fn insert(&mut self, key: String, value: String)
        ensures
            final(self)@ == old(self)@.insert(key@, value@),
    {
        let ghost before = self.pairs@;
        self.pairs.push((key, value));
        proof {
            assert(self.pairs@.drop_last() =~= before);
        }
    }

    /// The path that `key` locally names, if one was recorded.
    pub fn get<'a>(&'a self, key: &str) -> (r: Option<&'a String>)
        ensures
            match r {
                Some(v) => self@.contains_key(key@) && v@ == self@[key@],
                None => !self@.contains_key(key@),
            },
    {
        let mut j: usize = self.pairs.len();
        while j > 0
            invariant
                j <= self.pairs@.len(),
                forall|k: int| j <= k < self.pairs@.len() ==> (#[trigger] self.pairs@[k]).0@
                    != key@,
            decreases j,
        {
            j = j - 1;
            if str_eq(self.pairs[j].0.as_str(), key) {
                proof {
                    lemma_assoc_found(self.pairs@, key@, j as int);
                }
                return Some(&self.pairs[j].1);
            }
        }
        proof {
            lemma_assoc_absent(self.pairs@, key@);
        }
        None
    }
}

/// The aliases that one import tree adds to `m`, reached under `path`.
pub open spec fn spec_use_tree(
    m: Map<Seq<char>, Seq<char>>,
    tree: UseTreeNode,
    path: Seq<Seq<char>>,
) -> Map<Seq<char>, Seq<char>>
    decreases tree,
{
    match tree {
        UseTreeNode::Path { ident, tree } => spec_use_tree(m, *tree, path.push(ident@)),
        UseTreeNode::Name { ident } => m.insert(ident@, join_seqs(path.push(ident@), "::"@)),
        UseTreeNode::Rename { ident, rename } => m.insert(
            rename@,
            join_seqs(path.push(ident@), "::"@),
        ),
        UseTreeNode::Group { items } => spec_use_group(m, items@, path),
        UseTreeNode::Glob => m,
    }
}

/// The aliases that the trees of one import group add to `m`, in order.
pub open spec fn spec_use_group(
    m: Map<Seq<char>, Seq<char>>,
    items: Seq<UseTreeNode>,
    path: Seq<Seq<char>>,
) -> Map<Seq<char>, Seq<char>>
    decreases items,
{
    if items.len() == 0 {
        m
    } else {
        spec_use_group(spec_use_tree(m, items[0], path), items.drop_first(), path)
    }
}

proof fn lemma_use_group_push(
    m: Map<Seq<char>, Seq<char>>,
    items: Seq<UseTreeNode>,
    x: UseTreeNode,
    path: Seq<Seq<char>>,
)
    ensures
        spec_use_group(m, items.push(x), path) == spec_use_tree(
            spec_use_group(m, items, path),
            x,
            path,
        ),
    decreases items.len(),
{
    if items.len() == 0 {
        let m1 = spec_use_tree(m, x, path);
        assert(items.push(x)[0] == x);
        assert(items.push(x).drop_first() =~= Seq::<UseTreeNode>::empty());
        assert(spec_use_group(m1, Seq::<UseTreeNode>::empty(), path) == m1);
        assert(spec_use_group(m, items.push(x), path) == spec_use_group(
            m1,
            items.push(x).drop_first(),
            path,
        ));
    } else {
        let m1 = spec_use_tree(m, items[0], path);
        assert(items.push(x)[0] == items[0]);
        assert(items.push(x).drop_first() =~= items.drop_first().push(x));
        lemma_use_group_push(m1, items.drop_first(), x, path);
        assert(spec_use_group(m, items.push(x), path) == spec_use_group(
            m1,
            items.drop_first().push(x),
            path,
        ));
        assert(spec_use_group(m, items, path) == spec_use_group(m1, items.drop_first(), path));
    }
}

/// Copies a vector of strings.
fn clone_strings(v: &Vec<String>) -> (r: Vec<String>)
    ensures
        r.deep_view() == v.deep_view(),
{
    let mut r: Vec<String> = Vec::new();
    let mut i: usize = 0;
    while i < v.len()
        invariant
            i <= v@.len(),
            r@.len() == i,
            forall|k: int| 0 <= k < i ==> (#[trigger] r@[k])@ == v@[k]@,
        decreases v@.len() - i,
    {
        r.push(v[i].clone());
        i = i + 1;
    }
    proof {
        assert(r.deep_view() =~= v.deep_view());
    }
    r
}

/// Walks one import tree, recording every alias it introduces.
pub fn parse_use_tree(aliases: &mut AliasMap, tree: &UseTreeNode, current_path: &Vec<String>)
    ensures
        final(aliases)@ == spec_use_tree(old(aliases)@, *tree, current_path.deep_view()),
    decreases *tree,
{
    match tree {
        UseTreeNode::Path { ident, tree: sub } => {
            let mut new_path = clone_strings(current_path);
            new_path.push(ident.clone());
            proof {
                assert(new_path.deep_view() =~= current_path.deep_view().push(ident@));
                assert(tree->Path_tree == *sub);
                assert(decreases_to!(*tree => tree->Path_tree));
            }
            parse_use_tree(aliases, sub, &new_path);
        },
        UseTreeNode::Name { ident } => {
            let mut full = clone_strings(current_path);
            full.push(ident.clone());
            proof {
                assert(full.deep_view() =~= current_path.deep_view().push(ident@));
            }
            let joined = join_strings(&full, "::");
            aliases.insert(ident.clone(), joined);
        },
        UseTreeNode::Rename { ident, rename } => {
            let mut full = clone_strings(current_path);
            full.push(ident.clone());
            proof {
                assert(full.deep_view() =~= current_path.deep_view().push(ident@));
            }
            let joined = join_strings(&full, "::");
            aliases.insert(rename.clone(), joined);
        },
        UseTreeNode::Group { items } => {
            let ghost m0 = aliases@;
            let ghost pathv = current_path.deep_view();
            let mut i: usize = 0;
            while i < items.len()
                invariant
                    i <= items@.len(),
                    aliases@ == spec_use_group(m0, items@.take(i as int), pathv),
                    pathv == current_path.deep_view(),
                    *tree == (UseTreeNode::Group { items: *items }),
                decreases items@.len() - i,
            {
                proof {
                    assert(tree->Group_items == *items);
                    assert(decreases_to!(*tree => tree->Group_items));
                    assert(decreases_to!(tree->Group_items => tree->Group_items@));
                    assert(decreases_to!(tree->Group_items@ => tree->Group_items@[i as int]));
                    assert(decreases_to!(*tree => items@[i as int]));
                }
                parse_use_tree(aliases, &items[i], current_path);
                proof {
                    lemma_use_group_push(m0, items@.take(i as int), items@[i as int], pathv);
                    assert(items@.take(i as int).push(items@[i as int]) =~= items@.take(
                        i as int + 1,
                    ));
                }
                i = i + 1;
            }
            proof {
                assert(items@.take(items@.len() as int) =~= items@);
            }
        },
        UseTreeNode::Glob => {},
    }
}

/// The aliases that a module's import declarations build, in order.
pub open spec fn spec_use_items(
    m: Map<Seq<char>, Seq<char>>,
    items: Seq<ItemNode>,
) -> Map<Seq<char>, Seq<char>>
    decreases items.len(),
{
    if items.len() == 0 {
        m
    } else {
        let rest = match items[0] {
            ItemNode::Use(tree) => spec_use_tree(m, tree, Seq::empty()),
            _ => m,
        };
        spec_use_items(rest, items.drop_first())
    }
}

pub open spec fn spec_use_aliases(items: Seq<ItemNode>) -> Map<Seq<char>, Seq<char>> {
    spec_use_items(Map::empty(), items)
}

proof fn lemma_use_items_push(m: Map<Seq<char>, Seq<char>>, items: Seq<ItemNode>, x: ItemNode)
    ensures
        spec_use_items(m, items.push(x)) == (match x {
            ItemNode::Use(tree) => spec_use_tree(spec_use_items(m, items), tree, Seq::empty()),
            _ => spec_use_items(m, items),
        }),
    decreases items.len(),
{
    if items.len() == 0 {
        let m1 = match x {
            ItemNode::Use(tree) => spec_use_tree(m, tree, Seq::empty()),
            _ => m,
        };
        assert(items.push(x)[0] == x);
        assert(items.push(x).drop_first() =~= Seq::<ItemNode>::empty());
        assert(spec_use_items(m1, Seq::<ItemNode>::empty()) == m1);
        assert(spec_use_items(m, items.push(x)) == spec_use_items(
            m1,
            items.push(x).drop_first(),
        ));
    } else {
        let m1 = match items[0] {
            ItemNode::Use(tree) => spec_use_tree(m, tree, Seq::empty()),
            _ => m,
        };
        assert(items.push(x)[0] == items[0]);
        assert(items.push(x).drop_first() =~= items.drop_first().push(x));
        lemma_use_items_push(m1, items.drop_first(), x);
        assert(spec_use_items(m, items.push(x)) == spec_use_items(
            m1,
            items.drop_first().push(x),
        ));
        assert(spec_use_items(m, items) == spec_use_items(m1, items.drop_first()));
    }
}

/// Builds the alias map of a module from its import declarations.
pub fn extract_use_aliases(items: &Vec<ItemNode>) -> (r: AliasMap)
    ensures
        r@ == spec_use_aliases(items@),
{
    let mut aliases = AliasMap::new();
    let empty_path: Vec<String> = Vec::new();
    let mut i: usize = 0;
    while i < items.len()
        invariant
            i <= items@.len(),
            aliases@ == spec_use_items(Map::empty(), items@.take(i as int)),
            empty_path.deep_view() =~= Seq::<Seq<char>>::empty(),
        decreases items@.len() - i,
    {
        match &items[i] {
            ItemNode::Use(tree) => {
                parse_use_tree(&mut aliases, tree, &empty_path);
            },
            _ => {},
        }
        proof {
            lemma_use_items_push(Map::empty(), items@.take(i as int), items@[i as int]);
            assert(items@.take(i as int).push(items@[i as int]) =~= items@.take(i as int + 1));
        }
        i = i + 1;
    }
    proof {
        assert(items@.take(items@.len() as int) =~= items@);
    }
    aliases
}

} // verus!
