//! The interface locator: a parsed definition source is an arena-indexed
//! tree of named scopes, and a dotted path is resolved by walking it
//! segment by segment, strictly top-down, with no backtracking and no
//! aliasing inside the source.

use vstd::prelude::*;

use crate::errors::ResolutionError;
use crate::model::{InterfaceItem, PathSeg};

verus! {

/// One interface found in a definition source: its declared name and its
/// ordered item list.
#[derive(Debug)]
pub struct TraitDef {
    pub name: String,
    pub items: Vec<InterfaceItem>,
}

/// One named scope of a definition source, holding the indices of its
/// nested scopes and of the interfaces declared directly in it, in
/// declaration order.
#[derive(Debug)]
pub struct ScopeNode {
    pub name: String,
    pub scopes: Vec<usize>,
    pub traits: Vec<usize>,
}

/// A parsed definition source: an arena of scopes and an arena of
/// interface definitions.  The node at index zero is the top level of the
/// source.
#[derive(Debug)]
pub struct ScopeTree {
    pub nodes: Vec<ScopeNode>,
    pub defs: Vec<TraitDef>,
}

impl ScopeTree {
    /// The arena is well formed: the root exists and every stored index is
    /// in bounds.
    pub open spec fn wf(self) -> bool {
        &&& self.nodes@.len() >= 1
        &&& forall|i: int, j: int|
            0 <= i < self.nodes@.len() && 0 <= j < self.nodes@[i].scopes@.len()
                ==> (#[trigger] self.nodes@[i].scopes@[j]) < self.nodes@.len()
        &&& forall|i: int, j: int|
            0 <= i < self.nodes@.len() && 0 <= j < self.nodes@[i].traits@.len()
                ==> (#[trigger] self.nodes@[i].traits@[j]) < self.defs@.len()
    }

    /// An empty definition source: one top-level scope, no interfaces.
    pub fn new() -> (r: ScopeTree)
        ensures
            r.wf(),
            r.nodes@.len() == 1,
            r.nodes@[0].scopes@.len() == 0,
            r.nodes@[0].traits@.len() == 0,
            r.defs@.len() == 0,
    {
        let mut nodes: Vec<ScopeNode> = Vec::new();
        nodes.push(ScopeNode { name: String::new(), scopes: Vec::new(), traits: Vec::new() });
        ScopeTree { nodes, defs: Vec::new() }
    }

    /// Add an empty scope named `name` under the scope `parent`, returning
    /// its index.
    pub fn add_scope(&mut self, parent: usize, name: String) -> (idx: usize)
        requires
            old(self).wf(),
            parent < old(self).nodes@.len(),
        ensures
            final(self).wf(),
            idx == old(self).nodes@.len(),
            final(self).defs == old(self).defs,
            final(self).nodes@.len() == old(self).nodes@.len() + 1,
            final(self).nodes@[idx as int].name == name,
            final(self).nodes@[idx as int].scopes@.len() == 0,
            final(self).nodes@[idx as int].traits@.len() == 0,
            final(self).nodes@[parent as int].name == old(self).nodes@[parent as int].name,
            final(self).nodes@[parent as int].scopes@ == old(self).nodes@[parent as int].scopes@.push(idx),
            final(self).nodes@[parent as int].traits == old(self).nodes@[parent as int].traits,
            forall|i: int|
                0 <= i < old(self).nodes@.len() && i != parent ==> #[trigger] final(self).nodes@[i]
                    == old(self).nodes@[i],
    {
        let idx: usize = self.nodes.len();
        self.nodes.push(ScopeNode { name, scopes: Vec::new(), traits: Vec::new() });
        self.nodes[parent].scopes.push(idx);
        idx
    }

    /// Add an interface definition under the scope `parent`, returning its
    /// index in the definition arena.
    pub fn add_trait(&mut self, parent: usize, def: TraitDef) -> (idx: usize)
        requires
            old(self).wf(),
            parent < old(self).nodes@.len(),
        ensures
            final(self).wf(),
            idx == old(self).defs@.len(),
            final(self).defs@ == old(self).defs@.push(def),
            final(self).nodes@.len() == old(self).nodes@.len(),
            final(self).nodes@[parent as int].name == old(self).nodes@[parent as int].name,
            final(self).nodes@[parent as int].scopes == old(self).nodes@[parent as int].scopes,
            final(self).nodes@[parent as int].traits@ == old(self).nodes@[parent as int].traits@.push(idx),
            forall|i: int|
                0 <= i < old(self).nodes@.len() && i != parent ==> #[trigger] final(self).nodes@[i]
                    == old(self).nodes@[i],
    {
        let idx: usize = self.defs.len();
        self.defs.push(def);
        self.nodes[parent].traits.push(idx);
        idx
    }
}

/// The index of the first scope among `children` whose name is `name`, the
/// way the walk matches: first declaration wins.
pub open spec fn first_scope_named(tree: ScopeTree, children: Seq<usize>, name: Seq<char>) -> Option<
    usize,
>
    decreases children.len(),
{
    if children.len() == 0 {
        None
    } else if tree.nodes@[children[0] as int].name@ == name {
        Some(children[0])
    } else {
        first_scope_named(tree, children.drop_first(), name)
    }
}

/// The index of the first interface among `children` whose name is `name`.
pub open spec fn first_trait_named(tree: ScopeTree, children: Seq<usize>, name: Seq<char>) -> Option<
    usize,
>
    decreases children.len(),
{
    if children.len() == 0 {
        None
    } else if tree.defs@[children[0] as int].name@ == name {
        Some(children[0])
    } else {
        first_trait_named(tree, children.drop_first(), name)
    }
}

/// The scope reached from `node` by walking every segment of `path` into
/// the first nested scope of that name, or `None` where a segment has no
/// match.
pub open spec fn resolve_prefix(tree: ScopeTree, node: int, path: Seq<Seq<char>>) -> Option<int>
    decreases path.len(),
{
    if path.len() == 0 {
        Some(node)
    } else {
        match first_scope_named(tree, tree.nodes@[node].scopes@, path[0]) {
            Some(c) => resolve_prefix(tree, c as int, path.drop_first()),
            None => None,
        }
    }
}

/// What a dotted path resolves to inside a definition source: the index of
/// the interface definition, or the exact failure.
pub open spec fn spec_resolve(tree: ScopeTree, path: Seq<Seq<char>>) -> Result<int, ResolutionError> {
    if path.len() == 0 {
        Err(ResolutionError::EmptyPath)
    } else {
        match resolve_prefix(tree, 0, path.drop_last()) {
            None => Err(ResolutionError::ScopeNotFound),
            Some(n) => match first_trait_named(tree, tree.nodes@[n].traits@, path.last()) {
                None => Err(ResolutionError::InterfaceNotFound),
                Some(d) => Ok(d as int),
            },
        }
    }
}

proof fn lemma_resolve_prefix_snoc(tree: ScopeTree, node: int, s: Seq<Seq<char>>, x: Seq<char>)
    ensures
        resolve_prefix(tree, node, s.push(x)) == (match resolve_prefix(tree, node, s) {
            Some(n) => match first_scope_named(tree, tree.nodes@[n].scopes@, x) {
                Some(c) => Some(c as int),
                None => None,
            },
            None => None::<int>,
        }),
    decreases s.len(),
{
    if s.len() == 0 {
        assert(s.push(x)[0] == x);
        assert(s.push(x).drop_first() =~= s);
        assert(resolve_prefix(tree, node, s) == Some(node));
        match first_scope_named(tree, tree.nodes@[node].scopes@, x) {
            Some(c) => {
                assert(resolve_prefix(tree, node, s.push(x)) == resolve_prefix(
                    tree,
                    c as int,
                    s.push(x).drop_first(),
                ));
                assert(resolve_prefix(tree, c as int, s) == Some(c as int));
            },
            None => {
                assert(resolve_prefix(tree, node, s.push(x)) is None);
            },
        }
    } else {
        assert(s.push(x)[0] == s[0]);
        assert(s.push(x).drop_first() =~= s.drop_first().push(x));
        match first_scope_named(tree, tree.nodes@[node].scopes@, s[0]) {
            Some(c) => {
                assert(resolve_prefix(tree, node, s.push(x)) == resolve_prefix(
                    tree,
                    c as int,
                    s.drop_first().push(x),
                ));
                assert(resolve_prefix(tree, node, s) == resolve_prefix(
                    tree,
                    c as int,
                    s.drop_first(),
                ));
                lemma_resolve_prefix_snoc(tree, c as int, s.drop_first(), x);
            },
            None => {
                assert(resolve_prefix(tree, node, s.push(x)) is None);
                assert(resolve_prefix(tree, node, s) is None);
            },
        }
    }
}

/// Find the first nested scope of `node` named `name`.
fn find_scope(tree: &ScopeTree, node: usize, name: &String) -> (r: Option<usize>)
    requires
        tree.wf(),
        node < tree.nodes@.len(),
    ensures
        r == first_scope_named(*tree, tree.nodes@[node as int].scopes@, name@),
        r is Some ==> r->0 < tree.nodes@.len(),
{
    let children: &Vec<usize> = &tree.nodes[node].scopes;
    let ghost all: Seq<usize> = children@;
    proof {
        assert(all.skip(0) =~= all);
    }
    let mut j: usize = 0;
    while j < children.len()
        invariant
            tree.wf(),
            node < tree.nodes@.len(),
            children@ == all,
            all == tree.nodes@[node as int].scopes@,
            j <= all.len(),
            first_scope_named(*tree, all, name@) == first_scope_named(
                *tree,
                all.skip(j as int),
                name@,
            ),
        decreases children.len() - j,
    {
        let c: usize = children[j];
        proof {
            assert(all.skip(j as int)[0] == all[j as int]);
            assert(tree.nodes@[node as int].scopes@[j as int] < tree.nodes@.len());
        }
        if crate::text::str_is(&tree.nodes[c].name, name.as_str()) {
            return Some(c);
        }
        proof {
            assert(all.skip(j as int).drop_first() =~= all.skip(j + 1));
        }
        j = j + 1;
    }
    proof {
        assert(all.skip(j as int).len() == 0);
    }
    None
}

/// Find the first interface of `node` named `name`.
fn find_trait(tree: &ScopeTree, node: usize, name: &String) -> (r: Option<usize>)
    requires
        tree.wf(),
        node < tree.nodes@.len(),
    ensures
        r == first_trait_named(*tree, tree.nodes@[node as int].traits@, name@),
        r is Some ==> r->0 < tree.defs@.len(),
{
    let children: &Vec<usize> = &tree.nodes[node].traits;
    let ghost all: Seq<usize> = children@;
    proof {
        assert(all.skip(0) =~= all);
    }
    let mut j: usize = 0;
    while j < children.len()
        invariant
            tree.wf(),
            node < tree.nodes@.len(),
            children@ == all,
            all == tree.nodes@[node as int].traits@,
            j <= all.len(),
            first_trait_named(*tree, all, name@) == first_trait_named(
                *tree,
                all.skip(j as int),
                name@,
            ),
        decreases children.len() - j,
    {
        let c: usize = children[j];
        proof {
            assert(all.skip(j as int)[0] == all[j as int]);
            assert(tree.nodes@[node as int].traits@[j as int] < tree.defs@.len());
        }
        if crate::text::str_is(&tree.defs[c].name, name.as_str()) {
            return Some(c);
        }
        proof {
            assert(all.skip(j as int).drop_first() =~= all.skip(j + 1));
        }
        j = j + 1;
    }
    proof {
        assert(all.skip(j as int).len() == 0);
    }
    None
}

/// The identifiers of a path, one character sequence per segment; segment
/// arguments play no part in resolution.
pub open spec fn path_view(path: Seq<PathSeg>) -> Seq<Seq<char>> {
    path.map_values(|s: PathSeg| s.ident@)
}

/// Locate an interface inside a parsed definition source: walk every
/// segment of the path but the last into the matching nested scope, then
/// take the items of the first interface of that scope matching the final
/// segment.  Each failure names the stage at fault: an empty path, an
/// intermediate segment without a matching scope, or a final segment
/// without a matching interface.
pub fn find_trait_from_file(content: ScopeTree, path: &Vec<PathSeg>) -> (r: Result<
    Vec<InterfaceItem>,
    ResolutionError,
>)
    requires
        content.wf(),
    ensures
        match spec_resolve(content, path_view(path@)) {
            Ok(d) => r is Ok && r->Ok_0 == content.defs@[d].items,
            Err(e) => r == Err::<Vec<InterfaceItem>, ResolutionError>(e),
        },
{
    let mut tree = content;
    if path.len() == 0 {
        return Err(ResolutionError::EmptyPath);
    }
    let ghost full: Seq<Seq<char>> = path_view(path@);
    let mut cur: usize = 0;
    let mut i: usize = 0;
    while i + 1 < path.len()
        invariant
            tree == content,
            tree.wf(),
            path@.len() >= 1,
            full == path_view(path@),
            i < path@.len(),
            cur < tree.nodes@.len(),
            resolve_prefix(tree, 0, full.take(i as int)) == Some(cur as int),
        decreases path.len() - i,
    {
        let next = find_scope(&tree, cur, &path[i].ident);
        proof {
            assert(full[i as int] == path@[i as int].ident@);
            lemma_resolve_prefix_snoc(tree, 0, full.take(i as int), full[i as int]);
            assert(full.take(i as int).push(full[i as int]) =~= full.take(i + 1));
        }
        match next {
            Some(c) => {
                cur = c;
            },
            None => {
                proof {
                    assert(resolve_prefix(tree, 0, full.take(i + 1)) is None);
                    assert(full.drop_last() =~= full.take(full.len() - 1));
                    lemma_resolve_prefix_extend_none(tree, 0, full, i + 1, full.len() - 1);
                    assert(resolve_prefix(tree, 0, full.drop_last()) is None);
                }
                return Err(ResolutionError::ScopeNotFound);
            },
        }
        i = i + 1;
    }
    proof {
        assert(full.take(i as int) =~= full.drop_last());
    }
    let last: usize = path.len() - 1;
    match find_trait(&tree, cur, &path[last].ident) {
        Some(d) => {
            proof {
                assert(full.last() == full[last as int]);
            }
            let def: TraitDef = tree.defs.swap_remove(d);
            Ok(def.items)
        },
        None => Err(ResolutionError::InterfaceNotFound),
    }
}

/// Once a prefix of the walk has failed, every longer prefix fails too.
proof fn lemma_resolve_prefix_extend_none(
    tree: ScopeTree,
    node: int,
    path: Seq<Seq<char>>,
    i: int,
    j: int,
)
    requires
        0 <= i <= j <= path.len(),
        resolve_prefix(tree, node, path.take(i)) is None,
    ensures
        resolve_prefix(tree, node, path.take(j)) is None,
    decreases j - i,
{
    if i < j {
        lemma_resolve_prefix_snoc(tree, node, path.take(i), path[i]);
        assert(path.take(i).push(path[i]) =~= path.take(i + 1));
        lemma_resolve_prefix_extend_none(tree, node, path, i + 1, j);
    }
}

/// How the interface is supplied: by a definition-source file and a dotted
/// location inside it, or as an inline definition.
#[derive(Debug)]
pub enum TraitCode {
    File { name: String, location: Vec<PathSeg> },
    Raw { name: String, items: Vec<InterfaceItem> },
}

/// An interface specification as written in an invocation: the source of
/// the definition, and an optional alias path used when the interface's
/// declared location differs from its logical name.
#[derive(Debug)]
pub struct TraitSpec {
    pub source: TraitCode,
    pub alias: Option<Vec<PathSeg>>,
}

/// A located interface: its ordered item list and its canonical path.
#[derive(Debug)]
pub struct TraitProvider {
    pub items: Vec<InterfaceItem>,
    pub name: Vec<PathSeg>,
}

impl TraitSpec {
    /// Resolve the interface this specification names.  An inline
    /// definition resolves to its own items; a file-backed specification is
    /// resolved against the parsed definition source, handed in by the
    /// caller as `file`, with `None` standing for a source that could not
    /// be read or parsed.  The canonical path is the alias when one was
    /// written, else the location (or, inline, the declared name).
    pub fn get_trait(self, file: Option<ScopeTree>) -> (r: Result<TraitProvider, ResolutionError>)
        requires
            self.source is File && file is Some ==> file->0.wf(),
        ensures
            match self.source {
                TraitCode::File { name: _, location } => match file {
                    None => r == Err::<TraitProvider, ResolutionError>(
                        ResolutionError::DefinitionSourceUnreadable,
                    ),
                    Some(tree) => match spec_resolve(tree, path_view(location@)) {
                        Ok(d) => r is Ok && r->Ok_0.items == tree.defs@[d].items
                            && r->Ok_0.name@ == (match self.alias {
                            Some(a) => a@,
                            None => location@,
                        }),
                        Err(e) => r == Err::<TraitProvider, ResolutionError>(e),
                    },
                },
                TraitCode::Raw { name, items } => r is Ok && r->Ok_0.items == items
                    && (match self.alias {
                    Some(a) => r->Ok_0.name@ == a@,
                    None => r->Ok_0.name@.len() == 1 && r->Ok_0.name@[0].ident == name
                        && r->Ok_0.name@[0].args@ == Seq::<char>::empty(),
                }),
            },
    {
        let TraitSpec { source, alias } = self;
        match source {
            TraitCode::File { name: _, location } => match file {
                None => Err(ResolutionError::DefinitionSourceUnreadable),
                Some(tree) => match find_trait_from_file(tree, &location) {
                    Ok(items) => Ok(
                        TraitProvider {
                            items,
                            name: match alias {
                                Some(a) => a,
                                None => location,
                            },
                        },
                    ),
                    Err(e) => Err(e),
                },
            },
            TraitCode::Raw { name, items } => {
                let name_path: Vec<PathSeg> = match alias {
                    Some(a) => a,
                    None => {
                        let mut v: Vec<PathSeg> = Vec::new();
                        v.push(PathSeg { ident: name, args: String::new() });
                        v
                    },
                };
                Ok(TraitProvider { items, name: name_path })
            },
        }
    }
}

} // verus!
