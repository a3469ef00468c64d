//! Frame graphs: render passes and the versioned resources they read and
//! write, ordered, checked for write hazards, and given GPU allocations that
//! resources with disjoint lifetimes share.
//!
//! The graph is a `petgraph` directed graph whose nodes are passes and
//! resource versions. Edges go from a resource version to a pass that reads
//! it, and from a pass to a resource version that it writes.

use vstd::prelude::*;
use petgraph::graph::Graph;
use petgraph::graph::NodeIndex;
use petgraph::Direction;
use petgraph::Directed;
use crate::texture::TextureDesc;
use crate::texture::TextureOptions;
use crate::texture_format::TextureDimensions;
use crate::texture_format::TextureFormat;

verus! {

// ---------------------------------------------------------------------------
// Resources, passes and allocations

/// How a pass uses a resource.
#[derive(Copy, Clone, Debug, PartialEq, Eq, Structural)]
pub enum ResourceUsage {
    Default,
    RWImage,
    SampledImage,
    RenderTarget,
    UniformBuffer,
    ShaderStorageBuffer,
    TransformFeedbackOutput,
}

/// A node of the frame graph: a render pass (numbered in creation order) or
/// a version of a resource.
#[derive(Copy, Clone, Debug, PartialEq, Eq, Structural)]
pub enum Node {
    RenderPass { pass: u32 },
    Resource { index: u32, version: i32 },
}

/// The resource that a node is a version of, if it is a resource node.
pub open spec fn node_resource(n: Node) -> Option<u32> {
    match n {
        Node::Resource { index, .. } => Some(index),
        Node::RenderPass { .. } => None,
    }
}

/// An edge: the state in which a pass expects a resource it reads, or leaves
/// a resource it writes.
#[derive(Copy, Clone, Debug)]
pub struct Edge {
    pub usage: ResourceUsage,
}

/// The lifetime of a resource: the positions, in execution order, of the
/// first and the last pass that writes it (both included).
#[derive(Copy, Clone, Debug, PartialEq, Eq, Structural)]
pub struct Lifetime {
    pub begin: i32,
    pub end: i32,
}

/// Two lifetimes share a position.
pub open spec fn lifetimes_overlap(a: Lifetime, b: Lifetime) -> bool {
    a.begin <= b.end && b.begin <= a.end
}

impl Lifetime {
    /// Whether the two lifetimes share a position.
    pub fn overlaps(&self, other: &Lifetime) -> (r: bool)
        ensures
            r == lifetimes_overlap(*self, *other),
    {
        (self.begin <= other.end) && (other.begin <= self.end)
    }
}

/// What a resource is created as.
#[derive(Copy, Clone, Debug)]
pub enum ResourceInfo {
    Buffer { byte_size: usize },
    Texture { desc: TextureDesc },
}

/// Conversion between a resource initializer and what the resource is
/// created as.
pub trait ToResourceInfo: Sized {
    fn to_resource_info(&self) -> ResourceInfo;

    fn from_resource_info(ri: &ResourceInfo) -> Option<Self>;
}

/// The initializer of a 2D texture resource.
#[derive(Copy, Clone, Debug)]
pub struct Texture2DInit {
    pub usage: ResourceUsage,
    pub format: TextureFormat,
    pub width: u32,
    pub height: u32,
    pub sample_count: u32,
    pub mip_map_count: u32,
    pub options: TextureOptions,
}

impl Default for Texture2DInit {
    /// A 512x512 sRGB RGBA texture with one sample and one mip level.
    fn default() -> (r: Texture2DInit)
        ensures
            r == (Texture2DInit {
                usage: ResourceUsage::Default,
                format: TextureFormat::R8G8B8A8_SRGB,
                width: 512,
                height: 512,
                sample_count: 1,
                mip_map_count: 1,
                options: TextureOptions { bits: 0 },
            }),
    {
        Texture2DInit {
            usage: ResourceUsage::Default,
            format: TextureFormat::R8G8B8A8_SRGB,
            width: 512,
            height: 512,
            sample_count: 1,
            mip_map_count: 1,
            options: TextureOptions { bits: 0 },
        }
    }
}

impl ToResourceInfo for Texture2DInit {
    /// A 2D texture of depth 1 with the initializer's format, size, samples,
    /// mip levels and options.
    fn to_resource_info(&self) -> (r: ResourceInfo)
        ensures
            r == (ResourceInfo::Texture {
                desc: TextureDesc {
                    dimensions: TextureDimensions::Tex2D,
                    format: self.format,
                    width: self.width,
                    height: self.height,
                    depth: 1,
                    sample_count: self.sample_count,
                    mip_map_count: self.mip_map_count,
                    options: self.options,
                },
            }),
    {
        ResourceInfo::Texture {
            desc: TextureDesc {
                dimensions: TextureDimensions::Tex2D,
                format: self.format,
                width: self.width,
                height: self.height,
                depth: 1,
                sample_count: self.sample_count,
                mip_map_count: self.mip_map_count,
                options: self.options,
            },
        }
    }

    /// The initializer of a texture resource (usage `Default`), or `None`
    /// for a buffer.
    fn from_resource_info(ri: &ResourceInfo) -> (r: Option<Texture2DInit>)
        ensures
            r == (match *ri {
                ResourceInfo::Texture { desc } => Some(
                    Texture2DInit {
                        usage: ResourceUsage::Default,
                        format: desc.format,
                        width: desc.width,
                        height: desc.height,
                        sample_count: desc.sample_count,
                        mip_map_count: desc.mip_map_count,
                        options: desc.options,
                    },
                ),
                ResourceInfo::Buffer { .. } => None,
            }),
    {
        match ri {
            ResourceInfo::Texture { desc } => Some(
                Texture2DInit {
                    usage: ResourceUsage::Default,
                    format: desc.format,
                    width: desc.width,
                    height: desc.height,
                    sample_count: desc.sample_count,
                    mip_map_count: desc.mip_map_count,
                    options: desc.options,
                },
            ),
            ResourceInfo::Buffer { .. } => None,
        }
    }
}

/// A resource of the frame graph, whatever its version.
pub struct UnversionedResource {
    pub name: String,
    pub info: ResourceInfo,
}

/// A handle to a version of a resource (a resource node).
#[derive(Copy, Clone, Debug, PartialEq, Eq, Structural)]
pub struct ResourceVersion(pub u32);

/// A handle to a render pass (a pass node).
#[derive(Copy, Clone, Debug, PartialEq, Eq, Structural)]
pub struct RenderPass(pub u32);

/// The index of a GPU allocation in a `FrameGraphAllocator`.
#[derive(Copy, Clone, Debug, Hash, PartialEq, Eq, Structural)]
pub struct AliasedResourceIndex(pub u32);

impl AliasedResourceIndex {
    /// The allocation of index `x`.
    pub fn new(x: u32) -> (r: AliasedResourceIndex)
        ensures
            r.0 == x,
    {
        AliasedResourceIndex(x)
    }

    /// The index of the allocation.
    pub fn index(&self) -> (r: u32)
        ensures
            r == self.0,
    {
        self.0
    }
}

/// Why a frame graph cannot be finalized.
#[derive(Copy, Clone, Debug, PartialEq, Eq, Structural)]
pub enum Error {
    /// A resource version is written by two passes, or written by one pass
    /// and read by another.
    ConcurrentWriteHazard,
}

impl Error {
    /// The description of the error.
    pub fn description(&self) -> (r: &'static str)
        ensures
            r@ == "concurrent write hazard detected"@,
    {
        match self {
            Error::ConcurrentWriteHazard => "concurrent write hazard detected",
        }
    }
}

/// An allocation of a `FrameGraphAllocator`: what the GPU buffer or texture
/// was created as.
#[derive(Copy, Clone, Debug, PartialEq, Eq, Structural)]
pub enum AliasedResource {
    Buffer { byte_size: usize },
    Texture { desc: TextureDesc },
}

/// The texture description of a texture allocation, or `None` for a
/// buffer.
pub fn alloc_as_texture(alloc: &AliasedResource) -> (r: Option<&TextureDesc>)
    ensures
        r == (match *alloc {
            AliasedResource::Texture { desc } => Some(&desc),
            AliasedResource::Buffer { .. } => None,
        }),
{
    match alloc {
        AliasedResource::Texture { desc } => Some(desc),
        AliasedResource::Buffer { .. } => None,
    }
}

/// The size in bytes of a buffer allocation, or `None` for a texture.
pub fn alloc_as_buffer_slice(alloc: &AliasedResource) -> (r: Option<usize>)
    ensures
        r == (match *alloc {
            AliasedResource::Buffer { byte_size } => Some(byte_size),
            AliasedResource::Texture { .. } => None,
        }),
{
    match alloc {
        AliasedResource::Buffer { byte_size } => Some(*byte_size),
        AliasedResource::Texture { .. } => None,
    }
}

/// The GPU allocations that the frame graphs of successive frames share.
pub struct FrameGraphAllocator {
    pub allocations: Vec<AliasedResource>,
}

impl FrameGraphAllocator {
    /// An allocator with no allocations.
    pub fn new() -> (r: FrameGraphAllocator)
        ensures
            r.allocations@ == Seq::<AliasedResource>::empty(),
    {
        FrameGraphAllocator { allocations: Vec::new() }
    }
}

// ---------------------------------------------------------------------------
// The graph

/// The edge type of `petgraph` directed graphs.
#[verifier::external_type_specification]
#[verifier::external_body]
pub struct ExDirected(petgraph::Directed);

/// A `petgraph` graph, held opaque; its contents are given by `graph_nodes`
/// and `graph_edges`.
#[verifier::external_type_specification]
#[verifier::external_body]
#[verifier::reject_recursive_types(N)]
#[verifier::reject_recursive_types(E)]
#[verifier::reject_recursive_types(Ty)]
#[verifier::reject_recursive_types(Ix)]
pub struct ExGraph<N, E, Ty, Ix>(petgraph::graph::Graph<N, E, Ty, Ix>);

/// The nodes of `g`, by index.
pub uninterp spec fn graph_nodes(g: Graph<Node, Edge, Directed, u32>) -> Seq<Node>;

/// The edges of `g` as (source, target, weight), in the order they were added
/// (this library never removes an edge).
pub uninterp spec fn graph_edges(g: Graph<Node, Edge, Directed, u32>) -> Seq<(u32, u32, Edge)>;

/// The targets of the edges leaving `a`, most recently added first.
pub open spec fn out_neighbors(edges: Seq<(u32, u32, Edge)>, a: u32) -> Seq<u32>
    decreases edges.len(),
{
    if edges.len() == 0 {
        Seq::empty()
    } else {
        let rest = out_neighbors(edges.drop_last(), a);
        if edges.last().0 == a {
            seq![edges.last().1].add(rest)
        } else {
            rest
        }
    }
}

/// Some edge of `edges` goes from `a` to `v`.
pub open spec fn has_edge(edges: Seq<(u32, u32, Edge)>, a: u32, v: u32) -> bool {
    exists|e: int| 0 <= e < edges.len() && (#[trigger] edges[e]).0 == a && edges[e].1 == v
}

/// Each entry of `out_neighbors(edges, a)` is the target of an edge from
/// `a`, and the target of each edge from `a` is an entry.
pub proof fn lemma_out_neighbors(edges: Seq<(u32, u32, Edge)>, a: u32)
    ensures
        forall|k: int|
            0 <= k < out_neighbors(edges, a).len() ==> has_edge(
                edges,
                a,
                #[trigger] out_neighbors(edges, a)[k],
            ),
        forall|e: int|
            0 <= e < edges.len() && (#[trigger] edges[e]).0 == a ==> out_neighbors(edges, a).contains(
                edges[e].1,
            ),
    decreases edges.len(),
{
    if edges.len() > 0 {
        let rest = edges.drop_last();
        lemma_out_neighbors(rest, a);
        let out = out_neighbors(edges, a);
        let rout = out_neighbors(rest, a);
        assert forall|k: int| 0 <= k < out.len() implies has_edge(edges, a, #[trigger] out[k]) by {
            if edges.last().0 == a && k == 0 {
                assert(edges[edges.len() - 1].1 == out[k]);
            } else {
                let j = if edges.last().0 == a {
                    k - 1
                } else {
                    k
                };
                assert(out[k] == rout[j]);
                assert(has_edge(rest, a, rout[j]));
                let e = choose|e: int| 0 <= e < rest.len() && (#[trigger] rest[e]).0 == a && rest[e].1 == rout[j];
                assert(edges[e] == rest[e]);
            }
        }
        assert forall|e: int| 0 <= e < edges.len() && (#[trigger] edges[e]).0 == a implies out.contains(
            edges[e].1,
        ) by {
            if e == edges.len() - 1 {
                assert(out[0] == edges[e].1);
            } else {
                assert(rest[e] == edges[e]);
                assert(rout.contains(edges[e].1));
                let k = choose|k: int| 0 <= k < rout.len() && rout[k] == edges[e].1;
                if edges.last().0 == a {
                    assert(out[k + 1] == rout[k]);
                } else {
                    assert(out[k] == rout[k]);
                }
            }
        }
    }
}

/// The (source, target) pairs of `edges`, in order.
pub open spec fn arcs(edges: Seq<(u32, u32, Edge)>) -> Seq<(u32, u32)> {
    edges.map_values(|e: (u32, u32, Edge)| (e.0, e.1))
}

/// `order` lists each of the nodes `0..node_count` once, and the source of
/// each arc before its target.
pub open spec fn is_topological_order(node_count: nat, arcs: Seq<(u32, u32)>, order: Seq<u32>) -> bool {
    &&& order.len() == node_count
    &&& order.no_duplicates()
    &&& forall|k: int| 0 <= k < order.len() ==> order[k] < node_count
    &&& forall|v: u32| v < node_count ==> order.contains(v)
    &&& forall|e: int, i: int, j: int|
        0 <= e < arcs.len() && 0 <= i < order.len() && 0 <= j < order.len() && order[i]
            == arcs[e].0 && order[j] == arcs[e].1 ==> i < j
}

/// The graph on `0..node_count` with `arcs` has no cycle.
pub open spec fn is_acyclic(node_count: nat, arcs: Seq<(u32, u32)>) -> bool {
    exists|order: Seq<u32>| is_topological_order(node_count, arcs, order)
}

/// The order in which `petgraph::algo::toposort` lists the nodes of the
/// graph on `0..node_count` with `arcs` (added in that order), or `None`
/// where the graph has a cycle.
pub uninterp spec fn toposort_order(node_count: nat, arcs: Seq<(u32, u32)>) -> Option<Seq<u32>>;

/// `Graph::new`: a graph with no nodes and no edges.
#[verifier::external_body]
fn graph_new() -> (g: Graph<Node, Edge, Directed, u32>)
    ensures
        graph_nodes(g) == Seq::<Node>::empty(),
        graph_edges(g) == Seq::<(u32, u32, Edge)>::empty(),
{
    Graph::new()
}

/// `Graph::node_count`: the number of nodes.
#[verifier::external_body]
fn graph_node_count(g: &Graph<Node, Edge, Directed, u32>) -> (r: usize)
    ensures
        r == graph_nodes(*g).len(),
{
    g.node_count()
}

/// `Graph::add_node`: appends a node of weight `w` and returns its index.
/// `add_node` panics when the index would reach `u32::MAX`.
#[verifier::external_body]
fn graph_add_node(g: &mut Graph<Node, Edge, Directed, u32>, w: Node) -> (r: u32)
    requires
        graph_nodes(*old(g)).len() < u32::MAX,
    ensures
        r == graph_nodes(*old(g)).len(),
        graph_nodes(*final(g)) == graph_nodes(*old(g)).push(w),
        graph_edges(*final(g)) == graph_edges(*old(g)),
{
    g.add_node(w).index() as u32
}

/// `Graph::add_edge`: appends an edge from `a` to `b` of weight `w`.
/// `add_edge` panics when a node does not exist or the edge index would
/// reach `u32::MAX`.
#[verifier::external_body]
fn graph_add_edge(g: &mut Graph<Node, Edge, Directed, u32>, a: u32, b: u32, w: Edge)
    requires
        a < graph_nodes(*old(g)).len(),
        b < graph_nodes(*old(g)).len(),
        graph_edges(*old(g)).len() < u32::MAX,
    ensures
        graph_nodes(*final(g)) == graph_nodes(*old(g)),
        graph_edges(*final(g)) == graph_edges(*old(g)).push((a, b, w)),
{
    g.add_edge(NodeIndex::new(a as usize), NodeIndex::new(b as usize), w);
}

/// `Graph::node_weight`: the weight of node `a`, if it exists.
#[verifier::external_body]
fn graph_node_weight(g: &Graph<Node, Edge, Directed, u32>, a: u32) -> (r: Option<Node>)
    ensures
        r == (if a < graph_nodes(*g).len() {
            Some(graph_nodes(*g)[a as int])
        } else {
            None::<Node>
        }),
{
    g.node_weight(NodeIndex::new(a as usize)).copied()
}

/// `Graph::neighbors_directed` with `Outgoing`, collected: the targets of
/// the edges leaving `a`, most recently added first (the order that
/// `petgraph` documents for directed graphs).
#[verifier::external_body]
fn graph_outgoing(g: &Graph<Node, Edge, Directed, u32>, a: u32) -> (r: Vec<u32>)
    ensures
        r@ == out_neighbors(graph_edges(*g), a),
{
    g.neighbors_directed(NodeIndex::new(a as usize), Direction::Outgoing).map(|n| n.index() as u32).collect()
}

/// `petgraph::algo::toposort`: the nodes in topological order, or `None`
/// where the graph has a cycle (the `Cycle` error). Which of the topological
/// orders comes out is named `toposort_order`.
#[verifier::external_body]
fn graph_toposort(g: &Graph<Node, Edge, Directed, u32>) -> (r: Option<Vec<u32>>)
    ensures
        toposort_order(graph_nodes(*g).len(), arcs(graph_edges(*g))) == (match r {
            Some(v) => Some(v@),
            None => None::<Seq<u32>>,
        }),
        r is Some <==> is_acyclic(graph_nodes(*g).len(), arcs(graph_edges(*g))),
        r matches Some(v) ==> is_topological_order(
            graph_nodes(*g).len(),
            arcs(graph_edges(*g)),
            v@,
        ),
{
    match petgraph::algo::toposort(g, None) {
        Ok(v) => Some(v.iter().map(|n| n.index() as u32).collect()),
        Err(_) => None,
    }
}

// ---------------------------------------------------------------------------
// Write hazards

/// Pass `pass` writes a version of resource `rindex`.
pub open spec fn pass_modifies(nodes: Seq<Node>, edges: Seq<(u32, u32, Edge)>, pass: u32, rindex: u32) -> bool {
    exists|k: int|
        0 <= k < out_neighbors(edges, pass).len() && node_resource(
            nodes[#[trigger] out_neighbors(edges, pass)[k] as int],
        ) == Some(rindex)
}

/// The number of entries of `passes` that write a version of `rindex`.
pub open spec fn count_modifying(nodes: Seq<Node>, edges: Seq<(u32, u32, Edge)>, passes: Seq<u32>, rindex: u32) -> nat
    decreases passes.len(),
{
    if passes.len() == 0 {
        0
    } else {
        count_modifying(nodes, edges, passes.drop_last(), rindex) + if pass_modifies(
            nodes,
            edges,
            passes.last(),
            rindex,
        ) {
            1nat
        } else {
            0nat
        }
    }
}

/// Resource node `n` is written by two passes, or written by one and read
/// by another (its readers and writers are the passes its edges lead to).
pub open spec fn node_has_hazard(nodes: Seq<Node>, edges: Seq<(u32, u32, Edge)>, n: u32) -> bool {
    match nodes[n as int] {
        Node::Resource { index, .. } => {
            let passes = out_neighbors(edges, n);
            let writers = count_modifying(nodes, edges, passes, index);
            let readers = passes.len() - writers;
            writers > 1 || (readers > 0 && writers > 0)
        },
        Node::RenderPass { .. } => false,
    }
}

/// Some resource node of the graph has a write hazard.
pub open spec fn has_write_hazard(nodes: Seq<Node>, edges: Seq<(u32, u32, Edge)>) -> bool {
    exists|n: u32| n < nodes.len() && #[trigger] node_has_hazard(nodes, edges, n)
}

/// No pass writes two versions of the same resource.
pub open spec fn outputs_distinct(nodes: Seq<Node>, edges: Seq<(u32, u32, Edge)>) -> bool {
    forall|p: u32, j: int, k: int|
        p < nodes.len() && nodes[p as int] is RenderPass && 0 <= j < k < out_neighbors(edges, p).len()
            ==> node_resource(nodes[#[trigger] out_neighbors(edges, p)[j] as int]) != node_resource(
            nodes[#[trigger] out_neighbors(edges, p)[k] as int],
        )
}

// ---------------------------------------------------------------------------
// Lifetimes

/// A lifetime extended to position `t`: from its begin, or from `t` where
/// there was none, to `t`.
pub open spec fn extend_lifetime(l: Option<Lifetime>, t: int) -> Option<Lifetime> {
    Some(
        Lifetime {
            begin: match l {
                Some(x) => x.begin,
                None => t as i32,
            },
            end: t as i32,
        },
    )
}

/// The lifetimes after the pass `p` at position `t`: those of the resources
/// it writes extended to `t`.
pub open spec fn pass_lifetimes(nodes: Seq<Node>, edges: Seq<(u32, u32, Edge)>, lifetimes: Seq<Option<Lifetime>>, p: u32, t: int) -> Seq<Option<Lifetime>> {
    Seq::new(
        lifetimes.len(),
        |i: int|
            if pass_modifies(nodes, edges, p, i as u32) {
                extend_lifetime(lifetimes[i], t)
            } else {
                lifetimes[i]
            },
    )
}

/// The lifetimes after the first `k` nodes of `order`, starting from
/// `init`.
pub open spec fn lifetimes_upto(nodes: Seq<Node>, edges: Seq<(u32, u32, Edge)>, order: Seq<u32>, k: nat, init: Seq<Option<Lifetime>>) -> Seq<Option<Lifetime>>
    decreases k,
{
    if k == 0 {
        init
    } else {
        let prev = lifetimes_upto(nodes, edges, order, (k - 1) as nat, init);
        let n = order[k - 1];
        match nodes[n as int] {
            Node::RenderPass { .. } => pass_lifetimes(nodes, edges, prev, n, k - 1),
            Node::Resource { .. } => prev,
        }
    }
}

/// The lifetimes of `resource_count` resources when the nodes run in
/// `order`: for each resource, the positions of the first and the last pass
/// that writes it, or `None` where no pass does.
pub open spec fn resource_lifetimes(nodes: Seq<Node>, edges: Seq<(u32, u32, Edge)>, order: Seq<u32>, resource_count: nat) -> Seq<Option<Lifetime>> {
    lifetimes_upto(nodes, edges, order, order.len(), Seq::new(resource_count, |i: int| None::<Lifetime>))
}

/// The lifetimes after `k` nodes have as many entries as `init`.
pub proof fn lemma_lifetimes_len(nodes: Seq<Node>, edges: Seq<(u32, u32, Edge)>, order: Seq<u32>, k: nat, init: Seq<Option<Lifetime>>)
    ensures
        lifetimes_upto(nodes, edges, order, k, init).len() == init.len(),
    decreases k,
{
    if k > 0 {
        lemma_lifetimes_len(nodes, edges, order, (k - 1) as nat, init);
    }
}

/// Once a pass at position `t` of `order` writes resource `i`, the
/// lifetime of `i` is set from then on.
pub proof fn lemma_lifetime_set(nodes: Seq<Node>, edges: Seq<(u32, u32, Edge)>, order: Seq<u32>, k: nat, init: Seq<Option<Lifetime>>, i: int, t: int)
    requires
        0 <= t < k <= order.len(),
        0 <= i < init.len(),
        nodes[order[t] as int] is RenderPass,
        pass_modifies(nodes, edges, order[t], i as u32),
    ensures
        lifetimes_upto(nodes, edges, order, k, init)[i] is Some,
    decreases k,
{
    lemma_lifetimes_len(nodes, edges, order, (k - 1) as nat, init);
    if t < k - 1 {
        lemma_lifetime_set(nodes, edges, order, (k - 1) as nat, init, i, t);
    }
}

/// The node at position `t` of `order` is a pass that writes resource `i`.
pub open spec fn writes_at(nodes: Seq<Node>, edges: Seq<(u32, u32, Edge)>, order: Seq<u32>, t: int, i: int) -> bool {
    nodes[order[t] as int] is RenderPass && pass_modifies(nodes, edges, order[t], i as u32)
}

/// The lifetimes after the first `k` nodes span, for each resource, the
/// positions before `k` of the passes that write it.
proof fn lemma_lifetimes_upto_span(nodes: Seq<Node>, edges: Seq<(u32, u32, Edge)>, order: Seq<u32>, k: nat, n: nat, i: int)
    requires
        k <= order.len() <= i32::MAX,
        0 <= i < n,
    ensures
        match lifetimes_upto(nodes, edges, order, k, Seq::new(n, |j: int| None::<Lifetime>))[i] {
            Some(l) => {
                &&& 0 <= l.begin <= l.end < k
                &&& writes_at(nodes, edges, order, l.begin as int, i)
                &&& writes_at(nodes, edges, order, l.end as int, i)
                &&& forall|t: int|
                    0 <= t < k && #[trigger] writes_at(nodes, edges, order, t, i) ==> l.begin <= t <= l.end
            },
            None => forall|t: int| 0 <= t < k ==> !#[trigger] writes_at(nodes, edges, order, t, i),
        },
    decreases k,
{
    let init = Seq::new(n, |j: int| None::<Lifetime>);
    if k > 0 {
        lemma_lifetimes_upto_span(nodes, edges, order, (k - 1) as nat, n, i);
        lemma_lifetimes_len(nodes, edges, order, (k - 1) as nat, init);
        let prev = lifetimes_upto(nodes, edges, order, (k - 1) as nat, init);
        let cur = lifetimes_upto(nodes, edges, order, k, init);
        let t0 = k - 1;
        if writes_at(nodes, edges, order, t0, i) {
            assert(cur[i] == extend_lifetime(prev[i], t0));
        } else {
            assert(cur[i] == prev[i]);
        }
    }
}

/// The lifetime of a resource spans the passes that write it: where some
/// pass writes resource `i`, its lifetime begins at the position in `order`
/// of the first such pass and ends at the position of the last; where none
/// does, it has no lifetime.
pub proof fn lemma_lifetime_spans_writes(nodes: Seq<Node>, edges: Seq<(u32, u32, Edge)>, order: Seq<u32>, n: nat, i: int)
    requires
        order.len() <= i32::MAX,
        0 <= i < n,
    ensures
        match resource_lifetimes(nodes, edges, order, n)[i] {
            Some(l) => {
                &&& 0 <= l.begin <= l.end < order.len()
                &&& writes_at(nodes, edges, order, l.begin as int, i)
                &&& writes_at(nodes, edges, order, l.end as int, i)
                &&& forall|t: int|
                    0 <= t < order.len() && #[trigger] writes_at(nodes, edges, order, t, i) ==> l.begin <= t
                        <= l.end
            },
            None => forall|t: int| 0 <= t < order.len() ==> !#[trigger] writes_at(nodes, edges, order, t, i),
        },
{
    lemma_lifetimes_upto_span(nodes, edges, order, order.len(), n, i);
}

/// Position `t` lies in lifetime `l`, ends included.
pub open spec fn lifetime_contains(l: Lifetime, t: int) -> bool {
    l.begin <= t <= l.end
}

/// Two lifetimes (each beginning no later than it ends) overlap exactly when
/// some position lies in both, ends included: lifetimes that merely touch
/// at a common endpoint overlap.
pub proof fn lemma_overlap_iff_shared_position(a: Lifetime, b: Lifetime)
    requires
        a.begin <= a.end,
        b.begin <= b.end,
    ensures
        lifetimes_overlap(a, b) <==> exists|t: int|
            #[trigger] lifetime_contains(a, t) && lifetime_contains(b, t),
{
    if lifetimes_overlap(a, b) {
        let t: int = if a.begin <= b.begin {
            b.begin as int
        } else {
            a.begin as int
        };
        assert(lifetime_contains(a, t) && lifetime_contains(b, t));
    }
}

/// Two resources that one pass writes have overlapping lifetimes: both
/// lifetimes contain the position of that pass.
pub proof fn lemma_common_writer_lifetimes_overlap(
    nodes: Seq<Node>,
    edges: Seq<(u32, u32, Edge)>,
    order: Seq<u32>,
    n: nat,
    i: int,
    j: int,
    t: int,
)
    requires
        order.len() <= i32::MAX,
        0 <= i < n,
        0 <= j < n,
        0 <= t < order.len(),
        writes_at(nodes, edges, order, t, i),
        writes_at(nodes, edges, order, t, j),
    ensures
        resource_lifetimes(nodes, edges, order, n)[i] is Some,
        resource_lifetimes(nodes, edges, order, n)[j] is Some,
        lifetimes_overlap(
            resource_lifetimes(nodes, edges, order, n)[i].unwrap(),
            resource_lifetimes(nodes, edges, order, n)[j].unwrap(),
        ),
{
    lemma_lifetime_spans_writes(nodes, edges, order, n, i);
    lemma_lifetime_spans_writes(nodes, edges, order, n, j);
    let ls = resource_lifetimes(nodes, edges, order, n);
    assert(ls[i] is Some);
    assert(ls[j] is Some);
    lemma_overlap_iff_shared_position(ls[i].unwrap(), ls[j].unwrap());
    assert(lifetime_contains(ls[i].unwrap(), t) && lifetime_contains(ls[j].unwrap(), t));
}

/// Two resources that one pass writes never share an allocation: where
/// resources with the same allocation have disjoint lifetimes (as
/// `FrameGraph::finalize` ensures), two distinct resources written by the
/// pass at position `t` have different allocations.
pub proof fn lemma_common_writer_never_shares(
    nodes: Seq<Node>,
    edges: Seq<(u32, u32, Edge)>,
    order: Seq<u32>,
    aliased: Seq<Option<AliasedResourceIndex>>,
    i: int,
    j: int,
    t: int,
)
    requires
        order.len() <= i32::MAX,
        0 <= i < aliased.len(),
        0 <= j < aliased.len(),
        i != j,
        0 <= t < order.len(),
        writes_at(nodes, edges, order, t, i),
        writes_at(nodes, edges, order, t, j),
        forall|x: int, y: int|
            0 <= x < aliased.len() && 0 <= y < aliased.len() && x != y && #[trigger] aliased[x]
                == #[trigger] aliased[y] ==> !lifetimes_overlap(
                resource_lifetimes(nodes, edges, order, aliased.len())[x].unwrap(),
                resource_lifetimes(nodes, edges, order, aliased.len())[y].unwrap(),
            ),
    ensures
        aliased[i] != aliased[j],
{
    lemma_common_writer_lifetimes_overlap(nodes, edges, order, aliased.len(), i, j, t);
}

// ---------------------------------------------------------------------------
// Allocation sharing

/// Some resource other than `i` uses allocation `k` during the lifetime of
/// `i`.
pub open spec fn alias_conflict(aliased: Seq<Option<AliasedResourceIndex>>, lifetimes: Seq<Option<Lifetime>>, i: int, k: int) -> bool {
    exists|j: int|
        0 <= j < aliased.len() && j != i && #[trigger] aliased[j] == Some(AliasedResourceIndex(k as u32))
            && lifetimes_overlap(lifetimes[i].unwrap(), lifetimes[j].unwrap())
}

/// Allocation `k` is a texture created as `desc` that no other resource
/// uses during the lifetime of resource `i`.
pub open spec fn can_alias(allocs: Seq<AliasedResource>, aliased: Seq<Option<AliasedResourceIndex>>, lifetimes: Seq<Option<Lifetime>>, i: int, desc: TextureDesc, k: int) -> bool {
    allocs[k] == (AliasedResource::Texture { desc }) && !alias_conflict(aliased, lifetimes, i, k)
}

/// The first allocation from `k` on that resource `i`, a texture created as
/// `desc`, can share.
pub open spec fn first_alias(allocs: Seq<AliasedResource>, aliased: Seq<Option<AliasedResourceIndex>>, lifetimes: Seq<Option<Lifetime>>, i: int, desc: TextureDesc, k: nat) -> Option<nat>
    decreases allocs.len() - k,
{
    if k >= allocs.len() {
        None
    } else if can_alias(allocs, aliased, lifetimes, i, desc, k as int) {
        Some(k)
    } else {
        first_alias(allocs, aliased, lifetimes, i, desc, k + 1)
    }
}

/// The allocation that a resource is created as.
pub open spec fn allocation_for(info: ResourceInfo) -> AliasedResource {
    match info {
        ResourceInfo::Texture { desc } => AliasedResource::Texture { desc },
        ResourceInfo::Buffer { byte_size } => AliasedResource::Buffer { byte_size },
    }
}

/// `a` is an allocation of `allocs` created as `info` is.
pub open spec fn holds_allocation(a: Option<AliasedResourceIndex>, allocs: Seq<AliasedResource>, info: ResourceInfo) -> bool {
    a matches Some(x) && x.0 < allocs.len() && allocs[x.0 as int] == allocation_for(info)
}

/// The allocations after resource `i` is assigned one: a texture shares the
/// first allocation it can, or gets a new one; a buffer gets a new one.
pub open spec fn assign_resource(infos: Seq<ResourceInfo>, lifetimes: Seq<Option<Lifetime>>, aliased: Seq<Option<AliasedResourceIndex>>, allocs: Seq<AliasedResource>, i: int) -> (Seq<Option<AliasedResourceIndex>>, Seq<AliasedResource>) {
    if aliased[i] is Some {
        (aliased, allocs)
    } else {
        match infos[i] {
            ResourceInfo::Texture { desc } => match first_alias(allocs, aliased, lifetimes, i, desc, 0) {
                Some(k) => (aliased.update(i, Some(AliasedResourceIndex(k as u32))), allocs),
                None => (
                    aliased.update(i, Some(AliasedResourceIndex(allocs.len() as u32))),
                    allocs.push(AliasedResource::Texture { desc }),
                ),
            },
            ResourceInfo::Buffer { byte_size } => (
                aliased.update(i, Some(AliasedResourceIndex(allocs.len() as u32))),
                allocs.push(AliasedResource::Buffer { byte_size }),
            ),
        }
    }
}

/// The allocations after the first `k` resources are assigned, in order.
pub open spec fn assign_upto(infos: Seq<ResourceInfo>, lifetimes: Seq<Option<Lifetime>>, aliased: Seq<Option<AliasedResourceIndex>>, allocs: Seq<AliasedResource>, k: nat) -> (Seq<Option<AliasedResourceIndex>>, Seq<AliasedResource>)
    decreases k,
{
    if k == 0 {
        (aliased, allocs)
    } else {
        let prev = assign_upto(infos, lifetimes, aliased, allocs, (k - 1) as nat);
        assign_resource(infos, lifetimes, prev.0, prev.1, k - 1)
    }
}

/// A first fit is an allocation that fits, with none before it from `k`.
pub proof fn lemma_first_alias(allocs: Seq<AliasedResource>, aliased: Seq<Option<AliasedResourceIndex>>, lifetimes: Seq<Option<Lifetime>>, i: int, desc: TextureDesc, k: nat)
    ensures
        first_alias(allocs, aliased, lifetimes, i, desc, k) matches Some(m) ==> k <= m < allocs.len()
            && can_alias(allocs, aliased, lifetimes, i, desc, m as int),
        first_alias(allocs, aliased, lifetimes, i, desc, k) is None ==> forall|m: int|
            k <= m < allocs.len() ==> !can_alias(allocs, aliased, lifetimes, i, desc, m),
    decreases allocs.len() - k,
{
    if k < allocs.len() && !can_alias(allocs, aliased, lifetimes, i, desc, k as int) {
        lemma_first_alias(allocs, aliased, lifetimes, i, desc, k + 1);
    }
}

/// What holds of the allocations after the first `k` resources are
/// assigned, starting from the allocations `allocs0`: the first `k`
/// resources have allocations created as they were, the others none yet,
/// and resources that share an allocation have disjoint lifetimes.
pub open spec fn assignment_sound(infos: Seq<ResourceInfo>, lifetimes: Seq<Option<Lifetime>>, aliased: Seq<Option<AliasedResourceIndex>>, allocs: Seq<AliasedResource>, allocs0: Seq<AliasedResource>, k: nat) -> bool {
    &&& aliased.len() == infos.len()
    &&& allocs0.is_prefix_of(allocs)
    &&& allocs.len() <= allocs0.len() + k
    &&& forall|i: int| k <= i < aliased.len() ==> (#[trigger] aliased[i]) is None
    &&& forall|i: int|
        0 <= i < k && i < infos.len() ==> holds_allocation(aliased[i], allocs, #[trigger] infos[i])
    &&& forall|i: int, j: int|
        0 <= i < aliased.len() && 0 <= j < aliased.len() && i != j && (#[trigger] aliased[i]) is Some
            && aliased[i] == #[trigger] aliased[j] ==> !lifetimes_overlap(
            lifetimes[i].unwrap(),
            lifetimes[j].unwrap(),
        )
}

/// Assigning the resources one after the other keeps `assignment_sound`.
proof fn lemma_assign_upto_sound(infos: Seq<ResourceInfo>, lifetimes: Seq<Option<Lifetime>>, allocs0: Seq<AliasedResource>, k: nat)
    requires
        k <= infos.len(),
        allocs0.len() + infos.len() <= u32::MAX,
    ensures
        ({
            let r = assign_upto(
                infos,
                lifetimes,
                Seq::new(infos.len(), |i: int| None::<AliasedResourceIndex>),
                allocs0,
                k,
            );
            assignment_sound(infos, lifetimes, r.0, r.1, allocs0, k)
        }),
    decreases k,
{
    let none = Seq::new(infos.len(), |i: int| None::<AliasedResourceIndex>);
    if k == 0 {
        assert(allocs0.is_prefix_of(allocs0));
    } else {
        lemma_assign_upto_sound(infos, lifetimes, allocs0, (k - 1) as nat);
        let prev = assign_upto(infos, lifetimes, none, allocs0, (k - 1) as nat);
        let aliased = prev.0;
        let allocs = prev.1;
        let i = k - 1;
        let r = assign_resource(infos, lifetimes, aliased, allocs, i);
        assert(aliased[i] is None);
        match infos[i] {
            ResourceInfo::Texture { desc } => {
                lemma_first_alias(allocs, aliased, lifetimes, i, desc, 0);
                match first_alias(allocs, aliased, lifetimes, i, desc, 0) {
                    Some(m) => {
                        let a = AliasedResourceIndex(m as u32);
                        assert(r.0 == aliased.update(i, Some(a)));
                        assert forall|x: int, y: int|
                            0 <= x < r.0.len() && 0 <= y < r.0.len() && x != y && (#[trigger] r.0[x]) is Some
                                && r.0[x] == #[trigger] r.0[y] implies !lifetimes_overlap(
                            lifetimes[x].unwrap(),
                            lifetimes[y].unwrap(),
                        ) by {
                            if x == i {
                                assert(aliased[y] == Some(a));
                            } else if y == i {
                                assert(aliased[x] == Some(a));
                            } else {
                                assert(aliased[x] == r.0[x] && aliased[y] == r.0[y]);
                            }
                        }
                        assert forall|x: int| 0 <= x < k && x < infos.len() implies holds_allocation(r.0[x], r.1, #[trigger] infos[x]) by {
                            if x != i {
                                assert(r.0[x] == aliased[x]);
                            }
                        }
                    },
                    None => {
                        let a = AliasedResourceIndex(allocs.len() as u32);
                        assert(r.0 == aliased.update(i, Some(a)));
                        assert(r.1 == allocs.push(AliasedResource::Texture { desc }));
                        assert forall|x: int, y: int|
                            0 <= x < r.0.len() && 0 <= y < r.0.len() && x != y && (#[trigger] r.0[x]) is Some
                                && r.0[x] == #[trigger] r.0[y] implies !lifetimes_overlap(
                            lifetimes[x].unwrap(),
                            lifetimes[y].unwrap(),
                        ) by {
                            if x == i {
                                assert(aliased[y] == Some(a));
                                assert(y < k || aliased[y] is None);
                                assert(infos[y] is Texture);
                            } else if y == i {
                                assert(aliased[x] == Some(a));
                                assert(infos[x] is Texture);
                            } else {
                                assert(aliased[x] == r.0[x] && aliased[y] == r.0[y]);
                            }
                        }
                        assert forall|x: int| 0 <= x < k && x < infos.len() implies holds_allocation(r.0[x], r.1, #[trigger] infos[x]) by {
                            if x != i {
                                assert(r.0[x] == aliased[x]);
                            }
                        }
                        assert(allocs0.is_prefix_of(r.1));
                    },
                }
            },
            ResourceInfo::Buffer { byte_size } => {
                let a = AliasedResourceIndex(allocs.len() as u32);
                assert(r.0 == aliased.update(i, Some(a)));
                assert(r.1 == allocs.push(AliasedResource::Buffer { byte_size }));
                assert(allocs0.is_prefix_of(r.1));
                assert forall|x: int, y: int|
                    0 <= x < r.0.len() && 0 <= y < r.0.len() && x != y && (#[trigger] r.0[x]) is Some
                        && r.0[x] == #[trigger] r.0[y] implies !lifetimes_overlap(
                    lifetimes[x].unwrap(),
                    lifetimes[y].unwrap(),
                ) by {
                    if x == i {
                        assert(aliased[y] == Some(a));
                        if y < i {
                            assert(holds_allocation(aliased[y], allocs, infos[y]));
                        }
                    } else if y == i {
                        assert(aliased[x] == Some(a));
                        if x < i {
                            assert(holds_allocation(aliased[x], allocs, infos[x]));
                        }
                    } else {
                        assert(aliased[x] == r.0[x] && aliased[y] == r.0[y]);
                    }
                }
                assert forall|x: int| 0 <= x < k && x < infos.len() implies holds_allocation(r.0[x], r.1, #[trigger] infos[x]) by {
                    if x != i {
                        assert(r.0[x] == aliased[x]);
                        assert(holds_allocation(aliased[x], allocs, infos[x]));
                        let b = aliased[x].unwrap();
                        assert(r.1[b.0 as int] == allocs[b.0 as int]);
                    }
                }
            },
        }
    }
}

/// Resources that share a GPU allocation do not live at the same time: once
/// the resources are assigned, in order, starting from the allocations
/// `allocs0`, each resource has an allocation created as it was, two
/// resources with the same allocation have disjoint lifetimes, and the
/// earlier allocations stay as they were.
pub proof fn lemma_aliased_resources_disjoint(infos: Seq<ResourceInfo>, lifetimes: Seq<Option<Lifetime>>, allocs0: Seq<AliasedResource>)
    requires
        allocs0.len() + infos.len() <= u32::MAX,
    ensures
        ({
            let r = assign_upto(
                infos,
                lifetimes,
                Seq::new(infos.len(), |i: int| None::<AliasedResourceIndex>),
                allocs0,
                infos.len(),
            );
            &&& allocs0.is_prefix_of(r.1)
            &&& forall|i: int|
                0 <= i < infos.len() ==> holds_allocation(r.0[i], r.1, #[trigger] infos[i])
            &&& forall|i: int, j: int|
                0 <= i < infos.len() && 0 <= j < infos.len() && i != j && (#[trigger] r.0[i]) is Some
                    && r.0[i] == #[trigger] r.0[j] ==> !lifetimes_overlap(
                    lifetimes[i].unwrap(),
                    lifetimes[j].unwrap(),
                )
        }),
{
    lemma_assign_upto_sound(infos, lifetimes, allocs0, infos.len());
}

// ---------------------------------------------------------------------------
// Frame graphs

/// A frame graph: passes, the resources they create, read and write, and,
/// once finalized, the lifetime and allocation of each resource.
pub struct FrameGraph {
    resources: Vec<UnversionedResource>,
    lifetimes: Vec<Option<Lifetime>>,
    aliased: Vec<Option<AliasedResourceIndex>>,
    pass_names: Vec<String>,
    graph: Graph<Node, Edge, Directed, u32>,
    /// For each resource, an edge from a pass to one of its versions.
    producers: Ghost<Seq<int>>,
}

impl FrameGraph {
    /// The nodes of the graph.
    pub closed spec fn spec_nodes(&self) -> Seq<Node> {
        graph_nodes(self.graph)
    }

    /// The edges of the graph, in the order they were added.
    pub closed spec fn spec_edges(&self) -> Seq<(u32, u32, Edge)> {
        graph_edges(self.graph)
    }

    /// The resources, by index.
    pub closed spec fn spec_resources(&self) -> Seq<ResourceInfo> {
        self.resources@.map_values(|r: UnversionedResource| r.info)
    }

    /// The number of render passes.
    pub closed spec fn spec_pass_count(&self) -> nat {
        self.pass_names@.len()
    }

    /// The lifetimes of the resources (`None` before finalization).
    pub closed spec fn spec_lifetimes(&self) -> Seq<Option<Lifetime>> {
        self.lifetimes@
    }

    /// The allocations of the resources (`None` before finalization).
    pub closed spec fn spec_aliased(&self) -> Seq<Option<AliasedResourceIndex>> {
        self.aliased@
    }

    /// Node `v` is a resource node.
    pub open spec fn is_resource_node(&self, v: u32) -> bool {
        v < self.spec_nodes().len() && self.spec_nodes()[v as int] is Resource
    }

    /// Node `v` is a pass node.
    pub open spec fn is_pass_node(&self, v: u32) -> bool {
        v < self.spec_nodes().len() && self.spec_nodes()[v as int] is RenderPass
    }

    /// The shape of a frame graph: node payloads refer to existing passes
    /// and resources, each edge links a pass and a resource version, and each
    /// resource has a version written by a pass.
    pub closed spec fn shape_wf(&self) -> bool {
        let nodes = self.spec_nodes();
        let edges = self.spec_edges();
        let n = self.resources@.len();
        &&& self.lifetimes@.len() == n
        &&& self.aliased@.len() == n
        &&& self.pass_names@.len() <= nodes.len()
        &&& n <= nodes.len()
        &&& forall|v: int|
            0 <= v < nodes.len() ==> match #[trigger] nodes[v] {
                Node::RenderPass { pass } => pass < self.pass_names@.len(),
                Node::Resource { index, .. } => index < n,
            }
        &&& forall|e: int|
            0 <= e < edges.len() ==> {
                &&& (#[trigger] edges[e]).0 < nodes.len()
                &&& edges[e].1 < nodes.len()
                &&& (nodes[edges[e].0 as int] is RenderPass <==> nodes[edges[e].1 as int] is Resource)
            }
        &&& self.producers@.len() == n
        &&& forall|i: int|
            0 <= i < n ==> {
                let e = #[trigger] self.producers@[i];
                &&& 0 <= e < edges.len()
                &&& nodes[edges[e].0 as int] is RenderPass
                &&& node_resource(nodes[edges[e].1 as int]) == Some(i as u32)
            }
    }

    /// The invariant of a frame graph under construction: its shape, and
    /// nothing finalized yet.
    pub closed spec fn wf(&self) -> bool {
        &&& self.shape_wf()
        &&& forall|i: int|
            0 <= i < self.resources@.len() ==> self.lifetimes@[i] is None && self.aliased@[i] is None
    }

    /// An empty frame graph.
    pub fn new() -> (r: FrameGraph)
        ensures
            r.wf(),
            r.spec_nodes() == Seq::<Node>::empty(),
            r.spec_edges() == Seq::<(u32, u32, Edge)>::empty(),
            r.spec_resources() == Seq::<ResourceInfo>::empty(),
            r.spec_pass_count() == 0,
    {
        let r = FrameGraph {
            resources: Vec::new(),
            lifetimes: Vec::new(),
            aliased: Vec::new(),
            pass_names: Vec::new(),
            graph: graph_new(),
            producers: Ghost(Seq::empty()),
        };
        proof {
            assert(r.spec_resources() =~= Seq::<ResourceInfo>::empty());
        }
        r
    }


    /// Adds a render pass named `name`, with no inputs or outputs yet.
    pub fn create_render_pass(&mut self, name: String) -> (r: RenderPass)
        requires
            old(self).wf(),
            old(self).spec_nodes().len() < u32::MAX,
        ensures
            final(self).wf(),
            r.0 == old(self).spec_nodes().len(),
            final(self).spec_nodes() == old(self).spec_nodes().push(
                Node::RenderPass { pass: old(self).spec_pass_count() as u32 },
            ),
            final(self).spec_edges() == old(self).spec_edges(),
            final(self).spec_resources() == old(self).spec_resources(),
            final(self).spec_pass_count() == old(self).spec_pass_count() + 1,
    {
        let pass = self.pass_names.len() as u32;
        self.pass_names.push(name);
        let node = graph_add_node(&mut self.graph, Node::RenderPass { pass });
        proof {
            let nodes = self.spec_nodes();
            let edges = self.spec_edges();
            assert forall|v: int| 0 <= v < nodes.len() implies match #[trigger] nodes[v] {
                Node::RenderPass { pass } => pass < self.pass_names@.len(),
                Node::Resource { index, .. } => index < self.resources@.len(),
            } by {
                if v < nodes.len() - 1 {
                    assert(nodes[v] == old(self).spec_nodes()[v]);
                }
            }
            assert forall|e: int| 0 <= e < edges.len() implies {
                &&& (#[trigger] edges[e]).0 < nodes.len()
                &&& edges[e].1 < nodes.len()
                &&& (nodes[edges[e].0 as int] is RenderPass <==> nodes[edges[e].1 as int] is Resource)
            } by {
                assert(old(self).spec_edges()[e] == edges[e]);
                assert(nodes[edges[e].0 as int] == old(self).spec_nodes()[edges[e].0 as int]);
                assert(nodes[edges[e].1 as int] == old(self).spec_nodes()[edges[e].1 as int]);
            }
            assert forall|i: int| 0 <= i < self.resources@.len() implies {
                let e = #[trigger] self.producers@[i];
                &&& 0 <= e < edges.len()
                &&& nodes[edges[e].0 as int] is RenderPass
                &&& node_resource(nodes[edges[e].1 as int]) == Some(i as u32)
            } by {
                let e = self.producers@[i];
                assert(old(self).spec_edges()[e] == edges[e]);
                assert(nodes[edges[e].0 as int] == old(self).spec_nodes()[edges[e].0 as int]);
                assert(nodes[edges[e].1 as int] == old(self).spec_nodes()[edges[e].1 as int]);
            }
        }
        RenderPass(node)
    }


    /// Adds a resource created by `pass`, with the usage in which the pass
    /// leaves it: a new resource, its first version, and the edge from the
    /// pass to that version.
    fn create_resource(&mut self, pass: RenderPass, name: String, info: ResourceInfo, usage: ResourceUsage) -> (r: ResourceVersion)
        requires
            old(self).wf(),
            old(self).is_pass_node(pass.0),
            old(self).spec_nodes().len() < u32::MAX,
            old(self).spec_edges().len() < u32::MAX,
        ensures
            final(self).wf(),
            r.0 == old(self).spec_nodes().len(),
            final(self).spec_nodes() == old(self).spec_nodes().push(
                Node::Resource { index: old(self).spec_resources().len() as u32, version: 0 },
            ),
            final(self).spec_edges() == old(self).spec_edges().push((pass.0, r.0, Edge { usage })),
            final(self).spec_resources() == old(self).spec_resources().push(info),
            final(self).spec_pass_count() == old(self).spec_pass_count(),
    {
        let index = self.resources.len() as u32;
        self.resources.push(UnversionedResource { name, info });
        self.lifetimes.push(None);
        self.aliased.push(None);
        let node = graph_add_node(&mut self.graph, Node::Resource { index, version: 0 });
        let ghost e = self.spec_edges().len() as int;
        graph_add_edge(&mut self.graph, pass.0, node, Edge { usage });
        proof {
            self.producers@ = self.producers@.push(e);
            let nodes = self.spec_nodes();
            let edges = self.spec_edges();
            let n = self.resources@.len();
            assert forall|v: int| 0 <= v < nodes.len() implies match #[trigger] nodes[v] {
                Node::RenderPass { pass } => pass < self.pass_names@.len(),
                Node::Resource { index, .. } => index < n,
            } by {
                if v < nodes.len() - 1 {
                    assert(nodes[v] == old(self).spec_nodes()[v]);
                }
            }
            assert forall|k: int| 0 <= k < edges.len() implies {
                &&& (#[trigger] edges[k]).0 < nodes.len()
                &&& edges[k].1 < nodes.len()
                &&& (nodes[edges[k].0 as int] is RenderPass <==> nodes[edges[k].1 as int] is Resource)
            } by {
                if k < edges.len() - 1 {
                    assert(old(self).spec_edges()[k] == edges[k]);
                    assert(nodes[edges[k].0 as int] == old(self).spec_nodes()[edges[k].0 as int]);
                    assert(nodes[edges[k].1 as int] == old(self).spec_nodes()[edges[k].1 as int]);
                }
            }
            assert forall|i: int| 0 <= i < n implies {
                let k = #[trigger] self.producers@[i];
                &&& 0 <= k < edges.len()
                &&& nodes[edges[k].0 as int] is RenderPass
                &&& node_resource(nodes[edges[k].1 as int]) == Some(i as u32)
            } by {
                if i < n - 1 {
                    let k = self.producers@[i];
                    assert(old(self).producers@[i] == k);
                    assert(old(self).spec_edges()[k] == edges[k]);
                    assert(nodes[edges[k].0 as int] == old(self).spec_nodes()[edges[k].0 as int]);
                    assert(nodes[edges[k].1 as int] == old(self).spec_nodes()[edges[k].1 as int]);
                }
            }
            assert forall|i: int| 0 <= i < n implies self.lifetimes@[i] is None
                && self.aliased@[i] is None by {
                if i < n - 1 {
                    assert(self.lifetimes@[i] == old(self).lifetimes@[i]);
                    assert(self.aliased@[i] == old(self).aliased@[i]);
                }
            }
            assert(self.spec_resources() =~= old(self).spec_resources().push(info));
        }
        ResourceVersion(node)
    }

    /// Adds a texture created by `pass`; returns its first version.
    pub fn create_texture(&mut self, pass: RenderPass, name: String, desc: &TextureDesc, usage: ResourceUsage) -> (r: ResourceVersion)
        requires
            old(self).wf(),
            old(self).is_pass_node(pass.0),
            old(self).spec_nodes().len() < u32::MAX,
            old(self).spec_edges().len() < u32::MAX,
        ensures
            final(self).wf(),
            r.0 == old(self).spec_nodes().len(),
            final(self).spec_nodes() == old(self).spec_nodes().push(
                Node::Resource { index: old(self).spec_resources().len() as u32, version: 0 },
            ),
            final(self).spec_edges() == old(self).spec_edges().push((pass.0, r.0, Edge { usage })),
            final(self).spec_resources() == old(self).spec_resources().push(
                ResourceInfo::Texture { desc: *desc },
            ),
            final(self).spec_pass_count() == old(self).spec_pass_count(),
    {
        self.create_resource(pass, name, ResourceInfo::Texture { desc: *desc }, usage)
    }

    /// Adds a buffer of `byte_size` bytes created by `pass`; returns its
    /// first version.
    pub fn create_buffer(&mut self, pass: RenderPass, name: String, byte_size: usize, usage: ResourceUsage) -> (r: ResourceVersion)
        requires
            old(self).wf(),
            old(self).is_pass_node(pass.0),
            old(self).spec_nodes().len() < u32::MAX,
            old(self).spec_edges().len() < u32::MAX,
        ensures
            final(self).wf(),
            r.0 == old(self).spec_nodes().len(),
            final(self).spec_nodes() == old(self).spec_nodes().push(
                Node::Resource { index: old(self).spec_resources().len() as u32, version: 0 },
            ),
            final(self).spec_edges() == old(self).spec_edges().push((pass.0, r.0, Edge { usage })),
            final(self).spec_resources() == old(self).spec_resources().push(
                ResourceInfo::Buffer { byte_size },
            ),
            final(self).spec_pass_count() == old(self).spec_pass_count(),
    {
        self.create_resource(pass, name, ResourceInfo::Buffer { byte_size }, usage)
    }


    /// Adding nodes and edges that satisfy the invariant, with the same
    /// resources and passes, keeps the invariant.
    proof fn lemma_wf_extend(old_fg: &FrameGraph, new_fg: &FrameGraph)
        requires
            old_fg.wf(),
            new_fg.resources@ == old_fg.resources@,
            new_fg.lifetimes@ == old_fg.lifetimes@,
            new_fg.aliased@ == old_fg.aliased@,
            new_fg.pass_names@ == old_fg.pass_names@,
            new_fg.producers@ == old_fg.producers@,
            old_fg.spec_nodes().is_prefix_of(new_fg.spec_nodes()),
            old_fg.spec_edges().is_prefix_of(new_fg.spec_edges()),
            forall|v: int|
                old_fg.spec_nodes().len() <= v < new_fg.spec_nodes().len() ==> match #[trigger] new_fg.spec_nodes()[v] {
                    Node::RenderPass { pass } => pass < new_fg.pass_names@.len(),
                    Node::Resource { index, .. } => index < new_fg.resources@.len(),
                },
            forall|e: int|
                old_fg.spec_edges().len() <= e < new_fg.spec_edges().len() ==> {
                    let nodes = new_fg.spec_nodes();
                    let edge = #[trigger] new_fg.spec_edges()[e];
                    &&& edge.0 < nodes.len()
                    &&& edge.1 < nodes.len()
                    &&& (nodes[edge.0 as int] is RenderPass <==> nodes[edge.1 as int] is Resource)
                },
        ensures
            new_fg.wf(),
    {
        let old_nodes = old_fg.spec_nodes();
        let nodes = new_fg.spec_nodes();
        let old_edges = old_fg.spec_edges();
        let edges = new_fg.spec_edges();
        let n = new_fg.resources@.len();
        assert forall|v: int| 0 <= v < nodes.len() implies match #[trigger] nodes[v] {
            Node::RenderPass { pass } => pass < new_fg.pass_names@.len(),
            Node::Resource { index, .. } => index < n,
        } by {
            if v < old_nodes.len() {
                assert(nodes[v] == old_nodes[v]);
            }
        }
        assert forall|k: int| 0 <= k < edges.len() implies {
            &&& (#[trigger] edges[k]).0 < nodes.len()
            &&& edges[k].1 < nodes.len()
            &&& (nodes[edges[k].0 as int] is RenderPass <==> nodes[edges[k].1 as int] is Resource)
        } by {
            if k < old_edges.len() {
                assert(old_edges[k] == edges[k]);
                assert(nodes[edges[k].0 as int] == old_nodes[edges[k].0 as int]);
                assert(nodes[edges[k].1 as int] == old_nodes[edges[k].1 as int]);
            }
        }
        assert forall|i: int| 0 <= i < n implies {
            let k = #[trigger] new_fg.producers@[i];
            &&& 0 <= k < edges.len()
            &&& nodes[edges[k].0 as int] is RenderPass
            &&& node_resource(nodes[edges[k].1 as int]) == Some(i as u32)
        } by {
            let k = new_fg.producers@[i];
            assert(old_fg.producers@[i] == k);
            assert(old_edges[k] == edges[k]);
            assert(nodes[edges[k].0 as int] == old_nodes[edges[k].0 as int]);
            assert(nodes[edges[k].1 as int] == old_nodes[edges[k].1 as int]);
        }
    }

    /// Adds a new version of the resource of node `res`, one version higher.
    pub fn clone_resource(&mut self, res: ResourceVersion) -> (r: ResourceVersion)
        requires
            old(self).wf(),
            old(self).is_resource_node(res.0),
            old(self).spec_nodes()[res.0 as int]->version < i32::MAX,
            old(self).spec_nodes().len() < u32::MAX,
        ensures
            final(self).wf(),
            r.0 == old(self).spec_nodes().len(),
            final(self).spec_nodes() == old(self).spec_nodes().push(
                Node::Resource {
                    index: old(self).spec_nodes()[res.0 as int]->index,
                    version: (old(self).spec_nodes()[res.0 as int]->version + 1) as i32,
                },
            ),
            final(self).spec_edges() == old(self).spec_edges(),
            final(self).spec_resources() == old(self).spec_resources(),
            final(self).spec_pass_count() == old(self).spec_pass_count(),
    {
        let (index, version) = match graph_node_weight(&self.graph, res.0) {
            Some(Node::Resource { index, version }) => (index, version),
            _ => {
                proof {
                    assert(false);
                }
                (0, 0)
            },
        };
        let ghost before = *self;
        let node = graph_add_node(&mut self.graph, Node::Resource { index, version: version + 1 });
        proof {
            let nodes = self.spec_nodes();
            assert(before.spec_nodes().is_prefix_of(nodes));
            assert(before.spec_edges().is_prefix_of(self.spec_edges()));
            assert(index < self.resources@.len()) by {
                assert(match before.spec_nodes()[res.0 as int] {
                    Node::RenderPass { pass } => pass < before.pass_names@.len(),
                    Node::Resource { index, .. } => index < before.resources@.len(),
                });
            }
            FrameGraph::lemma_wf_extend(&before, self);
        }
        ResourceVersion(node)
    }


    /// Adds the edge from `input` to `pass`: the pass reads that version in
    /// the state `usage`.
    fn link_input(&mut self, pass: RenderPass, input: ResourceVersion, usage: ResourceUsage)
        requires
            old(self).wf(),
            old(self).is_pass_node(pass.0),
            old(self).is_resource_node(input.0),
            old(self).spec_edges().len() < u32::MAX,
        ensures
            final(self).wf(),
            final(self).spec_nodes() == old(self).spec_nodes(),
            final(self).spec_edges() == old(self).spec_edges().push((input.0, pass.0, Edge { usage })),
            final(self).spec_resources() == old(self).spec_resources(),
            final(self).spec_pass_count() == old(self).spec_pass_count(),
    {
        let ghost before = *self;
        graph_add_edge(&mut self.graph, input.0, pass.0, Edge { usage });
        proof {
            assert(before.spec_nodes().is_prefix_of(self.spec_nodes()));
            assert(before.spec_edges().is_prefix_of(self.spec_edges()));
            FrameGraph::lemma_wf_extend(&before, self);
        }
    }

    /// Adds the edge from `pass` to `output`: the pass writes that version
    /// and leaves it in the state `usage`.
    fn link_output(&mut self, pass: RenderPass, output: ResourceVersion, usage: ResourceUsage)
        requires
            old(self).wf(),
            old(self).is_pass_node(pass.0),
            old(self).is_resource_node(output.0),
            old(self).spec_edges().len() < u32::MAX,
        ensures
            final(self).wf(),
            final(self).spec_nodes() == old(self).spec_nodes(),
            final(self).spec_edges() == old(self).spec_edges().push((pass.0, output.0, Edge { usage })),
            final(self).spec_resources() == old(self).spec_resources(),
            final(self).spec_pass_count() == old(self).spec_pass_count(),
    {
        let ghost before = *self;
        graph_add_edge(&mut self.graph, pass.0, output.0, Edge { usage });
        proof {
            assert(before.spec_nodes().is_prefix_of(self.spec_nodes()));
            assert(before.spec_edges().is_prefix_of(self.spec_edges()));
            FrameGraph::lemma_wf_extend(&before, self);
        }
    }

    /// `pass` reads the version `res` in the state `usage`.
    pub fn read(&mut self, pass: RenderPass, res: ResourceVersion, usage: ResourceUsage)
        requires
            old(self).wf(),
            old(self).is_pass_node(pass.0),
            old(self).is_resource_node(res.0),
            old(self).spec_edges().len() < u32::MAX,
        ensures
            final(self).wf(),
            final(self).spec_nodes() == old(self).spec_nodes(),
            final(self).spec_edges() == old(self).spec_edges().push((res.0, pass.0, Edge { usage })),
            final(self).spec_resources() == old(self).spec_resources(),
            final(self).spec_pass_count() == old(self).spec_pass_count(),
    {
        self.link_input(pass, res, usage)
    }

    /// `pass` writes the resource of `res`: a new version is made, read by
    /// the pass and written by it, in the state `usage`; returns the new
    /// version.
    pub fn write(&mut self, pass: RenderPass, res: ResourceVersion, usage: ResourceUsage) -> (r: ResourceVersion)
        requires
            old(self).wf(),
            old(self).is_pass_node(pass.0),
            old(self).is_resource_node(res.0),
            old(self).spec_nodes()[res.0 as int]->version < i32::MAX,
            old(self).spec_nodes().len() < u32::MAX,
            old(self).spec_edges().len() + 1 < u32::MAX,
        ensures
            final(self).wf(),
            r.0 == old(self).spec_nodes().len(),
            final(self).spec_nodes() == old(self).spec_nodes().push(
                Node::Resource {
                    index: old(self).spec_nodes()[res.0 as int]->index,
                    version: (old(self).spec_nodes()[res.0 as int]->version + 1) as i32,
                },
            ),
            final(self).spec_edges() == old(self).spec_edges().push(
                (res.0, pass.0, Edge { usage }),
            ).push((pass.0, r.0, Edge { usage })),
            final(self).spec_resources() == old(self).spec_resources(),
            final(self).spec_pass_count() == old(self).spec_pass_count(),
    {
        let res_v2 = self.clone_resource(res);
        self.link_input(pass, res, usage);
        self.link_output(pass, res_v2, usage);
        res_v2
    }

    /// What the resource of node `res` was created as.
    pub fn resource_info(&self, res: ResourceVersion) -> (r: &ResourceInfo)
        requires
            self.wf(),
            self.is_resource_node(res.0),
        ensures
            *r == self.spec_resources()[self.spec_nodes()[res.0 as int]->index as int],
    {
        let index = match graph_node_weight(&self.graph, res.0) {
            Some(Node::Resource { index, .. }) => index,
            _ => {
                proof {
                    assert(false);
                }
                0
            },
        };
        proof {
            assert(match self.spec_nodes()[res.0 as int] {
                Node::RenderPass { pass } => pass < self.pass_names@.len(),
                Node::Resource { index, .. } => index < self.resources@.len(),
            });
        }
        &self.resources[index as usize].info
    }


    /// Each node that an edge from node `a` leads to is a node of the other
    /// kind.
    proof fn lemma_out_neighbor_kinds(&self, a: u32)
        requires
            self.shape_wf(),
            a < self.spec_nodes().len(),
        ensures
            forall|k: int|
                0 <= k < out_neighbors(self.spec_edges(), a).len() ==> {
                    let v = #[trigger] out_neighbors(self.spec_edges(), a)[k];
                    &&& v < self.spec_nodes().len()
                    &&& (self.spec_nodes()[a as int] is RenderPass <==> self.spec_nodes()[v as int] is Resource)
                },
    {
        let edges = self.spec_edges();
        lemma_out_neighbors(edges, a);
        assert forall|k: int| 0 <= k < out_neighbors(edges, a).len() implies {
            let v = #[trigger] out_neighbors(edges, a)[k];
            &&& v < self.spec_nodes().len()
            &&& (self.spec_nodes()[a as int] is RenderPass <==> self.spec_nodes()[v as int] is Resource)
        } by {
            let v = out_neighbors(edges, a)[k];
            assert(has_edge(edges, a, v));
            let e = choose|e: int| 0 <= e < edges.len() && (#[trigger] edges[e]).0 == a && edges[e].1 == v;
            assert(edges[e].0 < self.spec_nodes().len());
        }
    }

    /// Whether `pass` writes a version of resource `rindex`.
    fn is_resource_modified_by_pass(&self, pass: RenderPass, rindex: u32) -> (r: bool)
        requires
            self.shape_wf(),
            self.is_pass_node(pass.0),
        ensures
            r == pass_modifies(self.spec_nodes(), self.spec_edges(), pass.0, rindex),
    {
        let outs = graph_outgoing(&self.graph, pass.0);
        proof {
            self.lemma_out_neighbor_kinds(pass.0);
        }
        let mut i: usize = 0;
        while i < outs.len()
            invariant
                self.shape_wf(),
                self.is_pass_node(pass.0),
                outs@ == out_neighbors(self.spec_edges(), pass.0),
                i <= outs.len(),
                forall|k: int|
                    0 <= k < outs@.len() ==> {
                        let v = #[trigger] out_neighbors(self.spec_edges(), pass.0)[k];
                        &&& v < self.spec_nodes().len()
                        &&& self.spec_nodes()[v as int] is Resource
                    },
                forall|k: int|
                    0 <= k < i ==> node_resource(self.spec_nodes()[#[trigger] outs@[k] as int])
                        != Some(rindex),
            decreases outs.len() - i,
        {
            let v = outs[i];
            assert(outs@[i as int] == out_neighbors(self.spec_edges(), pass.0)[i as int]);
            match graph_node_weight(&self.graph, v) {
                Some(Node::Resource { index, .. }) => {
                    if index == rindex {
                        assert(node_resource(self.spec_nodes()[out_neighbors(self.spec_edges(), pass.0)[i as int] as int]) == Some(rindex));
                        return true;
                    }
                },
                _ => {
                    proof {
                        assert(false);
                    }
                },
            }
            i = i + 1;
        }
        proof {
            let out = out_neighbors(self.spec_edges(), pass.0);
            assert forall|k: int| 0 <= k < out.len() implies node_resource(self.spec_nodes()[#[trigger] out[k] as int]) != Some(rindex) by {
                assert(outs@[k] == out[k]);
            }
        }
        false
    }


    /// Whether resource node `n` has a write hazard: counts the passes that
    /// its edges lead to as writers (they write a version of the resource)
    /// and readers.
    fn node_has_write_hazard(&self, n: u32) -> (r: bool)
        requires
            self.shape_wf(),
            n < self.spec_nodes().len(),
        ensures
            r == node_has_hazard(self.spec_nodes(), self.spec_edges(), n),
    {
        let index = match graph_node_weight(&self.graph, n) {
            Some(Node::Resource { index, .. }) => index,
            _ => {
                return false;
            },
        };
        let outs = graph_outgoing(&self.graph, n);
        proof {
            self.lemma_out_neighbor_kinds(n);
        }
        let ghost nodes = self.spec_nodes();
        let ghost edges = self.spec_edges();
        let mut writers: usize = 0;
        let mut readers: usize = 0;
        let mut j: usize = 0;
        while j < outs.len()
            invariant
                self.shape_wf(),
                nodes == self.spec_nodes(),
                edges == self.spec_edges(),
                n < nodes.len(),
                nodes[n as int] is Resource,
                outs@ == out_neighbors(edges, n),
                forall|k: int|
                    0 <= k < outs@.len() ==> {
                        let v = #[trigger] out_neighbors(edges, n)[k];
                        &&& v < nodes.len()
                        &&& nodes[v as int] is RenderPass
                    },
                j <= outs.len(),
                writers == count_modifying(nodes, edges, outs@.take(j as int), index),
                writers + readers == j,
            decreases outs.len() - j,
        {
            let p = outs[j];
            assert(outs@[j as int] == out_neighbors(edges, n)[j as int]);
            proof {
                assert(outs@.take(j + 1).drop_last() =~= outs@.take(j as int));
            }
            if self.is_resource_modified_by_pass(RenderPass(p), index) {
                writers = writers + 1;
            } else {
                readers = readers + 1;
            }
            j = j + 1;
        }
        proof {
            assert(outs@.take(j as int) =~= outs@);
        }
        (writers > 1) || (readers > 0 && writers > 0)
    }

    /// Whether some resource node has a write hazard; `toposort` lists every
    /// node once.
    fn detect_concurrent_write_hazards(&self, toposort: &Vec<u32>) -> (r: bool)
        requires
            self.shape_wf(),
            is_topological_order(self.spec_nodes().len(), arcs(self.spec_edges()), toposort@),
        ensures
            r == has_write_hazard(self.spec_nodes(), self.spec_edges()),
    {
        let ghost nodes = self.spec_nodes();
        let ghost edges = self.spec_edges();
        let mut has_write_hazards = false;
        let mut t: usize = 0;
        while t < toposort.len()
            invariant
                self.shape_wf(),
                nodes == self.spec_nodes(),
                edges == self.spec_edges(),
                is_topological_order(nodes.len(), arcs(edges), toposort@),
                t <= toposort.len(),
                has_write_hazards == exists|k: int|
                    0 <= k < t && #[trigger] node_has_hazard(nodes, edges, toposort@[k]),
            decreases toposort.len() - t,
        {
            let n = toposort[t];
            if self.node_has_write_hazard(n) {
                has_write_hazards = true;
            }
            proof {
                if has_write_hazards {
                    if !node_has_hazard(nodes, edges, toposort@[t as int]) {
                        let k = choose|k: int| 0 <= k < t && #[trigger] node_has_hazard(nodes, edges, toposort@[k]);
                        assert(0 <= k < t + 1 && node_has_hazard(nodes, edges, toposort@[k]));
                    }
                }
            }
            t = t + 1;
        }
        proof {
            if has_write_hazards {
                let k = choose|k: int| 0 <= k < t && #[trigger] node_has_hazard(nodes, edges, toposort@[k]);
                assert(toposort@[k] < nodes.len());
            }
            if has_write_hazard(nodes, edges) {
                let v = choose|v: u32| v < nodes.len() && #[trigger] node_has_hazard(nodes, edges, v);
                assert(toposort@.contains(v));
                let k = choose|k: int| 0 <= k < toposort@.len() && toposort@[k] == v;
                assert(node_has_hazard(nodes, edges, toposort@[k]));
            }
        }
        has_write_hazards
    }


    /// Sets the lifetime of each resource from the passes that write it, in
    /// the order `toposort`.
    fn determine_resource_lifetimes(&mut self, toposort: &Vec<u32>)
        requires
            old(self).shape_wf(),
            forall|i: int| 0 <= i < old(self).lifetimes@.len() ==> old(self).lifetimes@[i] is None,
            is_topological_order(old(self).spec_nodes().len(), arcs(old(self).spec_edges()), toposort@),
            outputs_distinct(old(self).spec_nodes(), old(self).spec_edges()),
            old(self).spec_nodes().len() <= i32::MAX,
        ensures
            final(self).shape_wf(),
            final(self).graph == old(self).graph,
            final(self).resources@ == old(self).resources@,
            final(self).aliased@ == old(self).aliased@,
            final(self).pass_names@ == old(self).pass_names@,
            final(self).producers@ == old(self).producers@,
            final(self).lifetimes@ == resource_lifetimes(
                old(self).spec_nodes(),
                old(self).spec_edges(),
                toposort@,
                old(self).resources@.len(),
            ),
    {
        let ghost nodes = self.spec_nodes();
        let ghost edges = self.spec_edges();
        let ghost init = Seq::new(self.resources@.len(), |i: int| None::<Lifetime>);
        proof {
            assert(self.lifetimes@ =~= init);
        }
        let mut t: usize = 0;
        while t < toposort.len()
            invariant
                self.shape_wf(),
                nodes == self.spec_nodes(),
                edges == self.spec_edges(),
                self.graph == old(self).graph,
                self.resources@ == old(self).resources@,
                self.aliased@ == old(self).aliased@,
                self.pass_names@ == old(self).pass_names@,
                self.producers@ == old(self).producers@,
                init == Seq::new(self.resources@.len(), |i: int| None::<Lifetime>),
                is_topological_order(nodes.len(), arcs(edges), toposort@),
                outputs_distinct(nodes, edges),
                nodes.len() <= i32::MAX,
                t <= toposort.len(),
                self.lifetimes@ == lifetimes_upto(nodes, edges, toposort@, t as nat, init),
                forall|i: int|
                    0 <= i < self.lifetimes@.len() ==> (#[trigger] self.lifetimes@[i] matches Some(
                        l,
                    ) ==> 0 <= l.begin <= l.end < t),
            decreases toposort.len() - t,
        {
            let n = toposort[t];
            let is_pass = match graph_node_weight(&self.graph, n) {
                Some(Node::RenderPass { .. }) => true,
                _ => false,
            };
            if is_pass {
                self.extend_pass_lifetimes(n, t);
            }
            t = t + 1;
        }
        proof {
            assert(toposort@.len() == t);
        }
    }

    /// Extends to position `t` the lifetimes of the resources that pass `n`
    /// writes.
    fn extend_pass_lifetimes(&mut self, n: u32, t: usize)
        requires
            old(self).shape_wf(),
            old(self).is_pass_node(n),
            outputs_distinct(old(self).spec_nodes(), old(self).spec_edges()),
            t < i32::MAX,
            old(self).spec_nodes().len() <= i32::MAX,
            forall|i: int|
                0 <= i < old(self).lifetimes@.len() ==> (#[trigger] old(self).lifetimes@[i] matches Some(
                    l,
                ) ==> 0 <= l.begin <= l.end < t),
        ensures
            final(self).shape_wf(),
            final(self).graph == old(self).graph,
            final(self).resources@ == old(self).resources@,
            final(self).aliased@ == old(self).aliased@,
            final(self).pass_names@ == old(self).pass_names@,
            final(self).producers@ == old(self).producers@,
            final(self).lifetimes@ == pass_lifetimes(
                old(self).spec_nodes(),
                old(self).spec_edges(),
                old(self).lifetimes@,
                n,
                t as int,
            ),
            forall|i: int|
                0 <= i < final(self).lifetimes@.len() ==> (#[trigger] final(self).lifetimes@[i] matches Some(
                    l,
                ) ==> 0 <= l.begin <= l.end <= t),
    {
        let ghost nodes = self.spec_nodes();
        let ghost edges = self.spec_edges();
        let ghost l0 = self.lifetimes@;
        let outs = graph_outgoing(&self.graph, n);
        proof {
            self.lemma_out_neighbor_kinds(n);
        }
        let mut j: usize = 0;
        while j < outs.len()
            invariant
                self.shape_wf(),
                nodes == self.spec_nodes(),
                edges == self.spec_edges(),
                self.graph == old(self).graph,
                self.resources@ == old(self).resources@,
                self.aliased@ == old(self).aliased@,
                self.pass_names@ == old(self).pass_names@,
                self.producers@ == old(self).producers@,
                l0 == old(self).lifetimes@,
                n < nodes.len(),
                nodes[n as int] is RenderPass,
                outs@ == out_neighbors(edges, n),
                outputs_distinct(nodes, edges),
                t < i32::MAX,
                nodes.len() <= i32::MAX,
                forall|k: int|
                    0 <= k < outs@.len() ==> {
                        let v = #[trigger] out_neighbors(edges, n)[k];
                        &&& v < nodes.len()
                        &&& nodes[v as int] is Resource
                    },
                forall|i: int|
                    0 <= i < l0.len() ==> (#[trigger] l0[i] matches Some(l) ==> 0 <= l.begin <= l.end < t),
                j <= outs.len(),
                self.lifetimes@.len() == l0.len(),
                forall|i: int|
                    0 <= i < l0.len() ==> #[trigger] self.lifetimes@[i] == if exists|k: int|
                        0 <= k < j && node_resource(nodes[#[trigger] outs@[k] as int]) == Some(i as u32) {
                        extend_lifetime(l0[i], t as int)
                    } else {
                        l0[i]
                    },
            decreases outs.len() - j,
        {
            let dep = outs[j];
            assert(outs@[j as int] == out_neighbors(edges, n)[j as int]);
            let index = match graph_node_weight(&self.graph, dep) {
                Some(Node::Resource { index, .. }) => index,
                _ => {
                    proof {
                        assert(false);
                    }
                    0
                },
            };
            proof {
                assert(match nodes[dep as int] {
                    Node::RenderPass { pass } => pass < self.pass_names@.len(),
                    Node::Resource { index, .. } => index < self.resources@.len(),
                });
                assert forall|k: int| 0 <= k < j implies node_resource(nodes[#[trigger] outs@[k] as int]) != Some(index) by {
                    assert(outs@[k] == out_neighbors(edges, n)[k]);
                    assert(node_resource(nodes[out_neighbors(edges, n)[k] as int]) != node_resource(
                        nodes[out_neighbors(edges, n)[j as int] as int],
                    ));
                }
                assert(self.lifetimes@[index as int] == l0[index as int]);
            }
            let new_lifetime = match self.lifetimes[index as usize] {
                None => Some(Lifetime { begin: t as i32, end: t as i32 }),
                Some(Lifetime { begin, end }) => Some(Lifetime { begin, end: t as i32 }),
            };
            self.lifetimes.set(index as usize, new_lifetime);
            proof {
                assert forall|i: int| 0 <= i < l0.len() implies #[trigger] self.lifetimes@[i] == if exists|k: int|
                    0 <= k < j + 1 && node_resource(nodes[#[trigger] outs@[k] as int]) == Some(i as u32) {
                    extend_lifetime(l0[i], t as int)
                } else {
                    l0[i]
                } by {
                    if i == index {
                        assert(node_resource(nodes[outs@[j as int] as int]) == Some(i as u32));
                    } else {
                        assert(node_resource(nodes[outs@[j as int] as int]) == Some(index));
                        assert(l0.len() <= nodes.len());
                        if exists|k: int| 0 <= k < j + 1 && node_resource(nodes[#[trigger] outs@[k] as int]) == Some(i as u32) {
                            let k = choose|k: int| 0 <= k < j + 1 && node_resource(nodes[#[trigger] outs@[k] as int]) == Some(i as u32);
                            assert(k != j);
                        }
                    }
                }
            }
            j = j + 1;
        }
        proof {
            let target = pass_lifetimes(nodes, edges, l0, n, t as int);
            assert forall|i: int| 0 <= i < l0.len() implies self.lifetimes@[i] == target[i] by {
                let out = out_neighbors(edges, n);
                if pass_modifies(nodes, edges, n, i as u32) {
                    let k = choose|k: int| 0 <= k < out.len() && node_resource(nodes[#[trigger] out[k] as int]) == Some(i as u32);
                    assert(outs@[k] == out[k]);
                }
                if exists|k: int| 0 <= k < j && node_resource(nodes[#[trigger] outs@[k] as int]) == Some(i as u32) {
                    let k = choose|k: int| 0 <= k < j && node_resource(nodes[#[trigger] outs@[k] as int]) == Some(i as u32);
                    assert(out[k] == outs@[k]);
                }
            }
            assert(self.lifetimes@ =~= target);
        }
    }


    /// Whether a resource other than `i` uses allocation `k` during the
    /// lifetime of `i`.
    fn alias_conflicts(&self, i: usize, k: u32) -> (r: bool)
        requires
            i < self.resources@.len(),
            self.aliased@.len() == self.resources@.len(),
            self.lifetimes@.len() == self.resources@.len(),
            forall|j: int| 0 <= j < self.lifetimes@.len() ==> (#[trigger] self.lifetimes@[j]) is Some,
        ensures
            r == alias_conflict(self.aliased@, self.lifetimes@, i as int, k as int),
    {
        let mut j: usize = 0;
        while j < self.resources.len()
            invariant
                i < self.resources@.len(),
                self.aliased@.len() == self.resources@.len(),
                self.lifetimes@.len() == self.resources@.len(),
                forall|x: int| 0 <= x < self.lifetimes@.len() ==> (#[trigger] self.lifetimes@[x]) is Some,
                j <= self.resources@.len(),
                forall|x: int|
                    0 <= x < j ==> !(x != i && #[trigger] self.aliased@[x] == Some(
                        AliasedResourceIndex(k as u32),
                    ) && lifetimes_overlap(self.lifetimes@[i as int].unwrap(), self.lifetimes@[x].unwrap())),
            decreases self.resources@.len() - j,
        {
            let same_alloc = match self.aliased[j] {
                Some(a) => a.0 == k,
                None => false,
            };
            if j != i && same_alloc {
                let li = self.lifetimes[i].unwrap();
                let lj = self.lifetimes[j].unwrap();
                if li.overlaps(&lj) {
                    assert(self.aliased@[j as int] == Some(AliasedResourceIndex(k as u32)));
                    return true;
                }
            }
            j = j + 1;
        }
        false
    }

    /// The first allocation of `allocs` that resource `i`, a texture created
    /// as `desc`, can share.
    fn find_alias(&self, allocs: &Vec<AliasedResource>, i: usize, desc: &TextureDesc) -> (r: Option<u32>)
        requires
            i < self.resources@.len(),
            self.aliased@.len() == self.resources@.len(),
            self.lifetimes@.len() == self.resources@.len(),
            forall|j: int| 0 <= j < self.lifetimes@.len() ==> (#[trigger] self.lifetimes@[j]) is Some,
            allocs@.len() <= u32::MAX,
        ensures
            r == (match first_alias(allocs@, self.aliased@, self.lifetimes@, i as int, *desc, 0) {
                Some(k) => Some(k as u32),
                None => None::<u32>,
            }),
    {
        let mut k: usize = 0;
        while k < allocs.len()
            invariant
                i < self.resources@.len(),
                self.aliased@.len() == self.resources@.len(),
                self.lifetimes@.len() == self.resources@.len(),
                forall|j: int| 0 <= j < self.lifetimes@.len() ==> (#[trigger] self.lifetimes@[j]) is Some,
                allocs@.len() <= u32::MAX,
                k <= allocs@.len(),
                first_alias(allocs@, self.aliased@, self.lifetimes@, i as int, *desc, 0) == first_alias(
                    allocs@,
                    self.aliased@,
                    self.lifetimes@,
                    i as int,
                    *desc,
                    k as nat,
                ),
            decreases allocs@.len() - k,
        {
            let fits = match allocs[k] {
                AliasedResource::Texture { desc: d } => d == *desc && !self.alias_conflicts(i, k as u32),
                AliasedResource::Buffer { .. } => false,
            };
            if fits {
                return Some(k as u32);
            }
            k = k + 1;
        }
        None
    }

    /// Assigns each resource an allocation: a texture shares the first
    /// allocation it can (a texture created as it was, used by no other
    /// resource during its lifetime), or gets a new one; a buffer gets a new
    /// one.
    fn assign_aliased_resources(&mut self, allocator: &mut FrameGraphAllocator)
        requires
            old(self).lifetimes@.len() == old(self).resources@.len(),
            old(self).aliased@.len() == old(self).resources@.len(),
            forall|j: int| 0 <= j < old(self).aliased@.len() ==> (#[trigger] old(self).aliased@[j]) is None,
            forall|j: int| 0 <= j < old(self).lifetimes@.len() ==> (#[trigger] old(self).lifetimes@[j]) is Some,
            old(allocator).allocations@.len() + old(self).resources@.len() <= u32::MAX,
        ensures
            final(self).graph == old(self).graph,
            final(self).resources@ == old(self).resources@,
            final(self).lifetimes@ == old(self).lifetimes@,
            final(self).pass_names@ == old(self).pass_names@,
            final(self).producers@ == old(self).producers@,
            (final(self).aliased@, final(allocator).allocations@) == assign_upto(
                old(self).spec_resources(),
                old(self).lifetimes@,
                Seq::new(old(self).resources@.len(), |i: int| None::<AliasedResourceIndex>),
                old(allocator).allocations@,
                old(self).resources@.len(),
            ),
    {
        let ghost infos = self.spec_resources();
        let ghost none = Seq::new(self.resources@.len(), |i: int| None::<AliasedResourceIndex>);
        let ghost allocs0 = allocator.allocations@;
        proof {
            assert(self.aliased@ =~= none);
        }
        let mut i: usize = 0;
        while i < self.resources.len()
            invariant
                self.graph == old(self).graph,
                self.resources@ == old(self).resources@,
                self.lifetimes@ == old(self).lifetimes@,
                self.pass_names@ == old(self).pass_names@,
                self.producers@ == old(self).producers@,
                infos == self.spec_resources(),
                none == Seq::new(self.resources@.len(), |i: int| None::<AliasedResourceIndex>),
                allocs0 == old(allocator).allocations@,
                allocs0.len() + self.resources@.len() <= u32::MAX,
                self.lifetimes@.len() == self.resources@.len(),
                self.aliased@.len() == self.resources@.len(),
                forall|j: int| 0 <= j < self.lifetimes@.len() ==> (#[trigger] self.lifetimes@[j]) is Some,
                i <= self.resources@.len(),
                (self.aliased@, allocator.allocations@) == assign_upto(
                    infos,
                    self.lifetimes@,
                    none,
                    allocs0,
                    i as nat,
                ),
            decreases self.resources@.len() - i,
        {
            proof {
                lemma_assign_upto_sound(infos, self.lifetimes@, allocs0, i as nat);
                assert(infos[i as int] == self.resources@[i as int].info);
            }
            if self.aliased[i].is_none() {
                match self.resources[i].info {
                    ResourceInfo::Texture { desc } => {
                        let found = self.find_alias(&allocator.allocations, i, &desc);
                        match found {
                            Some(k) => {
                                self.aliased.set(i, Some(AliasedResourceIndex::new(k)));
                            },
                            None => {
                                allocator.allocations.push(AliasedResource::Texture { desc });
                                let k = (allocator.allocations.len() - 1) as u32;
                                self.aliased.set(i, Some(AliasedResourceIndex::new(k)));
                            },
                        }
                    },
                    ResourceInfo::Buffer { byte_size } => {
                        allocator.allocations.push(AliasedResource::Buffer { byte_size });
                        let k = (allocator.allocations.len() - 1) as u32;
                        self.aliased.set(i, Some(AliasedResourceIndex::new(k)));
                    },
                }
            }
            i = i + 1;
        }
    }


    /// The nodes in topological order.
    fn toposort_nodes(&self) -> (r: Vec<u32>)
        requires
            is_acyclic(self.spec_nodes().len(), arcs(self.spec_edges())),
        ensures
            toposort_order(self.spec_nodes().len(), arcs(self.spec_edges())) == Some(r@),
            is_topological_order(self.spec_nodes().len(), arcs(self.spec_edges()), r@),
    {
        match graph_toposort(&self.graph) {
            Some(v) => v,
            None => {
                proof {
                    assert(false);
                }
                Vec::new()
            },
        }
    }

    /// Finalizes the frame graph: orders the nodes topologically, fails if
    /// a resource version has a write hazard, else sets the lifetime of each
    /// resource (positions in that order of the first and last pass that
    /// writes it) and assigns the resources allocations from `allocator`,
    /// which textures with disjoint lifetimes share.
    pub fn finalize(self, allocator: &mut FrameGraphAllocator) -> (r: Result<ExecutionContext, Error>)
        requires
            self.wf(),
            is_acyclic(self.spec_nodes().len(), arcs(self.spec_edges())),
            has_write_hazard(self.spec_nodes(), self.spec_edges()) || outputs_distinct(
                self.spec_nodes(),
                self.spec_edges(),
            ),
            self.spec_nodes().len() <= i32::MAX,
            old(allocator).allocations@.len() + self.spec_resources().len() <= u32::MAX,
        ensures
            r is Err <==> has_write_hazard(self.spec_nodes(), self.spec_edges()),
            r is Err ==> r == Err::<ExecutionContext, Error>(Error::ConcurrentWriteHazard)
                && final(allocator).allocations@ == old(allocator).allocations@,
            r matches Ok(ctx) ==> {
                let order = toposort_order(self.spec_nodes().len(), arcs(self.spec_edges())).unwrap();
                let lifetimes = resource_lifetimes(
                    self.spec_nodes(),
                    self.spec_edges(),
                    order,
                    self.spec_resources().len(),
                );
                &&& ctx.spec_order() == order
                &&& is_topological_order(self.spec_nodes().len(), arcs(self.spec_edges()), order)
                &&& ctx.spec_graph().shape_wf()
                &&& ctx.spec_graph().spec_nodes() == self.spec_nodes()
                &&& ctx.spec_graph().spec_edges() == self.spec_edges()
                &&& ctx.spec_graph().spec_resources() == self.spec_resources()
                &&& ctx.spec_graph().spec_pass_count() == self.spec_pass_count()
                &&& ctx.spec_graph().spec_lifetimes() == lifetimes
                &&& forall|i: int| 0 <= i < lifetimes.len() ==> (#[trigger] lifetimes[i]) is Some
                &&& (ctx.spec_graph().spec_aliased(), final(allocator).allocations@) == assign_upto(
                    self.spec_resources(),
                    lifetimes,
                    Seq::new(self.spec_resources().len(), |i: int| None::<AliasedResourceIndex>),
                    old(allocator).allocations@,
                    self.spec_resources().len(),
                )
                &&& old(allocator).allocations@.is_prefix_of(final(allocator).allocations@)
                &&& forall|i: int|
                    0 <= i < self.spec_resources().len() ==> holds_allocation(
                        ctx.spec_graph().spec_aliased()[i],
                        final(allocator).allocations@,
                        #[trigger] self.spec_resources()[i],
                    )
                &&& forall|i: int, j: int|
                    0 <= i < self.spec_resources().len() && 0 <= j < self.spec_resources().len() && i
                        != j && #[trigger] ctx.spec_graph().spec_aliased()[i]
                        == #[trigger] ctx.spec_graph().spec_aliased()[j] ==> !lifetimes_overlap(
                        lifetimes[i].unwrap(),
                        lifetimes[j].unwrap(),
                    )
            },
    {
        let mut fg = self;
        let toposort = fg.toposort_nodes();
        if fg.detect_concurrent_write_hazards(&toposort) {
            return Err(Error::ConcurrentWriteHazard);
        }
        let ghost before = fg;
        fg.determine_resource_lifetimes(&toposort);
        proof {
            let nodes = before.spec_nodes();
            let edges = before.spec_edges();
            let order = toposort@;
            let n = before.resources@.len();
            let init = Seq::new(n, |i: int| None::<Lifetime>);
            lemma_lifetimes_len(nodes, edges, order, order.len(), init);
            assert forall|i: int| 0 <= i < n implies (#[trigger] fg.lifetimes@[i]) is Some by {
                let e = before.producers@[i];
                let p = edges[e].0;
                let v = edges[e].1;
                lemma_out_neighbors(edges, p);
                let out = out_neighbors(edges, p);
                assert(out.contains(v));
                let k = choose|k: int| 0 <= k < out.len() && out[k] == v;
                assert(node_resource(nodes[out[k] as int]) == Some(i as u32));
                assert(pass_modifies(nodes, edges, p, i as u32));
                assert(p < nodes.len());
                assert(order.contains(p));
                let t = choose|t: int| 0 <= t < order.len() && order[t] == p;
                lemma_lifetime_set(nodes, edges, order, order.len(), init, i, t);
            }
            assert(fg.spec_resources() == before.spec_resources());
        }
        let ghost mid = fg;
        fg.assign_aliased_resources(allocator);
        proof {
            lemma_assign_upto_sound(
                mid.spec_resources(),
                mid.lifetimes@,
                old(allocator).allocations@,
                mid.resources@.len(),
            );
            assert(fg.spec_resources() == mid.spec_resources());
            assert(fg.shape_wf());
            let n = mid.resources@.len();
            assert forall|i: int| 0 <= i < n implies holds_allocation(
                fg.aliased@[i],
                allocator.allocations@,
                #[trigger] mid.spec_resources()[i],
            ) by {}
            assert forall|i: int, j: int|
                0 <= i < n && 0 <= j < n && i != j && #[trigger] fg.aliased@[i]
                    == #[trigger] fg.aliased@[j] implies !lifetimes_overlap(
                mid.lifetimes@[i].unwrap(),
                mid.lifetimes@[j].unwrap(),
            ) by {
                assert(holds_allocation(fg.aliased@[i], allocator.allocations@, mid.spec_resources()[i]));
            }
        }
        Ok(ExecutionContext::new(fg, toposort))
    }


    /// Passes are linked only to resource versions, and resource versions
    /// only to passes: each edge of a frame graph under construction links a
    /// pass and a resource version, both nodes of the graph.
    pub proof fn lemma_edges_link_passes_and_resources(&self)
        requires
            self.wf(),
        ensures
            forall|e: int|
                0 <= e < self.spec_edges().len() ==> {
                    let edge = #[trigger] self.spec_edges()[e];
                    &&& self.is_pass_node(edge.0) ==> self.is_resource_node(edge.1)
                    &&& self.is_resource_node(edge.0) ==> self.is_pass_node(edge.1)
                    &&& self.is_pass_node(edge.0) || self.is_resource_node(edge.0)
                },
    {
    }


    /// Whether the outputs of pass node `p` are versions of distinct
    /// resources.
    fn pass_outputs_distinct(&self, p: u32) -> (r: bool)
        requires
            self.shape_wf(),
            self.is_pass_node(p),
        ensures
            r == forall|j: int, k: int|
                0 <= j < k < out_neighbors(self.spec_edges(), p).len() ==> node_resource(
                    self.spec_nodes()[#[trigger] out_neighbors(self.spec_edges(), p)[j] as int],
                ) != node_resource(self.spec_nodes()[#[trigger] out_neighbors(self.spec_edges(), p)[k] as int]),
    {
        let ghost nodes = self.spec_nodes();
        let ghost out = out_neighbors(self.spec_edges(), p);
        let outs = graph_outgoing(&self.graph, p);
        proof {
            self.lemma_out_neighbor_kinds(p);
        }
        let mut k: usize = 0;
        while k < outs.len()
            invariant
                nodes == self.spec_nodes(),
                outs@ == out,
                out == out_neighbors(self.spec_edges(), p),
                k <= outs.len(),
                forall|x: int| 0 <= x < out.len() ==> (#[trigger] out[x]) < nodes.len(),
                forall|x: int, y: int|
                    0 <= x < y < k ==> node_resource(nodes[#[trigger] out[x] as int]) != node_resource(
                        nodes[#[trigger] out[y] as int],
                    ),
            decreases outs.len() - k,
        {
            let a = graph_node_weight(&self.graph, outs[k]);
            let mut j: usize = 0;
            while j < k
                invariant
                    nodes == self.spec_nodes(),
                    outs@ == out,
                    out == out_neighbors(self.spec_edges(), p),
                    k < outs.len(),
                    j <= k,
                    forall|x: int| 0 <= x < out.len() ==> (#[trigger] out[x]) < nodes.len(),
                    a == Some(nodes[out[k as int] as int]),
                    forall|x: int|
                        0 <= x < j ==> node_resource(nodes[#[trigger] out[x] as int]) != node_resource(
                            nodes[out[k as int] as int],
                        ),
                decreases k - j,
            {
                let b = graph_node_weight(&self.graph, outs[j]);
                let same = match (a, b) {
                    (Some(Node::Resource { index: x, .. }), Some(Node::Resource { index: y, .. })) => x == y,
                    (Some(Node::RenderPass { .. }), Some(Node::RenderPass { .. })) => true,
                    _ => false,
                };
                if same {
                    assert(node_resource(
                        self.spec_nodes()[out_neighbors(self.spec_edges(), p)[j as int] as int],
                    ) == node_resource(
                        self.spec_nodes()[out_neighbors(self.spec_edges(), p)[k as int] as int],
                    ));
                    return false;
                }
                j = j + 1;
            }
            k = k + 1;
        }
        true
    }

    /// Whether `finalize` can run on this graph with `allocator`: the graph
    /// has no cycle, it has a write hazard or no pass writes two versions of
    /// one resource, there are at most `i32::MAX` nodes, and the allocation
    /// indices fit in `u32`.
    pub fn can_finalize(&self, allocator: &FrameGraphAllocator) -> (r: bool)
        requires
            self.wf(),
        ensures
            r == (is_acyclic(self.spec_nodes().len(), arcs(self.spec_edges())) && (has_write_hazard(
                self.spec_nodes(),
                self.spec_edges(),
            ) || outputs_distinct(self.spec_nodes(), self.spec_edges()))
                && self.spec_nodes().len() <= i32::MAX && allocator.allocations@.len()
                + self.spec_resources().len() <= u32::MAX),
    {
        let ghost nodes = self.spec_nodes();
        let ghost edges = self.spec_edges();
        let n = graph_node_count(&self.graph);
        if n > 0x7fff_ffff {
            return false;
        }
        if allocator.allocations.len() > 0xffff_ffff || self.resources.len() > 0xffff_ffff - allocator.allocations.len() {
            return false;
        }
        proof {
            assert(self.spec_resources().len() == self.resources@.len());
        }
        let order = match graph_toposort(&self.graph) {
            Some(order) => order,
            None => {
                return false;
            },
        };
        if self.detect_concurrent_write_hazards(&order) {
            return true;
        }
        let mut p: usize = 0;
        while p < n
            invariant
                self.shape_wf(),
                nodes == self.spec_nodes(),
                edges == self.spec_edges(),
                n == nodes.len(),
                n <= i32::MAX,
                allocator.allocations@.len() + self.spec_resources().len() <= u32::MAX,
                is_acyclic(nodes.len(), arcs(edges)),
                !has_write_hazard(nodes, edges),
                p <= n,
                forall|q: u32, j: int, k: int|
                    q < p && nodes[q as int] is RenderPass && 0 <= j < k < out_neighbors(edges, q).len()
                        ==> node_resource(nodes[#[trigger] out_neighbors(edges, q)[j] as int]) != node_resource(
                        nodes[#[trigger] out_neighbors(edges, q)[k] as int],
                    ),
            decreases n - p,
        {
            let is_pass = match graph_node_weight(&self.graph, p as u32) {
                Some(Node::RenderPass { .. }) => true,
                _ => false,
            };
            if is_pass {
                if !self.pass_outputs_distinct(p as u32) {
                    proof {
                        let out = out_neighbors(edges, p as u32);
                        let (j, k) = choose|j: int, k: int|
                            0 <= j < k < out.len() && !(node_resource(nodes[#[trigger] out[j] as int]) != node_resource(
                                nodes[#[trigger] out[k] as int],
                            ));
                        assert(!outputs_distinct(nodes, edges));
                    }
                    return false;
                }
            }
            p = p + 1;
        }
        true
    }

    /// The number of nodes.
    pub fn node_count(&self) -> (r: usize)
        ensures
            r == self.spec_nodes().len(),
    {
        graph_node_count(&self.graph)
    }
}

/// The passes among `order`, in that order.
pub open spec fn passes_in_order(nodes: Seq<Node>, order: Seq<u32>) -> Seq<u32>
    decreases order.len(),
{
    if order.len() == 0 {
        Seq::empty()
    } else {
        let prev = passes_in_order(nodes, order.drop_last());
        match nodes[order.last() as int] {
            Node::RenderPass { pass } => prev.push(pass),
            Node::Resource { .. } => prev,
        }
    }
}

/// A finalized frame graph and the order in which its nodes run.
pub struct ExecutionContext {
    fg: FrameGraph,
    toposort: Vec<u32>,
}

impl ExecutionContext {
    /// The finalized graph.
    pub closed spec fn spec_graph(&self) -> FrameGraph {
        self.fg
    }

    /// The order in which the nodes run.
    pub closed spec fn spec_order(&self) -> Seq<u32> {
        self.toposort@
    }

    /// The context of graph `fg` whose nodes run in the order `toposort`.
    pub fn new(fg: FrameGraph, toposort: Vec<u32>) -> (r: ExecutionContext)
        ensures
            r.spec_graph() == fg,
            r.spec_order() == toposort@,
    {
        ExecutionContext { fg, toposort }
    }

    /// The passes in the order in which they run: the order in which their
    /// callbacks are called.
    pub fn pass_order(&self) -> (r: Vec<u32>)
        requires
            forall|k: int| 0 <= k < self.spec_order().len() ==> #[trigger] self.spec_order()[k] < self.spec_graph().spec_nodes().len(),
        ensures
            r@ == passes_in_order(self.spec_graph().spec_nodes(), self.spec_order()),
    {
        let ghost nodes = self.fg.spec_nodes();
        proof {
            assert forall|k: int| 0 <= k < self.toposort@.len() implies #[trigger] self.toposort@[k] < nodes.len() by {
                assert(self.spec_order()[k] == self.toposort@[k]);
            }
        }
        let mut r: Vec<u32> = Vec::new();
        let mut t: usize = 0;
        while t < self.toposort.len()
            invariant
                nodes == self.fg.spec_nodes(),
                forall|k: int| 0 <= k < self.toposort@.len() ==> #[trigger] self.toposort@[k] < nodes.len(),
                t <= self.toposort@.len(),
                r@ == passes_in_order(nodes, self.toposort@.take(t as int)),
            decreases self.toposort@.len() - t,
        {
            proof {
                assert(self.toposort@.take(t + 1).drop_last() =~= self.toposort@.take(t as int));
            }
            match graph_node_weight(&self.fg.graph, self.toposort[t]) {
                Some(Node::RenderPass { pass }) => {
                    r.push(pass);
                },
                _ => {},
            }
            t = t + 1;
        }
        proof {
            assert(self.toposort@.take(t as int) =~= self.toposort@);
        }
        r
    }

    /// The resource that node `res` is a version of.
    fn resource_of(&self, res: ResourceVersion) -> (r: usize)
        requires
            self.spec_graph().shape_wf(),
            self.spec_graph().is_resource_node(res.0),
        ensures
            r == self.spec_graph().spec_nodes()[res.0 as int]->index,
            r < self.spec_graph().spec_lifetimes().len(),
            r < self.spec_graph().spec_aliased().len(),
    {
        let index = match graph_node_weight(&self.fg.graph, res.0) {
            Some(Node::Resource { index, .. }) => index,
            _ => {
                proof {
                    assert(false);
                }
                0
            },
        };
        proof {
            assert(match self.fg.spec_nodes()[res.0 as int] {
                Node::RenderPass { pass } => pass < self.fg.pass_names@.len(),
                Node::Resource { index, .. } => index < self.fg.resources@.len(),
            });
        }
        index as usize
    }

    /// The lifetime of the resource of node `res`.
    pub fn lifetime(&self, res: ResourceVersion) -> (r: Option<Lifetime>)
        requires
            self.spec_graph().shape_wf(),
            self.spec_graph().is_resource_node(res.0),
        ensures
            r == self.spec_graph().spec_lifetimes()[self.spec_graph().spec_nodes()[res.0 as int]->index as int],
    {
        let index = self.resource_of(res);
        self.fg.lifetimes[index]
    }

    /// The allocation recorded for the resource of node `res`.
    pub fn aliased_index(&self, res: ResourceVersion) -> (r: Option<AliasedResourceIndex>)
        requires
            self.spec_graph().shape_wf(),
            self.spec_graph().is_resource_node(res.0),
        ensures
            r == self.spec_graph().spec_aliased()[self.spec_graph().spec_nodes()[res.0 as int]->index as int],
    {
        let index = self.resource_of(res);
        self.fg.aliased[index]
    }

    /// The allocation of the resource of node `res`.
    pub fn aliased_resource<'a>(&self, allocator: &'a FrameGraphAllocator, res: ResourceVersion) -> (r: &'a AliasedResource)
        requires
            self.spec_graph().shape_wf(),
            self.spec_graph().is_resource_node(res.0),
            self.spec_graph().spec_aliased()[self.spec_graph().spec_nodes()[res.0 as int]->index as int] matches Some(a)
                && a.0 < allocator.allocations@.len(),
        ensures
            *r == allocator.allocations@[self.spec_graph().spec_aliased()[self.spec_graph().spec_nodes()[res.0 as int]->index as int].unwrap().0 as int],
    {
        let index = self.resource_of(res);
        let a = self.fg.aliased[index].unwrap();
        &allocator.allocations[a.0 as usize]
    }
}

} // verus!
