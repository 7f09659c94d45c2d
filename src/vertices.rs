//! Vertex layout and the deduplication of a mesh's vertex stream.
//!
//! Attributes are held as the bit patterns of their 32-bit floats, so two
//! vertices are equal exactly when every attribute has the same bits.
use std::collections::HashMap;

use vstd::prelude::*;

verus! {

/// `VK_FORMAT_R32G32_SFLOAT`.
pub const FORMAT_R32G32_SFLOAT: i32 = 103;

/// `VK_FORMAT_R32G32B32_SFLOAT`.
pub const FORMAT_R32G32B32_SFLOAT: i32 = 106;

/// `VK_VERTEX_INPUT_RATE_VERTEX`.
pub const INPUT_RATE_VERTEX: i32 = 0;

/// Bytes from one vertex to the next: eight 32-bit floats.
pub const VERTEX_STRIDE: u32 = 32;

/// Three floats, as bit patterns.
#[derive(Clone, Copy, Debug, PartialEq, Eq, Structural)]
pub struct Vec3Bits {
    pub x: u32,
    pub y: u32,
    pub z: u32,
}

/// Two floats, as bit patterns.
#[derive(Clone, Copy, Debug, PartialEq, Eq, Structural)]
pub struct Vec2Bits {
    pub x: u32,
    pub y: u32,
}

/// One vertex: position, colour and texture coordinate.
#[derive(Clone, Copy, Debug, PartialEq, Eq, Structural)]
pub struct Vertex {
    pub position: Vec3Bits,
    pub colour: Vec3Bits,
    pub tex_coord: Vec2Bits,
}

/// How vertices are laid out in the vertex buffer.
#[derive(Clone, Copy, Debug, PartialEq, Eq, Structural)]
pub struct BindingDescription {
    pub binding: u32,
    pub stride: u32,
    pub input_rate: i32,
}

/// Where one attribute sits within a vertex.
#[derive(Clone, Copy, Debug, PartialEq, Eq, Structural)]
pub struct AttributeDescription {
    pub binding: u32,
    pub location: u32,
    pub format: i32,
    pub offset: u32,
}

impl Vertex {
    pub fn new(position: Vec3Bits, colour: Vec3Bits, tex_coord: Vec2Bits) -> (r: Self)
        ensures
            r.position == position,
            r.colour == colour,
            r.tex_coord == tex_coord,
    {
        Vertex { position, colour, tex_coord }
    }

    /// One binding, advanced per vertex, with the whole vertex as stride.
    pub fn binding_description() -> (r: BindingDescription)
        ensures
            r == (BindingDescription {
                binding: 0,
                stride: VERTEX_STRIDE,
                input_rate: INPUT_RATE_VERTEX,
            }),
    {
        BindingDescription { binding: 0, stride: VERTEX_STRIDE, input_rate: INPUT_RATE_VERTEX }
    }

    /// Position at location 0 and offset 0, colour at location 1 after the
    /// three floats of the position, texture coordinate at location 2 after
    /// the colour.
    pub fn attribute_descriptions() -> (r: [AttributeDescription; 3])
        ensures
            r@[0] == (AttributeDescription {
                binding: 0,
                location: 0,
                format: FORMAT_R32G32B32_SFLOAT,
                offset: 0,
            }),
            r@[1] == (AttributeDescription {
                binding: 0,
                location: 1,
                format: FORMAT_R32G32B32_SFLOAT,
                offset: 12,
            }),
            r@[2] == (AttributeDescription {
                binding: 0,
                location: 2,
                format: FORMAT_R32G32_SFLOAT,
                offset: 24,
            }),
    {
        let position = AttributeDescription {
            binding: 0,
            location: 0,
            format: FORMAT_R32G32B32_SFLOAT,
            offset: 0,
        };
        let colour = AttributeDescription {
            binding: 0,
            location: 1,
            format: FORMAT_R32G32B32_SFLOAT,
            offset: 12,
        };
        let tex_coord = AttributeDescription {
            binding: 0,
            location: 2,
            format: FORMAT_R32G32_SFLOAT,
            offset: 24,
        };
        [position, colour, tex_coord]
    }
}

/// A vertex buffer with the index buffer that draws from it.
#[derive(Clone, Debug)]
pub struct Mesh {
    pub vertices: Vec<Vertex>,
    pub indices: Vec<u32>,
}

/// The distinct vertices of `s`, each at the place of its first occurrence.
pub open spec fn distinct_in_order(s: Seq<Vertex>) -> Seq<Vertex>
    decreases s.len(),
{
    if s.len() == 0 {
        Seq::empty()
    } else {
        let u = distinct_in_order(s.drop_last());
        if u.contains(s.last()) {
            u
        } else {
            u.push(s.last())
        }
    }
}

/// `vertices` and `indices` draw exactly the vertex stream `stream`, with
/// each distinct vertex stored once, in order of first occurrence.
pub open spec fn is_deduplication(
    stream: Seq<Vertex>,
    vertices: Seq<Vertex>,
    indices: Seq<u32>,
) -> bool {
    &&& vertices == distinct_in_order(stream)
    &&& indices.len() == stream.len()
    &&& forall|k: int|
        0 <= k < stream.len() ==> {
            &&& (#[trigger] indices[k]) < vertices.len()
            &&& vertices[indices[k] as int] == stream[k]
        }
}

proof fn lemma_distinct_in_order(s: Seq<Vertex>)
    ensures
        distinct_in_order(s).no_duplicates(),
        distinct_in_order(s).to_set() == s.to_set(),
        distinct_in_order(s).len() <= s.len(),
    decreases s.len(),
{
    if s.len() > 0 {
        let p = s.drop_last();
        lemma_distinct_in_order(p);
        let u = distinct_in_order(p);
        assert(s =~= p.push(s.last()));
        assert(s.to_set() =~= p.to_set().insert(s.last()));
        if u.contains(s.last()) {
            assert(u.to_set() =~= u.to_set().insert(s.last()));
        } else {
            u.lemma_push_to_set_commute(s.last());
            let w = u.push(s.last());
            assert forall|i: int, j: int| 0 <= i < w.len() && 0 <= j < w.len() && i != j implies w[i]
                != w[j] by {
                if j == w.len() - 1 {
                    assert(u[i] == w[i]);
                } else if i == w.len() - 1 {
                    assert(u[j] == w[j]);
                }
            }
        }
    }
}

/// The key a vertex is filed under: its three position coordinates and the
/// first texture coordinate. Vertices with different keys differ; vertices
/// with the same key are told apart by comparing them whole.
pub open spec fn vertex_key(v: Vertex) -> u128 {
    ((v.position.x as u128) << 96u128) | ((v.position.y as u128) << 64u128) | ((
    v.position.z as u128) << 32u128) | (v.tex_coord.x as u128)
}

fn key_of(v: &Vertex) -> (r: u128)
    ensures
        r == vertex_key(*v),
{
    ((v.position.x as u128) << 96u128) | ((v.position.y as u128) << 64u128) | ((
    v.position.z as u128) << 32u128) | (v.tex_coord.x as u128)
}

/// The buckets file every stored vertex under its key, and hold nothing
/// else.
pub open spec fn buckets_index(buckets: Map<u128, Vec<u32>>, vertices: Seq<Vertex>) -> bool {
    &&& forall|j: int|
        0 <= j < vertices.len() ==> {
            &&& buckets.contains_key(vertex_key(#[trigger] vertices[j]))
            &&& buckets[vertex_key(vertices[j])]@.contains(j as u32)
        }
    &&& forall|k: u128, t: int|
        buckets.contains_key(k) && 0 <= t < buckets[k]@.len() ==> {
            &&& (#[trigger] buckets[k]@[t]) < vertices.len()
            &&& vertex_key(vertices[buckets[k]@[t] as int]) == k
        }
}

/// The stored vertex among `bucket` that equals `v`, if there is one.
fn find_in_bucket(vertices: &Vec<Vertex>, bucket: &Vec<u32>, v: Vertex) -> (r: Option<u32>)
    requires
        forall|t: int| 0 <= t < bucket@.len() ==> (#[trigger] bucket@[t]) < vertices@.len(),
    ensures
        r matches Some(j) ==> j < vertices@.len() && vertices@[j as int] == v,
        r is None ==> forall|t: int|
            0 <= t < bucket@.len() ==> vertices@[(#[trigger] bucket@[t]) as int] != v,
{
    let mut t: usize = 0;
    while t < bucket.len()
        invariant
            t <= bucket@.len(),
            forall|u: int| 0 <= u < bucket@.len() ==> (#[trigger] bucket@[u]) < vertices@.len(),
            forall|u: int| 0 <= u < t ==> vertices@[(#[trigger] bucket@[u]) as int] != v,
        decreases bucket@.len() - t,
    {
        let j = bucket[t];
        if vertices[j as usize] == v {
            return Some(j);
        }
        t += 1;
    }
    None
}

/// Collapses identical vertices of `stream` into one, rewriting the indices
/// so that the mesh still draws the same stream.
pub fn deduplicate(stream: &Vec<Vertex>) -> (r: Mesh)
    requires
        stream@.len() <= u32::MAX,
    ensures
        is_deduplication(stream@, r.vertices@, r.indices@),
{
    broadcast use vstd::std_specs::hash::group_hash_axioms;

    let mut vertices: Vec<Vertex> = Vec::new();
    let mut indices: Vec<u32> = Vec::new();
    let mut buckets: HashMap<u128, Vec<u32>> = HashMap::new();
    let mut i: usize = 0;
    while i < stream.len()
        invariant
            i <= stream@.len(),
            stream@.len() <= u32::MAX,
            vertices@ == distinct_in_order(stream@.take(i as int)),
            vertices@.len() <= i,
            indices@.len() == i,
            buckets_index(buckets@, vertices@),
            forall|k: int|
                0 <= k < i ==> {
                    &&& (#[trigger] indices@[k]) < vertices@.len()
                    &&& vertices@[indices@[k] as int] == stream@[k]
                },
        decreases stream@.len() - i,
    {
        let v = stream[i];
        proof {
            let t = stream@.take(i as int + 1);
            assert(t.drop_last() =~= stream@.take(i as int));
            assert(t.last() == v);
        }
        let k = key_of(&v);
        let found = match buckets.get(&k) {
            Some(bucket) => {
                proof {
                    assert forall|t: int| 0 <= t < bucket@.len() implies (#[trigger] bucket@[t])
                        < vertices@.len() by {
                        assert(buckets@[k] == *bucket);
                    }
                }
                let f = find_in_bucket(&vertices, bucket, v);
                proof {
                    if f is None {
                        assert forall|j: int| 0 <= j < vertices@.len() implies vertices@[j] != v by {
                            if vertices@[j] == v {
                                let b = buckets@[vertex_key(vertices@[j])];
                                assert(b@.contains(j as u32));
                                let t = choose|t: int| 0 <= t < b@.len() && b@[t] == j as u32;
                                assert(vertices@[(bucket@[t]) as int] != v);
                            }
                        }
                    }
                }
                f
            },
            None => {
                proof {
                    assert forall|j: int| 0 <= j < vertices@.len() implies vertices@[j] != v by {
                        if vertices@[j] == v {
                            assert(buckets@.contains_key(vertex_key(vertices@[j])));
                        }
                    }
                }
                None
            },
        };
        match found {
            Some(j) => {
                indices.push(j);
            },
            None => {
                assert(!vertices@.contains(v));
                let j = vertices.len() as u32;
                let ghost old_vertices = vertices@;
                let ghost old_buckets = buckets@;
                vertices.push(v);
                let mut bucket = match buckets.remove(&k) {
                    Some(b) => b,
                    None => Vec::new(),
                };
                let ghost old_bucket = bucket@;
                assert(old_buckets.contains_key(k) ==> old_bucket == old_buckets[k]@);
                assert(!old_buckets.contains_key(k) ==> old_bucket.len() == 0);
                bucket.push(j);
                buckets.insert(k, bucket);
                proof {
                    assert(buckets@ == old_buckets.insert(k, buckets@[k]));
                    assert(buckets@[k]@ == old_bucket.push(j));
                    assert forall|jj: int| 0 <= jj < vertices@.len() implies {
                        &&& buckets@.contains_key(vertex_key(#[trigger] vertices@[jj]))
                        &&& buckets@[vertex_key(vertices@[jj])]@.contains(jj as u32)
                    } by {
                        if jj == old_vertices.len() {
                            assert(buckets@[k]@[old_bucket.len() as int] == j);
                        } else {
                            assert(vertices@[jj] == old_vertices[jj]);
                            if vertex_key(vertices@[jj]) == k {
                                let b = old_buckets[k]@;
                                let t = choose|t: int| 0 <= t < b.len() && b[t] == jj as u32;
                                assert(buckets@[k]@[t] == jj as u32);
                            }
                        }
                    }
                    assert forall|kk: u128, t: int|
                        buckets@.contains_key(kk) && 0 <= t < buckets@[kk]@.len() implies {
                        &&& (#[trigger] buckets@[kk]@[t]) < vertices@.len()
                        &&& vertex_key(vertices@[buckets@[kk]@[t] as int]) == kk
                    } by {
                        if kk == k {
                            if t < old_bucket.len() {
                                assert(old_buckets[k]@[t] == buckets@[kk]@[t]);
                                assert(old_buckets[k]@.len() > t);
                            }
                        } else {
                            assert(old_buckets[kk] == buckets@[kk]);
                            assert(old_buckets[kk]@.len() > t);
                        }
                    }
                }
                indices.push(j);
            },
        }
        i += 1;
    }
    assert(stream@.take(i as int) =~= stream@);
    Mesh { vertices, indices }
}

/// Two identical vertices of the stream are drawn through the same single
/// stored vertex, and the vertex buffer holds exactly as many vertices as
/// the stream has distinct ones.
pub proof fn lemma_deduplication_shares(
    stream: Seq<Vertex>,
    vertices: Seq<Vertex>,
    indices: Seq<u32>,
    a: int,
    b: int,
)
    requires
        is_deduplication(stream, vertices, indices),
        0 <= a < stream.len(),
        0 <= b < stream.len(),
        stream[a] == stream[b],
    ensures
        indices[a] == indices[b],
        vertices.len() == stream.to_set().len(),
{
    lemma_distinct_in_order(stream);
    vertices.unique_seq_to_set();
    assert(vertices[indices[a] as int] == vertices[indices[b] as int]);
}

} // verus!
