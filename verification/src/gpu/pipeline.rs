//! The pipeline cache: one graphics pipeline and bind-group layout per
//! unique combination of vertex layout, shader pair, blend state and
//! target color format.
//!
//! Pipeline identity does not affect what a draw renders, only how much
//! work the backend repeats, so the cache may serve an existing slot for a
//! key it has seen before; it never hands two slots to one key.

use vstd::prelude::*;

use crate::gpu::state::{ShaderKind, TexFormat, VertexLayout};

verus! {

/// Everything that distinguishes one graphics pipeline from another under
/// the bridge's fixed binding layout.
#[derive(Clone, Copy, PartialEq, Eq, Structural, Debug)]
pub struct PipelineKey {
    /// Vertex layout of the geometry being drawn.
    pub layout: VertexLayout,
    /// Shader program pair.
    pub shader: ShaderKind,
    /// Whether blending over the target is enabled.
    pub blend: bool,
    /// Color format of the render target.
    pub format: TexFormat,
}

/// The index of the first slot holding `key`, or the sequence's length
/// when no slot does.
pub open spec fn spec_slot_of(keys: Seq<PipelineKey>, key: PipelineKey) -> int
    decreases keys.len(),
{
    if keys.len() == 0 {
        0
    } else if keys[0] == key {
        0
    } else {
        1 + spec_slot_of(keys.drop_first(), key)
    }
}

/// What `spec_slot_of` returns: a contained key's first slot, the length
/// otherwise.
pub proof fn lemma_slot_of(keys: Seq<PipelineKey>, key: PipelineKey)
    ensures
        keys.contains(key) ==> {
            &&& 0 <= spec_slot_of(keys, key) < keys.len()
            &&& keys[spec_slot_of(keys, key)] == key
            &&& forall|j: int| 0 <= j < spec_slot_of(keys, key) ==> keys[j] != key
        },
        !keys.contains(key) ==> spec_slot_of(keys, key) == keys.len(),
    decreases keys.len(),
{
    if keys.len() == 0 {
        assert(!keys.contains(key));
    } else if keys[0] == key {
        assert(keys.contains(key));
    } else {
        let rest = keys.drop_first();
        lemma_slot_of(rest, key);
        if keys.contains(key) {
            let w = choose|w: int| 0 <= w < keys.len() && keys[w] == key;
            assert(w != 0);
            assert(rest[w - 1] == keys[w]);
            assert(rest.contains(key));
            let s = spec_slot_of(rest, key);
            assert(keys[1 + s] == rest[s]);
            assert forall|j: int| 0 <= j < 1 + s implies keys[j] != key by {
                if j > 0 {
                    assert(rest[j - 1] == keys[j]);
                }
            }
        } else {
            if rest.contains(key) {
                let w = choose|w: int| 0 <= w < rest.len() && rest[w] == key;
                assert(keys[w + 1] == rest[w]);
                assert(keys.contains(key));
            }
        }
    }
}

/// The cache's key list after a lookup of `key`: unchanged when the key is
/// already present, extended by one slot otherwise.
pub open spec fn spec_cache_after(keys: Seq<PipelineKey>, key: PipelineKey) -> Seq<PipelineKey> {
    if keys.contains(key) {
        keys
    } else {
        keys.push(key)
    }
}

/// Pipeline cache: the keys of the pipelines built so far, one slot each,
/// in the order the backend first needed them.
pub struct PipelineCache {
    keys: Vec<PipelineKey>,
}

impl PipelineCache {
    /// The keys held, by slot.
    pub closed spec fn view(&self) -> Seq<PipelineKey> {
        self.keys@
    }

    /// An empty cache.
    pub fn new() -> (r: PipelineCache)
        ensures
            r@ == Seq::<PipelineKey>::empty(),
    {
        PipelineCache { keys: Vec::new() }
    }

    /// The key a slot holds.
    pub fn key_at(&self, slot: usize) -> (r: PipelineKey)
        requires
            slot < self@.len(),
        ensures
            r == self@[slot as int],
    {
        self.keys[slot]
    }

    /// How many pipelines the backend has been asked to build.
    pub fn len(&self) -> (r: usize)
        ensures
            r == self@.len(),
    {
        self.keys.len()
    }

    /// Returns the slot for `key`, adding one only if no slot holds the
    /// key yet.  The same key always receives the same slot, so a backend
    /// that builds one pipeline per slot never rebuilds.
    pub fn lookup_or_insert(&mut self, key: PipelineKey) -> (slot: usize)
        ensures
            final(self)@ == spec_cache_after(old(self)@, key),
            slot == spec_slot_of(old(self)@, key),
            slot < final(self)@.len(),
            final(self)@[slot as int] == key,
    {
        proof {
            lemma_slot_of(self@, key);
        }
        let mut i: usize = 0;
        while i < self.keys.len()
            invariant
                0 <= i <= self@.len(),
                forall|j: int| 0 <= j < i ==> self@[j] != key,
            decreases self@.len() - i,
        {
            if self.keys[i] == key {
                proof {
                    assert(self@[i as int] == key);
                    assert(self@.contains(key));
                    lemma_slot_of(self@, key);
                    let s = spec_slot_of(self@, key);
                    if s < i {
                        assert(self@[s] == key);
                    }
                    if s > i {
                        assert(self@[i as int] != key);
                    }
                }
                return i;
            }
            i = i + 1;
        }
        proof {
            if self@.contains(key) {
                let w = choose|w: int| 0 <= w < self@.len() && self@[w] == key;
                assert(false);
            }
        }
        self.keys.push(key);
        i
    }
}

/// Serving the cache is idempotent: once a key has been looked up, looking
/// it up again returns the same slot and leaves the cache unchanged.
pub proof fn lemma_cache_lookup_idempotent(keys: Seq<PipelineKey>, key: PipelineKey)
    ensures
        spec_cache_after(spec_cache_after(keys, key), key) == spec_cache_after(keys, key),
        spec_slot_of(spec_cache_after(keys, key), key) == spec_slot_of(
            spec_cache_after(spec_cache_after(keys, key), key),
            key,
        ),
{
    let once = spec_cache_after(keys, key);
    if !keys.contains(key) {
        assert(once[keys.len() as int] == key);
        assert(once.contains(key));
    } else {
        assert(once.contains(key));
    }
}

} // verus!
