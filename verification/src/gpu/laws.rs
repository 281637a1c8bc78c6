//! Laws of the bridge, proved once and for all inputs: how a resource
//! table tracks the engine's create/update/destroy notifications, and how
//! the command translator preserves command order.
//!
//! The driver's entry points step each table exactly as `apply_table_op`
//! says — their `ensures` clauses insert on a fault-free create or
//! update, remove on destroy, and leave the table alone on the errors —
//! so `lemma_table_tracks_latest` speaks for any sequence of engine
//! notifications the driver absorbs.

use vstd::prelude::*;

use crate::gpu::driver::{
    spec_cmd_fault, spec_first_fault, spec_translate_ops, spec_translate_step, GeometryEntry,
    TextureEntry,
};
use crate::gpu::ops::{spec_visible_ops, GpuOp, TextureSource};
use crate::gpu::pipeline::PipelineKey;
use crate::gpu::state::{GpuCommand, GpuState, RenderBufferDesc};

verus! {

/// One table-shaping notification, as the driver's create, update and
/// destroy entry points perform them.
pub enum TableOp<V> {
    /// Insert a fresh handle's record.
    Create {
        /// The handle.
        id: u32,
        /// The record created.
        payload: V,
    },
    /// Replace a live handle's record in place.
    Update {
        /// The handle.
        id: u32,
        /// The new record.
        payload: V,
    },
    /// Remove a handle's record.
    Destroy {
        /// The handle.
        id: u32,
    },
}

/// One notification's effect on a table, with the driver's error
/// discipline: a create of a live handle and an update of a dead one are
/// refused and change nothing.
pub open spec fn apply_table_op<V>(m: Map<u32, V>, op: TableOp<V>) -> Map<u32, V> {
    match op {
        TableOp::Create { id, payload } => if m.contains_key(id) {
            m
        } else {
            m.insert(id, payload)
        },
        TableOp::Update { id, payload } => if m.contains_key(id) {
            m.insert(id, payload)
        } else {
            m
        },
        TableOp::Destroy { id } => m.remove(id),
    }
}

/// The table a sequence of notifications leaves behind.
pub open spec fn table_after<V>(m0: Map<u32, V>, ops: Seq<TableOp<V>>) -> Map<u32, V>
    decreases ops.len(),
{
    if ops.len() == 0 {
        m0
    } else {
        apply_table_op(table_after(m0, ops.drop_last()), ops.last())
    }
}

/// A well-formed notification sequence: the engine creates only dead
/// handles and updates only live ones.
pub open spec fn table_ops_wf<V>(m0: Map<u32, V>, ops: Seq<TableOp<V>>) -> bool
    decreases ops.len(),
{
    if ops.len() == 0 {
        true
    } else {
        let before = table_after(m0, ops.drop_last());
        &&& table_ops_wf(m0, ops.drop_last())
        &&& match ops.last() {
            TableOp::Create { id, .. } => !before.contains_key(id),
            TableOp::Update { id, .. } => before.contains_key(id),
            TableOp::Destroy { .. } => true,
        }
    }
}

/// What a handle's history says its record should be.
pub enum LatestRecord<V> {
    /// No notification mentioned the handle.
    Untouched,
    /// The handle's most recent mention is a create or update carrying
    /// this payload.
    Live(V),
    /// The handle's most recent mention is a destroy.
    Destroyed,
}

/// The most recent thing a notification sequence said about a handle.
pub open spec fn latest_record<V>(ops: Seq<TableOp<V>>, id: u32) -> LatestRecord<V>
    decreases ops.len(),
{
    if ops.len() == 0 {
        LatestRecord::Untouched
    } else {
        match ops.last() {
            TableOp::Create { id: i, payload } => if i == id {
                LatestRecord::Live(payload)
            } else {
                latest_record(ops.drop_last(), id)
            },
            TableOp::Update { id: i, payload } => if i == id {
                LatestRecord::Live(payload)
            } else {
                latest_record(ops.drop_last(), id)
            },
            TableOp::Destroy { id: i } => if i == id {
                LatestRecord::Destroyed
            } else {
                latest_record(ops.drop_last(), id)
            },
        }
    }
}

/// A resource table reflects its history: after any well-formed sequence
/// of create/update/destroy notifications, a handle whose latest mention
/// carries a payload maps to exactly that payload, a destroyed handle is
/// absent, and an unmentioned handle keeps its starting record.
pub proof fn lemma_table_tracks_latest<V>(m0: Map<u32, V>, ops: Seq<TableOp<V>>, id: u32)
    requires
        table_ops_wf(m0, ops),
    ensures
        match latest_record(ops, id) {
            LatestRecord::Live(p) => table_after(m0, ops).contains_key(id) && table_after(
                m0,
                ops,
            )[id] == p,
            LatestRecord::Destroyed => !table_after(m0, ops).contains_key(id),
            LatestRecord::Untouched => {
                &&& table_after(m0, ops).contains_key(id) == m0.contains_key(id)
                &&& m0.contains_key(id) ==> table_after(m0, ops)[id] == m0[id]
            },
        },
    decreases ops.len(),
{
    if ops.len() > 0 {
        lemma_table_tracks_latest(m0, ops.drop_last(), id);
    }
}

/// Translation neither drops, duplicates nor reorders work: a fault-free
/// command list of length `n` becomes exactly `n` operations, and the
/// `i`-th operation is the `i`-th command's translation against the cache
/// state the commands before it produced.
pub proof fn lemma_translate_in_order(
    rbs: Map<u32, RenderBufferDesc>,
    tex: Map<u32, TextureEntry>,
    geos: Map<u32, GeometryEntry>,
    cache: Seq<PipelineKey>,
    cmds: Seq<GpuCommand>,
)
    ensures
        spec_translate_ops(rbs, tex, geos, cache, cmds).0.len() == cmds.len(),
        forall|i: int|
            0 <= i < cmds.len() ==> spec_translate_ops(rbs, tex, geos, cache, cmds).0[i]
                == spec_translate_step(
                rbs,
                tex,
                geos,
                spec_translate_ops(rbs, tex, geos, cache, cmds.take(i)).1,
                #[trigger] cmds[i],
            ).0,
    decreases cmds.len(),
{
    if cmds.len() > 0 {
        lemma_translate_in_order(rbs, tex, geos, cache, cmds.drop_last());
        assert(cmds.take(cmds.len() - 1) =~= cmds.drop_last());
        assert forall|i: int|
            0 <= i < cmds.len() implies spec_translate_ops(rbs, tex, geos, cache, cmds).0[i]
            == spec_translate_step(
            rbs,
            tex,
            geos,
            spec_translate_ops(rbs, tex, geos, cache, cmds.take(i)).1,
            #[trigger] cmds[i],
        ).0 by {
            if i < cmds.len() - 1 {
                assert(cmds.drop_last().take(i) =~= cmds.take(i));
                assert(cmds.drop_last()[i] == cmds[i]);
            }
        }
    }
}

/// The four-command list of the order law: clear a render buffer, draw
/// one geometry onto it, clear it again, draw another geometry.
pub open spec fn clear_draw_clear_draw(
    rb: u32,
    g1: u32,
    off1: u32,
    cnt1: u32,
    s1: GpuState,
    g2: u32,
    off2: u32,
    cnt2: u32,
    s2: GpuState,
) -> Seq<GpuCommand> {
    seq![
        GpuCommand::ClearRenderBuffer { render_buffer_id: rb },
        GpuCommand::DrawGeometry {
            render_buffer_id: rb,
            geometry_id: g1,
            indices_offset: off1,
            indices_count: cnt1,
            state: s1,
        },
        GpuCommand::ClearRenderBuffer { render_buffer_id: rb },
        GpuCommand::DrawGeometry {
            render_buffer_id: rb,
            geometry_id: g2,
            indices_offset: off2,
            indices_count: cnt2,
            state: s2,
        },
    ]
}

/// Command order is honored across clears: translating
/// `[Clear(rb), Draw(rb, g1), Clear(rb), Draw(rb, g2)]` leaves the target
/// shaped by only the second clear and the second draw — the first draw's
/// effect is erased — and that draw is `g2`'s, with its own sub-range.
pub proof fn lemma_clear_masks_earlier_draws(
    rbs: Map<u32, RenderBufferDesc>,
    tex: Map<u32, TextureEntry>,
    geos: Map<u32, GeometryEntry>,
    cache: Seq<PipelineKey>,
    rb: u32,
    g1: u32,
    off1: u32,
    cnt1: u32,
    s1: GpuState,
    g2: u32,
    off2: u32,
    cnt2: u32,
    s2: GpuState,
)
    requires
        spec_first_fault(
            rbs,
            tex,
            geos,
            clear_draw_clear_draw(rb, g1, off1, cnt1, s1, g2, off2, cnt2, s2),
        ) is None,
    ensures
        ({
            let cmds = clear_draw_clear_draw(rb, g1, off1, cnt1, s1, g2, off2, cnt2, s2);
            let ops = spec_translate_ops(rbs, tex, geos, cache, cmds).0;
            let target = rbs[rb].texture_id;
            &&& ops.len() == 4
            &&& spec_visible_ops(ops, target) == seq![ops[2], ops[3]]
            &&& ops[2] == (GpuOp::ClearTexture { texture_id: target })
            &&& ops[3] matches GpuOp::Draw(d) && d.geometry_id == g2 && d.target_texture_id
                == target && d.indices_offset == off2 && d.indices_count == cnt2
        }),
{
    reveal_with_fuel(spec_translate_ops, 6);
    reveal_with_fuel(spec_visible_ops, 6);
    let cmds = clear_draw_clear_draw(rb, g1, off1, cnt1, s1, g2, off2, cnt2, s2);
    let target = rbs[rb].texture_id;
    let step0 = spec_translate_ops(rbs, tex, geos, cache, cmds.take(1));
    let step1 = spec_translate_ops(rbs, tex, geos, cache, cmds.take(2));
    let step2 = spec_translate_ops(rbs, tex, geos, cache, cmds.take(3));
    let whole = spec_translate_ops(rbs, tex, geos, cache, cmds);
    assert(cmds.take(1).drop_last() =~= Seq::<GpuCommand>::empty());
    assert(cmds.take(2).drop_last() =~= cmds.take(1));
    assert(cmds.take(3).drop_last() =~= cmds.take(2));
    assert(cmds.drop_last() =~= cmds.take(3));
    assert(step0.0 =~= seq![spec_translate_step(rbs, tex, geos, cache, cmds[0]).0]);
    let ops = whole.0;
    assert(ops =~= step2.0.push(spec_translate_step(rbs, tex, geos, step2.1, cmds[3]).0));
    assert(ops.len() == 4);
    assert(ops[2] == spec_translate_step(rbs, tex, geos, step1.1, cmds[2]).0);
    assert(ops[2] == (GpuOp::ClearTexture { texture_id: target }));
    assert(ops[3] == spec_translate_step(rbs, tex, geos, step2.1, cmds[3]).0);
    assert(ops[3] matches GpuOp::Draw(d) && d.geometry_id == g2 && d.target_texture_id == target
        && d.indices_offset == off2 && d.indices_count == cnt2);
    assert(ops.drop_last().drop_last() =~= ops.take(2));
    assert(spec_visible_ops(ops, target) =~= seq![ops[2], ops[3]]);
}

/// Missing-texture fallback: a draw whose sampled texture handles are not
/// live is no fault — it translates to a draw binding the placeholder
/// texture, so the command list still executes.
pub proof fn lemma_missing_texture_falls_back(
    rbs: Map<u32, RenderBufferDesc>,
    tex: Map<u32, TextureEntry>,
    geos: Map<u32, GeometryEntry>,
    cache: Seq<PipelineKey>,
    rb: u32,
    g: u32,
    off: u32,
    cnt: u32,
    s: GpuState,
)
    requires
        rbs.contains_key(rb),
        tex.contains_key(rbs[rb].texture_id),
        geos.contains_key(g),
        s.texture_1_id != rbs[rb].texture_id,
        s.texture_2_id != rbs[rb].texture_id,
    ensures
        ({
            let cmd = GpuCommand::DrawGeometry {
                render_buffer_id: rb,
                geometry_id: g,
                indices_offset: off,
                indices_count: cnt,
                state: s,
            };
            &&& spec_cmd_fault(rbs, tex, geos, cmd) is None
            &&& spec_translate_step(rbs, tex, geos, cache, cmd).0 matches GpuOp::Draw(d)
                && (!tex.contains_key(s.texture_1_id) ==> d.texture_1
                == TextureSource::Placeholder) && (!tex.contains_key(s.texture_2_id)
                ==> d.texture_2 == TextureSource::Placeholder)
        }),
{
}

/// A fault-free draw never samples its own color target: both bound
/// texture sources differ from the texture the draw renders into.
pub proof fn lemma_draw_never_samples_target(
    rbs: Map<u32, RenderBufferDesc>,
    tex: Map<u32, TextureEntry>,
    geos: Map<u32, GeometryEntry>,
    cache: Seq<PipelineKey>,
    cmd: GpuCommand,
)
    requires
        spec_cmd_fault(rbs, tex, geos, cmd) is None,
        cmd is DrawGeometry,
    ensures
        spec_translate_step(rbs, tex, geos, cache, cmd).0 matches GpuOp::Draw(d)
            && d.texture_1 != TextureSource::Texture(d.target_texture_id) && d.texture_2
            != TextureSource::Texture(d.target_texture_id),
{
}

} // verus!
