//! Specialization of the sorting shader for one subgroup width: the
//! constants it is compiled with and the source text that carries them.
use vstd::prelude::*;
use crate::sizes::{
    HISTOGRAM_WG_SIZE, PREFIX_WG_SIZE, RS_HISTOGRAM_BLOCK_ROWS, RS_KEYVAL_SIZE, RS_RADIX_LOG2,
    RS_RADIX_SIZE, RS_SCATTER_BLOCK_ROWS, SCATTER_WG_SIZE,
};
use crate::text::{append_str, decimal, decimal_string, push_decimal, replace_all, replace_text};

verus! {

/// The numeric constants the shader is compiled with.
#[derive(Clone, Copy, Debug, PartialEq, Eq, Structural)]
pub struct ShaderConstants {
    pub histogram_sg_size: u32,
    pub histogram_wg_size: u32,
    pub rs_radix_log2: u32,
    pub rs_radix_size: u32,
    pub rs_keyval_size: u32,
    pub rs_histogram_block_rows: u32,
    pub rs_scatter_block_rows: u32,
    pub rs_mem_dwords: u32,
    pub rs_mem_sweep_0_offset: u32,
    pub rs_mem_sweep_1_offset: u32,
    pub rs_mem_sweep_2_offset: u32,
}

/// Size of sweep level `level` of the scatter's radix scan: the radix size
/// divided `level + 1` times by the subgroup width.
pub open spec fn sweep_size(sg: int, level: nat) -> int
    decreases level,
{
    if level == 0 {
        RS_RADIX_SIZE as int / sg
    } else {
        sweep_size(sg, (level - 1) as nat) / sg
    }
}

/// One `const` declaration of the shader prelude.
pub open spec fn const_line(name: Seq<char>, v: u32) -> Seq<char> {
    "const "@ + name + ": u32 = "@ + decimal(v as nat) + "u;\n"@
}

impl ShaderConstants {
    /// The constants for subgroup width `sg`.
    pub open spec fn spec_for(sg: int) -> ShaderConstants {
        ShaderConstants {
            histogram_sg_size: sg as u32,
            histogram_wg_size: HISTOGRAM_WG_SIZE,
            rs_radix_log2: RS_RADIX_LOG2,
            rs_radix_size: RS_RADIX_SIZE,
            rs_keyval_size: RS_KEYVAL_SIZE,
            rs_histogram_block_rows: RS_HISTOGRAM_BLOCK_ROWS,
            rs_scatter_block_rows: RS_SCATTER_BLOCK_ROWS,
            rs_mem_dwords: (RS_RADIX_SIZE + RS_SCATTER_BLOCK_ROWS * SCATTER_WG_SIZE) as u32,
            rs_mem_sweep_0_offset: 0,
            rs_mem_sweep_1_offset: sweep_size(sg, 0) as u32,
            rs_mem_sweep_2_offset: (sweep_size(sg, 0) + sweep_size(sg, 1)) as u32,
        }
    }

    /// The prelude of `const` declarations, one per constant, in order.
    pub open spec fn spec_prelude(self) -> Seq<char> {
        const_line("histogram_sg_size"@, self.histogram_sg_size)
            + const_line("histogram_wg_size"@, self.histogram_wg_size)
            + const_line("rs_radix_log2"@, self.rs_radix_log2)
            + const_line("rs_radix_size"@, self.rs_radix_size)
            + const_line("rs_keyval_size"@, self.rs_keyval_size)
            + const_line("rs_histogram_block_rows"@, self.rs_histogram_block_rows)
            + const_line("rs_scatter_block_rows"@, self.rs_scatter_block_rows)
            + const_line("rs_mem_dwords"@, self.rs_mem_dwords)
            + const_line("rs_mem_sweep_0_offset"@, self.rs_mem_sweep_0_offset)
            + const_line("rs_mem_sweep_1_offset"@, self.rs_mem_sweep_1_offset)
            + const_line("rs_mem_sweep_2_offset"@, self.rs_mem_sweep_2_offset)
    }

    /// The constants for subgroup width `sg_size`. The scratch of the
    /// scatter phase always exceeds that of the sweep phase, so its size
    /// is the one used.
    pub fn for_subgroup_size(sg_size: u32) -> (r: ShaderConstants)
        requires
            sg_size >= 1,
        ensures
            r == ShaderConstants::spec_for(sg_size as int),
    {
        let sweep_0 = RS_RADIX_SIZE / sg_size;
        let sweep_1 = sweep_0 / sg_size;
        assert(sweep_0 <= 256 && sweep_1 <= sweep_0) by (nonlinear_arith)
            requires
                sweep_0 == 256u32 / sg_size,
                sweep_1 == sweep_0 / sg_size,
                sg_size >= 1,
        ;
        assert(sweep_size(sg_size as int, 0) == sweep_0);
        assert(sweep_size(sg_size as int, 1) == sweep_1) by {
            reveal_with_fuel(sweep_size, 2);
        }
        ShaderConstants {
            histogram_sg_size: sg_size,
            histogram_wg_size: HISTOGRAM_WG_SIZE,
            rs_radix_log2: RS_RADIX_LOG2,
            rs_radix_size: RS_RADIX_SIZE,
            rs_keyval_size: RS_KEYVAL_SIZE,
            rs_histogram_block_rows: RS_HISTOGRAM_BLOCK_ROWS,
            rs_scatter_block_rows: RS_SCATTER_BLOCK_ROWS,
            rs_mem_dwords: RS_RADIX_SIZE + RS_SCATTER_BLOCK_ROWS * SCATTER_WG_SIZE,
            rs_mem_sweep_0_offset: 0,
            rs_mem_sweep_1_offset: sweep_0,
            rs_mem_sweep_2_offset: sweep_0 + sweep_1,
        }
    }

    /// The prelude text that declares the constants to the shader.
    pub fn prelude(&self) -> (r: String)
        ensures
            r@ == self.spec_prelude(),
    {
        let mut s = String::new();
        push_const_line(&mut s, "histogram_sg_size", self.histogram_sg_size);
        push_const_line(&mut s, "histogram_wg_size", self.histogram_wg_size);
        push_const_line(&mut s, "rs_radix_log2", self.rs_radix_log2);
        push_const_line(&mut s, "rs_radix_size", self.rs_radix_size);
        push_const_line(&mut s, "rs_keyval_size", self.rs_keyval_size);
        push_const_line(&mut s, "rs_histogram_block_rows", self.rs_histogram_block_rows);
        push_const_line(&mut s, "rs_scatter_block_rows", self.rs_scatter_block_rows);
        push_const_line(&mut s, "rs_mem_dwords", self.rs_mem_dwords);
        push_const_line(&mut s, "rs_mem_sweep_0_offset", self.rs_mem_sweep_0_offset);
        push_const_line(&mut s, "rs_mem_sweep_1_offset", self.rs_mem_sweep_1_offset);
        push_const_line(&mut s, "rs_mem_sweep_2_offset", self.rs_mem_sweep_2_offset);
        assert(s@ =~= self.spec_prelude());
        s
    }
}

/// Appends one `const` declaration.
fn push_const_line(s: &mut String, name: &str, v: u32)
    ensures
        final(s)@ == old(s)@ + const_line(name@, v),
{
    append_str(s, "const ");
    append_str(s, name);
    append_str(s, ": u32 = ");
    push_decimal(s, v);
    append_str(s, "u;\n");
    assert(final(s)@ =~= old(s)@ + const_line(name@, v));
}

/// The shader source for subgroup width `sg`: the prelude, then `raw` with
/// the three workgroup-size placeholders replaced by their values.
pub open spec fn spec_specialized(raw: Seq<char>, sg: int) -> Seq<char> {
    let text = ShaderConstants::spec_for(sg).spec_prelude() + raw;
    let a = replace_all(text, "{histogram_wg_size}"@, decimal(HISTOGRAM_WG_SIZE as nat));
    let b = replace_all(a, "{prefix_wg_size}"@, decimal(PREFIX_WG_SIZE as nat));
    replace_all(b, "{scatter_wg_size}"@, decimal(SCATTER_WG_SIZE as nat))
}

/// The shader source `raw` specialized for subgroup width `sg_size`.
pub fn specialize_shader(raw: &str, sg_size: u32) -> (r: String)
    requires
        sg_size >= 1,
    ensures
        r@ == spec_specialized(raw@, sg_size as int),
{
    let consts = ShaderConstants::for_subgroup_size(sg_size);
    let mut text = consts.prelude();
    append_str(&mut text, raw);
    let hist = decimal_string(HISTOGRAM_WG_SIZE);
    let prefix = decimal_string(PREFIX_WG_SIZE);
    let scatter = decimal_string(SCATTER_WG_SIZE);
    proof {
        reveal_strlit("{histogram_wg_size}");
        reveal_strlit("{prefix_wg_size}");
        reveal_strlit("{scatter_wg_size}");
    }
    let a = replace_text(text.as_str(), "{histogram_wg_size}", hist.as_str());
    let b = replace_text(a.as_str(), "{prefix_wg_size}", prefix.as_str());
    replace_text(b.as_str(), "{scatter_wg_size}", scatter.as_str())
}

} // verus!
