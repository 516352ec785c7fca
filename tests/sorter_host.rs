use gpu_rs::calibration::{
    ladder_width, sorted_prefix_matches, CalibrationState, CalibrationStep, Calibrator,
    LADDER_LEN, PROBE_KEYS,
};
use gpu_rs::plan::{calculate_histogram_plan, prefix_histogram_plan, scatter_keys_plan};
use gpu_rs::shader::{specialize_shader, ShaderConstants};
use gpu_rs::sizes::{internal_mem_size, keyval_buffer_size, zero_dispatch_count, MAX_KEYS};
use gpu_rs::text::decimal_string;
use gpu_rs::texture::padded_bytes_per_row;
use gpu_rs::{
    bind_group_info, get_scatter_histogram_sizes, select_subgroup_size, sort_plan, Dispatch,
    GeneralInfo, Kernel, SortError,
};

fn threshold_table(w: u32) -> Vec<bool> {
    (0..LADDER_LEN).map(|i| ladder_width(i) <= w).collect()
}

#[test]
fn sizes_for_one_key() {
    let s = get_scatter_histogram_sizes(1);
    assert_eq!(s.scatter_block_kvs, 3840);
    assert_eq!(s.scatter_blocks_ru, 1);
    assert_eq!(s.count_ru_scatter, 3840);
    assert_eq!(s.histo_block_kvs, 3840);
    assert_eq!(s.histo_blocks_ru, 1);
    assert_eq!(s.count_ru_histo, 3840);
}

#[test]
fn sizes_at_block_boundaries() {
    assert_eq!(get_scatter_histogram_sizes(3840).count_ru_histo, 3840);
    assert_eq!(get_scatter_histogram_sizes(3840).scatter_blocks_ru, 1);
    assert_eq!(get_scatter_histogram_sizes(3841).count_ru_histo, 7680);
    assert_eq!(get_scatter_histogram_sizes(3841).scatter_blocks_ru, 2);
    assert_eq!(get_scatter_histogram_sizes(512).count_ru_histo, 3840);
}

#[test]
fn sizes_for_a_million_keys() {
    let s = get_scatter_histogram_sizes(1_000_003);
    assert_eq!(s.scatter_blocks_ru, 261);
    assert_eq!(s.count_ru_histo, 261 * 3840);
    assert_eq!(s.histo_blocks_ru, 261);
}

#[test]
fn sizes_for_the_largest_count() {
    let s = get_scatter_histogram_sizes(MAX_KEYS as usize);
    assert_eq!(s.count_ru_histo as u64, MAX_KEYS);
    assert_eq!(s.scatter_blocks_ru, 1118481);
}

#[test]
fn padding_stays_below_one_block() {
    for n in [1usize, 2, 15, 256, 512, 3840, 3841, 1_000_003] {
        let s = get_scatter_histogram_sizes(n);
        let padded = s.count_ru_histo as usize;
        assert!(padded >= n);
        assert!(padded - n < 3840);
        assert_eq!(padded % 3840, 0);
    }
}

#[test]
fn buffer_sizes() {
    assert_eq!(keyval_buffer_size(512), 3840 * 4);
    assert_eq!(keyval_buffer_size(3841), 7680 * 4);
    assert_eq!(internal_mem_size(512), 4 * 1024);
    assert_eq!(internal_mem_size(3841), 5 * 1024);
    assert_eq!(internal_mem_size(1_000_003), (4 + 261 - 1) * 1024);
}

#[test]
fn zero_dispatch_counts() {
    // 4 histograms of 256 words plus 3328 padding keys: 4352 words.
    assert_eq!(zero_dispatch_count(512), 17);
    // 4 * 256 + 3839 words, rounded up to whole workgroups of 256.
    assert_eq!(zero_dispatch_count(1), 19);
    // no padding: exactly four histograms.
    assert_eq!(zero_dispatch_count(3840), 4);
    // 5 * 256 + 3839 = 5119 words.
    assert_eq!(zero_dispatch_count(3841), 20);
}

#[test]
fn general_info_for_probe() {
    let g = GeneralInfo::new(512);
    assert_eq!(g.histogram_size, 0);
    assert_eq!(g.keys_size, 512);
    assert_eq!(g.padded_size, 3840);
    assert_eq!(g.passes, 4);
    assert_eq!(g.even_pass, 0);
    assert_eq!(g.odd_pass, 0);
}

#[test]
fn general_info_bytes_are_little_endian() {
    let g = GeneralInfo::new(3841);
    let b = g.to_bytes();
    assert_eq!(b.len(), 24);
    assert_eq!(&b[0..4], &[0, 0, 0, 0]);
    assert_eq!(&b[4..8], &3841u32.to_le_bytes());
    assert_eq!(&b[8..12], &7680u32.to_le_bytes());
    assert_eq!(&b[12..16], &[4, 0, 0, 0]);
    assert_eq!(&b[16..24], &[0; 8]);
}

#[test]
fn bind_group_info_accepts_padded_buffers() {
    let r = bind_group_info(512, 3840 * 4, 3840 * 4);
    assert_eq!(r, Ok(GeneralInfo::new(512)));
}

#[test]
fn bind_group_info_rejects_unpadded_buffers() {
    assert_eq!(bind_group_info(512, 512 * 4, 3840 * 4), Err(SortError::KeyvalPadding));
    assert_eq!(bind_group_info(512, 3840 * 4, 512 * 4), Err(SortError::KeyvalPadding));
}

#[test]
fn histogram_plan() {
    let p = calculate_histogram_plan(3841);
    assert_eq!(
        p,
        vec![
            Dispatch { kernel: Kernel::ZeroHistograms, workgroups: 20 },
            Dispatch { kernel: Kernel::CalculateHistogram, workgroups: 2 },
        ]
    );
}

#[test]
fn prefix_plan() {
    assert_eq!(
        prefix_histogram_plan(4),
        vec![Dispatch { kernel: Kernel::PrefixHistogram, workgroups: 4 }]
    );
}

#[test]
fn scatter_plan_alternates() {
    let p = scatter_keys_plan(4, 1_000_003);
    let kernels: Vec<Kernel> = p.iter().map(|d| d.kernel).collect();
    assert_eq!(
        kernels,
        vec![Kernel::ScatterEven, Kernel::ScatterOdd, Kernel::ScatterEven, Kernel::ScatterOdd]
    );
    assert!(p.iter().all(|d| d.workgroups == 261));
}

#[test]
fn full_sort_plan_for_probe() {
    let p = sort_plan(PROBE_KEYS);
    assert_eq!(
        p,
        vec![
            Dispatch { kernel: Kernel::ZeroHistograms, workgroups: 17 },
            Dispatch { kernel: Kernel::CalculateHistogram, workgroups: 1 },
            Dispatch { kernel: Kernel::PrefixHistogram, workgroups: 4 },
            Dispatch { kernel: Kernel::ScatterEven, workgroups: 1 },
            Dispatch { kernel: Kernel::ScatterOdd, workgroups: 1 },
            Dispatch { kernel: Kernel::ScatterEven, workgroups: 1 },
            Dispatch { kernel: Kernel::ScatterOdd, workgroups: 1 },
        ]
    );
}

#[test]
fn calibrator_selects_width_64() {
    assert_eq!(select_subgroup_size(&threshold_table(64)), Some(64));
}

#[test]
fn calibrator_selects_each_threshold_width() {
    for w in [1u32, 16, 32, 64] {
        assert_eq!(select_subgroup_size(&threshold_table(w)), Some(w));
    }
}

#[test]
fn calibrator_exhausts_when_nothing_passes() {
    assert_eq!(select_subgroup_size(&vec![false; 5]), None);
}

#[test]
fn calibrator_exhausts_when_everything_passes() {
    assert_eq!(select_subgroup_size(&vec![true; 5]), None);
}

#[test]
fn calibrator_steps_on_a_width_64_device() {
    let c = Calibrator::new();
    assert_eq!(c.width(), 32);
    let c = match c.advance(true) {
        CalibrationStep::Probe(n) => n,
        other => panic!("unexpected {:?}", other),
    };
    assert_eq!(c.state, CalibrationState::Increasing);
    assert_eq!(c.width(), 64);
    let c = match c.advance(true) {
        CalibrationStep::Probe(n) => n,
        other => panic!("unexpected {:?}", other),
    };
    assert_eq!(c.width(), 128);
    assert_eq!(c.advance(false), CalibrationStep::Selected(64));
}

#[test]
fn calibrator_descends_on_a_narrow_device() {
    let c = Calibrator::new();
    let c = match c.advance(false) {
        CalibrationStep::Probe(n) => n,
        other => panic!("unexpected {:?}", other),
    };
    assert_eq!(c.state, CalibrationState::Decreasing);
    assert_eq!(c.width(), 16);
    assert_eq!(c.advance(true), CalibrationStep::Selected(16));
}

#[test]
fn probe_comparison() {
    let want: Vec<u32> = (0..512).collect();
    let mut got: Vec<u32> = (0..3840).collect();
    assert!(sorted_prefix_matches(&got, &want));
    got[511] = 7;
    assert!(!sorted_prefix_matches(&got, &want));
    assert!(!sorted_prefix_matches(&got[0..100], &want));
}

#[test]
fn decimal_text() {
    assert_eq!(decimal_string(0), "0");
    assert_eq!(decimal_string(256), "256");
    assert_eq!(decimal_string(4294967295), "4294967295");
}

#[test]
fn shader_constants_for_width_32() {
    let c = ShaderConstants::for_subgroup_size(32);
    assert_eq!(c.rs_mem_dwords, 4096);
    assert_eq!(c.rs_mem_sweep_0_offset, 0);
    assert_eq!(c.rs_mem_sweep_1_offset, 8);
    assert_eq!(c.rs_mem_sweep_2_offset, 8);
}

#[test]
fn shader_constants_for_width_16() {
    let c = ShaderConstants::for_subgroup_size(16);
    assert_eq!(c.rs_mem_sweep_1_offset, 16);
    assert_eq!(c.rs_mem_sweep_2_offset, 17);
}

#[test]
fn shader_specialization() {
    let raw = "@workgroup_size({histogram_wg_size}) @workgroup_size({prefix_wg_size}) {scatter_wg_size}";
    let s = specialize_shader(raw, 64);
    assert!(s.starts_with("const histogram_sg_size: u32 = 64u;\nconst histogram_wg_size: u32 = 256u;\n"));
    assert!(s.contains("const rs_mem_dwords: u32 = 4096u;\n"));
    assert!(s.contains("const rs_mem_sweep_2_offset: u32 = 4u;\n"));
    assert!(s.ends_with("@workgroup_size(256) @workgroup_size(128) 256"));
    assert!(!s.contains('{'));
}

#[test]
fn texture_rows_round_up_to_alignment() {
    // 1237 texels of 16 bytes: 19792 bytes, padded to 19968.
    assert_eq!(padded_bytes_per_row(16, 1237, 256), 19968);
    assert_eq!(padded_bytes_per_row(4, 64, 256), 256);
    assert_eq!(padded_bytes_per_row(4, 65, 256), 512);
    assert_eq!(padded_bytes_per_row(1, 0, 256), 0);
}
