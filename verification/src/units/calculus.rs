//! Gauss-Legendre quadrature of a fixed order.
//!
//! An order either names one of two closed formulas or a run of consecutive
//! entries in a pair of coefficient tables. This module decides which, and hands
//! out the entries; the floating-point evaluation is left to the caller.

use vstd::prelude::*;
use crate::quadrature::Node;

verus! {

/// Number of entries in each of the two tables.
pub const ENTRIES: usize = 224;

/// The highest order that has a rule assigned to it.
pub const MAX_ORDER: i32 = 64;

/// The highest order whose rule lies inside the tables.
pub const MAX_TABLE_ORDER: i32 = 36;

/// The sample points of all tabulated rules, one rule after the other.
/// Each entry is the bit pattern of a 64-bit binary floating-point number.
pub const ABSCISSA: [u64; 224] = [
    0xbfe2_79a7_4590_331c, 0x3fe2_79a7_4590_331c, 0xbfe8_c97e_f43f_7248,
    0x0000_0000_0000_0000, 0x3fe8_c97e_f43f_7248, 0xbfeb_8e6d_bcf6_3985,
    0xbfd5_c23f_d9dd_3dfc, 0x3fd5_c23f_d9dd_3dfc, 0x3feb_8e6d_bcf6_3985,
    0xbfec_ff6c_e053_3a69, 0xbfe1_3b23_fd99_b705, 0x0000_0000_0000_0000,
    0x3fe1_3b23_fd99_b705, 0x3fec_ff6c_e053_3a69, 0xbfed_d6ca_4e80_a01e,
    0xbfe5_28a0_9655_c95e, 0xbfce_8b12_d036_75c5, 0x3fce_8b12_d036_75c5,
    0x3fe5_28a0_9655_c95e, 0x3fed_d6ca_4e80_a01e, 0xbfee_5f17_8e7c_6229,
    0xbfe7_ba9f_9be3_a1d6, 0xbfd9_f95d_f119_fd62, 0x0000_0000_0000_0000,
    0x3fd9_f95d_f119_fd62, 0x3fe7_ba9f_9be3_a1d6, 0x3fee_5f17_8e7c_6229,
    0xbfee_bab1_cb0a_cc67, 0xbfe9_7e4a_b249_f41e, 0xbfe0_d129_5832_84b4,
    0xbfc7_7ac9_4f3c_7345, 0x3fc7_7ac9_4f3c_7345, 0x3fe0_d129_5832_84b4,
    0x3fe9_7e4a_b249_f41e, 0x3fee_bab1_cb0a_cc67, 0xbfee_fb2b_2ebf_2106,
    0xbfea_c0c4_4f0d_0298, 0xbfe3_a0bd_2077_fd8c, 0xbfd4_c091_6e48_aa66,
    0x0000_0000_0000_0000, 0x3fd4_c091_6e48_aa66, 0x3fe3_a0bd_2077_fd8c,
    0x3fea_c0c4_4f0d_0298, 0x3fee_fb2b_2ebf_2106, 0xbfc3_0e50_7891_e27a,
    0x0000_0000_0000_0000, 0xbfc0_07a5_f8f6_30e4, 0x0000_0000_0000_0000,
    0xbfbb_a97d_36de_76b0, 0x0000_0000_0000_0000, 0xbfb8_52bd_6676_a9f9,
    0x0000_0000_0000_0000, 0xbfb5_b3d0_b488_4001, 0x0000_0000_0000_0000,
    0xbfb3_973d_f98b_86b0, 0x3fb3_973d_f98b_86b0, 0xbfc2_a1c5_5595_44ed,
    0x0000_0000_0000_0000, 0xbfb1_da6e_da27_aee3, 0x3fb1_da6e_da27_aee3,
    0xbfc1_0e8f_432a_555d, 0x0000_0000_0000_0000, 0xbfb0_6608_53ed_a2e8,
    0x3fb0_6608_53ed_a2e8, 0xbfbf_740f_7c98_999e, 0x0000_0000_0000_0000,
    0xbfae_5368_246f_93d4, 0x3fae_5368_246f_93d4, 0xbfbd_2d4e_afd5_5fb2,
    0x0000_0000_0000_0000, 0xbfac_335a_497a_4809, 0x3fac_335a_497a_4809,
    0xbfbb_350c_d2b2_55a0, 0x0000_0000_0000_0000, 0xbfc3_b202_6364_c35a,
    0xbfaa_5a84_70e1_4134, 0x3faa_5a84_70e1_4134, 0xbfb9_7c74_f9d6_5e6b,
    0x0000_0000_0000_0000, 0x3fb9_7c74_f9d6_5e6b, 0xbfc2_7e0e_a717_f237,
    0xbfa8_bbc8_488c_c499, 0x3fa8_bbc8_488c_c499, 0xbfb7_f834_9dbc_56fa,
    0x0000_0000_0000_0000, 0x3fb7_f834_9dbc_56fa, 0xbfc1_6d70_c0d9_cab9,
    0xbfa7_4d10_39de_e747, 0x3fa7_4d10_39de_e747, 0xbfb6_9f81_1d45_c594,
    0x0000_0000_0000_0000, 0x3fb6_9f81_1d45_c594, 0xbfc0_7a6c_b5d6_7f97,
    0xbfa6_067b_3727_a304, 0x3fa6_067b_3727_a304, 0xbfb5_6b6c_861a_8aec,
    0x0000_0000_0000_0000, 0x3fb5_6b6c_861a_8aec, 0xbfbf_40e6_1030_af5e,
    0xbfa4_e1ca_78d3_4ba4, 0x3fa4_e1ca_78d3_4ba4, 0xbfb4_566d_deaa_175b,
    0x0000_0000_0000_0000, 0x3fb4_566d_deaa_175b, 0xbfbd_b7af_8723_039b,
    0xbfa3_d9fa_7259_c6f9, 0x3fa3_d9fa_7259_c6f9, 0x3fbd_b7af_8723_039b,
    0xbfc3_4dda_1d78_6f0c, 0xbfb3_5c0b_c02c_e690, 0x0000_0000_0000_0000,
    0x3fb3_5c0b_c02c_e690, 0xbfbc_533b_8553_5c08, 0xbfa2_eaf8_cd08_ad7d,
    0x3fa2_eaf8_cd08_ad7d, 0x3fbc_533b_8553_5c08, 0xbfc2_6c4a_c062_4e98,
    0xbfb2_789e_501d_6c56, 0x0000_0000_0000_0000, 0x3fb2_789e_501d_6c56,
    0xbfbb_0e9f_dd4a_6c1e, 0xbfa2_116e_4d52_d1a4, 0x3fa2_116e_4d52_d1a4,
    0x3fbb_0e9f_dd4a_6c1e, 0xbfc1_9e5b_ad13_1acc, 0xbfb1_a921_77a6_877e,
    0x0000_0000_0000_0000, 0x3fb1_a921_77a6_877e, 0xbfb9_e5c8_b305_17a3,
    0xbfa1_4a96_a744_3832, 0x3fa1_4a96_a744_3832, 0x3fb9_e5c8_b305_17a3,
    0xbfc0_e19a_7258_3007, 0xbfb0_eb12_98e9_fb1c, 0x0000_0000_0000_0000,
    0x3fb0_eb12_98e9_fb1c, 0xbfb8_d54c_caa9_b7b4, 0xbfa0_9422_3ea6_196d,
    0x3fa0_9422_3ea6_196d, 0x3fb8_d54c_caa9_b7b4, 0xbfc0_33f8_4f33_d00d,
    0xbfb0_3c56_87e3_fb9d, 0x0000_0000_0000_0000, 0x3fb0_3c56_87e3_fb9d,
    0xbfc3_d374_7140_05f1, 0xbfb7_da4c_1803_df92, 0xbf9f_d83e_284d_065c,
    0x3f9f_d83e_284d_065c, 0x3fb7_da4c_1803_df92, 0xbfbf_276e_5d59_5d31,
    0xbfaf_364b_16f3_283b, 0x0000_0000_0000_0000, 0x3faf_364b_16f3_283b,
    0x3fbf_276e_5d59_5d31, 0xbfc3_1398_75b4_6ce5, 0xbfb6_f255_dc56_033d,
    0xbf9e_a1cd_ed12_f7be, 0x3f9e_a1cd_ed12_f7be, 0x3fb6_f255_dc56_033d,
    0xbfbd_feb5_a41b_a72a, 0xbfae_0bf7_a9f7_9a3b, 0x0000_0000_0000_0000,
    0x3fae_0bf7_a9f7_9a3b, 0x3fbd_feb5_a41b_a72a, 0xbfc2_61a9_a2ec_fb80,
    0xbfb6_1b54_67cd_6fb6, 0xbf9d_8223_3c5f_7a43, 0x3f9d_8223_3c5f_7a43,
    0x3fb6_1b54_67cd_6fb6, 0xbfbc_eb3a_42d4_ab8a, 0xbfac_f71a_9efd_240a,
    0x0000_0000_0000_0000, 0x3fac_f71a_9efd_240a, 0x3fbc_eb3a_42d4_ab8a,
    0xbfc1_bc32_af5c_2df0, 0xbfb5_537d_1cfd_51d8, 0xbf9c_76d3_75f0_3c8c,
    0x3f9c_76d3_75f0_3c8c, 0x3fb5_537d_1cfd_51d8, 0xbfbb_eac9_c3ff_bb8b,
    0xbfab_f577_ef5c_0fa1, 0x0000_0000_0000_0000, 0x3fab_f577_ef5c_0fa1,
    0x3fbb_eac9_c3ff_bb8b, 0xbfc1_21f0_8177_988a, 0xbfb4_9943_b449_84a9,
    0xbf9b_7dc8_806d_9946, 0x3f9b_7dc8_806d_9946, 0x3fb4_9943_b449_84a9,
    0xbfba_fb7c_8960_a76e, 0xbfab_0520_4882_b277, 0x0000_0000_0000_0000,
    0x3fab_0520_4882_b277, 0x3fba_fb7c_8960_a76e, 0xbfc0_91ca_0d83_3ed3,
    0xbfb3_eb50_00a3_0576, 0xbf9a_9532_d42e_8ea1, 0x3f9a_9532_d42e_8ea1,
    0x3fb3_eb50_00a3_0576, 0x3fc0_91ca_0d83_3ed3, 0xbfc3_89d8_b1db_6842,
    0xbfba_1ba9_c5e1_6182, 0xbfaa_2464_9cf5_e546, 0x0000_0000_0000_0000,
    0x3faa_2464_9cf5_e546, 0x3fba_1ba9_c5e1_6182, 0xbfc0_0ac9_ba54_e893,
    0xbfb3_4875_a73f_4ecd, 0xbf99_bb7e_3350_40fb, 0x3f99_bb7e_3350_40fb,
    0x3fb3_4875_a73f_4ecd, 0x3fc0_0ac9_ba54_e893, 0xbfc2_ed7e_d6b0_0ee9,
    0xbfb9_49dd_b554_285a, 0xbfa9_51cc_0cc2_5811, 0x0000_0000_0000_0000,
    0x3fa9_51cc_0cc2_5811, 0x3fb9_49dd_b554_285a, 0xbfbf_182f_f48e_8a27,
    0xbfb2_afad_5ee9_5ad0, 0xbf98_ef48_7a8c_bc33, 0x3f98_ef48_7a8c_bc33,
    0x3fb2_afad_5ee9_5ad0, 0x3fbf_182f_f48e_8a27,
];

/// The weights that go with the entries of [`ABSCISSA`], index by index,
/// as bit patterns of the same kind.
pub const WEIGHTS: [u64; 224] = [
    0x3ff0_0000_0000_0000, 0x3ff0_0000_0000_0000, 0x3fe1_c71c_71c7_1c72,
    0x3fe1_c71c_71c7_1c72, 0x3fec_71c7_1c71_c71c, 0x3fd6_4340_f7e7_b66b,
    0x3fd6_4340_f7e7_b66b, 0x3fe4_de5f_840c_24ca, 0x3fe4_de5f_840c_24ca,
    0x3fce_539e_c36e_038c, 0x3fce_539e_c36e_038c, 0x3fde_a1da_25ae_415b,
    0x3fde_a1da_25ae_415b, 0x3fe2_3456_789a_bcdf, 0x3fc5_edf6_01e2_dbf8,
    0x3fc5_edf6_01e2_dbf8, 0x3fd7_16b7_b579_4c1c, 0x3fd7_16b7_b579_4c1c,
    0x3fdd_f24d_4995_45e8, 0x3fdd_f24d_4995_45e8, 0x3fc0_92f6_9f82_6d57,
    0x3fc0_92f6_9f82_6d57, 0x3fd1_e6b1_713d_8644, 0x3fd1_e6b1_713d_8644,
    0x3fd8_6fe7_4ee3_2b3d, 0x3fd8_6fe7_4ee3_2b3d, 0x3fda_bfd7_e03c_2fa6,
    0x3fb9_ea1d_04ca_0374, 0x3fb9_ea1d_04ca_0374, 0x3fcc_76fb_531d_2b96,
    0x3fcc_76fb_531d_2b96, 0x3fd4_13c5_0a25_5615, 0x3fd4_13c5_0a25_5615,
    0x3fd7_3636_0b19_9343, 0x3fd7_3636_0b19_9343, 0x3fb4_ce65_f803_eef8,
    0x3fb4_ce65_f803_eef8, 0x3fc7_1f7a_9b22_2bea, 0x3fc7_1f7a_9b22_2bea,
    0x3fd0_add8_7c82_7506, 0x3fd0_add8_7c82_7506, 0x3fd3_fd7e_9838_d512,
    0x3fd3_fd7e_9838_d512, 0x3fd5_22a4_3f65_486a, 0x3fd2_e9de_7014_d6ef,
    0x3fd1_779a_c87e_04d6, 0x3fcf_e40c_e6d4_f025, 0x3fcd_c43f_d1e1_5b8e,
    0x3fcb_8dc4_1551_4e34, 0x3fc9_ee15_75f9_c980, 0x3fc8_3fea_e80e_4dfc,
    0x3fc6_f81a_18c8_0154, 0x3fc5_a675_2598_dbda, 0x3fc4_9d6e_a57c_e6f4,
    0x3fc3_8d6c_490a_3370, 0x3fc3_8d6c_490a_3370, 0x3fc2_7fc6_924e_2f21,
    0x3fc2_b2c9_5dcb_446b, 0x3fc1_d301_5fe9_2d1f, 0x3fc1_d301_5fe9_2d1f,
    0x3fc0_f484_1f9a_317d, 0x3fc1_1b97_d040_0677, 0x3fc0_6047_5e76_3736,
    0x3fc0_6047_5e76_3736, 0x3fbf_4b47_ded3_9736, 0x3fbf_8877_4268_15be,
    0x3fbe_4a4f_f10a_7635, 0x3fbe_4a4f_f10a_7635, 0x3fbd_0cc9_2b68_574e,
    0x3fbd_3d94_29e9_d2d9, 0x3fbc_2c0a_81ed_a19d, 0x3fbc_2c0a_81ed_a19d,
    0x3fbb_1ab3_1f91_b837, 0x3fbb_423b_962d_af8d, 0x3fba_0d19_97ee_a523,
    0x3fba_548d_2c7c_13a9, 0x3fba_548d_2c7c_13a9, 0x3fb9_66cf_7229_ee2b,
    0x3fb9_66cf_7229_ee2b, 0x3fb9_8749_1ea0_87a4, 0x3fb8_7bc7_76f8_c6d7,
    0x3fb8_b6d9_eaec_77ad, 0x3fb8_b6d9_eaec_77ad, 0x3fb7_e634_ecd2_bbbf,
    0x3fb7_e634_ecd2_bbbf, 0x3fb8_0135_79a7_a383, 0x3fb7_178b_f592_505f,
    0x3fb7_48f0_e111_b915, 0x3fb7_48f0_e111_b915, 0x3fb6_9060_b7a6_6ea7,
    0x3fb6_9060_b7a6_6ea7, 0x3fb6_a712_1240_fdc6, 0x3fb5_d947_c812_8c04,
    0x3fb6_02ff_fd01_de47, 0x3fb6_02ff_fd01_de47, 0x3fb5_5e96_f3c5_47ab,
    0x3fb5_5e96_f3c5_47ab, 0x3fb5_71d7_e2e7_b199, 0x3fb4_bb44_ca4b_11aa,
    0x3fb4_ded3_0690_9023, 0x3fb4_ded3_0690_9023, 0x3fb4_4b72_4f48_144c,
    0x3fb4_4b72_4f48_144c, 0x3fb4_5bec_1837_b187, 0x3fb3_b8e1_ab81_56df,
    0x3fb3_b8e1_ab81_56df, 0x3fb3_d76e_07d0_1470, 0x3fb3_d76e_07d0_1470,
    0x3fb3_2808_c050_5a20, 0x3fb3_5293_3e4e_67ae, 0x3fb3_5293_3e4e_67ae,
    0x3fb3_60c8_5a0e_eff1, 0x3fb2_ce53_ef51_f89e, 0x3fb2_ce53_ef51_f89e,
    0x3fb2_e8c4_365f_0b4d, 0x3fb2_e8c4_365f_0b4d, 0x3fb2_4b72_8176_eeed,
    0x3fb2_7064_f561_3cbb, 0x3fb2_7064_f561_3cbb, 0x3fb2_7cbb_43c7_ea96,
    0x3fb1_f879_bb5d_23c1, 0x3fb1_f879_bb5d_23c1, 0x3fb2_0f82_7577_32d5,
    0x3fb2_0f82_7577_32d5, 0x3fb1_81a6_d364_651a, 0x3fb1_a1f1_9fda_f3b1,
    0x3fb1_a1f1_9fda_f3b1, 0x3fb1_acb9_9bb2_9d46, 0x3fb1_34b6_fb5b_e7ca,
    0x3fb1_34b6_fb5b_e7ca, 0x3fb1_48e7_9397_2ba3, 0x3fb1_48e7_9397_2ba3,
    0x3fb0_c85e_4984_d344, 0x3fb0_e4c1_6f9c_0a31, 0x3fb0_e4c1_6f9c_0a31,
    0x3fb0_ee3b_5ad9_aea4, 0x3fb0_80da_c3f3_725f, 0x3fb0_80da_c3f3_725f,
    0x3fb0_92a6_52a0_fbb7, 0x3fb0_92a6_52a0_fbb7, 0x3fb0_1dab_2bc1_f6b3,
    0x3fb0_36c1_851a_9b8d, 0x3fb0_36c1_851a_9b8d, 0x3fb0_3f21_2e21_633e,
    0x3faf_7725_cdc5_f998, 0x3faf_b615_9007_84df, 0x3faf_b615_9007_84df,
    0x3faf_d59d_0e38_a683, 0x3faf_d59d_0e38_a683, 0x3fae_ffd2_1868_ac5d,
    0x3fae_ffd2_1868_ac5d, 0x3faf_2c61_309e_eecf, 0x3faf_2c61_309e_eecf,
    0x3faf_3b40_4691_7af6, 0x3fae_4b5f_febd_4b18, 0x3fae_8366_a8cc_808b,
    0x3fae_8366_a8cc_808b, 0x3fae_9f76_d9ac_f7b0, 0x3fae_9f76_d9ac_f7b0,
    0x3fad_db5f_9861_19e8, 0x3fad_db5f_9861_19e8, 0x3fae_031f_cfae_139d,
    0x3fae_031f_cfae_139d, 0x3fae_1063_c914_6196, 0x3fad_34de_21bc_e1f9,
    0x3fad_66f5_692a_824b, 0x3fad_66f5_692a_824b, 0x3fad_800b_b7aa_a327,
    0x3fad_800b_b7aa_a327, 0x3fac_cb92_8815_4dff, 0x3fac_cb92_8815_4dff,
    0x3fac_ef2e_bd68_6782, 0x3fac_ef2e_bd68_6782, 0x3fac_fb10_b95f_0ce9,
    0x3fac_3177_4e1c_868d, 0x3fac_5e6e_5fe1_281c, 0x3fac_5e6e_5fe1_281c,
    0x3fac_74f2_d169_b49e, 0x3fac_74f2_d169_b49e, 0x3fab_ce51_e991_86c3,
    0x3fab_ce51_e991_86c3, 0x3fab_ee58_56c6_6eaf, 0x3fab_ee58_56c6_6eaf,
    0x3fab_f907_de7f_33a0, 0x3fab_3f4a_243e_3c9a, 0x3fab_67ce_0bee_48c0,
    0x3fab_67ce_0bee_48c0, 0x3fab_7c17_7c73_8c38, 0x3fab_7c17_7c73_8c38,
    0x3faa_e1ca_a191_d04a, 0x3faa_e1ca_a191_d04a, 0x3faa_feb2_6e40_091d,
    0x3faa_feb2_6e40_091d, 0x3fab_0857_5302_af5a, 0x3faa_5cb1_bea3_04b3,
    0x3faa_5cb1_bea3_04b3, 0x3faa_8153_edd5_b8d1, 0x3faa_8153_edd5_b8d1,
    0x3faa_93ab_59a9_66d2, 0x3faa_93ab_59a9_66d2, 0x3fa9_d8d6_9eaa_485d,
    0x3faa_0464_8839_1c43, 0x3faa_0464_8839_1c43, 0x3faa_1e92_22e8_26c0,
    0x3faa_1e92_22e8_26c0, 0x3faa_274d_f2e1_eb14, 0x3fa9_883c_98e5_3465,
    0x3fa9_883c_98e5_3465, 0x3fa9_a978_0547_7742, 0x3fa9_a978_0547_7742,
    0x3fa9_ba1b_1c9a_2c97, 0x3fa9_ba1b_1c9a_2c97, 0x3fa9_0d26_716a_7c16,
    0x3fa9_34b9_73c7_7e29, 0x3fa9_34b9_73c7_7e29, 0x3fa9_4c81_fde2_3b96,
    0x3fa9_4c81_fde2_3b96, 0x3fa9_5471_2969_380a, 0x3fa8_c0a5_0976_76ba,
    0x3fa8_c0a5_0976_76ba, 0x3fa8_dee2_3819_2cd0, 0x3fa8_dee2_3819_2cd0,
    0x3fa8_ee05_67ee_2e50, 0x3fa8_ee05_67ee_2e50,
];

/// How an integral over the interval from `a` to `b` is formed for one order.
#[derive(Debug, PartialEq, Eq)]
pub enum Rule {
    /// The integrand's value at zero, times `b - a`. The point is the number
    /// zero itself, wherever the interval lies.
    Origin,
    /// The integrand's value at the middle of the interval, times `b - a`.
    Midpoint,
    /// A weighted sum over these nodes, taken in this order.
    Table(Vec<Node>),
}

/// Why an order has no rule.
#[derive(Clone, Copy, Debug, PartialEq, Eq, Structural)]
pub enum OrderError {
    /// The order is negative or above [`MAX_ORDER`].
    OutOfRange,
    /// The order is at most [`MAX_ORDER`], but its rule would have to be read
    /// past the end of the tables.
    BeyondTable,
}

/// Index of the first table entry of the rule with `m` points.
pub open spec fn slice_start(m: int) -> int {
    (m + 1) * m / 2 - 1
}

/// Number of points of the rule that serves order `n`.
pub open spec fn legendre_number(n: int) -> int {
    (n + 1) / 2 + 1
}

/// Index one past the last table entry of the rule that serves order `n`.
pub open spec fn slice_end(n: int) -> int {
    slice_start(legendre_number(n)) + legendre_number(n)
}

/// The node that the two tables hold at index `i`.
pub open spec fn table_node(i: int) -> Node {
    Node { abscissa: ABSCISSA[i], weight: WEIGHTS[i] }
}

/// The nodes of the rule that serves order `n`, in table order.
/// [`lemma_slice_starts`] says at which index each run begins.
pub open spec fn rule_nodes(n: int) -> Seq<Node> {
    Seq::new(
        legendre_number(n) as nat,
        |k: int| table_node(slice_start(legendre_number(n)) + k),
    )
}

/// What [`select_rule`] answers for order `n`.
pub open spec fn selects(n: int, selection: Result<Rule, OrderError>) -> bool {
    if n < 0 || n > MAX_ORDER {
        selection == Err::<Rule, OrderError>(OrderError::OutOfRange)
    } else if n == 0 {
        selection == Ok::<Rule, OrderError>(Rule::Origin)
    } else if n == 1 {
        selection == Ok::<Rule, OrderError>(Rule::Midpoint)
    } else if n > MAX_TABLE_ORDER {
        selection == Err::<Rule, OrderError>(OrderError::BeyondTable)
    } else {
        selection matches Ok(Rule::Table(nodes)) && nodes@ == rule_nodes(n)
    }
}

/// Two answers that agree in everything a caller can observe.
pub open spec fn same_selection(
    first: Result<Rule, OrderError>,
    second: Result<Rule, OrderError>,
) -> bool {
    match (first, second) {
        (Err(e1), Err(e2)) => e1 == e2,
        (Ok(Rule::Origin), Ok(Rule::Origin)) => true,
        (Ok(Rule::Midpoint), Ok(Rule::Midpoint)) => true,
        (Ok(Rule::Table(nodes1)), Ok(Rule::Table(nodes2))) => nodes1@ == nodes2@,
        _ => false,
    }
}

/// Finds where in the tables the rule with `m` points begins.
pub fn find_index(m: &i32) -> (index: usize)
    requires
        0 <= slice_start(*m as int) <= usize::MAX,
    ensures
        index == slice_start(*m as int),
{
    let wide: i64 = *m as i64;
    assert(0 <= (wide + 1) * wide <= 0x8000_0000 * 0x8000_0000) by (nonlinear_arith)
        requires
            -0x8000_0000 <= wide < 0x8000_0000,
    ;
    let doubled: i64 = (wide + 1) * wide;
    (doubled / 2 - 1) as usize
}

/// Chooses the rule for order `n`.
///
/// Orders zero and one have closed formulas. From order two on the rule is a
/// run of table entries, as long as that run ends inside the tables; the last
/// order for which it does is [`MAX_TABLE_ORDER`]. The run of an order `n` has
/// `(n + 1) / 2 + 1` entries and begins where [`find_index`] says that a run of
/// so many entries begins; [`lemma_slice_starts`] lists these places.
pub fn select_rule(n: i32) -> (selection: Result<Rule, OrderError>)
    ensures
        selects(n as int, selection),
{
    if n < 0 || n > MAX_ORDER {
        return Err(OrderError::OutOfRange);
    }
    if n == 0 {
        return Ok(Rule::Origin);
    }
    if n == 1 {
        return Ok(Rule::Midpoint);
    }
    let points: i32 = (n + 1) / 2 + 1;
    assert(2 <= (points + 1) * points <= 34 * 33) by (nonlinear_arith)
        requires
            2 <= points <= 33,
    ;
    let start_index: usize = find_index(&points);
    let count: usize = points as usize;
    proof {
        lemma_rules_inside_tables(n as int);
    }
    if start_index + count > ENTRIES {
        return Err(OrderError::BeyondTable);
    }
    let mut nodes: Vec<Node> = Vec::new();
    let mut k: usize = 0;
    while k < count
        invariant
            k <= count,
            start_index + count <= ENTRIES,
            nodes@.len() == k,
            forall|j: int| 0 <= j < k ==> nodes@[j] == table_node(start_index + j),
        decreases count - k,
    {
        let const_index: usize = start_index + k;
        nodes.push(Node { abscissa: ABSCISSA[const_index], weight: WEIGHTS[const_index] });
        k += 1;
    }
    assert(nodes@ =~= rule_nodes(n as int));
    Ok(Rule::Table(nodes))
}

/// Both tables have [`ENTRIES`] entries, and at every index the abscissa is a
/// number between -1 and 1 and the weight is finite and greater than zero.
pub proof fn lemma_tables_well_formed()
    ensures
        ABSCISSA@.len() == ENTRIES,
        WEIGHTS@.len() == ENTRIES,
        forall|i: int| 0 <= i < ENTRIES ==> (#[trigger] table_node(i)).well_formed(),
{
}

/// Where each rule that lies inside the tables begins, written out.
pub proof fn lemma_slice_starts()
    ensures
        slice_start(2) == 2,
        slice_start(3) == 5,
        slice_start(4) == 9,
        slice_start(5) == 14,
        slice_start(6) == 20,
        slice_start(7) == 27,
        slice_start(8) == 35,
        slice_start(9) == 44,
        slice_start(10) == 54,
        slice_start(11) == 65,
        slice_start(12) == 77,
        slice_start(13) == 90,
        slice_start(14) == 104,
        slice_start(15) == 119,
        slice_start(16) == 135,
        slice_start(17) == 152,
        slice_start(18) == 170,
        slice_start(19) == 189,
{
}

/// From order two up to [`MAX_ORDER`], the rule of an order ends inside the
/// tables exactly when the order is at most [`MAX_TABLE_ORDER`].
pub proof fn lemma_rules_inside_tables(n: int)
    requires
        2 <= n <= MAX_ORDER,
    ensures
        0 <= slice_start(legendre_number(n)),
        slice_end(n) <= ENTRIES <==> n <= MAX_TABLE_ORDER,
{
    let m = legendre_number(n);
    if n <= MAX_TABLE_ORDER {
        assert(2 <= (m + 1) * m <= 20 * 19) by (nonlinear_arith)
            requires
                2 <= m <= 19,
        ;
    } else {
        assert(21 * 20 <= (m + 1) * m) by (nonlinear_arith)
            requires
                20 <= m,
        ;
    }
}

/// A rule that is read from the tables never reaches past their end: its
/// nodes are the entries at consecutive indices below [`ENTRIES`], and each of
/// them is well formed.
pub proof fn lemma_table_rule_in_bounds(n: int, nodes: Seq<Node>)
    requires
        2 <= n <= MAX_TABLE_ORDER,
        nodes == rule_nodes(n),
    ensures
        nodes.len() == legendre_number(n),
        0 <= slice_start(legendre_number(n)),
        slice_start(legendre_number(n)) + nodes.len() <= ENTRIES,
        forall|k: int|
            0 <= k < nodes.len() ==> #[trigger] nodes[k] == table_node(
                slice_start(legendre_number(n)) + k,
            ),
        forall|k: int| 0 <= k < nodes.len() ==> (#[trigger] nodes[k]).well_formed(),
{
    lemma_rules_inside_tables(n);
    lemma_tables_well_formed();
}

/// The answer for an order is determined by the order: two answers that
/// [`selects`] admits for the same order are both the same error, or both the
/// same closed formula, or both tables rules with the same nodes in the same
/// order.
pub proof fn lemma_selection_is_determined(
    n: int,
    first: Result<Rule, OrderError>,
    second: Result<Rule, OrderError>,
)
    requires
        selects(n, first),
        selects(n, second),
    ensures
        same_selection(first, second),
{
}

} // verus!
