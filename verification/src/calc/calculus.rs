//! Tanh-sinh quadrature with a fixed set of 409 nodes.
//!
//! The rule is a table: sample points on the reference interval from -1 to 1,
//! crowding towards both ends, their weights, and the step of the underlying
//! trapezoidal sum. This module holds the table and what is known of it; the
//! floating-point evaluation is left to the caller.

use vstd::prelude::*;
use crate::binary64::{rank, ONE};
use crate::quadrature::Node;

verus! {

/// Number of nodes of the rule.
pub const POINTS: usize = 409;

/// Index of the node in the middle of the table.
pub const MIDDLE: usize = 204;

/// The step between two neighbouring nodes before the change of variable, as
/// a bit pattern: two to the power -6. The weighted sum is scaled by it.
pub const H: u64 = 0x3f90_0000_0000_0000;

/// The weights of the rule, index by index with [`ABSCISSA`]. Each entry is the
/// bit pattern of a 64-bit binary floating-point number.
pub const WEIGHTS: [u64; 409] = [
    0x3ce5_baab_365f_c09f, 0x3cf3_511b_47a4_05db, 0x3d01_0427_4d13_150c,
    0x3d0d_b605_3c28_7646, 0x3d19_b5b8_31ff_3092, 0x3d26_0df8_9a90_1e85,
    0x3d32_c1e9_9a02_0bd8, 0x3d3f_a36c_9487_2510, 0x3d4a_7629_06bf_c101,
    0x3d55_f396_67ee_e816, 0x3d62_1069_34c1_8c9b, 0x3d6d_7ed9_ee4e_e279,
    0x3d77_e4b1_1db9_09f1, 0x3d83_3503_3543_2dd1, 0x3d8e_a5b4_f5c9_d1cc,
    0x3d98_44fb_82c8_bc3b, 0x3da3_141d_7cd3_8d23, 0x3dad_c7c1_cb9e_17be,
    0x3db7_13f9_027b_f94c, 0x3dc1_c272_fcff_345f, 0x3dcb_2569_59c5_ec33,
    0x3dd4_9b5c_933a_a3ef, 0x3ddf_13ed_ddb2_31e5, 0x3de7_480a_b73c_60eb,
    0x3df1_541b_59d4_477a, 0x3df9_a1cc_39dc_1ab0, 0x3e02_d6c0_dbd5_2ee1,
    0x3e0b_85a6_cc34_8caf, 0x3e13_fb70_d9c5_c858, 0x3e1c_d7d5_d569_03c8,
    0x3e24_b1d6_4364_cf83, 0x3e2d_8673_83ed_5a7b, 0x3e34_f139_b3e5_077b,
    0x3e3d_8af2_ad3b_5098, 0x3e44_b915_204b_2077, 0x3e4c_ea44_6474_8ffa,
    0x3e54_10b8_95d9_2348, 0x3e5b_b3bb_3775_9d35, 0x3e63_061e_6287_c4ad,
    0x3e69_feec_ba89_b5a4, 0x3e71_ac28_d334_e713, 0x3e77_e8f0_8df6_84e7,
    0x3e80_1892_6c3d_e109, 0x3e85_9166_e531_25f6, 0x3e8c_c3b4_b048_a3a7,
    0x3e93_17a8_dff9_abc0, 0x3e99_3ad7_b322_aadb, 0x3ea0_986f_4537_1305,
    0x3ea5_bc59_bdd3_a459, 0x3eac_583d_8c38_c7f8, 0x3eb2_6714_2d29_1dac,
    0x3eb7_cb94_b9ba_5332, 0x3ebe_a409_55e0_9cef, 0x3ec3_a5c3_c59a_2da7,
    0x3ec9_188b_59e0_c721, 0x3ecf_edbf_a8a6_1c1e, 0x3ed4_3b6d_903a_feef,
    0x3ed9_8afd_b91d_0cd2, 0x3ee0_1034_16d6_7405, 0x3ee4_20fd_c197_fd72,
    0x3ee9_21b3_5fc3_63e4, 0x3eef_43f2_90fd_2926, 0x3ef3_612c_8f49_8bff,
    0x3ef7_f0f3_358f_ef26, 0x3efd_79c3_c898_a283, 0x3f02_1574_61ea_b288,
    0x3f06_1dbb_290b_8535, 0x3f0a_f5ad_32e4_0df9, 0x3f10_6122_31ac_7148,
    0x3f13_d711_2921_e1c2, 0x3f17_f522_4a03_0fda, 0x3f1c_d764_9833_5746,
    0x3f21_4ef0_f95f_4bf3, 0x3f24_b689_2ff5_0413, 0x3f28_b72c_1e3a_402e,
    0x3f2d_6842_bc77_37a4, 0x3f31_721a_8030_e91c, 0x3f34_a45a_d56c_dc1f,
    0x3f38_5b89_5607_bd04, 0x3f3c_aa45_083a_3ef9, 0x3f40_d2a8_d798_7434,
    0x3f43_b1e3_505c_2102, 0x3f46_ff9f_d547_aff0, 0x3f4a_ca07_f52a_c98f,
    0x3f4f_20bb_3a8a_06a5, 0x3f52_0a75_2958_d84a, 0x3f54_dcb9_784b_71d6,
    0x3f58_117e_2888_2473, 0x3f5b_b40a_2183_f69e, 0x3f5f_d0a6_49bb_4795,
    0x3f62_3a56_2e91_2b78, 0x3f64_d74a_e8a7_34d8, 0x3f67_c705_59b4_9941,
    0x3f6b_11f8_3571_62b9, 0x3f6e_c13c_2568_d2ac, 0x3f71_6f4b_76c1_7c5a,
    0x3f73_ba41_3041_5d73, 0x3f76_4719_8c1c_bced, 0x3f79_1bcf_7272_e042,
    0x3f7c_3ec1_737a_485a, 0x3f7f_b6b4_a316_3560, 0x3f81_c56b_9e49_6997,
    0x3f83_e161_83f7_1340, 0x3f86_333f_bd06_de6d, 0x3f88_bf41_c4a0_1974,
    0x3f8b_89db_97b6_9e42, 0x3f8e_97ba_49af_42ac, 0x3f90_f6e2_34a5_b306,
    0x3f92_c88d_194e_a671, 0x3f94_c38a_c567_9221, 0x3f96_eaa4_e147_d50a,
    0x3f99_40c1_8e00_ae8a, 0x3f9b_c8e3_0889_cfba, 0x3f9e_8627_2b9c_21ed,
    0x3fa0_bde3_675c_e483, 0x3fa2_568a_8074_3c8a, 0x3fa4_0ebf_0ed4_ce34,
    0x3fa5_e843_5d61_4efc, 0x3fa7_e4e5_36b7_8bfd, 0x3faa_067d_32cf_688d,
    0x3fac_4eed_eef5_4d6a, 0x3fae_c023_2f7a_c6fd, 0x3fb0_ae08_753f_057f,
    0x3fb2_1259_1d98_0714, 0x3fb3_8e04_1e84_722e, 0x3fb5_220c_6731_ca13,
    0x3fb6_cf76_9d02_c25e, 0x3fb8_9748_6391_3d43, 0x3fba_7a87_97be_79a0,
    0x3fbc_7a39_7da9_ea43, 0x3fbe_9761_e171_0d5f, 0x3fc0_6981_1552_ec6a,
    0x3fc1_970c_313b_0d55, 0x3fc2_d4cf_1646_4c57, 0x3fc4_2343_d962_74f3,
    0x3fc5_82e1_41ee_881b, 0x3fc6_f41a_32b1_ebac, 0x3fc8_775d_0c9c_8262,
    0x3fca_0d13_0b86_403f, 0x3fcb_b59f_9d31_ec70, 0x3fcd_715f_b2e4_f1be,
    0x3fcf_40a9_0df5_5c69, 0x3fd0_91e4_c3df_b6bf, 0x3fd1_8d83_2ac2_b9c5,
    0x3fd2_934d_a467_6982, 0x3fd3_a35d_0677_2010, 0x3fd4_bdc4_b135_8357,
    0x3fd5_e292_2c8e_dfe8, 0x3fd7_11cc_c4f2_eb23, 0x3fd8_4b75_2879_49c4,
    0x3fd9_8f85_04d7_f5a6, 0x3fda_ddee_a6be_52c3, 0x3fdc_369c_9b32_4ed7,
    0x3fdd_9971_5397_2829, 0x3fdf_0646_cd0f_47d8, 0x3fe0_3e77_1df9_ea4e,
    0x3fe0_fe97_de12_8bdd, 0x3fe1_c365_037f_2945, 0x3fe2_8cb9_17df_0509,
    0x3fe3_5a69_b39c_72be, 0x3fe4_2c47_63d8_6ac7, 0x3fe5_021d_94d6_11b1,
    0x3fe5_dbb2_8154_0700, 0x3fe6_b8c7_2740_4c29, 0x3fe7_9917_4231_7460,
    0x3fe8_7c59_4c0c_7c50, 0x3fe9_623e_843a_131a, 0x3fea_4a72_fdc8_3552,
    0x3feb_349d_b4cd_b2e4, 0x3fec_2060_ab5c_88ba, 0x3fed_0d59_0e45_db9d,
    0x3fed_fb1f_61e6_daa6, 0x3fee_e947_b728_e390, 0x3fef_d761_e8d0_fdcd,
    0x3ff0_627c_f095_9887, 0x3ff0_d8cb_f406_bf9d, 0x3ff1_4e60_7c8e_3a85,
    0x3ff1_c2fb_9114_42b1, 0x3ff2_365c_f4b3_eebb, 0x3ff2_a843_5d9e_23cc,
    0x3ff3_186c_af90_1e08, 0x3ff3_8696_39a0_d3e0, 0x3ff3_f27c_f71e_3b24,
    0x3ff4_5bdd_d329_6a85, 0x3ff4_c275_eeb6_da7a, 0x3ff5_2602_e88e_c8e2,
    0x3ff5_8643_26e1_205e, 0x3ff5_e2f6_21f8_629d, 0x3ff6_3bdc_af90_1814,
    0x3ff6_90b9_4e4d_50a0, 0x3ff6_e150_70d2_eec2, 0x3ff7_2d68_c7e7_e769,
    0x3ff7_74cb_8b23_6ab9, 0x3ff7_b744_bf92_231c, 0x3ff7_f4a3_7bc8_7019,
    0x3ff8_2cba_28d7_c24b, 0x3ff8_5f5e_bfa1_0b92, 0x3ff8_8c6b_0203_9076,
    0x3ff8_b3bc_af6e_45b2, 0x3ff8_d535_b462_3a13, 0x3ff8_f0bc_547e_44f4,
    0x3ff9_063b_4eb7_3361, 0x3ff9_15a1_fb6b_d972, 0x3ff9_1ee4_6411_9f09,
    0x3ff9_21fb_5444_2d18, 0x3ff9_1ee4_6411_9f09, 0x3ff9_15a1_fb6b_d972,
    0x3ff9_063b_4eb7_3361, 0x3ff8_f0bc_547e_44f4, 0x3ff8_d535_b462_3a13,
    0x3ff8_b3bc_af6e_45b2, 0x3ff8_8c6b_0203_9076, 0x3ff8_5f5e_bfa1_0b92,
    0x3ff8_2cba_28d7_c24b, 0x3ff7_f4a3_7bc8_7019, 0x3ff7_b744_bf92_231c,
    0x3ff7_74cb_8b23_6ab9, 0x3ff7_2d68_c7e7_e769, 0x3ff6_e150_70d2_eec2,
    0x3ff6_90b9_4e4d_50a0, 0x3ff6_3bdc_af90_1814, 0x3ff5_e2f6_21f8_629d,
    0x3ff5_8643_26e1_205e, 0x3ff5_2602_e88e_c8e2, 0x3ff4_c275_eeb6_da7a,
    0x3ff4_5bdd_d329_6a85, 0x3ff3_f27c_f71e_3b24, 0x3ff3_8696_39a0_d3e0,
    0x3ff3_186c_af90_1e08, 0x3ff2_a843_5d9e_23cc, 0x3ff2_365c_f4b3_eebb,
    0x3ff1_c2fb_9114_42b1, 0x3ff1_4e60_7c8e_3a85, 0x3ff0_d8cb_f406_bf9d,
    0x3ff0_627c_f095_9887, 0x3fef_d761_e8d0_fdcd, 0x3fee_e947_b728_e390,
    0x3fed_fb1f_61e6_daa6, 0x3fed_0d59_0e45_db9d, 0x3fec_2060_ab5c_88ba,
    0x3feb_349d_b4cd_b2e4, 0x3fea_4a72_fdc8_3552, 0x3fe9_623e_843a_131a,
    0x3fe8_7c59_4c0c_7c50, 0x3fe7_9917_4231_7460, 0x3fe6_b8c7_2740_4c29,
    0x3fe5_dbb2_8154_0700, 0x3fe5_021d_94d6_11b1, 0x3fe4_2c47_63d8_6ac7,
    0x3fe3_5a69_b39c_72be, 0x3fe2_8cb9_17df_0509, 0x3fe1_c365_037f_2945,
    0x3fe0_fe97_de12_8bdd, 0x3fe0_3e77_1df9_ea4e, 0x3fdf_0646_cd0f_47d8,
    0x3fdd_9971_5397_2829, 0x3fdc_369c_9b32_4ed7, 0x3fda_ddee_a6be_52c3,
    0x3fd9_8f85_04d7_f5a6, 0x3fd8_4b75_2879_49c4, 0x3fd7_11cc_c4f2_eb23,
    0x3fd5_e292_2c8e_dfe8, 0x3fd4_bdc4_b135_8357, 0x3fd3_a35d_0677_2010,
    0x3fd2_934d_a467_6982, 0x3fd1_8d83_2ac2_b9c5, 0x3fd0_91e4_c3df_b6bf,
    0x3fcf_40a9_0df5_5c69, 0x3fcd_715f_b2e4_f1be, 0x3fcb_b59f_9d31_ec70,
    0x3fca_0d13_0b86_403f, 0x3fc8_775d_0c9c_8262, 0x3fc6_f41a_32b1_ebac,
    0x3fc5_82e1_41ee_881b, 0x3fc4_2343_d962_74f3, 0x3fc2_d4cf_1646_4c57,
    0x3fc1_970c_313b_0d55, 0x3fc0_6981_1552_ec6a, 0x3fbe_9761_e171_0d5f,
    0x3fbc_7a39_7da9_ea43, 0x3fba_7a87_97be_79a0, 0x3fb8_9748_6391_3d43,
    0x3fb6_cf76_9d02_c25e, 0x3fb5_220c_6731_ca13, 0x3fb3_8e04_1e84_722e,
    0x3fb2_1259_1d98_0714, 0x3fb0_ae08_753f_057f, 0x3fae_c023_2f7a_c6fd,
    0x3fac_4eed_eef5_4d6a, 0x3faa_067d_32cf_688d, 0x3fa7_e4e5_36b7_8bfd,
    0x3fa5_e843_5d61_4efc, 0x3fa4_0ebf_0ed4_ce34, 0x3fa2_568a_8074_3c8a,
    0x3fa0_bde3_675c_e483, 0x3f9e_8627_2b9c_21ed, 0x3f9b_c8e3_0889_cfba,
    0x3f99_40c1_8e00_ae8a, 0x3f96_eaa4_e147_d50a, 0x3f94_c38a_c567_9221,
    0x3f92_c88d_194e_a671, 0x3f90_f6e2_34a5_b306, 0x3f8e_97ba_49af_42ac,
    0x3f8b_89db_97b6_9e42, 0x3f88_bf41_c4a0_1974, 0x3f86_333f_bd06_de6d,
    0x3f83_e161_83f7_1340, 0x3f81_c56b_9e49_6997, 0x3f7f_b6b4_a316_3560,
    0x3f7c_3ec1_737a_485a, 0x3f79_1bcf_7272_e042, 0x3f76_4719_8c1c_bced,
    0x3f73_ba41_3041_5d73, 0x3f71_6f4b_76c1_7c5a, 0x3f6e_c13c_2568_d2ac,
    0x3f6b_11f8_3571_62b9, 0x3f67_c705_59b4_9941, 0x3f64_d74a_e8a7_34d8,
    0x3f62_3a56_2e91_2b78, 0x3f5f_d0a6_49bb_4795, 0x3f5b_b40a_2183_f69e,
    0x3f58_117e_2888_2473, 0x3f54_dcb9_784b_71d6, 0x3f52_0a75_2958_d84a,
    0x3f4f_20bb_3a8a_06a5, 0x3f4a_ca07_f52a_c98f, 0x3f46_ff9f_d547_aff0,
    0x3f43_b1e3_505c_2102, 0x3f40_d2a8_d798_7434, 0x3f3c_aa45_083a_3ef9,
    0x3f38_5b89_5607_bd04, 0x3f34_a45a_d56c_dc1f, 0x3f31_721a_8030_e91c,
    0x3f2d_6842_bc77_37a4, 0x3f28_b72c_1e3a_402e, 0x3f24_b689_2ff5_0413,
    0x3f21_4ef0_f95f_4bf3, 0x3f1c_d764_9833_5746, 0x3f17_f522_4a03_0fda,
    0x3f13_d711_2921_e1c2, 0x3f10_6122_31ac_7148, 0x3f0a_f5ad_32e4_0df9,
    0x3f06_1dbb_290b_8535, 0x3f02_1574_61ea_b288, 0x3efd_79c3_c898_a283,
    0x3ef7_f0f3_358f_ef26, 0x3ef3_612c_8f49_8bff, 0x3eef_43f2_90fd_2926,
    0x3ee9_21b3_5fc3_63e4, 0x3ee4_20fd_c197_fd72, 0x3ee0_1034_16d6_7405,
    0x3ed9_8afd_b91d_0cd2, 0x3ed4_3b6d_903a_feef, 0x3ecf_edbf_a8a6_1c1e,
    0x3ec9_188b_59e0_c721, 0x3ec3_a5c3_c59a_2da7, 0x3ebe_a409_55e0_9cef,
    0x3eb7_cb94_b9ba_5332, 0x3eb2_6714_2d29_1dac, 0x3eac_583d_8c38_c7f8,
    0x3ea5_bc59_bdd3_a459, 0x3ea0_986f_4537_1305, 0x3e99_3ad7_b322_aadb,
    0x3e93_17a8_dff9_abc0, 0x3e8c_c3b4_b048_a3a7, 0x3e85_9166_e531_25f6,
    0x3e80_1892_6c3d_e109, 0x3e77_e8f0_8df6_84e7, 0x3e71_ac28_d334_e713,
    0x3e69_feec_ba89_b5a4, 0x3e63_061e_6287_c4ad, 0x3e5b_b3bb_3775_9d35,
    0x3e54_10b8_95d9_2348, 0x3e4c_ea44_6474_8ffa, 0x3e44_b915_204b_2077,
    0x3e3d_8af2_ad3b_5098, 0x3e34_f139_b3e5_077b, 0x3e2d_8673_83ed_5a7b,
    0x3e24_b1d6_4364_cf83, 0x3e1c_d7d5_d569_03c8, 0x3e13_fb70_d9c5_c858,
    0x3e0b_85a6_cc34_8caf, 0x3e02_d6c0_dbd5_2ee1, 0x3df9_a1cc_39dc_1ab0,
    0x3df1_541b_59d4_477a, 0x3de7_480a_b73c_60eb, 0x3ddf_13ed_ddb2_31e5,
    0x3dd4_9b5c_933a_a3ef, 0x3dcb_2569_59c5_ec33, 0x3dc1_c272_fcff_345f,
    0x3db7_13f9_027b_f94c, 0x3dad_c7c1_cb9e_17be, 0x3da3_141d_7cd3_8d23,
    0x3d98_44fb_82c8_bc3b, 0x3d8e_a5b4_f5c9_d1cc, 0x3d83_3503_3543_2dd1,
    0x3d77_e4b1_1db9_09f1, 0x3d6d_7ed9_ee4e_e279, 0x3d62_1069_34c1_8c9b,
    0x3d55_f396_67ee_e816, 0x3d4a_7629_06bf_c101, 0x3d3f_a36c_9487_2510,
    0x3d32_c1e9_9a02_0bd8, 0x3d26_0df8_9a90_1e85, 0x3d19_b5b8_31ff_3092,
    0x3d0d_b605_3c28_7646, 0x3d01_0427_4d13_150c, 0x3cf3_511b_47a4_05db,
    0x3ce5_baab_365f_c09f,
];

/// The sample points of the rule on the reference interval, in rising order,
/// as bit patterns of the same kind.
pub const ABSCISSA: [u64; 409] = [
    0xbfef_ffff_ffff_ffff, 0xbfef_ffff_ffff_ffff, 0xbfef_ffff_ffff_fffe,
    0xbfef_ffff_ffff_fffd, 0xbfef_ffff_ffff_fffa, 0xbfef_ffff_ffff_fff6,
    0xbfef_ffff_ffff_ffef, 0xbfef_ffff_ffff_ffe2, 0xbfef_ffff_ffff_ffce,
    0xbfef_ffff_ffff_ffab, 0xbfef_ffff_ffff_ff72, 0xbfef_ffff_ffff_ff15,
    0xbfef_ffff_ffff_fe7d, 0xbfef_ffff_ffff_fd88, 0xbfef_ffff_ffff_fc00,
    0xbfef_ffff_ffff_f991, 0xbfef_ffff_ffff_f5bb, 0xbfef_ffff_ffff_efb8,
    0xbfef_ffff_ffff_e65e, 0xbfef_ffff_ffff_d7ef, 0xbfef_ffff_ffff_c1cd,
    0xbfef_ffff_ffff_a017, 0xbfef_ffff_ffff_6d17, 0xbfef_ffff_ffff_2073,
    0xbfef_ffff_fffe_ae04, 0xbfef_ffff_fffe_043f, 0xbfef_ffff_fffd_09f7,
    0xbfef_ffff_fffb_9b45, 0xbfef_ffff_fff9_8549, 0xbfef_ffff_fff6_805a,
    0xbfef_ffff_fff2_2826, 0xbfef_ffff_ffeb_f10e, 0xbfef_ffff_ffe3_19e2,
    0xbfef_ffff_ffd6_98dd, 0xbfef_ffff_ffc5_0270, 0xbfef_ffff_ffac_680d,
    0xbfef_ffff_ff8a_2c9e, 0xbfef_ffff_ff5a_cbce, 0xbfef_ffff_ff19_908b,
    0xbfef_ffff_fec0_364c, 0xbfef_ffff_fe46_6f9e, 0xbfef_ffff_fda1_4b4a,
    0xbfef_ffff_fcc2_6fda, 0xbfef_ffff_fb97_239d, 0xbfef_ffff_fa07_1541,
    0xbfef_ffff_f7f2_d6a8, 0xbfef_ffff_f531_f908, 0xbfef_ffff_f190_b617,
    0xbfef_ffff_eccd_0e84, 0xbfef_ffff_e693_41e3, 0xbfef_ffff_de79_7f75,
    0xbfef_ffff_d3fa_aa30, 0xbfef_ffff_c670_045b, 0xbfef_ffff_b509_90dc,
    0xbfef_ffff_9ec4_f101, 0xbfef_ffff_8262_7dde, 0xbfef_ffff_5e58_53d4,
    0xbfef_ffff_30c2_fd85, 0xbfef_fffe_f753_61cc, 0xbfef_fffe_af39_8d7b,
    0xbfef_fffe_550b_e6bc, 0xbfef_fffd_e4aa_4beb, 0xbfef_fffd_591c_939d,
    0xbfef_fffc_ac6b_d6c8, 0xbfef_fffb_d775_e0e9, 0xbfef_fffa_d1ba_14c3,
    0xbfef_fff9_911f_06ea, 0xbfef_fff8_09b0_0201, 0xbfef_fff6_2d51_9b74,
    0xbfef_fff3_eb6c_72b2, 0xbfef_fff1_308d_28c5, 0xbfef_ffed_e5f8_92dd,
    0xbfef_ffe9_f133_1fc0, 0xbfef_ffe5_337a_5f18, 0xbfef_ffdf_892f_9186,
    0xbfef_ffd8_c932_2257, 0xbfef_ffd0_c428_e715, 0xbfef_ffc7_43b8_ff0a,
    0xbfef_ffbc_09a9_2c44, 0xbfef_ffae_cef0_8223, 0xbfef_ff9f_42af_49ee,
    0xbfef_ff8d_0911_056f, 0xbfef_ff77_ba16_81bd, 0xbfef_ff5e_e046_f961,
    0xbfef_ff41_f747_5501, 0xbfef_ff20_6a56_acd2, 0xbfef_fef9_92af_42f8,
    0xbfef_fecc_b5cb_4802, 0xbfef_fe99_038c_d6a3, 0xbfef_fe5d_9448_b28b,
    0xbfef_fe19_66b3_77c6, 0xbfef_fdcb_5db1_0c4f, 0xbfef_fd72_3e06_4c1b,
    0xbfef_fd0c_abed_10df, 0xbfef_fc99_288a_e20a, 0xbfef_fc16_0f4a_c664,
    0xbfef_fb81_931a_df95, 0xbfef_fad9_bb8e_a823, 0xbfef_fa1c_61e6_de1a,
    0xbfef_f947_2e00_5724, 0xbfef_f857_932b_2e69, 0xbfef_f74a_cceb_f0d3,
    0xbfef_f61d_dba8_a0c6, 0xbfef_f4cd_8143_9f78, 0xbfef_f356_3da6_bf06,
    0xbfef_f1b4_4b40_f550, 0xbfef_efe3_9b79_5ca1, 0xbfef_eddf_d31a_636d,
    0xbfef_eba4_46b8_40d3, 0xbfef_e92b_f715_f6f6, 0xbfef_e671_8d8c_5f85,
    0xbfef_e36f_5876_f143, 0xbfef_e01f_47aa_1f2b, 0xbfef_dc7a_e8f7_6316,
    0xbfef_d87b_64c3_363e, 0xbfef_d419_7ab1_69ac, 0xbfef_cf4d_7e6c_7fa9,
    0xbfef_ca0f_548c_d55f, 0xbfef_c456_6fa4_992a, 0xbfef_be19_cd75_b640,
    0xbfef_b74f_f457_09b6, 0xbfef_afee_f0ce_5eba, 0xbfef_a7ec_5364_d88e,
    0xbfef_9f3d_2ebb_97b1, 0xbfef_95d6_15e6_8cd8, 0xbfef_8bab_1b13_8f26,
    0xbfef_80af_ce83_eb87, 0xbfef_74d7_3dde_c07c, 0xbfef_6813_f3e2_937b,
    0xbfef_5a57_f87c_a320, 0xbfef_4b94_d14c_8ab2, 0xbfef_3bbb_829a_d789,
    0xbfef_2abc_90c9_371c, 0xbfef_1888_0242_e394, 0xbfef_050d_61f3_ec90,
    0xbfee_f03b_c24d_e8b7, 0xbfee_da01_c0e0_8264, 0xbfee_c24d_8a8c_2cb0,
    0xbfee_a90c_e055_1dbf, 0xbfee_8e2d_1cdc_6e15, 0xbfee_719b_3a84_f215,
    0xbfee_5343_da49_095c, 0xbfee_3313_4b46_3678, 0xbfee_10f5_9302_d78b,
    0xbfed_ecd6_7671_ccb7, 0xbfed_c6a1_83b7_3aaf, 0xbfed_9e42_1cb0_e60e,
    0xbfed_73a3_8243_dde9, 0xbfed_46b0_e070_5148, 0xbfed_1755_5b2b_7b17,
    0xbfec_e57c_1bfe_8ac8, 0xbfec_b110_6068_54d3, 0xbfec_79fd_88fe_6614,
    0xbfec_402f_2948_d00f, 0xbfec_0391_1852_aae5, 0xbfeb_c40f_81e7_ddbf,
    0xbfeb_8196_f877_4065, 0xbfeb_3c14_878e_9af0, 0xbfea_f375_c6e4_6cb1,
    0xbfea_a7a8_ede1_bbf4, 0xbfea_589c_e79c_8035, 0xbfea_0641_6731_82d4,
    0xbfe9_b086_fc6a_da99, 0xbfe9_575f_289e_70c8, 0xbfe8_fabc_73ae_4f24,
    0xbfe8_9a92_8112_d19c, 0xbfe8_36d6_24d5_41cd, 0xbfe7_cf7d_785f_e284,
    0xbfe7_647f_ef07_0c38, 0xbfe6_f5d6_6a2d_b5b8, 0xbfe6_837b_4ce6_a4b7,
    0xbfe6_0d6a_8ef2_8ceb, 0xbfe5_93a1_cefa_a0f8, 0xbfe5_1620_63e6_8ae4,
    0xbfe4_94e7_6d2c_7076, 0xbfe4_0ff9_e1f9_9686, 0xbfe3_875c_9f12_6ae6,
    0xbfe2_fb16_7349_398c, 0xbfe2_6b30_2a6b_9c04, 0xbfe1_d7b4_9687_cb30,
    0xbfe1_40b0_976c_6624, 0xbfe0_a633_2046_fd54, 0xbfe0_084d_3b47_c07b,
    0xbfde_ce24_1666_1b3a, 0xbfdd_852d_9598_9d9b, 0xbfdc_35e5_9411_1fa9,
    0xbfda_e07e_d1f4_eeee, 0xbfd9_8530_20d9_aaca, 0xbfd8_2434_5049_6c8b,
    0xbfd6_bdca_158f_c7ea, 0xbfd5_5233_eed1_af79, 0xbfd3_e1b8_017a_cb08,
    0xbfd2_6c9f_f413_7f4c, 0xbfd0_f338_c39b_ae7b, 0xbfce_eba5_291e_0714,
    0xbfcb_e980_ff80_95f8, 0xbfc8_e0b0_b683_bb8b, 0xbfc5_d1e4_ff32_b595,
    0xbfc2_bdd3_1309_8337, 0xbfbf_4a68_6279_775e, 0xbfb9_118a_2cce_f98e,
    0xbfb2_d28a_dea8_67f2, 0xbfa9_1ddd_1e7f_7700, 0xbf99_20f3_a804_cd81,
    0x0000_0000_0000_0000, 0x3f99_20f3_a804_cd81, 0x3fa9_1ddd_1e7f_7700,
    0x3fb2_d28a_dea8_67f2, 0x3fb9_118a_2cce_f98e, 0x3fbf_4a68_6279_775e,
    0x3fc2_bdd3_1309_8337, 0x3fc5_d1e4_ff32_b595, 0x3fc8_e0b0_b683_bb8b,
    0x3fcb_e980_ff80_95f8, 0x3fce_eba5_291e_0714, 0x3fd0_f338_c39b_ae7b,
    0x3fd2_6c9f_f413_7f4c, 0x3fd3_e1b8_017a_cb08, 0x3fd5_5233_eed1_af79,
    0x3fd6_bdca_158f_c7ea, 0x3fd8_2434_5049_6c8b, 0x3fd9_8530_20d9_aaca,
    0x3fda_e07e_d1f4_eeee, 0x3fdc_35e5_9411_1fa9, 0x3fdd_852d_9598_9d9b,
    0x3fde_ce24_1666_1b3a, 0x3fe0_084d_3b47_c07b, 0x3fe0_a633_2046_fd54,
    0x3fe1_40b0_976c_6624, 0x3fe1_d7b4_9687_cb30, 0x3fe2_6b30_2a6b_9c04,
    0x3fe2_fb16_7349_398c, 0x3fe3_875c_9f12_6ae6, 0x3fe4_0ff9_e1f9_9686,
    0x3fe4_94e7_6d2c_7076, 0x3fe5_1620_63e6_8ae4, 0x3fe5_93a1_cefa_a0f8,
    0x3fe6_0d6a_8ef2_8ceb, 0x3fe6_837b_4ce6_a4b7, 0x3fe6_f5d6_6a2d_b5b8,
    0x3fe7_647f_ef07_0c38, 0x3fe7_cf7d_785f_e284, 0x3fe8_36d6_24d5_41cd,
    0x3fe8_9a92_8112_d19c, 0x3fe8_fabc_73ae_4f24, 0x3fe9_575f_289e_70c8,
    0x3fe9_b086_fc6a_da99, 0x3fea_0641_6731_82d4, 0x3fea_589c_e79c_8035,
    0x3fea_a7a8_ede1_bbf4, 0x3fea_f375_c6e4_6cb1, 0x3feb_3c14_878e_9af0,
    0x3feb_8196_f877_4065, 0x3feb_c40f_81e7_ddbf, 0x3fec_0391_1852_aae5,
    0x3fec_402f_2948_d00f, 0x3fec_79fd_88fe_6614, 0x3fec_b110_6068_54d3,
    0x3fec_e57c_1bfe_8ac8, 0x3fed_1755_5b2b_7b17, 0x3fed_46b0_e070_5148,
    0x3fed_73a3_8243_dde9, 0x3fed_9e42_1cb0_e60e, 0x3fed_c6a1_83b7_3aaf,
    0x3fed_ecd6_7671_ccb7, 0x3fee_10f5_9302_d78b, 0x3fee_3313_4b46_3678,
    0x3fee_5343_da49_095c, 0x3fee_719b_3a84_f215, 0x3fee_8e2d_1cdc_6e15,
    0x3fee_a90c_e055_1dbf, 0x3fee_c24d_8a8c_2cb0, 0x3fee_da01_c0e0_8264,
    0x3fee_f03b_c24d_e8b7, 0x3fef_050d_61f3_ec90, 0x3fef_1888_0242_e394,
    0x3fef_2abc_90c9_371c, 0x3fef_3bbb_829a_d789, 0x3fef_4b94_d14c_8ab2,
    0x3fef_5a57_f87c_a320, 0x3fef_6813_f3e2_937b, 0x3fef_74d7_3dde_c07c,
    0x3fef_80af_ce83_eb87, 0x3fef_8bab_1b13_8f26, 0x3fef_95d6_15e6_8cd8,
    0x3fef_9f3d_2ebb_97b1, 0x3fef_a7ec_5364_d88e, 0x3fef_afee_f0ce_5eba,
    0x3fef_b74f_f457_09b6, 0x3fef_be19_cd75_b640, 0x3fef_c456_6fa4_992a,
    0x3fef_ca0f_548c_d55f, 0x3fef_cf4d_7e6c_7fa9, 0x3fef_d419_7ab1_69ac,
    0x3fef_d87b_64c3_363e, 0x3fef_dc7a_e8f7_6316, 0x3fef_e01f_47aa_1f2b,
    0x3fef_e36f_5876_f143, 0x3fef_e671_8d8c_5f85, 0x3fef_e92b_f715_f6f6,
    0x3fef_eba4_46b8_40d3, 0x3fef_eddf_d31a_636d, 0x3fef_efe3_9b79_5ca1,
    0x3fef_f1b4_4b40_f550, 0x3fef_f356_3da6_bf06, 0x3fef_f4cd_8143_9f78,
    0x3fef_f61d_dba8_a0c6, 0x3fef_f74a_cceb_f0d3, 0x3fef_f857_932b_2e69,
    0x3fef_f947_2e00_5724, 0x3fef_fa1c_61e6_de1a, 0x3fef_fad9_bb8e_a823,
    0x3fef_fb81_931a_df95, 0x3fef_fc16_0f4a_c664, 0x3fef_fc99_288a_e20a,
    0x3fef_fd0c_abed_10df, 0x3fef_fd72_3e06_4c1b, 0x3fef_fdcb_5db1_0c4f,
    0x3fef_fe19_66b3_77c6, 0x3fef_fe5d_9448_b28b, 0x3fef_fe99_038c_d6a3,
    0x3fef_fecc_b5cb_4802, 0x3fef_fef9_92af_42f8, 0x3fef_ff20_6a56_acd2,
    0x3fef_ff41_f747_5501, 0x3fef_ff5e_e046_f961, 0x3fef_ff77_ba16_81bd,
    0x3fef_ff8d_0911_056f, 0x3fef_ff9f_42af_49ee, 0x3fef_ffae_cef0_8223,
    0x3fef_ffbc_09a9_2c44, 0x3fef_ffc7_43b8_ff0a, 0x3fef_ffd0_c428_e715,
    0x3fef_ffd8_c932_2257, 0x3fef_ffdf_892f_9186, 0x3fef_ffe5_337a_5f18,
    0x3fef_ffe9_f133_1fc0, 0x3fef_ffed_e5f8_92dd, 0x3fef_fff1_308d_28c5,
    0x3fef_fff3_eb6c_72b2, 0x3fef_fff6_2d51_9b74, 0x3fef_fff8_09b0_0201,
    0x3fef_fff9_911f_06ea, 0x3fef_fffa_d1ba_14c3, 0x3fef_fffb_d775_e0e9,
    0x3fef_fffc_ac6b_d6c8, 0x3fef_fffd_591c_939d, 0x3fef_fffd_e4aa_4beb,
    0x3fef_fffe_550b_e6bc, 0x3fef_fffe_af39_8d7b, 0x3fef_fffe_f753_61cc,
    0x3fef_ffff_30c2_fd85, 0x3fef_ffff_5e58_53d4, 0x3fef_ffff_8262_7dde,
    0x3fef_ffff_9ec4_f101, 0x3fef_ffff_b509_90dc, 0x3fef_ffff_c670_045b,
    0x3fef_ffff_d3fa_aa30, 0x3fef_ffff_de79_7f75, 0x3fef_ffff_e693_41e3,
    0x3fef_ffff_eccd_0e84, 0x3fef_ffff_f190_b617, 0x3fef_ffff_f531_f908,
    0x3fef_ffff_f7f2_d6a8, 0x3fef_ffff_fa07_1541, 0x3fef_ffff_fb97_239d,
    0x3fef_ffff_fcc2_6fda, 0x3fef_ffff_fda1_4b4a, 0x3fef_ffff_fe46_6f9e,
    0x3fef_ffff_fec0_364c, 0x3fef_ffff_ff19_908b, 0x3fef_ffff_ff5a_cbce,
    0x3fef_ffff_ff8a_2c9e, 0x3fef_ffff_ffac_680d, 0x3fef_ffff_ffc5_0270,
    0x3fef_ffff_ffd6_98dd, 0x3fef_ffff_ffe3_19e2, 0x3fef_ffff_ffeb_f10e,
    0x3fef_ffff_fff2_2826, 0x3fef_ffff_fff6_805a, 0x3fef_ffff_fff9_8549,
    0x3fef_ffff_fffb_9b45, 0x3fef_ffff_fffd_09f7, 0x3fef_ffff_fffe_043f,
    0x3fef_ffff_fffe_ae04, 0x3fef_ffff_ffff_2073, 0x3fef_ffff_ffff_6d17,
    0x3fef_ffff_ffff_a017, 0x3fef_ffff_ffff_c1cd, 0x3fef_ffff_ffff_d7ef,
    0x3fef_ffff_ffff_e65e, 0x3fef_ffff_ffff_efb8, 0x3fef_ffff_ffff_f5bb,
    0x3fef_ffff_ffff_f991, 0x3fef_ffff_ffff_fc00, 0x3fef_ffff_ffff_fd88,
    0x3fef_ffff_ffff_fe7d, 0x3fef_ffff_ffff_ff15, 0x3fef_ffff_ffff_ff72,
    0x3fef_ffff_ffff_ffab, 0x3fef_ffff_ffff_ffce, 0x3fef_ffff_ffff_ffe2,
    0x3fef_ffff_ffff_ffef, 0x3fef_ffff_ffff_fff6, 0x3fef_ffff_ffff_fffa,
    0x3fef_ffff_ffff_fffd, 0x3fef_ffff_ffff_fffe, 0x3fef_ffff_ffff_ffff,
    0x3fef_ffff_ffff_ffff,
];

/// The node that the two tables hold at index `i`.
pub open spec fn table_node(i: int) -> Node {
    Node { abscissa: ABSCISSA[i], weight: WEIGHTS[i] }
}

/// All nodes of the rule, in table order.
pub open spec fn all_nodes() -> Seq<Node> {
    Seq::new(POINTS as nat, |i: int| table_node(i))
}

/// Hands out the nodes of the rule, in table order.
pub fn nodes() -> (nodes: Vec<Node>)
    ensures
        nodes@ == all_nodes(),
{
    let mut nodes: Vec<Node> = Vec::new();
    let mut i: usize = 0;
    while i < POINTS
        invariant
            i <= POINTS,
            nodes@.len() == i,
            forall|j: int| 0 <= j < i ==> nodes@[j] == table_node(j),
        decreases POINTS - i,
    {
        nodes.push(Node { abscissa: ABSCISSA[i], weight: WEIGHTS[i] });
        i += 1;
    }
    assert(nodes@ =~= all_nodes());
    nodes
}

/// Both tables have [`POINTS`] entries. At every index the abscissa lies
/// strictly between -1 and 1 and the weight is finite and greater than zero.
pub proof fn lemma_tables_well_formed()
    ensures
        ABSCISSA@.len() == POINTS,
        WEIGHTS@.len() == POINTS,
        forall|i: int| 0 <= i < POINTS ==> (#[trigger] table_node(i)).well_formed(),
        forall|i: int| 0 <= i < POINTS ==> -(ONE as int) < rank(#[trigger] ABSCISSA[i]) < ONE,
{
}

/// The abscissa at index `i` is smaller than the next one.
pub open spec fn rises_at(i: int) -> bool {
    rank(ABSCISSA[i]) < rank(ABSCISSA[i + 1])
}

/// The node at index `i` and the node as far from the other end of the table
/// have opposite abscissas and equal weights.
pub open spec fn mirrored_at(i: int) -> bool {
    &&& rank(ABSCISSA[POINTS - 1 - i]) == -rank(ABSCISSA[i])
    &&& WEIGHTS[POINTS - 1 - i] == WEIGHTS[i]
}

/// The abscissas never fall from one index to the next. They rise strictly
/// everywhere but at the two ends of the table, where rounding has made the
/// outermost two abscissas equal.
pub proof fn lemma_abscissas_rise()
    ensures
        forall|i: int| 1 <= i < POINTS - 2 ==> #[trigger] rises_at(i),
        forall|i: int|
            0 <= i < POINTS - 1 ==> rank(#[trigger] ABSCISSA[i]) <= rank(ABSCISSA[i + 1]),
        ABSCISSA[0] == ABSCISSA[1],
        ABSCISSA[POINTS - 2] == ABSCISSA[POINTS - 1],
{
    // The table is checked in four parts, each small enough for the solver.
    assert forall|i: int| 1 <= i < 103 implies #[trigger] rises_at(i) by {}
    assert forall|i: int| 103 <= i < 205 implies #[trigger] rises_at(i) by {}
    assert forall|i: int| 205 <= i < 307 implies #[trigger] rises_at(i) by {}
    assert forall|i: int| 307 <= i < 407 implies #[trigger] rises_at(i) by {}
    assert forall|i: int| 0 <= i < POINTS - 1 implies rank(#[trigger] ABSCISSA[i]) <= rank(
        ABSCISSA[i + 1],
    ) by {
        if 1 <= i < POINTS - 2 {
            assert(rises_at(i));
        }
    }
}

/// The rule is symmetric about zero: the node in the middle of the table sits
/// at zero, and the nodes at equal distance from the middle have opposite
/// abscissas and equal weights.
pub proof fn lemma_rule_is_symmetric()
    ensures
        ABSCISSA[MIDDLE as int] == 0,
        forall|i: int| 0 <= i < POINTS ==> #[trigger] mirrored_at(i),
{
    // The table is checked in four parts, each small enough for the solver.
    assert forall|i: int| 0 <= i < 103 implies #[trigger] mirrored_at(i) by {}
    assert forall|i: int| 103 <= i < 206 implies #[trigger] mirrored_at(i) by {}
    assert forall|i: int| 206 <= i < 309 implies #[trigger] mirrored_at(i) by {}
    assert forall|i: int| 309 <= i < 409 implies #[trigger] mirrored_at(i) by {}
}

} // verus!
