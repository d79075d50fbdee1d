//! The weights of the tanh-sinh rule, added up exactly.
//!
//! Every weight is a whole number of units of two to the power -101, so their
//! sum can be taken in integers. Scaled by the step of the rule it comes to two,
//! the length of the reference interval, up to what rounding the table has cost.

use vstd::prelude::*;
use crate::binary64::{
    lsb_exponent, scaled, shifted, significand, EXPONENT_OFFSET, HIDDEN_BIT,
};
use crate::calc::calculus::{H, POINTS, WEIGHTS};

verus! {

/// The power of two in which [`weight_total`] counts. It is the power of the
/// last bit of the smallest weight, so that every weight is a whole count.
pub open spec fn weight_unit() -> int {
    -101
}

/// The power of two that the step [`H`] is.
pub open spec fn step_exponent() -> int {
    -6
}

/// The sum of the first `count` weights, counted in units of two to the power
/// [`weight_unit`].
pub open spec fn weight_total(count: nat) -> int
    decreases count,
{
    if count == 0 {
        0
    } else {
        weight_total((count - 1) as nat) + scaled(WEIGHTS[count - 1], weight_unit())
    }
}

/// Doubling `x` `k` times multiplies it by the `k`-th power of two.
proof fn lemma_shifted_is_a_product(x: int, k: nat)
    ensures
        shifted(x, k) == x * shifted(1, k),
    decreases k,
{
    if k == 0 {
        assert(x * 1 == x) by (nonlinear_arith);
    } else {
        let below = (k - 1) as nat;
        lemma_shifted_is_a_product(x, below);
        assert(2 * (x * shifted(1, below)) == x * (2 * shifted(1, below))) by (nonlinear_arith);
    }
}

/// The powers of two by which the weights exceed their unit.
proof fn lemma_powers_of_two()
    ensures
        shifted(1, 0) == 0x1,
        shifted(1, 1) == 0x2,
        shifted(1, 2) == 0x4,
        shifted(1, 3) == 0x8,
        shifted(1, 4) == 0x10,
        shifted(1, 5) == 0x20,
        shifted(1, 6) == 0x40,
        shifted(1, 7) == 0x80,
        shifted(1, 8) == 0x100,
        shifted(1, 9) == 0x200,
        shifted(1, 10) == 0x400,
        shifted(1, 11) == 0x800,
        shifted(1, 12) == 0x1000,
        shifted(1, 13) == 0x2000,
        shifted(1, 14) == 0x4000,
        shifted(1, 15) == 0x8000,
        shifted(1, 16) == 0x1_0000,
        shifted(1, 17) == 0x2_0000,
        shifted(1, 18) == 0x4_0000,
        shifted(1, 19) == 0x8_0000,
        shifted(1, 20) == 0x10_0000,
        shifted(1, 21) == 0x20_0000,
        shifted(1, 22) == 0x40_0000,
        shifted(1, 23) == 0x80_0000,
        shifted(1, 24) == 0x100_0000,
        shifted(1, 25) == 0x200_0000,
        shifted(1, 26) == 0x400_0000,
        shifted(1, 27) == 0x800_0000,
        shifted(1, 28) == 0x1000_0000,
        shifted(1, 29) == 0x2000_0000,
        shifted(1, 30) == 0x4000_0000,
        shifted(1, 31) == 0x8000_0000,
        shifted(1, 32) == 0x1_0000_0000,
        shifted(1, 33) == 0x2_0000_0000,
        shifted(1, 34) == 0x4_0000_0000,
        shifted(1, 35) == 0x8_0000_0000,
        shifted(1, 36) == 0x10_0000_0000,
        shifted(1, 37) == 0x20_0000_0000,
        shifted(1, 38) == 0x40_0000_0000,
        shifted(1, 39) == 0x80_0000_0000,
        shifted(1, 40) == 0x100_0000_0000,
        shifted(1, 41) == 0x200_0000_0000,
        shifted(1, 42) == 0x400_0000_0000,
        shifted(1, 43) == 0x800_0000_0000,
        shifted(1, 44) == 0x1000_0000_0000,
        shifted(1, 45) == 0x2000_0000_0000,
        shifted(1, 46) == 0x4000_0000_0000,
        shifted(1, 47) == 0x8000_0000_0000,
        shifted(1, 48) == 0x1_0000_0000_0000,
        shifted(1, 49) == 0x2_0000_0000_0000,
{
    reveal_with_fuel(shifted, 50);
}

/// The weight at index `i`, whose exponent field is `e` and whose fraction
/// field is `f`, adds its significand times a power of two to the total.
proof fn lemma_weigh(i: int, e: int, f: int)
    requires
        0 <= i < POINTS,
        WEIGHTS[i] == e * HIDDEN_BIT + f,
        EXPONENT_OFFSET + weight_unit() <= e < 2047,
        0 <= f < HIDDEN_BIT,
    ensures
        weight_total((i + 1) as nat) == weight_total(i as nat) + (HIDDEN_BIT + f) * shifted(
            1,
            (e - EXPONENT_OFFSET - weight_unit()) as nat,
        ),
{
    lemma_shifted_is_a_product(HIDDEN_BIT + f, (e - EXPONENT_OFFSET - weight_unit()) as nat);
}

/// What the weights at the indices from 0 up to 64 add to the total.
proof fn lemma_total_from_0()
    ensures
        weight_total(64) == weight_total(0) + 0xed_ac09_b48f_2334_0b84_20bd,
{
    lemma_powers_of_two();
    lemma_weigh(0, 974, 0x5_baab_365f_c09f);
    lemma_weigh(1, 975, 0x3_511b_47a4_05db);
    lemma_weigh(2, 976, 0x1_0427_4d13_150c);
    lemma_weigh(3, 976, 0xd_b605_3c28_7646);
    lemma_weigh(4, 977, 0x9_b5b8_31ff_3092);
    lemma_weigh(5, 978, 0x6_0df8_9a90_1e85);
    lemma_weigh(6, 979, 0x2_c1e9_9a02_0bd8);
    lemma_weigh(7, 979, 0xf_a36c_9487_2510);
    lemma_weigh(8, 980, 0xa_7629_06bf_c101);
    lemma_weigh(9, 981, 0x5_f396_67ee_e816);
    lemma_weigh(10, 982, 0x2_1069_34c1_8c9b);
    lemma_weigh(11, 982, 0xd_7ed9_ee4e_e279);
    lemma_weigh(12, 983, 0x7_e4b1_1db9_09f1);
    lemma_weigh(13, 984, 0x3_3503_3543_2dd1);
    lemma_weigh(14, 984, 0xe_a5b4_f5c9_d1cc);
    lemma_weigh(15, 985, 0x8_44fb_82c8_bc3b);
    lemma_weigh(16, 986, 0x3_141d_7cd3_8d23);
    lemma_weigh(17, 986, 0xd_c7c1_cb9e_17be);
    lemma_weigh(18, 987, 0x7_13f9_027b_f94c);
    lemma_weigh(19, 988, 0x1_c272_fcff_345f);
    lemma_weigh(20, 988, 0xb_2569_59c5_ec33);
    lemma_weigh(21, 989, 0x4_9b5c_933a_a3ef);
    lemma_weigh(22, 989, 0xf_13ed_ddb2_31e5);
    lemma_weigh(23, 990, 0x7_480a_b73c_60eb);
    lemma_weigh(24, 991, 0x1_541b_59d4_477a);
    lemma_weigh(25, 991, 0x9_a1cc_39dc_1ab0);
    lemma_weigh(26, 992, 0x2_d6c0_dbd5_2ee1);
    lemma_weigh(27, 992, 0xb_85a6_cc34_8caf);
    lemma_weigh(28, 993, 0x3_fb70_d9c5_c858);
    lemma_weigh(29, 993, 0xc_d7d5_d569_03c8);
    lemma_weigh(30, 994, 0x4_b1d6_4364_cf83);
    lemma_weigh(31, 994, 0xd_8673_83ed_5a7b);
    lemma_weigh(32, 995, 0x4_f139_b3e5_077b);
    lemma_weigh(33, 995, 0xd_8af2_ad3b_5098);
    lemma_weigh(34, 996, 0x4_b915_204b_2077);
    lemma_weigh(35, 996, 0xc_ea44_6474_8ffa);
    lemma_weigh(36, 997, 0x4_10b8_95d9_2348);
    lemma_weigh(37, 997, 0xb_b3bb_3775_9d35);
    lemma_weigh(38, 998, 0x3_061e_6287_c4ad);
    lemma_weigh(39, 998, 0x9_feec_ba89_b5a4);
    lemma_weigh(40, 999, 0x1_ac28_d334_e713);
    lemma_weigh(41, 999, 0x7_e8f0_8df6_84e7);
    lemma_weigh(42, 1000, 0x1892_6c3d_e109);
    lemma_weigh(43, 1000, 0x5_9166_e531_25f6);
    lemma_weigh(44, 1000, 0xc_c3b4_b048_a3a7);
    lemma_weigh(45, 1001, 0x3_17a8_dff9_abc0);
    lemma_weigh(46, 1001, 0x9_3ad7_b322_aadb);
    lemma_weigh(47, 1002, 0x986f_4537_1305);
    lemma_weigh(48, 1002, 0x5_bc59_bdd3_a459);
    lemma_weigh(49, 1002, 0xc_583d_8c38_c7f8);
    lemma_weigh(50, 1003, 0x2_6714_2d29_1dac);
    lemma_weigh(51, 1003, 0x7_cb94_b9ba_5332);
    lemma_weigh(52, 1003, 0xe_a409_55e0_9cef);
    lemma_weigh(53, 1004, 0x3_a5c3_c59a_2da7);
    lemma_weigh(54, 1004, 0x9_188b_59e0_c721);
    lemma_weigh(55, 1004, 0xf_edbf_a8a6_1c1e);
    lemma_weigh(56, 1005, 0x4_3b6d_903a_feef);
    lemma_weigh(57, 1005, 0x9_8afd_b91d_0cd2);
    lemma_weigh(58, 1006, 0x1034_16d6_7405);
    lemma_weigh(59, 1006, 0x4_20fd_c197_fd72);
    lemma_weigh(60, 1006, 0x9_21b3_5fc3_63e4);
    lemma_weigh(61, 1006, 0xf_43f2_90fd_2926);
    lemma_weigh(62, 1007, 0x3_612c_8f49_8bff);
    lemma_weigh(63, 1007, 0x7_f0f3_358f_ef26);
}

/// What the weights at the indices from 64 up to 128 add to the total.
proof fn lemma_total_from_64()
    ensures
        weight_total(128) == weight_total(64) + 0x24_579a_f92c_c227_9d2e_0000_0000,
{
    lemma_powers_of_two();
    lemma_weigh(64, 1007, 0xd_79c3_c898_a283);
    lemma_weigh(65, 1008, 0x2_1574_61ea_b288);
    lemma_weigh(66, 1008, 0x6_1dbb_290b_8535);
    lemma_weigh(67, 1008, 0xa_f5ad_32e4_0df9);
    lemma_weigh(68, 1009, 0x6122_31ac_7148);
    lemma_weigh(69, 1009, 0x3_d711_2921_e1c2);
    lemma_weigh(70, 1009, 0x7_f522_4a03_0fda);
    lemma_weigh(71, 1009, 0xc_d764_9833_5746);
    lemma_weigh(72, 1010, 0x1_4ef0_f95f_4bf3);
    lemma_weigh(73, 1010, 0x4_b689_2ff5_0413);
    lemma_weigh(74, 1010, 0x8_b72c_1e3a_402e);
    lemma_weigh(75, 1010, 0xd_6842_bc77_37a4);
    lemma_weigh(76, 1011, 0x1_721a_8030_e91c);
    lemma_weigh(77, 1011, 0x4_a45a_d56c_dc1f);
    lemma_weigh(78, 1011, 0x8_5b89_5607_bd04);
    lemma_weigh(79, 1011, 0xc_aa45_083a_3ef9);
    lemma_weigh(80, 1012, 0xd2a8_d798_7434);
    lemma_weigh(81, 1012, 0x3_b1e3_505c_2102);
    lemma_weigh(82, 1012, 0x6_ff9f_d547_aff0);
    lemma_weigh(83, 1012, 0xa_ca07_f52a_c98f);
    lemma_weigh(84, 1012, 0xf_20bb_3a8a_06a5);
    lemma_weigh(85, 1013, 0x2_0a75_2958_d84a);
    lemma_weigh(86, 1013, 0x4_dcb9_784b_71d6);
    lemma_weigh(87, 1013, 0x8_117e_2888_2473);
    lemma_weigh(88, 1013, 0xb_b40a_2183_f69e);
    lemma_weigh(89, 1013, 0xf_d0a6_49bb_4795);
    lemma_weigh(90, 1014, 0x2_3a56_2e91_2b78);
    lemma_weigh(91, 1014, 0x4_d74a_e8a7_34d8);
    lemma_weigh(92, 1014, 0x7_c705_59b4_9941);
    lemma_weigh(93, 1014, 0xb_11f8_3571_62b9);
    lemma_weigh(94, 1014, 0xe_c13c_2568_d2ac);
    lemma_weigh(95, 1015, 0x1_6f4b_76c1_7c5a);
    lemma_weigh(96, 1015, 0x3_ba41_3041_5d73);
    lemma_weigh(97, 1015, 0x6_4719_8c1c_bced);
    lemma_weigh(98, 1015, 0x9_1bcf_7272_e042);
    lemma_weigh(99, 1015, 0xc_3ec1_737a_485a);
    lemma_weigh(100, 1015, 0xf_b6b4_a316_3560);
    lemma_weigh(101, 1016, 0x1_c56b_9e49_6997);
    lemma_weigh(102, 1016, 0x3_e161_83f7_1340);
    lemma_weigh(103, 1016, 0x6_333f_bd06_de6d);
    lemma_weigh(104, 1016, 0x8_bf41_c4a0_1974);
    lemma_weigh(105, 1016, 0xb_89db_97b6_9e42);
    lemma_weigh(106, 1016, 0xe_97ba_49af_42ac);
    lemma_weigh(107, 1017, 0xf6e2_34a5_b306);
    lemma_weigh(108, 1017, 0x2_c88d_194e_a671);
    lemma_weigh(109, 1017, 0x4_c38a_c567_9221);
    lemma_weigh(110, 1017, 0x6_eaa4_e147_d50a);
    lemma_weigh(111, 1017, 0x9_40c1_8e00_ae8a);
    lemma_weigh(112, 1017, 0xb_c8e3_0889_cfba);
    lemma_weigh(113, 1017, 0xe_8627_2b9c_21ed);
    lemma_weigh(114, 1018, 0xbde3_675c_e483);
    lemma_weigh(115, 1018, 0x2_568a_8074_3c8a);
    lemma_weigh(116, 1018, 0x4_0ebf_0ed4_ce34);
    lemma_weigh(117, 1018, 0x5_e843_5d61_4efc);
    lemma_weigh(118, 1018, 0x7_e4e5_36b7_8bfd);
    lemma_weigh(119, 1018, 0xa_067d_32cf_688d);
    lemma_weigh(120, 1018, 0xc_4eed_eef5_4d6a);
    lemma_weigh(121, 1018, 0xe_c023_2f7a_c6fd);
    lemma_weigh(122, 1019, 0xae08_753f_057f);
    lemma_weigh(123, 1019, 0x2_1259_1d98_0714);
    lemma_weigh(124, 1019, 0x3_8e04_1e84_722e);
    lemma_weigh(125, 1019, 0x5_220c_6731_ca13);
    lemma_weigh(126, 1019, 0x6_cf76_9d02_c25e);
    lemma_weigh(127, 1019, 0x8_9748_6391_3d43);
}

/// What the weights at the indices from 128 up to 192 add to the total.
proof fn lemma_total_from_128()
    ensures
        weight_total(192) == weight_total(128) + 0x576_aa2b_d789_c26a_c000_0000_0000,
{
    lemma_powers_of_two();
    lemma_weigh(128, 1019, 0xa_7a87_97be_79a0);
    lemma_weigh(129, 1019, 0xc_7a39_7da9_ea43);
    lemma_weigh(130, 1019, 0xe_9761_e171_0d5f);
    lemma_weigh(131, 1020, 0x6981_1552_ec6a);
    lemma_weigh(132, 1020, 0x1_970c_313b_0d55);
    lemma_weigh(133, 1020, 0x2_d4cf_1646_4c57);
    lemma_weigh(134, 1020, 0x4_2343_d962_74f3);
    lemma_weigh(135, 1020, 0x5_82e1_41ee_881b);
    lemma_weigh(136, 1020, 0x6_f41a_32b1_ebac);
    lemma_weigh(137, 1020, 0x8_775d_0c9c_8262);
    lemma_weigh(138, 1020, 0xa_0d13_0b86_403f);
    lemma_weigh(139, 1020, 0xb_b59f_9d31_ec70);
    lemma_weigh(140, 1020, 0xd_715f_b2e4_f1be);
    lemma_weigh(141, 1020, 0xf_40a9_0df5_5c69);
    lemma_weigh(142, 1021, 0x91e4_c3df_b6bf);
    lemma_weigh(143, 1021, 0x1_8d83_2ac2_b9c5);
    lemma_weigh(144, 1021, 0x2_934d_a467_6982);
    lemma_weigh(145, 1021, 0x3_a35d_0677_2010);
    lemma_weigh(146, 1021, 0x4_bdc4_b135_8357);
    lemma_weigh(147, 1021, 0x5_e292_2c8e_dfe8);
    lemma_weigh(148, 1021, 0x7_11cc_c4f2_eb23);
    lemma_weigh(149, 1021, 0x8_4b75_2879_49c4);
    lemma_weigh(150, 1021, 0x9_8f85_04d7_f5a6);
    lemma_weigh(151, 1021, 0xa_ddee_a6be_52c3);
    lemma_weigh(152, 1021, 0xc_369c_9b32_4ed7);
    lemma_weigh(153, 1021, 0xd_9971_5397_2829);
    lemma_weigh(154, 1021, 0xf_0646_cd0f_47d8);
    lemma_weigh(155, 1022, 0x3e77_1df9_ea4e);
    lemma_weigh(156, 1022, 0xfe97_de12_8bdd);
    lemma_weigh(157, 1022, 0x1_c365_037f_2945);
    lemma_weigh(158, 1022, 0x2_8cb9_17df_0509);
    lemma_weigh(159, 1022, 0x3_5a69_b39c_72be);
    lemma_weigh(160, 1022, 0x4_2c47_63d8_6ac7);
    lemma_weigh(161, 1022, 0x5_021d_94d6_11b1);
    lemma_weigh(162, 1022, 0x5_dbb2_8154_0700);
    lemma_weigh(163, 1022, 0x6_b8c7_2740_4c29);
    lemma_weigh(164, 1022, 0x7_9917_4231_7460);
    lemma_weigh(165, 1022, 0x8_7c59_4c0c_7c50);
    lemma_weigh(166, 1022, 0x9_623e_843a_131a);
    lemma_weigh(167, 1022, 0xa_4a72_fdc8_3552);
    lemma_weigh(168, 1022, 0xb_349d_b4cd_b2e4);
    lemma_weigh(169, 1022, 0xc_2060_ab5c_88ba);
    lemma_weigh(170, 1022, 0xd_0d59_0e45_db9d);
    lemma_weigh(171, 1022, 0xd_fb1f_61e6_daa6);
    lemma_weigh(172, 1022, 0xe_e947_b728_e390);
    lemma_weigh(173, 1022, 0xf_d761_e8d0_fdcd);
    lemma_weigh(174, 1023, 0x627c_f095_9887);
    lemma_weigh(175, 1023, 0xd8cb_f406_bf9d);
    lemma_weigh(176, 1023, 0x1_4e60_7c8e_3a85);
    lemma_weigh(177, 1023, 0x1_c2fb_9114_42b1);
    lemma_weigh(178, 1023, 0x2_365c_f4b3_eebb);
    lemma_weigh(179, 1023, 0x2_a843_5d9e_23cc);
    lemma_weigh(180, 1023, 0x3_186c_af90_1e08);
    lemma_weigh(181, 1023, 0x3_8696_39a0_d3e0);
    lemma_weigh(182, 1023, 0x3_f27c_f71e_3b24);
    lemma_weigh(183, 1023, 0x4_5bdd_d329_6a85);
    lemma_weigh(184, 1023, 0x4_c275_eeb6_da7a);
    lemma_weigh(185, 1023, 0x5_2602_e88e_c8e2);
    lemma_weigh(186, 1023, 0x5_8643_26e1_205e);
    lemma_weigh(187, 1023, 0x5_e2f6_21f8_629d);
    lemma_weigh(188, 1023, 0x6_3bdc_af90_1814);
    lemma_weigh(189, 1023, 0x6_90b9_4e4d_50a0);
    lemma_weigh(190, 1023, 0x6_e150_70d2_eec2);
    lemma_weigh(191, 1023, 0x7_2d68_c7e7_e769);
}

/// What the weights at the indices from 192 up to 256 add to the total.
proof fn lemma_total_from_192()
    ensures
        weight_total(256) == weight_total(192) + 0x97c_6073_a12f_820a_8000_0000_0000,
{
    lemma_powers_of_two();
    lemma_weigh(192, 1023, 0x7_74cb_8b23_6ab9);
    lemma_weigh(193, 1023, 0x7_b744_bf92_231c);
    lemma_weigh(194, 1023, 0x7_f4a3_7bc8_7019);
    lemma_weigh(195, 1023, 0x8_2cba_28d7_c24b);
    lemma_weigh(196, 1023, 0x8_5f5e_bfa1_0b92);
    lemma_weigh(197, 1023, 0x8_8c6b_0203_9076);
    lemma_weigh(198, 1023, 0x8_b3bc_af6e_45b2);
    lemma_weigh(199, 1023, 0x8_d535_b462_3a13);
    lemma_weigh(200, 1023, 0x8_f0bc_547e_44f4);
    lemma_weigh(201, 1023, 0x9_063b_4eb7_3361);
    lemma_weigh(202, 1023, 0x9_15a1_fb6b_d972);
    lemma_weigh(203, 1023, 0x9_1ee4_6411_9f09);
    lemma_weigh(204, 1023, 0x9_21fb_5444_2d18);
    lemma_weigh(205, 1023, 0x9_1ee4_6411_9f09);
    lemma_weigh(206, 1023, 0x9_15a1_fb6b_d972);
    lemma_weigh(207, 1023, 0x9_063b_4eb7_3361);
    lemma_weigh(208, 1023, 0x8_f0bc_547e_44f4);
    lemma_weigh(209, 1023, 0x8_d535_b462_3a13);
    lemma_weigh(210, 1023, 0x8_b3bc_af6e_45b2);
    lemma_weigh(211, 1023, 0x8_8c6b_0203_9076);
    lemma_weigh(212, 1023, 0x8_5f5e_bfa1_0b92);
    lemma_weigh(213, 1023, 0x8_2cba_28d7_c24b);
    lemma_weigh(214, 1023, 0x7_f4a3_7bc8_7019);
    lemma_weigh(215, 1023, 0x7_b744_bf92_231c);
    lemma_weigh(216, 1023, 0x7_74cb_8b23_6ab9);
    lemma_weigh(217, 1023, 0x7_2d68_c7e7_e769);
    lemma_weigh(218, 1023, 0x6_e150_70d2_eec2);
    lemma_weigh(219, 1023, 0x6_90b9_4e4d_50a0);
    lemma_weigh(220, 1023, 0x6_3bdc_af90_1814);
    lemma_weigh(221, 1023, 0x5_e2f6_21f8_629d);
    lemma_weigh(222, 1023, 0x5_8643_26e1_205e);
    lemma_weigh(223, 1023, 0x5_2602_e88e_c8e2);
    lemma_weigh(224, 1023, 0x4_c275_eeb6_da7a);
    lemma_weigh(225, 1023, 0x4_5bdd_d329_6a85);
    lemma_weigh(226, 1023, 0x3_f27c_f71e_3b24);
    lemma_weigh(227, 1023, 0x3_8696_39a0_d3e0);
    lemma_weigh(228, 1023, 0x3_186c_af90_1e08);
    lemma_weigh(229, 1023, 0x2_a843_5d9e_23cc);
    lemma_weigh(230, 1023, 0x2_365c_f4b3_eebb);
    lemma_weigh(231, 1023, 0x1_c2fb_9114_42b1);
    lemma_weigh(232, 1023, 0x1_4e60_7c8e_3a85);
    lemma_weigh(233, 1023, 0xd8cb_f406_bf9d);
    lemma_weigh(234, 1023, 0x627c_f095_9887);
    lemma_weigh(235, 1022, 0xf_d761_e8d0_fdcd);
    lemma_weigh(236, 1022, 0xe_e947_b728_e390);
    lemma_weigh(237, 1022, 0xd_fb1f_61e6_daa6);
    lemma_weigh(238, 1022, 0xd_0d59_0e45_db9d);
    lemma_weigh(239, 1022, 0xc_2060_ab5c_88ba);
    lemma_weigh(240, 1022, 0xb_349d_b4cd_b2e4);
    lemma_weigh(241, 1022, 0xa_4a72_fdc8_3552);
    lemma_weigh(242, 1022, 0x9_623e_843a_131a);
    lemma_weigh(243, 1022, 0x8_7c59_4c0c_7c50);
    lemma_weigh(244, 1022, 0x7_9917_4231_7460);
    lemma_weigh(245, 1022, 0x6_b8c7_2740_4c29);
    lemma_weigh(246, 1022, 0x5_dbb2_8154_0700);
    lemma_weigh(247, 1022, 0x5_021d_94d6_11b1);
    lemma_weigh(248, 1022, 0x4_2c47_63d8_6ac7);
    lemma_weigh(249, 1022, 0x3_5a69_b39c_72be);
    lemma_weigh(250, 1022, 0x2_8cb9_17df_0509);
    lemma_weigh(251, 1022, 0x1_c365_037f_2945);
    lemma_weigh(252, 1022, 0xfe97_de12_8bdd);
    lemma_weigh(253, 1022, 0x3e77_1df9_ea4e);
    lemma_weigh(254, 1021, 0xf_0646_cd0f_47d8);
    lemma_weigh(255, 1021, 0xd_9971_5397_2829);
}

/// What the weights at the indices from 256 up to 320 add to the total.
proof fn lemma_total_from_256()
    ensures
        weight_total(320) == weight_total(256) + 0xe8_3c02_8af2_4e83_1c80_0000_0000,
{
    lemma_powers_of_two();
    lemma_weigh(256, 1021, 0xc_369c_9b32_4ed7);
    lemma_weigh(257, 1021, 0xa_ddee_a6be_52c3);
    lemma_weigh(258, 1021, 0x9_8f85_04d7_f5a6);
    lemma_weigh(259, 1021, 0x8_4b75_2879_49c4);
    lemma_weigh(260, 1021, 0x7_11cc_c4f2_eb23);
    lemma_weigh(261, 1021, 0x5_e292_2c8e_dfe8);
    lemma_weigh(262, 1021, 0x4_bdc4_b135_8357);
    lemma_weigh(263, 1021, 0x3_a35d_0677_2010);
    lemma_weigh(264, 1021, 0x2_934d_a467_6982);
    lemma_weigh(265, 1021, 0x1_8d83_2ac2_b9c5);
    lemma_weigh(266, 1021, 0x91e4_c3df_b6bf);
    lemma_weigh(267, 1020, 0xf_40a9_0df5_5c69);
    lemma_weigh(268, 1020, 0xd_715f_b2e4_f1be);
    lemma_weigh(269, 1020, 0xb_b59f_9d31_ec70);
    lemma_weigh(270, 1020, 0xa_0d13_0b86_403f);
    lemma_weigh(271, 1020, 0x8_775d_0c9c_8262);
    lemma_weigh(272, 1020, 0x6_f41a_32b1_ebac);
    lemma_weigh(273, 1020, 0x5_82e1_41ee_881b);
    lemma_weigh(274, 1020, 0x4_2343_d962_74f3);
    lemma_weigh(275, 1020, 0x2_d4cf_1646_4c57);
    lemma_weigh(276, 1020, 0x1_970c_313b_0d55);
    lemma_weigh(277, 1020, 0x6981_1552_ec6a);
    lemma_weigh(278, 1019, 0xe_9761_e171_0d5f);
    lemma_weigh(279, 1019, 0xc_7a39_7da9_ea43);
    lemma_weigh(280, 1019, 0xa_7a87_97be_79a0);
    lemma_weigh(281, 1019, 0x8_9748_6391_3d43);
    lemma_weigh(282, 1019, 0x6_cf76_9d02_c25e);
    lemma_weigh(283, 1019, 0x5_220c_6731_ca13);
    lemma_weigh(284, 1019, 0x3_8e04_1e84_722e);
    lemma_weigh(285, 1019, 0x2_1259_1d98_0714);
    lemma_weigh(286, 1019, 0xae08_753f_057f);
    lemma_weigh(287, 1018, 0xe_c023_2f7a_c6fd);
    lemma_weigh(288, 1018, 0xc_4eed_eef5_4d6a);
    lemma_weigh(289, 1018, 0xa_067d_32cf_688d);
    lemma_weigh(290, 1018, 0x7_e4e5_36b7_8bfd);
    lemma_weigh(291, 1018, 0x5_e843_5d61_4efc);
    lemma_weigh(292, 1018, 0x4_0ebf_0ed4_ce34);
    lemma_weigh(293, 1018, 0x2_568a_8074_3c8a);
    lemma_weigh(294, 1018, 0xbde3_675c_e483);
    lemma_weigh(295, 1017, 0xe_8627_2b9c_21ed);
    lemma_weigh(296, 1017, 0xb_c8e3_0889_cfba);
    lemma_weigh(297, 1017, 0x9_40c1_8e00_ae8a);
    lemma_weigh(298, 1017, 0x6_eaa4_e147_d50a);
    lemma_weigh(299, 1017, 0x4_c38a_c567_9221);
    lemma_weigh(300, 1017, 0x2_c88d_194e_a671);
    lemma_weigh(301, 1017, 0xf6e2_34a5_b306);
    lemma_weigh(302, 1016, 0xe_97ba_49af_42ac);
    lemma_weigh(303, 1016, 0xb_89db_97b6_9e42);
    lemma_weigh(304, 1016, 0x8_bf41_c4a0_1974);
    lemma_weigh(305, 1016, 0x6_333f_bd06_de6d);
    lemma_weigh(306, 1016, 0x3_e161_83f7_1340);
    lemma_weigh(307, 1016, 0x1_c56b_9e49_6997);
    lemma_weigh(308, 1015, 0xf_b6b4_a316_3560);
    lemma_weigh(309, 1015, 0xc_3ec1_737a_485a);
    lemma_weigh(310, 1015, 0x9_1bcf_7272_e042);
    lemma_weigh(311, 1015, 0x6_4719_8c1c_bced);
    lemma_weigh(312, 1015, 0x3_ba41_3041_5d73);
    lemma_weigh(313, 1015, 0x1_6f4b_76c1_7c5a);
    lemma_weigh(314, 1014, 0xe_c13c_2568_d2ac);
    lemma_weigh(315, 1014, 0xb_11f8_3571_62b9);
    lemma_weigh(316, 1014, 0x7_c705_59b4_9941);
    lemma_weigh(317, 1014, 0x4_d74a_e8a7_34d8);
    lemma_weigh(318, 1014, 0x2_3a56_2e91_2b78);
    lemma_weigh(319, 1013, 0xf_d0a6_49bb_4795);
}

/// What the weights at the indices from 320 up to 384 add to the total.
proof fn lemma_total_from_320()
    ensures
        weight_total(384) == weight_total(320) + 0x60d5_56b7_000b_e0c3_36a0_0000,
{
    lemma_powers_of_two();
    lemma_weigh(320, 1013, 0xb_b40a_2183_f69e);
    lemma_weigh(321, 1013, 0x8_117e_2888_2473);
    lemma_weigh(322, 1013, 0x4_dcb9_784b_71d6);
    lemma_weigh(323, 1013, 0x2_0a75_2958_d84a);
    lemma_weigh(324, 1012, 0xf_20bb_3a8a_06a5);
    lemma_weigh(325, 1012, 0xa_ca07_f52a_c98f);
    lemma_weigh(326, 1012, 0x6_ff9f_d547_aff0);
    lemma_weigh(327, 1012, 0x3_b1e3_505c_2102);
    lemma_weigh(328, 1012, 0xd2a8_d798_7434);
    lemma_weigh(329, 1011, 0xc_aa45_083a_3ef9);
    lemma_weigh(330, 1011, 0x8_5b89_5607_bd04);
    lemma_weigh(331, 1011, 0x4_a45a_d56c_dc1f);
    lemma_weigh(332, 1011, 0x1_721a_8030_e91c);
    lemma_weigh(333, 1010, 0xd_6842_bc77_37a4);
    lemma_weigh(334, 1010, 0x8_b72c_1e3a_402e);
    lemma_weigh(335, 1010, 0x4_b689_2ff5_0413);
    lemma_weigh(336, 1010, 0x1_4ef0_f95f_4bf3);
    lemma_weigh(337, 1009, 0xc_d764_9833_5746);
    lemma_weigh(338, 1009, 0x7_f522_4a03_0fda);
    lemma_weigh(339, 1009, 0x3_d711_2921_e1c2);
    lemma_weigh(340, 1009, 0x6122_31ac_7148);
    lemma_weigh(341, 1008, 0xa_f5ad_32e4_0df9);
    lemma_weigh(342, 1008, 0x6_1dbb_290b_8535);
    lemma_weigh(343, 1008, 0x2_1574_61ea_b288);
    lemma_weigh(344, 1007, 0xd_79c3_c898_a283);
    lemma_weigh(345, 1007, 0x7_f0f3_358f_ef26);
    lemma_weigh(346, 1007, 0x3_612c_8f49_8bff);
    lemma_weigh(347, 1006, 0xf_43f2_90fd_2926);
    lemma_weigh(348, 1006, 0x9_21b3_5fc3_63e4);
    lemma_weigh(349, 1006, 0x4_20fd_c197_fd72);
    lemma_weigh(350, 1006, 0x1034_16d6_7405);
    lemma_weigh(351, 1005, 0x9_8afd_b91d_0cd2);
    lemma_weigh(352, 1005, 0x4_3b6d_903a_feef);
    lemma_weigh(353, 1004, 0xf_edbf_a8a6_1c1e);
    lemma_weigh(354, 1004, 0x9_188b_59e0_c721);
    lemma_weigh(355, 1004, 0x3_a5c3_c59a_2da7);
    lemma_weigh(356, 1003, 0xe_a409_55e0_9cef);
    lemma_weigh(357, 1003, 0x7_cb94_b9ba_5332);
    lemma_weigh(358, 1003, 0x2_6714_2d29_1dac);
    lemma_weigh(359, 1002, 0xc_583d_8c38_c7f8);
    lemma_weigh(360, 1002, 0x5_bc59_bdd3_a459);
    lemma_weigh(361, 1002, 0x986f_4537_1305);
    lemma_weigh(362, 1001, 0x9_3ad7_b322_aadb);
    lemma_weigh(363, 1001, 0x3_17a8_dff9_abc0);
    lemma_weigh(364, 1000, 0xc_c3b4_b048_a3a7);
    lemma_weigh(365, 1000, 0x5_9166_e531_25f6);
    lemma_weigh(366, 1000, 0x1892_6c3d_e109);
    lemma_weigh(367, 999, 0x7_e8f0_8df6_84e7);
    lemma_weigh(368, 999, 0x1_ac28_d334_e713);
    lemma_weigh(369, 998, 0x9_feec_ba89_b5a4);
    lemma_weigh(370, 998, 0x3_061e_6287_c4ad);
    lemma_weigh(371, 997, 0xb_b3bb_3775_9d35);
    lemma_weigh(372, 997, 0x4_10b8_95d9_2348);
    lemma_weigh(373, 996, 0xc_ea44_6474_8ffa);
    lemma_weigh(374, 996, 0x4_b915_204b_2077);
    lemma_weigh(375, 995, 0xd_8af2_ad3b_5098);
    lemma_weigh(376, 995, 0x4_f139_b3e5_077b);
    lemma_weigh(377, 994, 0xd_8673_83ed_5a7b);
    lemma_weigh(378, 994, 0x4_b1d6_4364_cf83);
    lemma_weigh(379, 993, 0xc_d7d5_d569_03c8);
    lemma_weigh(380, 993, 0x3_fb70_d9c5_c858);
    lemma_weigh(381, 992, 0xb_85a6_cc34_8caf);
    lemma_weigh(382, 992, 0x2_d6c0_dbd5_2ee1);
    lemma_weigh(383, 991, 0x9_a1cc_39dc_1ab0);
}

/// What the weights at the indices from 384 up to 409 add to the total.
proof fn lemma_total_from_384()
    ensures
        weight_total(409) == weight_total(384) + 0x66_f610_031e_d4e4_20bd,
{
    lemma_powers_of_two();
    lemma_weigh(384, 991, 0x1_541b_59d4_477a);
    lemma_weigh(385, 990, 0x7_480a_b73c_60eb);
    lemma_weigh(386, 989, 0xf_13ed_ddb2_31e5);
    lemma_weigh(387, 989, 0x4_9b5c_933a_a3ef);
    lemma_weigh(388, 988, 0xb_2569_59c5_ec33);
    lemma_weigh(389, 988, 0x1_c272_fcff_345f);
    lemma_weigh(390, 987, 0x7_13f9_027b_f94c);
    lemma_weigh(391, 986, 0xd_c7c1_cb9e_17be);
    lemma_weigh(392, 986, 0x3_141d_7cd3_8d23);
    lemma_weigh(393, 985, 0x8_44fb_82c8_bc3b);
    lemma_weigh(394, 984, 0xe_a5b4_f5c9_d1cc);
    lemma_weigh(395, 984, 0x3_3503_3543_2dd1);
    lemma_weigh(396, 983, 0x7_e4b1_1db9_09f1);
    lemma_weigh(397, 982, 0xd_7ed9_ee4e_e279);
    lemma_weigh(398, 982, 0x2_1069_34c1_8c9b);
    lemma_weigh(399, 981, 0x5_f396_67ee_e816);
    lemma_weigh(400, 980, 0xa_7629_06bf_c101);
    lemma_weigh(401, 979, 0xf_a36c_9487_2510);
    lemma_weigh(402, 979, 0x2_c1e9_9a02_0bd8);
    lemma_weigh(403, 978, 0x6_0df8_9a90_1e85);
    lemma_weigh(404, 977, 0x9_b5b8_31ff_3092);
    lemma_weigh(405, 976, 0xd_b605_3c28_7646);
    lemma_weigh(406, 976, 0x1_0427_4d13_150c);
    lemma_weigh(407, 975, 0x3_511b_47a4_05db);
    lemma_weigh(408, 974, 0x5_baab_365f_c09f);
}

/// All weights together.
proof fn lemma_weight_total()
    ensures
        weight_total(POINTS as nat) == 0xfff_ffff_ffff_ffcb_00c4_1708_417a,
{
    lemma_total_from_0();
    lemma_total_from_64();
    lemma_total_from_128();
    lemma_total_from_192();
    lemma_total_from_256();
    lemma_total_from_320();
    lemma_total_from_384();
}

/// Doubling `j + k` times is doubling `j` times and then `k` times.
proof fn lemma_shifted_in_two_steps(x: int, j: nat, k: nat)
    ensures
        shifted(x, j + k) == shifted(shifted(x, j), k),
    decreases k,
{
    if k > 0 {
        lemma_shifted_in_two_steps(x, j, (k - 1) as nat);
    }
}

/// Two to the power 107, written out.
proof fn lemma_one_in_units()
    ensures
        shifted(1, 107) == 0x800_0000_0000_0000_0000_0000_0000,
{
    lemma_powers_of_two();
    lemma_shifted_in_two_steps(1, 49, 49);
    lemma_shifted_is_a_product(0x2_0000_0000_0000, 49);
    lemma_shifted_in_two_steps(1, 98, 9);
    lemma_shifted_is_a_product(0x4_0000_0000_0000_0000_0000_0000, 9);
}

/// The step times the sum of all weights is two, within one part in a
/// thousand million.
///
/// Every weight is a whole number of units of two to the power
/// [`weight_unit`], and the step is exactly two to the power
/// [`step_exponent`]. The step times the sum is therefore
/// `weight_total(POINTS)` units of two to the power -107, of which
/// `shifted(1, 107)` make one.
pub proof fn lemma_weights_sum_to_two()
    ensures
        forall|i: int| 0 <= i < POINTS ==> weight_unit() <= lsb_exponent(#[trigger] WEIGHTS[i]),
        significand(H) == HIDDEN_BIT,
        lsb_exponent(H) + 52 == step_exponent(),
        ({
            let one = shifted(1, (-(weight_unit() + step_exponent())) as nat);
            let off = weight_total(POINTS as nat) - 2 * one;
            -one <= 1_000_000_000 * off <= one
        }),
{
    lemma_weight_total();
    lemma_one_in_units();
}

} // verus!
