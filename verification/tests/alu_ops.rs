use nulldc::alu::{
    sext16, sext8, sh4_add, sh4_addc, sh4_addv, sh4_cmp_ge, sh4_cmp_gt, sh4_cmp_hi, sh4_cmp_hs, sh4_cmp_pl,
    sh4_cmp_pz, sh4_cmp_str, sh4_dmuls, sh4_dmulu, sh4_dt, sh4_extsb, sh4_extsw, sh4_extub, sh4_extuw,
    sh4_mac_w_mul, sh4_mulsw, sh4_muls32, sh4_muluw, sh4_neg, sh4_negc, sh4_not, sh4_rotcl, sh4_rotcr,
    sh4_rotl, sh4_rotr, sh4_shad, sh4_shar, sh4_shld, sh4_shll, sh4_shlr, sh4_sub, sh4_subc, sh4_subv,
    sh4_swapb, sh4_swapw, sh4_tst, sh4_xtrct, sh4_rbank_switch, sh4_frchg,
};

#[test]
fn sign_extension_of_bytes_and_words() {
    assert_eq!(sext8(0x7F), 0x7F);
    assert_eq!(sext8(0x80), 0xFFFF_FF80);
    assert_eq!(sext8(0x1234_56FF), 0xFFFF_FFFF);
    assert_eq!(sext16(0x7FFF), 0x7FFF);
    assert_eq!(sext16(0xABCD_8000), 0xFFFF_8000);
    let mut d = 0u32;
    sh4_extsb(&mut d, 0x0000_00F0);
    assert_eq!(d, 0xFFFF_FFF0);
    sh4_extsw(&mut d, 0x0001_7FFF);
    assert_eq!(d, 0x7FFF);
    sh4_extub(&mut d, 0xFFFF_FFF0);
    assert_eq!(d, 0xF0);
    sh4_extuw(&mut d, 0xFFFF_8001);
    assert_eq!(d, 0x8001);
}

#[test]
fn add_sub_neg_wrap() {
    let mut d = 0u32;
    sh4_add(&mut d, 0xFFFF_FFFF, 2);
    assert_eq!(d, 1);
    sh4_sub(&mut d, 1, 2);
    assert_eq!(d, 0xFFFF_FFFF);
    sh4_neg(&mut d, 1);
    assert_eq!(d, 0xFFFF_FFFF);
    sh4_neg(&mut d, 0);
    assert_eq!(d, 0);
}

#[test]
fn carry_and_borrow_chains() {
    let mut t = 1u32;
    let mut d = 0u32;
    sh4_addc(&mut t, &mut d, 0xFFFF_FFFF, 0);
    assert_eq!((d, t), (0, 1));
    t = 0;
    sh4_addc(&mut t, &mut d, 5, 6);
    assert_eq!((d, t), (11, 0));
    t = 1;
    sh4_subc(&mut t, &mut d, 5, 5);
    assert_eq!((d, t), (0xFFFF_FFFF, 1));
    t = 0;
    sh4_subc(&mut t, &mut d, 7, 5);
    assert_eq!((d, t), (2, 0));
    t = 0;
    sh4_negc(&mut t, &mut d, 1);
    assert_eq!((d, t), (0xFFFF_FFFF, 1));
    t = 0;
    sh4_negc(&mut t, &mut d, 0);
    assert_eq!((d, t), (0, 0));
}

#[test]
fn overflow_flags() {
    let mut t = 0u32;
    let mut d = 0u32;
    sh4_addv(&mut t, &mut d, 0x7FFF_FFFF, 1);
    assert_eq!((d, t), (0x8000_0000, 1));
    sh4_addv(&mut t, &mut d, 1, 2);
    assert_eq!((d, t), (3, 0));
    sh4_subv(&mut t, &mut d, 0x8000_0000, 1);
    assert_eq!((d, t), (0x7FFF_FFFF, 1));
    sh4_subv(&mut t, &mut d, 5, 3);
    assert_eq!((d, t), (2, 0));
}

#[test]
fn comparisons() {
    let mut t = 0u32;
    sh4_cmp_hs(&mut t, 0xFFFF_FFFF, 1);
    assert_eq!(t, 1);
    sh4_cmp_ge(&mut t, 0xFFFF_FFFF, 1);
    assert_eq!(t, 0);
    sh4_cmp_hi(&mut t, 2, 2);
    assert_eq!(t, 0);
    sh4_cmp_gt(&mut t, 2, 0xFFFF_FFFE);
    assert_eq!(t, 1);
    sh4_cmp_pz(&mut t, 0);
    assert_eq!(t, 1);
    sh4_cmp_pl(&mut t, 0);
    assert_eq!(t, 0);
    sh4_tst(&mut t, 0xF0, 0x0F);
    assert_eq!(t, 1);
    sh4_cmp_str(&mut t, 0x1122_3344, 0x5566_3377);
    assert_eq!(t, 1);
    sh4_cmp_str(&mut t, 0x1122_3344, 0x5566_7788);
    assert_eq!(t, 0);
}

#[test]
fn shifts_and_rotates() {
    let mut t = 0u32;
    let mut d = 0u32;
    sh4_shll(&mut t, &mut d, 0x8000_0001);
    assert_eq!((d, t), (2, 1));
    sh4_shlr(&mut t, &mut d, 3);
    assert_eq!((d, t), (1, 1));
    sh4_shar(&mut t, &mut d, 0x8000_0000);
    assert_eq!((d, t), (0xC000_0000, 0));
    sh4_rotl(&mut t, &mut d, 0x8000_0001);
    assert_eq!((d, t), (3, 1));
    sh4_rotr(&mut t, &mut d, 1);
    assert_eq!((d, t), (0x8000_0000, 1));
    t = 1;
    sh4_rotcl(&mut t, &mut d, 0x4000_0000);
    assert_eq!((d, t), (0x8000_0001, 0));
    t = 1;
    sh4_rotcr(&mut t, &mut d, 2);
    assert_eq!((d, t), (0x8000_0001, 0));
}

#[test]
fn dynamic_shifts() {
    let mut d = 0u32;
    sh4_shad(&mut d, 1, 4);
    assert_eq!(d, 16);
    // Rm = -4: arithmetic right shift by 4.
    sh4_shad(&mut d, 0x8000_0000, 0xFFFF_FFFC);
    assert_eq!(d, 0xF800_0000);
    // Rm = -32 (low five bits zero): all sign bits.
    sh4_shad(&mut d, 0x8000_0000, 0xFFFF_FFE0);
    assert_eq!(d, 0xFFFF_FFFF);
    sh4_shad(&mut d, 0x7000_0000, 0xFFFF_FFE0);
    assert_eq!(d, 0);
    sh4_shld(&mut d, 0x8000_0000, 0xFFFF_FFFC);
    assert_eq!(d, 0x0800_0000);
    sh4_shld(&mut d, 0x8000_0000, 0xFFFF_FFE0);
    assert_eq!(d, 0);
    sh4_shld(&mut d, 3, 1);
    assert_eq!(d, 6);
}

#[test]
fn decrement_and_test() {
    let mut t = 0u32;
    let mut d = 1u32;
    sh4_dt(&mut t, &mut d);
    assert_eq!((d, t), (0, 1));
    sh4_dt(&mut t, &mut d);
    assert_eq!((d, t), (0xFFFF_FFFF, 0));
}

#[test]
fn multiplications() {
    let mut d = 0u32;
    sh4_muls32(&mut d, 0xFFFF_FFFF, 3);
    assert_eq!(d, 0xFFFF_FFFD);
    sh4_muluw(&mut d, 0x1_FFFF, 0x2_0002);
    assert_eq!(d, 0xFFFF * 2);
    sh4_mulsw(&mut d, 0xFFFF, 2);
    assert_eq!(d, 0xFFFF_FFFE);
    let mut q = 0u64;
    sh4_dmulu(&mut q, 0xFFFF_FFFF, 0xFFFF_FFFF);
    assert_eq!(q, 0xFFFF_FFFE_0000_0001);
    sh4_dmuls(&mut q, 0xFFFF_FFFF, 2);
    assert_eq!(q, 0xFFFF_FFFF_FFFF_FFFE);
    let mut mac = 10u64;
    sh4_mac_w_mul(&mut mac, 0xFFFF_FFFF, 3);
    assert_eq!(mac, 7);
}

#[test]
fn swaps_and_extract() {
    let mut d = 0u32;
    sh4_swapb(&mut d, 0x1122_3344);
    assert_eq!(d, 0x1122_4433);
    sh4_swapw(&mut d, 0x1122_3344);
    assert_eq!(d, 0x3344_1122);
    sh4_xtrct(&mut d, 0x1122_3344, 0x5566_7788);
    assert_eq!(d, 0x7788_1122);
    sh4_not(&mut d, 0x0F0F_0000);
    assert_eq!(d, 0xF0F0_FFFF);
}

#[test]
fn swapping_twice_restores_the_value() {
    for x in [0u32, 1, 0x1234_5678, 0xFFFF_FFFF, 0x8000_00FF] {
        let mut a = 0u32;
        let mut b = 0u32;
        sh4_swapb(&mut a, x);
        sh4_swapb(&mut b, a);
        assert_eq!(b, x);
        sh4_swapw(&mut a, x);
        sh4_swapw(&mut b, a);
        assert_eq!(b, x);
        let mut t = 0u32;
        sh4_rotl(&mut t, &mut a, x);
        sh4_rotr(&mut t, &mut b, a);
        assert_eq!(b, x);
    }
}

#[test]
fn register_bank_switch_exchanges_banks() {
    let mut r = [0u32; 16];
    let mut bank = [0u32; 8];
    for i in 0..16 {
        r[i] = i as u32;
    }
    for i in 0..8 {
        bank[i] = 100 + i as u32;
    }
    sh4_rbank_switch(&mut r, &mut bank);
    assert_eq!(&r[0..8], &[100, 101, 102, 103, 104, 105, 106, 107]);
    assert_eq!(bank, [0, 1, 2, 3, 4, 5, 6, 7]);
    assert_eq!(r[8], 8);
    sh4_rbank_switch(&mut r, &mut bank);
    assert_eq!(bank, [100, 101, 102, 103, 104, 105, 106, 107]);
    assert_eq!(r[3], 3);

    let mut fr = [1u32; 32];
    let mut xf = [2u32; 32];
    sh4_frchg(&mut fr, &mut xf);
    assert_eq!(&fr[0..16], &[2u32; 16]);
    assert_eq!(&xf[0..16], &[1u32; 16]);
    assert_eq!(&fr[16..32], &[1u32; 16]);
    assert_eq!(&xf[16..32], &[2u32; 16]);
}
