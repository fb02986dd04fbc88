//! The SH-4 instruction set: the opcode table and what each instruction
//! does to the CPU context.

use vstd::prelude::*;
use vstd::string::StringSliceAdditionalSpecFns;
use crate::alu::{flag, overflows32, pow32, sh4_add, sh4_addc, sh4_addi, sh4_addv, sh4_and, sh4_and_imm, sh4_andi, sh4_clrt, sh4_cmp_eq, sh4_cmp_eq_imm, sh4_cmp_ge, sh4_cmp_gt, sh4_cmp_hi, sh4_cmp_hs, sh4_cmp_pl, sh4_cmp_pz, sh4_cmp_str, sh4_dmuls, sh4_dmulu, sh4_dt, sh4_extsb, sh4_extsw, sh4_extub, sh4_extuw, sh4_fabs, sh4_fneg, sh4_frchg, sh4_fschg, sh4_mac_l_mul, sh4_mac_w_mul, sh4_muls32, sh4_mulsw, sh4_muluw, sh4_neg, sh4_negc, sh4_not, sh4_or, sh4_or_imm, sh4_rotcl, sh4_rotcr, sh4_rotl, sh4_rotr, sh4_sett, sh4_shad, sh4_shal, sh4_shar, sh4_shld, sh4_shll, sh4_shllf, sh4_shlr, sh4_shlrf, sh4_sub, sh4_subc, sh4_subv, sh4_swapb, sh4_swapw, sh4_tst, sh4_tst_imm, sh4_xor, sh4_xor_imm, sh4_xtrct, signed16, signed32, signed8, some_byte_equal, spec_shad, spec_shld, spec_swapb, spec_swapw, wrap32, wrap64};
use crate::bits::{lemma_mask_u32};
use crate::cpu::{Sh4Ctx, mem_written, sext_read, sh4_and_mem, sh4_braf, sh4_branch_cond, sh4_branch_cond_delay, sh4_branch_delay, sh4_bsrf, sh4_jmp, sh4_jsr, sh4_or_mem, sh4_read_mem32, sh4_read_mem32i, sh4_read_mem64, sh4_read_mems16, sh4_read_mems16_i, sh4_read_mems8, sh4_rte, sh4_rts, sh4_tas, sh4_tst_mem, sh4_write_mem16, sh4_write_mem32, sh4_write_mem64, sh4_write_mem8, sh4_xor_mem, spec_full_sr, spec_read_mem, spec_write_ok};
use crate::dec::{GetImm4, GetImm8, GetM, GetN, GetSImm12, GetSImm8, NUM_OPCODE_ENTRIES, branch_target_s12, branch_target_s8, data_target_s8, entry, field_m, field_n, sentinel, sh4_opcodelistentry, simm12, simm8, spec_branch_target, spec_data_target_s8, spec_parse_opcode};
use crate::exec::{ExecOutcome, banks_after, fpscr_effects, fpu_banks_after, get_pair, imm_bits, lemma_sext_read16, mac_h, mac_l, mac_parts, only_r, only_r_t, only_t, pair_of, pair_set, pref_post, set_pair, sh4_pref, store_dec_post, store_post, with_mac_h, with_mac_h_exec, with_mac_l, with_mac_l_exec};
use crate::regs::{FpscrReg, SrStatus, bit_of, div1_q, div1_result, sh4_div0s, sh4_div0u, sh4_div1, sh4_store_fpscr, sh4_store_sr_rest, spec_sr_rest, with_bit};

verus! {

/// The instructions of the opcode table, in table order.
#[derive(Clone, Copy, PartialEq, Eq, Structural, Debug)]
pub enum Sh4Op {
    /// `mul.l <REG_M>,<REG_N>`
    MulLRmRn,
    /// `nop`
    Nop,
    /// `sts FPUL,<REG_N>`
    StsFpulRn,
    /// `sts MACL,<REG_N>`
    StsMaclRn,
    /// `mov.b <REG_M>,@<REG_N>`
    MovBRmAtRn,
    /// `mov.w <REG_M>,@<REG_N>`
    MovWRmAtRn,
    /// `mov.l <REG_M>,@<REG_N>`
    MovLRmAtRn,
    /// `and <REG_M>,<REG_N>`
    AndRmRn,
    /// `xor <REG_M>,<REG_N>`
    XorRmRn,
    /// `sub <REG_M>,<REG_N>`
    SubRmRn,
    /// `add <REG_M>,<REG_N>`
    AddRmRn,
    /// `dt <REG_N>`
    DtRn,
    /// `shlr <REG_N>`
    ShlrRn,
    /// `shll8 <REG_N>`
    Shll8Rn,
    /// `shlr2 <REG_N>`
    Shlr2Rn,
    /// `shlr16 <REG_N>`
    Shlr16Rn,
    /// `mov.b @<REG_M>,<REG_N>`
    MovBAtRmRn,
    /// `mov <REG_M>,<REG_N>`
    MovRmRn,
    /// `neg <REG_M>,<REG_N>`
    NegRmRn,
    /// `extu.b <REG_M>,<REG_N>`
    ExtuBRmRn,
    /// `add #<simm8>,<REG_N>`
    AddImmRn,
    /// `bf <bdisp8>`
    BfDisp,
    /// `bf/s <bdisp8>`
    BfSDisp,
    /// `bra <bdisp12>`
    BraDisp,
    /// `mova @(<PCdisp8d>),R0`
    MovaAtPcDispR0,
    /// `mov.b R0,@(<disp4b>,<REG_M>)`
    MovBR0AtDispRm,
    /// `mov.w R0,@(<disp4w>,<REG_M>)`
    MovWR0AtDispRm,
    /// `mov.b @(<disp4b>,<REG_M>),R0`
    MovBAtDispRmR0,
    /// `mov.w @(<disp4w>,<REG_M>),R0`
    MovWAtDispRmR0,
    /// `cmp/eq #<simm8hex>,R0`
    CmpEqImmR0,
    /// `mov.l @(<PCdisp8d>),<REG_N>`
    MovLAtPcDispRn,
    /// `mov #<simm8hex>,<REG_N>`
    MovImmRn,
    /// `fadd <FREG_M_SD_F>,<FREG_N_SD_F>`
    FaddFmFn,
    /// `fsub <FREG_M_SD_F>,<FREG_N_SD_F>`
    FsubFmFn,
    /// `fmul <FREG_M_SD_F>,<FREG_N_SD_F>`
    FmulFmFn,
    /// `fdiv <FREG_M_SD_F>,<FREG_N_SD_F>`
    FdivFmFn,
    /// `fmov.s @<REG_M>,<FREG_N_SD_A>`
    FmovSAtRmFn,
    /// `fmov <FREG_M_SD_A>,<FREG_N_SD_A>`
    FmovFmFn,
    /// `fsca FPUL,<DR_N>`
    FscaFpulDn,
    /// `float FPUL,<FREG_N_SD_F>`
    FloatFpulFn,
    /// `ftrc <FREG_N>,FPUL`
    FtrcFnFpul,
    /// `lds <REG_N>,FPUL`
    LdsRnFpul,
    /// `stc SR,<REG_N>`
    StcSrRn,
    /// `stc GBR,<REG_N>`
    StcGbrRn,
    /// `stc VBR,<REG_N>`
    StcVbrRn,
    /// `stc SSR,<REG_N>`
    StcSsrRn,
    /// `sts SGR,<REG_N>`
    StsSgrRn,
    /// `stc SPC,<REG_N>`
    StcSpcRn,
    /// `stc RM_BANK,<REG_N>`
    StcRmBankRn,
    /// `braf <REG_N>`
    BrafRn,
    /// `bsrf <REG_N>`
    BsrfRn,
    /// `movca.l R0,@<REG_N>`
    MovcaLR0AtRn,
    /// `ocbi @<REG_N>`
    OcbiAtRn,
    /// `ocbp @<REG_N>`
    OcbpAtRn,
    /// `ocbwb @<REG_N>`
    OcbwbAtRn,
    /// `pref @<REG_N>`
    PrefAtRn,
    /// `mov.b <REG_M>,@(R0,<REG_N>)`
    MovBRmAtR0Rn,
    /// `mov.w <REG_M>,@(R0,<REG_N>)`
    MovWRmAtR0Rn,
    /// `mov.l <REG_M>,@(R0,<REG_N>)`
    MovLRmAtR0Rn,
    /// `clrmac`
    Clrmac,
    /// `clrs`
    Clrs,
    /// `clrt`
    Clrt,
    /// `ldtlb`
    Ldtlb,
    /// `sets`
    Sets,
    /// `sett`
    Sett,
    /// `div0u`
    Div0u,
    /// `movt <REG_N>`
    MovtRn,
    /// `sts FPSCR,<REG_N>`
    StsFpscrRn,
    /// `sts DBR,<REG_N>`
    StsDbrRn,
    /// `sts MACH,<REG_N>`
    StsMachRn,
    /// `rte`
    Rte,
    /// `rts`
    Rts,
    /// `sleep`
    Sleep,
    /// `mov.b @(R0,<REG_M>),<REG_N>`
    MovBAtR0RmRn,
    /// `mov.w @(R0,<REG_M>),<REG_N>`
    MovWAtR0RmRn,
    /// `mov.l @(R0,<REG_M>),<REG_N>`
    MovLAtR0RmRn,
    /// `mac.l @<REG_M>+,@<REG_N>+`
    MacLAtRmPostIncAtRnPostInc,
    /// `mov.l <REG_M>,@(<disp4dw>,<REG_N>)`
    MovLRmAtDispRn,
    /// `mov.b <REG_M>,@-<REG_N>`
    MovBRmPreDecRn,
    /// `mov.w <REG_M>,@-<REG_N>`
    MovWRmPreDecRn,
    /// `mov.l <REG_M>,@-<REG_N>`
    MovLRmPreDecRn,
    /// `div0s <REG_M>,<REG_N>`
    Div0sRmRn,
    /// `tst <REG_M>,<REG_N>`
    TstRmRn,
    /// `or <REG_M>,<REG_N>`
    OrRmRn,
    /// `cmp/str <REG_M>,<REG_N>`
    CmpStrRmRn,
    /// `xtrct <REG_M>,<REG_N>`
    XtrctRmRn,
    /// `mulu.w <REG_M>,<REG_N>`
    MuluWRmRn,
    /// `muls.w <REG_M>,<REG_N>`
    MulsWRmRn,
    /// `cmp/eq <REG_M>,<REG_N>`
    CmpEqRmRn,
    /// `cmp/hs <REG_M>,<REG_N>`
    CmpHsRmRn,
    /// `cmp/ge <REG_M>,<REG_N>`
    CmpGeRmRn,
    /// `div1 <REG_M>,<REG_N>`
    Div1RmRn,
    /// `dmulu.l <REG_M>,<REG_N>`
    DmuluLRmRn,
    /// `cmp/hi <REG_M>,<REG_N>`
    CmpHiRmRn,
    /// `cmp/gt <REG_M>,<REG_N>`
    CmpGtRmRn,
    /// `subc <REG_M>,<REG_N>`
    SubcRmRn,
    /// `subv <REG_M>,<REG_N>`
    SubvRmRn,
    /// `dmuls.l <REG_M>,<REG_N>`
    DmulsLRmRn,
    /// `addc <REG_M>,<REG_N>`
    AddcRmRn,
    /// `addv <REG_M>,<REG_N>`
    AddvRmRn,
    /// `sts.l FPUL,@-<REG_N>`
    StsLFpulPreDecRn,
    /// `sts.l FPSCR,@-<REG_N>`
    StsLFpscrPreDecRn,
    /// `sts.l MACH,@-<REG_N>`
    StsLMachPreDecRn,
    /// `sts.l MACL,@-<REG_N>`
    StsLMaclPreDecRn,
    /// `sts.l PR,@-<REG_N>`
    StsLPrPreDecRn,
    /// `stc.l DBR,@-<REG_N>`
    StcLDbrPreDecRn,
    /// `stc.l SR,@-<REG_N>`
    StcLSrPreDecRn,
    /// `stc.l GBR,@-<REG_N>`
    StcLGbrPreDecRn,
    /// `stc.l VBR,@-<REG_N>`
    StcLVbrPreDecRn,
    /// `stc.l SSR,@-<REG_N>`
    StcLSsrPreDecRn,
    /// `stc.l SPC,@-<REG_N>`
    StcLSpcPreDecRn,
    /// `stc <RM_BANK>,@-<REG_N>`
    StcRmBankPreDecRn,
    /// `lds.l @<REG_N>+,MACH`
    LdsLAtRnPostIncMach,
    /// `lds.l @<REG_N>+,MACL`
    LdsLAtRnPostIncMacl,
    /// `lds.l @<REG_N>+,PR`
    LdsLAtRnPostIncPr,
    /// `ldc.l @<REG_N>+,SGR`
    LdcLAtRnPostIncSgr,
    /// `lds.l @<REG_N>+,FPUL`
    LdsLAtRnPostIncFpul,
    /// `lds.l @<REG_N>+,FPSCR`
    LdsLAtRnPostIncFpscr,
    /// `ldc.l @<REG_N>+,DBR`
    LdcLAtRnPostIncDbr,
    /// `ldc.l @<REG_N>+,SR`
    LdcLAtRnPostIncSr,
    /// `ldc.l @<REG_N>+,GBR`
    LdcLAtRnPostIncGbr,
    /// `ldc.l @<REG_N>+,VBR`
    LdcLAtRnPostIncVbr,
    /// `ldc.l @<REG_N>+,SSR`
    LdcLAtRnPostIncSsr,
    /// `ldc.l @<REG_N>+,SPC`
    LdcLAtRnPostIncSpc,
    /// `ldc.l @<REG_N>+,RM_BANK`
    LdcLAtRnPostIncRmBank,
    /// `lds <REG_N>,MACH`
    LdsRnMach,
    /// `lds <REG_N>,MACL`
    LdsRnMacl,
    /// `lds <REG_N>,PR`
    LdsRnPr,
    /// `lds <REG_N>,FPSCR`
    LdsRnFpscr,
    /// `ldc <REG_N>,DBR`
    LdcRnDbr,
    /// `ldc <REG_N>,SR`
    LdcRnSr,
    /// `ldc <REG_N>,GBR`
    LdcRnGbr,
    /// `ldc <REG_N>,VBR`
    LdcRnVbr,
    /// `ldc <REG_N>,SSR`
    LdcRnSsr,
    /// `ldc <REG_N>,SPC`
    LdcRnSpc,
    /// `ldc <REG_N>,<RM_BANK>`
    LdcRnRmBank,
    /// `shll <REG_N>`
    ShllRn,
    /// `shal <REG_N>`
    ShalRn,
    /// `cmp/pz <REG_N>`
    CmpPzRn,
    /// `shar <REG_N>`
    SharRn,
    /// `rotcl <REG_N>`
    RotclRn,
    /// `rotl <REG_N>`
    RotlRn,
    /// `cmp/pl <REG_N>`
    CmpPlRn,
    /// `rotcr <REG_N>`
    RotcrRn,
    /// `rotr <REG_N>`
    RotrRn,
    /// `shll2 <REG_N>`
    Shll2Rn,
    /// `shll16 <REG_N>`
    Shll16Rn,
    /// `shlr8 <REG_N>`
    Shlr8Rn,
    /// `jmp @<REG_N>`
    JmpAtRn,
    /// `jsr @<REG_N>`
    JsrAtRn,
    /// `tas.b @<REG_N>`
    TasBAtRn,
    /// `shad <REG_M>,<REG_N>`
    ShadRmRn,
    /// `shld <REG_M>,<REG_N>`
    ShldRmRn,
    /// `mac.w @<REG_M>+,@<REG_N>+`
    MacWAtRmPostIncAtRnPostInc,
    /// `mov.l @(<disp4dw>,<REG_M>),<REG_N>`
    MovLAtDispRmRn,
    /// `mov.w @<REG_M>,<REG_N>`
    MovWAtRmRn,
    /// `mov.l @<REG_M>,<REG_N>`
    MovLAtRmRn,
    /// `mov.b @<REG_M>+,<REG_N>`
    MovBAtRmPostIncRn,
    /// `mov.w @<REG_M>+,<REG_N>`
    MovWAtRmPostIncRn,
    /// `mov.l @<REG_M>+,<REG_N>`
    MovLAtRmPostIncRn,
    /// `not <REG_M>,<REG_N>`
    NotRmRn,
    /// `swap.b <REG_M>,<REG_N>`
    SwapBRmRn,
    /// `swap.w <REG_M>,<REG_N>`
    SwapWRmRn,
    /// `negc <REG_M>,<REG_N>`
    NegcRmRn,
    /// `extu.w <REG_M>,<REG_N>`
    ExtuWRmRn,
    /// `exts.b <REG_M>,<REG_N>`
    ExtsBRmRn,
    /// `exts.w <REG_M>,<REG_N>`
    ExtsWRmRn,
    /// `mov.w @(<PCdisp8w>),<REG_N>`
    MovWAtPcDispRn,
    /// `bt <bdisp8>`
    BtDisp,
    /// `bt/s <bdisp8>`
    BtSDisp,
    /// `bsr <bdisp12>`
    BsrDisp,
    /// `mov.b R0,@(<disp8b>,GBR)`
    MovBR0AtDispGbr,
    /// `mov.w R0,@(<disp8w>,GBR)`
    MovWR0AtDispGbr,
    /// `mov.l R0,@(<disp8dw>,GBR)`
    MovLR0AtDispGbr,
    /// `trapa #<imm8>`
    TrapaImm,
    /// `mov.b @(<GBRdisp8b>),R0`
    MovBAtGbrDispR0,
    /// `mov.w @(<GBRdisp8w>),R0`
    MovWAtGbrDispR0,
    /// `mov.l @(<GBRdisp8dw>),R0`
    MovLAtGbrDispR0,
    /// `tst #<imm8>,R0`
    TstImmR0,
    /// `and #<imm8>,R0`
    AndImmR0,
    /// `xor #<imm8>,R0`
    XorImmR0,
    /// `or #<imm8>,R0`
    OrImmR0,
    /// `tst.b #<imm8>,@(R0,GBR)`
    TstBImmAtR0Gbr,
    /// `and.b #<imm8>,@(R0,GBR)`
    AndBImmAtR0Gbr,
    /// `xor.b #<imm8>,@(R0,GBR)`
    XorBImmAtR0Gbr,
    /// `or.b #<imm8>,@(R0,GBR)`
    OrBImmAtR0Gbr,
    /// `flds <FREG_N>,FPUL`
    FldsFnFpul,
    /// `fneg <FREG_N_SD_F>`
    FnegFn,
    /// `fabs <FREG_N_SD_F>`
    FabsFn,
    /// `fsqrt <FREG_N>`
    FsqrtFn,
    /// `fldi0 <FREG_N>`
    Fldi0Fn,
    /// `fldi1 <FREG_N>`
    Fldi1Fn,
    /// `ftrv xmtrx,<FV_N>`
    FtrvXmtrxFvn,
    /// `fcmp/eq <FREG_M_SD_F>,<FREG_N_SD_F>`
    FcmpEqFmFn,
    /// `fcmp/gt <FREG_M_SD_F>,<FREG_N_SD_F>`
    FcmpGtFmFn,
    /// `fmov.s @(R0,<REG_M>),<FREG_N_SD_A>`
    FmovSAtR0RmFn,
    /// `fmov.s <FREG_M_SD_A>,@(R0,<REG_N>)`
    FmovSFmAtR0Rn,
    /// `fmov.s @<REG_M>+,<FREG_N_SD_A>`
    FmovSAtRmPostIncFn,
    /// `fmov.s <FREG_M_SD_A>,@<REG_N>`
    FmovSFmAtRn,
    /// `fmov.s <FREG_M_SD_A>,@-<REG_N>`
    FmovSFmPreDecRn,
    /// `fcnvds <DR_N>,FPUL`
    FcnvdsDnFpul,
    /// `fcnvsd FPUL,<DR_N>`
    FcnvsdFpulDn,
    /// `fipr <FV_M>,<FV_N>`
    FiprFvmFvn,
    /// `frchg`
    Frchg,
    /// `fschg`
    Fschg,
    /// `fsts FPUL,<FREG_N>`
    FstsFpulFn,
    /// `fsrra <FREG_N>`
    FsrraFn,
    /// `fmac <FREG_0>,<FREG_M>,<FREG_N>`
    FmacF0FmFn,
    /// `sts PR,<REG_N>`
    StsPrRn,
    /// `ldc <REG_N>,SGR`
    LdcRnSgr,
    /// `stc.l SGR,@-<REG_N>`
    StcLSgrPreDecRn,
    /// `REIOS_OPCODE`
    ReiosTrap,
    /// An opcode that no entry of the table matches.
    Unknown,
}

/// Entry `i` of the opcode table: instruction, pattern and disassembly
/// template.
#[verifier::rlimit(100)]
pub fn entry_at(i: usize) -> (e: sh4_opcodelistentry)
    requires
        i < NUM_OPCODE_ENTRIES - 1,
    ensures
        e.op == op_at_index(i),
        e == table_entry_index(i),
{
    match i {
        0 => entry(Sh4Op::MulLRmRn, "i0000_nnnn_mmmm_0111", "mul.l <REG_M>,<REG_N>"),
        1 => entry(Sh4Op::Nop, "i0000_0000_0000_1001", "nop"),
        2 => entry(Sh4Op::StsFpulRn, "i0000_nnnn_0101_1010", "sts FPUL,<REG_N>"),
        3 => entry(Sh4Op::StsMaclRn, "i0000_nnnn_0001_1010", "sts MACL,<REG_N>"),
        4 => entry(Sh4Op::MovBRmAtRn, "i0010_nnnn_mmmm_0000", "mov.b <REG_M>,@<REG_N>"),
        5 => entry(Sh4Op::MovWRmAtRn, "i0010_nnnn_mmmm_0001", "mov.w <REG_M>,@<REG_N>"),
        6 => entry(Sh4Op::MovLRmAtRn, "i0010_nnnn_mmmm_0010", "mov.l <REG_M>,@<REG_N>"),
        7 => entry(Sh4Op::AndRmRn, "i0010_nnnn_mmmm_1001", "and <REG_M>,<REG_N>"),
        8 => entry(Sh4Op::XorRmRn, "i0010_nnnn_mmmm_1010", "xor <REG_M>,<REG_N>"),
        9 => entry(Sh4Op::SubRmRn, "i0011_nnnn_mmmm_1000", "sub <REG_M>,<REG_N>"),
        10 => entry(Sh4Op::AddRmRn, "i0011_nnnn_mmmm_1100", "add <REG_M>,<REG_N>"),
        11 => entry(Sh4Op::DtRn, "i0100_nnnn_0001_0000", "dt <REG_N>"),
        12 => entry(Sh4Op::ShlrRn, "i0100_nnnn_0000_0001", "shlr <REG_N>"),
        13 => entry(Sh4Op::Shll8Rn, "i0100_nnnn_0001_1000", "shll8 <REG_N>"),
        14 => entry(Sh4Op::Shlr2Rn, "i0100_nnnn_0000_1001", "shlr2 <REG_N>"),
        15 => entry(Sh4Op::Shlr16Rn, "i0100_nnnn_0010_1001", "shlr16 <REG_N>"),
        16 => entry(Sh4Op::MovBAtRmRn, "i0110_nnnn_mmmm_0000", "mov.b @<REG_M>,<REG_N>"),
        17 => entry(Sh4Op::MovRmRn, "i0110_nnnn_mmmm_0011", "mov <REG_M>,<REG_N>"),
        18 => entry(Sh4Op::NegRmRn, "i0110_nnnn_mmmm_1011", "neg <REG_M>,<REG_N>"),
        19 => entry(Sh4Op::ExtuBRmRn, "i0110_nnnn_mmmm_1100", "extu.b <REG_M>,<REG_N>"),
        20 => entry(Sh4Op::AddImmRn, "i0111_nnnn_iiii_iiii", "add #<simm8>,<REG_N>"),
        21 => entry(Sh4Op::BfDisp, "i1000_1011_iiii_iiii", "bf <bdisp8>"),
        22 => entry(Sh4Op::BfSDisp, "i1000_1111_iiii_iiii", "bf/s <bdisp8>"),
        23 => entry(Sh4Op::BraDisp, "i1010_iiii_iiii_iiii", "bra <bdisp12>"),
        24 => entry(Sh4Op::MovaAtPcDispR0, "i1100_0111_iiii_iiii", "mova @(<PCdisp8d>),R0"),
        25 => entry(Sh4Op::MovBR0AtDispRm, "i1000_0000_mmmm_iiii", "mov.b R0,@(<disp4b>,<REG_M>)"),
        26 => entry(Sh4Op::MovWR0AtDispRm, "i1000_0001_mmmm_iiii", "mov.w R0,@(<disp4w>,<REG_M>)"),
        27 => entry(Sh4Op::MovBAtDispRmR0, "i1000_0100_mmmm_iiii", "mov.b @(<disp4b>,<REG_M>),R0"),
        28 => entry(Sh4Op::MovWAtDispRmR0, "i1000_0101_mmmm_iiii", "mov.w @(<disp4w>,<REG_M>),R0"),
        29 => entry(Sh4Op::CmpEqImmR0, "i1000_1000_iiii_iiii", "cmp/eq #<simm8hex>,R0"),
        30 => entry(Sh4Op::MovLAtPcDispRn, "i1101_nnnn_iiii_iiii", "mov.l @(<PCdisp8d>),<REG_N>"),
        31 => entry(Sh4Op::MovImmRn, "i1110_nnnn_iiii_iiii", "mov #<simm8hex>,<REG_N>"),
        32 => entry(Sh4Op::FaddFmFn, "i1111_nnnn_mmmm_0000", "fadd <FREG_M_SD_F>,<FREG_N_SD_F>"),
        33 => entry(Sh4Op::FsubFmFn, "i1111_nnnn_mmmm_0001", "fsub <FREG_M_SD_F>,<FREG_N_SD_F>"),
        34 => entry(Sh4Op::FmulFmFn, "i1111_nnnn_mmmm_0010", "fmul <FREG_M_SD_F>,<FREG_N_SD_F>"),
        35 => entry(Sh4Op::FdivFmFn, "i1111_nnnn_mmmm_0011", "fdiv <FREG_M_SD_F>,<FREG_N_SD_F>"),
        36 => entry(Sh4Op::FmovSAtRmFn, "i1111_nnnn_mmmm_1000", "fmov.s @<REG_M>,<FREG_N_SD_A>"),
        37 => entry(Sh4Op::FmovFmFn, "i1111_nnnn_mmmm_1100", "fmov <FREG_M_SD_A>,<FREG_N_SD_A>"),
        38 => entry(Sh4Op::FscaFpulDn, "i1111_nnn0_1111_1101", "fsca FPUL,<DR_N>"),
        39 => entry(Sh4Op::FloatFpulFn, "i1111_nnnn_0010_1101", "float FPUL,<FREG_N_SD_F>"),
        40 => entry(Sh4Op::FtrcFnFpul, "i1111_nnnn_0011_1101", "ftrc <FREG_N>,FPUL"),
        41 => entry(Sh4Op::LdsRnFpul, "i0100_nnnn_0101_1010", "lds <REG_N>,FPUL"),
        42 => entry(Sh4Op::StcSrRn, "i0000_nnnn_0000_0010", "stc SR,<REG_N>"),
        43 => entry(Sh4Op::StcGbrRn, "i0000_nnnn_0001_0010", "stc GBR,<REG_N>"),
        44 => entry(Sh4Op::StcVbrRn, "i0000_nnnn_0010_0010", "stc VBR,<REG_N>"),
        45 => entry(Sh4Op::StcSsrRn, "i0000_nnnn_0011_0010", "stc SSR,<REG_N>"),
        46 => entry(Sh4Op::StsSgrRn, "i0000_nnnn_0011_1010", "sts SGR,<REG_N>"),
        47 => entry(Sh4Op::StcSpcRn, "i0000_nnnn_0100_0010", "stc SPC,<REG_N>"),
        48 => entry(Sh4Op::StcRmBankRn, "i0000_nnnn_1mmm_0010", "stc RM_BANK,<REG_N>"),
        49 => entry(Sh4Op::BrafRn, "i0000_nnnn_0010_0011", "braf <REG_N>"),
        50 => entry(Sh4Op::BsrfRn, "i0000_nnnn_0000_0011", "bsrf <REG_N>"),
        51 => entry(Sh4Op::MovcaLR0AtRn, "i0000_nnnn_1100_0011", "movca.l R0,@<REG_N>"),
        52 => entry(Sh4Op::OcbiAtRn, "i0000_nnnn_1001_0011", "ocbi @<REG_N>"),
        53 => entry(Sh4Op::OcbpAtRn, "i0000_nnnn_1010_0011", "ocbp @<REG_N>"),
        54 => entry(Sh4Op::OcbwbAtRn, "i0000_nnnn_1011_0011", "ocbwb @<REG_N>"),
        55 => entry(Sh4Op::PrefAtRn, "i0000_nnnn_1000_0011", "pref @<REG_N>"),
        56 => entry(Sh4Op::MovBRmAtR0Rn, "i0000_nnnn_mmmm_0100", "mov.b <REG_M>,@(R0,<REG_N>)"),
        57 => entry(Sh4Op::MovWRmAtR0Rn, "i0000_nnnn_mmmm_0101", "mov.w <REG_M>,@(R0,<REG_N>)"),
        58 => entry(Sh4Op::MovLRmAtR0Rn, "i0000_nnnn_mmmm_0110", "mov.l <REG_M>,@(R0,<REG_N>)"),
        59 => entry(Sh4Op::Clrmac, "i0000_0000_0010_1000", "clrmac"),
        60 => entry(Sh4Op::Clrs, "i0000_0000_0100_1000", "clrs"),
        61 => entry(Sh4Op::Clrt, "i0000_0000_0000_1000", "clrt"),
        62 => entry(Sh4Op::Ldtlb, "i0000_0000_0011_1000", "ldtlb"),
        63 => entry(Sh4Op::Sets, "i0000_0000_0101_1000", "sets"),
        64 => entry(Sh4Op::Sett, "i0000_0000_0001_1000", "sett"),
        65 => entry(Sh4Op::Div0u, "i0000_0000_0001_1001", "div0u"),
        66 => entry(Sh4Op::MovtRn, "i0000_nnnn_0010_1001", "movt <REG_N>"),
        67 => entry(Sh4Op::StsFpscrRn, "i0000_nnnn_0110_1010", "sts FPSCR,<REG_N>"),
        68 => entry(Sh4Op::StsDbrRn, "i0000_nnnn_1111_1010", "sts DBR,<REG_N>"),
        69 => entry(Sh4Op::StsMachRn, "i0000_nnnn_0000_1010", "sts MACH,<REG_N>"),
        70 => entry(Sh4Op::Rte, "i0000_0000_0010_1011", "rte"),
        71 => entry(Sh4Op::Rts, "i0000_0000_0000_1011", "rts"),
        72 => entry(Sh4Op::Sleep, "i0000_0000_0001_1011", "sleep"),
        73 => entry(Sh4Op::MovBAtR0RmRn, "i0000_nnnn_mmmm_1100", "mov.b @(R0,<REG_M>),<REG_N>"),
        74 => entry(Sh4Op::MovWAtR0RmRn, "i0000_nnnn_mmmm_1101", "mov.w @(R0,<REG_M>),<REG_N>"),
        75 => entry(Sh4Op::MovLAtR0RmRn, "i0000_nnnn_mmmm_1110", "mov.l @(R0,<REG_M>),<REG_N>"),
        76 => entry(Sh4Op::MacLAtRmPostIncAtRnPostInc, "i0000_nnnn_mmmm_1111", "mac.l @<REG_M>+,@<REG_N>+"),
        77 => entry(Sh4Op::MovLRmAtDispRn, "i0001_nnnn_mmmm_iiii", "mov.l <REG_M>,@(<disp4dw>,<REG_N>)"),
        78 => entry(Sh4Op::MovBRmPreDecRn, "i0010_nnnn_mmmm_0100", "mov.b <REG_M>,@-<REG_N>"),
        79 => entry(Sh4Op::MovWRmPreDecRn, "i0010_nnnn_mmmm_0101", "mov.w <REG_M>,@-<REG_N>"),
        80 => entry(Sh4Op::MovLRmPreDecRn, "i0010_nnnn_mmmm_0110", "mov.l <REG_M>,@-<REG_N>"),
        81 => entry(Sh4Op::Div0sRmRn, "i0010_nnnn_mmmm_0111", "div0s <REG_M>,<REG_N>"),
        82 => entry(Sh4Op::TstRmRn, "i0010_nnnn_mmmm_1000", "tst <REG_M>,<REG_N>"),
        83 => entry(Sh4Op::OrRmRn, "i0010_nnnn_mmmm_1011", "or <REG_M>,<REG_N>"),
        84 => entry(Sh4Op::CmpStrRmRn, "i0010_nnnn_mmmm_1100", "cmp/str <REG_M>,<REG_N>"),
        85 => entry(Sh4Op::XtrctRmRn, "i0010_nnnn_mmmm_1101", "xtrct <REG_M>,<REG_N>"),
        86 => entry(Sh4Op::MuluWRmRn, "i0010_nnnn_mmmm_1110", "mulu.w <REG_M>,<REG_N>"),
        87 => entry(Sh4Op::MulsWRmRn, "i0010_nnnn_mmmm_1111", "muls.w <REG_M>,<REG_N>"),
        88 => entry(Sh4Op::CmpEqRmRn, "i0011_nnnn_mmmm_0000", "cmp/eq <REG_M>,<REG_N>"),
        89 => entry(Sh4Op::CmpHsRmRn, "i0011_nnnn_mmmm_0010", "cmp/hs <REG_M>,<REG_N>"),
        90 => entry(Sh4Op::CmpGeRmRn, "i0011_nnnn_mmmm_0011", "cmp/ge <REG_M>,<REG_N>"),
        91 => entry(Sh4Op::Div1RmRn, "i0011_nnnn_mmmm_0100", "div1 <REG_M>,<REG_N>"),
        92 => entry(Sh4Op::DmuluLRmRn, "i0011_nnnn_mmmm_0101", "dmulu.l <REG_M>,<REG_N>"),
        93 => entry(Sh4Op::CmpHiRmRn, "i0011_nnnn_mmmm_0110", "cmp/hi <REG_M>,<REG_N>"),
        94 => entry(Sh4Op::CmpGtRmRn, "i0011_nnnn_mmmm_0111", "cmp/gt <REG_M>,<REG_N>"),
        95 => entry(Sh4Op::SubcRmRn, "i0011_nnnn_mmmm_1010", "subc <REG_M>,<REG_N>"),
        96 => entry(Sh4Op::SubvRmRn, "i0011_nnnn_mmmm_1011", "subv <REG_M>,<REG_N>"),
        97 => entry(Sh4Op::DmulsLRmRn, "i0011_nnnn_mmmm_1101", "dmuls.l <REG_M>,<REG_N>"),
        98 => entry(Sh4Op::AddcRmRn, "i0011_nnnn_mmmm_1110", "addc <REG_M>,<REG_N>"),
        99 => entry(Sh4Op::AddvRmRn, "i0011_nnnn_mmmm_1111", "addv <REG_M>,<REG_N>"),
        100 => entry(Sh4Op::StsLFpulPreDecRn, "i0100_nnnn_0101_0010", "sts.l FPUL,@-<REG_N>"),
        101 => entry(Sh4Op::StsLFpscrPreDecRn, "i0100_nnnn_0110_0010", "sts.l FPSCR,@-<REG_N>"),
        102 => entry(Sh4Op::StsLMachPreDecRn, "i0100_nnnn_0000_0010", "sts.l MACH,@-<REG_N>"),
        103 => entry(Sh4Op::StsLMaclPreDecRn, "i0100_nnnn_0001_0010", "sts.l MACL,@-<REG_N>"),
        104 => entry(Sh4Op::StsLPrPreDecRn, "i0100_nnnn_0010_0010", "sts.l PR,@-<REG_N>"),
        105 => entry(Sh4Op::StcLDbrPreDecRn, "i0100_nnnn_1111_0010", "stc.l DBR,@-<REG_N>"),
        106 => entry(Sh4Op::StcLSrPreDecRn, "i0100_nnnn_0000_0011", "stc.l SR,@-<REG_N>"),
        107 => entry(Sh4Op::StcLGbrPreDecRn, "i0100_nnnn_0001_0011", "stc.l GBR,@-<REG_N>"),
        108 => entry(Sh4Op::StcLVbrPreDecRn, "i0100_nnnn_0010_0011", "stc.l VBR,@-<REG_N>"),
        109 => entry(Sh4Op::StcLSsrPreDecRn, "i0100_nnnn_0011_0011", "stc.l SSR,@-<REG_N>"),
        110 => entry(Sh4Op::StcLSpcPreDecRn, "i0100_nnnn_0100_0011", "stc.l SPC,@-<REG_N>"),
        111 => entry(Sh4Op::StcRmBankPreDecRn, "i0100_nnnn_1mmm_0011", "stc <RM_BANK>,@-<REG_N>"),
        112 => entry(Sh4Op::LdsLAtRnPostIncMach, "i0100_nnnn_0000_0110", "lds.l @<REG_N>+,MACH"),
        113 => entry(Sh4Op::LdsLAtRnPostIncMacl, "i0100_nnnn_0001_0110", "lds.l @<REG_N>+,MACL"),
        114 => entry(Sh4Op::LdsLAtRnPostIncPr, "i0100_nnnn_0010_0110", "lds.l @<REG_N>+,PR"),
        115 => entry(Sh4Op::LdcLAtRnPostIncSgr, "i0100_nnnn_0011_0110", "ldc.l @<REG_N>+,SGR"),
        116 => entry(Sh4Op::LdsLAtRnPostIncFpul, "i0100_nnnn_0101_0110", "lds.l @<REG_N>+,FPUL"),
        117 => entry(Sh4Op::LdsLAtRnPostIncFpscr, "i0100_nnnn_0110_0110", "lds.l @<REG_N>+,FPSCR"),
        118 => entry(Sh4Op::LdcLAtRnPostIncDbr, "i0100_nnnn_1111_0110", "ldc.l @<REG_N>+,DBR"),
        119 => entry(Sh4Op::LdcLAtRnPostIncSr, "i0100_nnnn_0000_0111", "ldc.l @<REG_N>+,SR"),
        120 => entry(Sh4Op::LdcLAtRnPostIncGbr, "i0100_nnnn_0001_0111", "ldc.l @<REG_N>+,GBR"),
        121 => entry(Sh4Op::LdcLAtRnPostIncVbr, "i0100_nnnn_0010_0111", "ldc.l @<REG_N>+,VBR"),
        122 => entry(Sh4Op::LdcLAtRnPostIncSsr, "i0100_nnnn_0011_0111", "ldc.l @<REG_N>+,SSR"),
        123 => entry(Sh4Op::LdcLAtRnPostIncSpc, "i0100_nnnn_0100_0111", "ldc.l @<REG_N>+,SPC"),
        124 => entry(Sh4Op::LdcLAtRnPostIncRmBank, "i0100_nnnn_1mmm_0111", "ldc.l @<REG_N>+,RM_BANK"),
        125 => entry(Sh4Op::LdsRnMach, "i0100_nnnn_0000_1010", "lds <REG_N>,MACH"),
        126 => entry(Sh4Op::LdsRnMacl, "i0100_nnnn_0001_1010", "lds <REG_N>,MACL"),
        127 => entry(Sh4Op::LdsRnPr, "i0100_nnnn_0010_1010", "lds <REG_N>,PR"),
        128 => entry(Sh4Op::LdsRnFpscr, "i0100_nnnn_0110_1010", "lds <REG_N>,FPSCR"),
        129 => entry(Sh4Op::LdcRnDbr, "i0100_nnnn_1111_1010", "ldc <REG_N>,DBR"),
        130 => entry(Sh4Op::LdcRnSr, "i0100_nnnn_0000_1110", "ldc <REG_N>,SR"),
        131 => entry(Sh4Op::LdcRnGbr, "i0100_nnnn_0001_1110", "ldc <REG_N>,GBR"),
        132 => entry(Sh4Op::LdcRnVbr, "i0100_nnnn_0010_1110", "ldc <REG_N>,VBR"),
        133 => entry(Sh4Op::LdcRnSsr, "i0100_nnnn_0011_1110", "ldc <REG_N>,SSR"),
        134 => entry(Sh4Op::LdcRnSpc, "i0100_nnnn_0100_1110", "ldc <REG_N>,SPC"),
        135 => entry(Sh4Op::LdcRnRmBank, "i0100_nnnn_1mmm_1110", "ldc <REG_N>,<RM_BANK>"),
        136 => entry(Sh4Op::ShllRn, "i0100_nnnn_0000_0000", "shll <REG_N>"),
        137 => entry(Sh4Op::ShalRn, "i0100_nnnn_0010_0000", "shal <REG_N>"),
        138 => entry(Sh4Op::CmpPzRn, "i0100_nnnn_0001_0001", "cmp/pz <REG_N>"),
        139 => entry(Sh4Op::SharRn, "i0100_nnnn_0010_0001", "shar <REG_N>"),
        140 => entry(Sh4Op::RotclRn, "i0100_nnnn_0010_0100", "rotcl <REG_N>"),
        141 => entry(Sh4Op::RotlRn, "i0100_nnnn_0000_0100", "rotl <REG_N>"),
        142 => entry(Sh4Op::CmpPlRn, "i0100_nnnn_0001_0101", "cmp/pl <REG_N>"),
        143 => entry(Sh4Op::RotcrRn, "i0100_nnnn_0010_0101", "rotcr <REG_N>"),
        144 => entry(Sh4Op::RotrRn, "i0100_nnnn_0000_0101", "rotr <REG_N>"),
        145 => entry(Sh4Op::Shll2Rn, "i0100_nnnn_0000_1000", "shll2 <REG_N>"),
        146 => entry(Sh4Op::Shll16Rn, "i0100_nnnn_0010_1000", "shll16 <REG_N>"),
        147 => entry(Sh4Op::Shlr8Rn, "i0100_nnnn_0001_1001", "shlr8 <REG_N>"),
        148 => entry(Sh4Op::JmpAtRn, "i0100_nnnn_0010_1011", "jmp @<REG_N>"),
        149 => entry(Sh4Op::JsrAtRn, "i0100_nnnn_0000_1011", "jsr @<REG_N>"),
        150 => entry(Sh4Op::TasBAtRn, "i0100_nnnn_0001_1011", "tas.b @<REG_N>"),
        151 => entry(Sh4Op::ShadRmRn, "i0100_nnnn_mmmm_1100", "shad <REG_M>,<REG_N>"),
        152 => entry(Sh4Op::ShldRmRn, "i0100_nnnn_mmmm_1101", "shld <REG_M>,<REG_N>"),
        153 => entry(Sh4Op::MacWAtRmPostIncAtRnPostInc, "i0100_nnnn_mmmm_1111", "mac.w @<REG_M>+,@<REG_N>+"),
        154 => entry(Sh4Op::MovLAtDispRmRn, "i0101_nnnn_mmmm_iiii", "mov.l @(<disp4dw>,<REG_M>),<REG_N>"),
        155 => entry(Sh4Op::MovWAtRmRn, "i0110_nnnn_mmmm_0001", "mov.w @<REG_M>,<REG_N>"),
        156 => entry(Sh4Op::MovLAtRmRn, "i0110_nnnn_mmmm_0010", "mov.l @<REG_M>,<REG_N>"),
        157 => entry(Sh4Op::MovBAtRmPostIncRn, "i0110_nnnn_mmmm_0100", "mov.b @<REG_M>+,<REG_N>"),
        158 => entry(Sh4Op::MovWAtRmPostIncRn, "i0110_nnnn_mmmm_0101", "mov.w @<REG_M>+,<REG_N>"),
        159 => entry(Sh4Op::MovLAtRmPostIncRn, "i0110_nnnn_mmmm_0110", "mov.l @<REG_M>+,<REG_N>"),
        160 => entry(Sh4Op::NotRmRn, "i0110_nnnn_mmmm_0111", "not <REG_M>,<REG_N>"),
        161 => entry(Sh4Op::SwapBRmRn, "i0110_nnnn_mmmm_1000", "swap.b <REG_M>,<REG_N>"),
        162 => entry(Sh4Op::SwapWRmRn, "i0110_nnnn_mmmm_1001", "swap.w <REG_M>,<REG_N>"),
        163 => entry(Sh4Op::NegcRmRn, "i0110_nnnn_mmmm_1010", "negc <REG_M>,<REG_N>"),
        164 => entry(Sh4Op::ExtuWRmRn, "i0110_nnnn_mmmm_1101", "extu.w <REG_M>,<REG_N>"),
        165 => entry(Sh4Op::ExtsBRmRn, "i0110_nnnn_mmmm_1110", "exts.b <REG_M>,<REG_N>"),
        166 => entry(Sh4Op::ExtsWRmRn, "i0110_nnnn_mmmm_1111", "exts.w <REG_M>,<REG_N>"),
        167 => entry(Sh4Op::MovWAtPcDispRn, "i1001_nnnn_iiii_iiii", "mov.w @(<PCdisp8w>),<REG_N>"),
        168 => entry(Sh4Op::BtDisp, "i1000_1001_iiii_iiii", "bt <bdisp8>"),
        169 => entry(Sh4Op::BtSDisp, "i1000_1101_iiii_iiii", "bt/s <bdisp8>"),
        170 => entry(Sh4Op::BsrDisp, "i1011_iiii_iiii_iiii", "bsr <bdisp12>"),
        171 => entry(Sh4Op::MovBR0AtDispGbr, "i1100_0000_iiii_iiii", "mov.b R0,@(<disp8b>,GBR)"),
        172 => entry(Sh4Op::MovWR0AtDispGbr, "i1100_0001_iiii_iiii", "mov.w R0,@(<disp8w>,GBR)"),
        173 => entry(Sh4Op::MovLR0AtDispGbr, "i1100_0010_iiii_iiii", "mov.l R0,@(<disp8dw>,GBR)"),
        174 => entry(Sh4Op::TrapaImm, "i1100_0011_iiii_iiii", "trapa #<imm8>"),
        175 => entry(Sh4Op::MovBAtGbrDispR0, "i1100_0100_iiii_iiii", "mov.b @(<GBRdisp8b>),R0"),
        176 => entry(Sh4Op::MovWAtGbrDispR0, "i1100_0101_iiii_iiii", "mov.w @(<GBRdisp8w>),R0"),
        177 => entry(Sh4Op::MovLAtGbrDispR0, "i1100_0110_iiii_iiii", "mov.l @(<GBRdisp8dw>),R0"),
        178 => entry(Sh4Op::TstImmR0, "i1100_1000_iiii_iiii", "tst #<imm8>,R0"),
        179 => entry(Sh4Op::AndImmR0, "i1100_1001_iiii_iiii", "and #<imm8>,R0"),
        180 => entry(Sh4Op::XorImmR0, "i1100_1010_iiii_iiii", "xor #<imm8>,R0"),
        181 => entry(Sh4Op::OrImmR0, "i1100_1011_iiii_iiii", "or #<imm8>,R0"),
        182 => entry(Sh4Op::TstBImmAtR0Gbr, "i1100_1100_iiii_iiii", "tst.b #<imm8>,@(R0,GBR)"),
        183 => entry(Sh4Op::AndBImmAtR0Gbr, "i1100_1101_iiii_iiii", "and.b #<imm8>,@(R0,GBR)"),
        184 => entry(Sh4Op::XorBImmAtR0Gbr, "i1100_1110_iiii_iiii", "xor.b #<imm8>,@(R0,GBR)"),
        185 => entry(Sh4Op::OrBImmAtR0Gbr, "i1100_1111_iiii_iiii", "or.b #<imm8>,@(R0,GBR)"),
        186 => entry(Sh4Op::FldsFnFpul, "i1111_nnnn_0001_1101", "flds <FREG_N>,FPUL"),
        187 => entry(Sh4Op::FnegFn, "i1111_nnnn_0100_1101", "fneg <FREG_N_SD_F>"),
        188 => entry(Sh4Op::FabsFn, "i1111_nnnn_0101_1101", "fabs <FREG_N_SD_F>"),
        189 => entry(Sh4Op::FsqrtFn, "i1111_nnnn_0110_1101", "fsqrt <FREG_N>"),
        190 => entry(Sh4Op::Fldi0Fn, "i1111_nnnn_1000_1101", "fldi0 <FREG_N>"),
        191 => entry(Sh4Op::Fldi1Fn, "i1111_nnnn_1001_1101", "fldi1 <FREG_N>"),
        192 => entry(Sh4Op::FtrvXmtrxFvn, "i1111_nn01_1111_1101", "ftrv xmtrx,<FV_N>"),
        193 => entry(Sh4Op::FcmpEqFmFn, "i1111_nnnn_mmmm_0100", "fcmp/eq <FREG_M_SD_F>,<FREG_N_SD_F>"),
        194 => entry(Sh4Op::FcmpGtFmFn, "i1111_nnnn_mmmm_0101", "fcmp/gt <FREG_M_SD_F>,<FREG_N_SD_F>"),
        195 => entry(Sh4Op::FmovSAtR0RmFn, "i1111_nnnn_mmmm_0110", "fmov.s @(R0,<REG_M>),<FREG_N_SD_A>"),
        196 => entry(Sh4Op::FmovSFmAtR0Rn, "i1111_nnnn_mmmm_0111", "fmov.s <FREG_M_SD_A>,@(R0,<REG_N>)"),
        197 => entry(Sh4Op::FmovSAtRmPostIncFn, "i1111_nnnn_mmmm_1001", "fmov.s @<REG_M>+,<FREG_N_SD_A>"),
        198 => entry(Sh4Op::FmovSFmAtRn, "i1111_nnnn_mmmm_1010", "fmov.s <FREG_M_SD_A>,@<REG_N>"),
        199 => entry(Sh4Op::FmovSFmPreDecRn, "i1111_nnnn_mmmm_1011", "fmov.s <FREG_M_SD_A>,@-<REG_N>"),
        200 => entry(Sh4Op::FcnvdsDnFpul, "i1111_nnnn_1011_1101", "fcnvds <DR_N>,FPUL"),
        201 => entry(Sh4Op::FcnvsdFpulDn, "i1111_nnnn_1010_1101", "fcnvsd FPUL,<DR_N>"),
        202 => entry(Sh4Op::FiprFvmFvn, "i1111_nnmm_1110_1101", "fipr <FV_M>,<FV_N>"),
        203 => entry(Sh4Op::Frchg, "i1111_1011_1111_1101", "frchg"),
        204 => entry(Sh4Op::Fschg, "i1111_0011_1111_1101", "fschg"),
        205 => entry(Sh4Op::FstsFpulFn, "i1111_nnnn_0000_1101", "fsts FPUL,<FREG_N>"),
        206 => entry(Sh4Op::FsrraFn, "i1111_nnnn_0111_1101", "fsrra <FREG_N>"),
        207 => entry(Sh4Op::FmacF0FmFn, "i1111_nnnn_mmmm_1110", "fmac <FREG_0>,<FREG_M>,<FREG_N>"),
        208 => entry(Sh4Op::StsPrRn, "i0000_nnnn_0010_1010", "sts PR,<REG_N>"),
        209 => entry(Sh4Op::LdcRnSgr, "i0100_nnnn_0011_1010", "ldc <REG_N>,SGR"),
        210 => entry(Sh4Op::StcLSgrPreDecRn, "i0100_nnnn_0011_0010", "stc.l SGR,@-<REG_N>"),
        _ => entry(Sh4Op::ReiosTrap, "i0000_1000_0101_1011", "REIOS_OPCODE"),
    }
}

/// The opcode table: each instruction with its pattern, its mask and key,
/// and its disassembly template; the last entry stands for every opcode
/// that no other entry matches.
pub fn opcode_list() -> (v: Vec<sh4_opcodelistentry>)
    ensures
        v.len() == NUM_OPCODE_ENTRIES,
        v[NUM_OPCODE_ENTRIES - 1].mask == 0xFFFF,
        v[NUM_OPCODE_ENTRIES - 1].key == 0,
        forall|i: int| 0 <= i < NUM_OPCODE_ENTRIES ==> #[trigger] v[i].op == op_at(i),
        v@ == opcode_table(),
{
    let mut v: Vec<sh4_opcodelistentry> = Vec::new();
    let mut i: usize = 0;
    while i < NUM_OPCODE_ENTRIES - 1
        invariant
            i <= NUM_OPCODE_ENTRIES - 1,
            v.len() == i,
            forall|k: int| 0 <= k < i ==> #[trigger] v[k].op == op_at(k),
            forall|k: int| 0 <= k < i ==> #[trigger] v[k] == table_entry(k),
        decreases NUM_OPCODE_ENTRIES - 1 - i,
    {
        v.push(entry_at(i));
        i = i + 1;
    }
    v.push(sentinel());
    assert(v@ =~= opcode_table());
    v
}

/// The pattern of table entry `i`.
pub open spec fn pattern_at(i: int) -> &'static str {
    if i == 0 { "i0000_nnnn_mmmm_0111" }
    else if i == 1 { "i0000_0000_0000_1001" }
    else if i == 2 { "i0000_nnnn_0101_1010" }
    else if i == 3 { "i0000_nnnn_0001_1010" }
    else if i == 4 { "i0010_nnnn_mmmm_0000" }
    else if i == 5 { "i0010_nnnn_mmmm_0001" }
    else if i == 6 { "i0010_nnnn_mmmm_0010" }
    else if i == 7 { "i0010_nnnn_mmmm_1001" }
    else if i == 8 { "i0010_nnnn_mmmm_1010" }
    else if i == 9 { "i0011_nnnn_mmmm_1000" }
    else if i == 10 { "i0011_nnnn_mmmm_1100" }
    else if i == 11 { "i0100_nnnn_0001_0000" }
    else if i == 12 { "i0100_nnnn_0000_0001" }
    else if i == 13 { "i0100_nnnn_0001_1000" }
    else if i == 14 { "i0100_nnnn_0000_1001" }
    else if i == 15 { "i0100_nnnn_0010_1001" }
    else if i == 16 { "i0110_nnnn_mmmm_0000" }
    else if i == 17 { "i0110_nnnn_mmmm_0011" }
    else if i == 18 { "i0110_nnnn_mmmm_1011" }
    else if i == 19 { "i0110_nnnn_mmmm_1100" }
    else if i == 20 { "i0111_nnnn_iiii_iiii" }
    else if i == 21 { "i1000_1011_iiii_iiii" }
    else if i == 22 { "i1000_1111_iiii_iiii" }
    else if i == 23 { "i1010_iiii_iiii_iiii" }
    else if i == 24 { "i1100_0111_iiii_iiii" }
    else if i == 25 { "i1000_0000_mmmm_iiii" }
    else if i == 26 { "i1000_0001_mmmm_iiii" }
    else if i == 27 { "i1000_0100_mmmm_iiii" }
    else if i == 28 { "i1000_0101_mmmm_iiii" }
    else if i == 29 { "i1000_1000_iiii_iiii" }
    else if i == 30 { "i1101_nnnn_iiii_iiii" }
    else if i == 31 { "i1110_nnnn_iiii_iiii" }
    else if i == 32 { "i1111_nnnn_mmmm_0000" }
    else if i == 33 { "i1111_nnnn_mmmm_0001" }
    else if i == 34 { "i1111_nnnn_mmmm_0010" }
    else if i == 35 { "i1111_nnnn_mmmm_0011" }
    else if i == 36 { "i1111_nnnn_mmmm_1000" }
    else if i == 37 { "i1111_nnnn_mmmm_1100" }
    else if i == 38 { "i1111_nnn0_1111_1101" }
    else if i == 39 { "i1111_nnnn_0010_1101" }
    else if i == 40 { "i1111_nnnn_0011_1101" }
    else if i == 41 { "i0100_nnnn_0101_1010" }
    else if i == 42 { "i0000_nnnn_0000_0010" }
    else if i == 43 { "i0000_nnnn_0001_0010" }
    else if i == 44 { "i0000_nnnn_0010_0010" }
    else if i == 45 { "i0000_nnnn_0011_0010" }
    else if i == 46 { "i0000_nnnn_0011_1010" }
    else if i == 47 { "i0000_nnnn_0100_0010" }
    else if i == 48 { "i0000_nnnn_1mmm_0010" }
    else if i == 49 { "i0000_nnnn_0010_0011" }
    else if i == 50 { "i0000_nnnn_0000_0011" }
    else if i == 51 { "i0000_nnnn_1100_0011" }
    else if i == 52 { "i0000_nnnn_1001_0011" }
    else if i == 53 { "i0000_nnnn_1010_0011" }
    else if i == 54 { "i0000_nnnn_1011_0011" }
    else if i == 55 { "i0000_nnnn_1000_0011" }
    else if i == 56 { "i0000_nnnn_mmmm_0100" }
    else if i == 57 { "i0000_nnnn_mmmm_0101" }
    else if i == 58 { "i0000_nnnn_mmmm_0110" }
    else if i == 59 { "i0000_0000_0010_1000" }
    else if i == 60 { "i0000_0000_0100_1000" }
    else if i == 61 { "i0000_0000_0000_1000" }
    else if i == 62 { "i0000_0000_0011_1000" }
    else if i == 63 { "i0000_0000_0101_1000" }
    else if i == 64 { "i0000_0000_0001_1000" }
    else if i == 65 { "i0000_0000_0001_1001" }
    else if i == 66 { "i0000_nnnn_0010_1001" }
    else if i == 67 { "i0000_nnnn_0110_1010" }
    else if i == 68 { "i0000_nnnn_1111_1010" }
    else if i == 69 { "i0000_nnnn_0000_1010" }
    else if i == 70 { "i0000_0000_0010_1011" }
    else if i == 71 { "i0000_0000_0000_1011" }
    else if i == 72 { "i0000_0000_0001_1011" }
    else if i == 73 { "i0000_nnnn_mmmm_1100" }
    else if i == 74 { "i0000_nnnn_mmmm_1101" }
    else if i == 75 { "i0000_nnnn_mmmm_1110" }
    else if i == 76 { "i0000_nnnn_mmmm_1111" }
    else if i == 77 { "i0001_nnnn_mmmm_iiii" }
    else if i == 78 { "i0010_nnnn_mmmm_0100" }
    else if i == 79 { "i0010_nnnn_mmmm_0101" }
    else if i == 80 { "i0010_nnnn_mmmm_0110" }
    else if i == 81 { "i0010_nnnn_mmmm_0111" }
    else if i == 82 { "i0010_nnnn_mmmm_1000" }
    else if i == 83 { "i0010_nnnn_mmmm_1011" }
    else if i == 84 { "i0010_nnnn_mmmm_1100" }
    else if i == 85 { "i0010_nnnn_mmmm_1101" }
    else if i == 86 { "i0010_nnnn_mmmm_1110" }
    else if i == 87 { "i0010_nnnn_mmmm_1111" }
    else if i == 88 { "i0011_nnnn_mmmm_0000" }
    else if i == 89 { "i0011_nnnn_mmmm_0010" }
    else if i == 90 { "i0011_nnnn_mmmm_0011" }
    else if i == 91 { "i0011_nnnn_mmmm_0100" }
    else if i == 92 { "i0011_nnnn_mmmm_0101" }
    else if i == 93 { "i0011_nnnn_mmmm_0110" }
    else if i == 94 { "i0011_nnnn_mmmm_0111" }
    else if i == 95 { "i0011_nnnn_mmmm_1010" }
    else if i == 96 { "i0011_nnnn_mmmm_1011" }
    else if i == 97 { "i0011_nnnn_mmmm_1101" }
    else if i == 98 { "i0011_nnnn_mmmm_1110" }
    else if i == 99 { "i0011_nnnn_mmmm_1111" }
    else if i == 100 { "i0100_nnnn_0101_0010" }
    else if i == 101 { "i0100_nnnn_0110_0010" }
    else if i == 102 { "i0100_nnnn_0000_0010" }
    else if i == 103 { "i0100_nnnn_0001_0010" }
    else if i == 104 { "i0100_nnnn_0010_0010" }
    else if i == 105 { "i0100_nnnn_1111_0010" }
    else if i == 106 { "i0100_nnnn_0000_0011" }
    else if i == 107 { "i0100_nnnn_0001_0011" }
    else if i == 108 { "i0100_nnnn_0010_0011" }
    else if i == 109 { "i0100_nnnn_0011_0011" }
    else if i == 110 { "i0100_nnnn_0100_0011" }
    else if i == 111 { "i0100_nnnn_1mmm_0011" }
    else if i == 112 { "i0100_nnnn_0000_0110" }
    else if i == 113 { "i0100_nnnn_0001_0110" }
    else if i == 114 { "i0100_nnnn_0010_0110" }
    else if i == 115 { "i0100_nnnn_0011_0110" }
    else if i == 116 { "i0100_nnnn_0101_0110" }
    else if i == 117 { "i0100_nnnn_0110_0110" }
    else if i == 118 { "i0100_nnnn_1111_0110" }
    else if i == 119 { "i0100_nnnn_0000_0111" }
    else if i == 120 { "i0100_nnnn_0001_0111" }
    else if i == 121 { "i0100_nnnn_0010_0111" }
    else if i == 122 { "i0100_nnnn_0011_0111" }
    else if i == 123 { "i0100_nnnn_0100_0111" }
    else if i == 124 { "i0100_nnnn_1mmm_0111" }
    else if i == 125 { "i0100_nnnn_0000_1010" }
    else if i == 126 { "i0100_nnnn_0001_1010" }
    else if i == 127 { "i0100_nnnn_0010_1010" }
    else if i == 128 { "i0100_nnnn_0110_1010" }
    else if i == 129 { "i0100_nnnn_1111_1010" }
    else if i == 130 { "i0100_nnnn_0000_1110" }
    else if i == 131 { "i0100_nnnn_0001_1110" }
    else if i == 132 { "i0100_nnnn_0010_1110" }
    else if i == 133 { "i0100_nnnn_0011_1110" }
    else if i == 134 { "i0100_nnnn_0100_1110" }
    else if i == 135 { "i0100_nnnn_1mmm_1110" }
    else if i == 136 { "i0100_nnnn_0000_0000" }
    else if i == 137 { "i0100_nnnn_0010_0000" }
    else if i == 138 { "i0100_nnnn_0001_0001" }
    else if i == 139 { "i0100_nnnn_0010_0001" }
    else if i == 140 { "i0100_nnnn_0010_0100" }
    else if i == 141 { "i0100_nnnn_0000_0100" }
    else if i == 142 { "i0100_nnnn_0001_0101" }
    else if i == 143 { "i0100_nnnn_0010_0101" }
    else if i == 144 { "i0100_nnnn_0000_0101" }
    else if i == 145 { "i0100_nnnn_0000_1000" }
    else if i == 146 { "i0100_nnnn_0010_1000" }
    else if i == 147 { "i0100_nnnn_0001_1001" }
    else if i == 148 { "i0100_nnnn_0010_1011" }
    else if i == 149 { "i0100_nnnn_0000_1011" }
    else if i == 150 { "i0100_nnnn_0001_1011" }
    else if i == 151 { "i0100_nnnn_mmmm_1100" }
    else if i == 152 { "i0100_nnnn_mmmm_1101" }
    else if i == 153 { "i0100_nnnn_mmmm_1111" }
    else if i == 154 { "i0101_nnnn_mmmm_iiii" }
    else if i == 155 { "i0110_nnnn_mmmm_0001" }
    else if i == 156 { "i0110_nnnn_mmmm_0010" }
    else if i == 157 { "i0110_nnnn_mmmm_0100" }
    else if i == 158 { "i0110_nnnn_mmmm_0101" }
    else if i == 159 { "i0110_nnnn_mmmm_0110" }
    else if i == 160 { "i0110_nnnn_mmmm_0111" }
    else if i == 161 { "i0110_nnnn_mmmm_1000" }
    else if i == 162 { "i0110_nnnn_mmmm_1001" }
    else if i == 163 { "i0110_nnnn_mmmm_1010" }
    else if i == 164 { "i0110_nnnn_mmmm_1101" }
    else if i == 165 { "i0110_nnnn_mmmm_1110" }
    else if i == 166 { "i0110_nnnn_mmmm_1111" }
    else if i == 167 { "i1001_nnnn_iiii_iiii" }
    else if i == 168 { "i1000_1001_iiii_iiii" }
    else if i == 169 { "i1000_1101_iiii_iiii" }
    else if i == 170 { "i1011_iiii_iiii_iiii" }
    else if i == 171 { "i1100_0000_iiii_iiii" }
    else if i == 172 { "i1100_0001_iiii_iiii" }
    else if i == 173 { "i1100_0010_iiii_iiii" }
    else if i == 174 { "i1100_0011_iiii_iiii" }
    else if i == 175 { "i1100_0100_iiii_iiii" }
    else if i == 176 { "i1100_0101_iiii_iiii" }
    else if i == 177 { "i1100_0110_iiii_iiii" }
    else if i == 178 { "i1100_1000_iiii_iiii" }
    else if i == 179 { "i1100_1001_iiii_iiii" }
    else if i == 180 { "i1100_1010_iiii_iiii" }
    else if i == 181 { "i1100_1011_iiii_iiii" }
    else if i == 182 { "i1100_1100_iiii_iiii" }
    else if i == 183 { "i1100_1101_iiii_iiii" }
    else if i == 184 { "i1100_1110_iiii_iiii" }
    else if i == 185 { "i1100_1111_iiii_iiii" }
    else if i == 186 { "i1111_nnnn_0001_1101" }
    else if i == 187 { "i1111_nnnn_0100_1101" }
    else if i == 188 { "i1111_nnnn_0101_1101" }
    else if i == 189 { "i1111_nnnn_0110_1101" }
    else if i == 190 { "i1111_nnnn_1000_1101" }
    else if i == 191 { "i1111_nnnn_1001_1101" }
    else if i == 192 { "i1111_nn01_1111_1101" }
    else if i == 193 { "i1111_nnnn_mmmm_0100" }
    else if i == 194 { "i1111_nnnn_mmmm_0101" }
    else if i == 195 { "i1111_nnnn_mmmm_0110" }
    else if i == 196 { "i1111_nnnn_mmmm_0111" }
    else if i == 197 { "i1111_nnnn_mmmm_1001" }
    else if i == 198 { "i1111_nnnn_mmmm_1010" }
    else if i == 199 { "i1111_nnnn_mmmm_1011" }
    else if i == 200 { "i1111_nnnn_1011_1101" }
    else if i == 201 { "i1111_nnnn_1010_1101" }
    else if i == 202 { "i1111_nnmm_1110_1101" }
    else if i == 203 { "i1111_1011_1111_1101" }
    else if i == 204 { "i1111_0011_1111_1101" }
    else if i == 205 { "i1111_nnnn_0000_1101" }
    else if i == 206 { "i1111_nnnn_0111_1101" }
    else if i == 207 { "i1111_nnnn_mmmm_1110" }
    else if i == 208 { "i0000_nnnn_0010_1010" }
    else if i == 209 { "i0100_nnnn_0011_1010" }
    else if i == 210 { "i0100_nnnn_0011_0010" }
    else if i == 211 { "i0000_1000_0101_1011" }
    else { "unknown_opcode" }
}

/// The disassembly template of table entry `i`.
pub open spec fn template_at(i: int) -> &'static str {
    if i == 0 { "mul.l <REG_M>,<REG_N>" }
    else if i == 1 { "nop" }
    else if i == 2 { "sts FPUL,<REG_N>" }
    else if i == 3 { "sts MACL,<REG_N>" }
    else if i == 4 { "mov.b <REG_M>,@<REG_N>" }
    else if i == 5 { "mov.w <REG_M>,@<REG_N>" }
    else if i == 6 { "mov.l <REG_M>,@<REG_N>" }
    else if i == 7 { "and <REG_M>,<REG_N>" }
    else if i == 8 { "xor <REG_M>,<REG_N>" }
    else if i == 9 { "sub <REG_M>,<REG_N>" }
    else if i == 10 { "add <REG_M>,<REG_N>" }
    else if i == 11 { "dt <REG_N>" }
    else if i == 12 { "shlr <REG_N>" }
    else if i == 13 { "shll8 <REG_N>" }
    else if i == 14 { "shlr2 <REG_N>" }
    else if i == 15 { "shlr16 <REG_N>" }
    else if i == 16 { "mov.b @<REG_M>,<REG_N>" }
    else if i == 17 { "mov <REG_M>,<REG_N>" }
    else if i == 18 { "neg <REG_M>,<REG_N>" }
    else if i == 19 { "extu.b <REG_M>,<REG_N>" }
    else if i == 20 { "add #<simm8>,<REG_N>" }
    else if i == 21 { "bf <bdisp8>" }
    else if i == 22 { "bf/s <bdisp8>" }
    else if i == 23 { "bra <bdisp12>" }
    else if i == 24 { "mova @(<PCdisp8d>),R0" }
    else if i == 25 { "mov.b R0,@(<disp4b>,<REG_M>)" }
    else if i == 26 { "mov.w R0,@(<disp4w>,<REG_M>)" }
    else if i == 27 { "mov.b @(<disp4b>,<REG_M>),R0" }
    else if i == 28 { "mov.w @(<disp4w>,<REG_M>),R0" }
    else if i == 29 { "cmp/eq #<simm8hex>,R0" }
    else if i == 30 { "mov.l @(<PCdisp8d>),<REG_N>" }
    else if i == 31 { "mov #<simm8hex>,<REG_N>" }
    else if i == 32 { "fadd <FREG_M_SD_F>,<FREG_N_SD_F>" }
    else if i == 33 { "fsub <FREG_M_SD_F>,<FREG_N_SD_F>" }
    else if i == 34 { "fmul <FREG_M_SD_F>,<FREG_N_SD_F>" }
    else if i == 35 { "fdiv <FREG_M_SD_F>,<FREG_N_SD_F>" }
    else if i == 36 { "fmov.s @<REG_M>,<FREG_N_SD_A>" }
    else if i == 37 { "fmov <FREG_M_SD_A>,<FREG_N_SD_A>" }
    else if i == 38 { "fsca FPUL,<DR_N>" }
    else if i == 39 { "float FPUL,<FREG_N_SD_F>" }
    else if i == 40 { "ftrc <FREG_N>,FPUL" }
    else if i == 41 { "lds <REG_N>,FPUL" }
    else if i == 42 { "stc SR,<REG_N>" }
    else if i == 43 { "stc GBR,<REG_N>" }
    else if i == 44 { "stc VBR,<REG_N>" }
    else if i == 45 { "stc SSR,<REG_N>" }
    else if i == 46 { "sts SGR,<REG_N>" }
    else if i == 47 { "stc SPC,<REG_N>" }
    else if i == 48 { "stc RM_BANK,<REG_N>" }
    else if i == 49 { "braf <REG_N>" }
    else if i == 50 { "bsrf <REG_N>" }
    else if i == 51 { "movca.l R0,@<REG_N>" }
    else if i == 52 { "ocbi @<REG_N>" }
    else if i == 53 { "ocbp @<REG_N>" }
    else if i == 54 { "ocbwb @<REG_N>" }
    else if i == 55 { "pref @<REG_N>" }
    else if i == 56 { "mov.b <REG_M>,@(R0,<REG_N>)" }
    else if i == 57 { "mov.w <REG_M>,@(R0,<REG_N>)" }
    else if i == 58 { "mov.l <REG_M>,@(R0,<REG_N>)" }
    else if i == 59 { "clrmac" }
    else if i == 60 { "clrs" }
    else if i == 61 { "clrt" }
    else if i == 62 { "ldtlb" }
    else if i == 63 { "sets" }
    else if i == 64 { "sett" }
    else if i == 65 { "div0u" }
    else if i == 66 { "movt <REG_N>" }
    else if i == 67 { "sts FPSCR,<REG_N>" }
    else if i == 68 { "sts DBR,<REG_N>" }
    else if i == 69 { "sts MACH,<REG_N>" }
    else if i == 70 { "rte" }
    else if i == 71 { "rts" }
    else if i == 72 { "sleep" }
    else if i == 73 { "mov.b @(R0,<REG_M>),<REG_N>" }
    else if i == 74 { "mov.w @(R0,<REG_M>),<REG_N>" }
    else if i == 75 { "mov.l @(R0,<REG_M>),<REG_N>" }
    else if i == 76 { "mac.l @<REG_M>+,@<REG_N>+" }
    else if i == 77 { "mov.l <REG_M>,@(<disp4dw>,<REG_N>)" }
    else if i == 78 { "mov.b <REG_M>,@-<REG_N>" }
    else if i == 79 { "mov.w <REG_M>,@-<REG_N>" }
    else if i == 80 { "mov.l <REG_M>,@-<REG_N>" }
    else if i == 81 { "div0s <REG_M>,<REG_N>" }
    else if i == 82 { "tst <REG_M>,<REG_N>" }
    else if i == 83 { "or <REG_M>,<REG_N>" }
    else if i == 84 { "cmp/str <REG_M>,<REG_N>" }
    else if i == 85 { "xtrct <REG_M>,<REG_N>" }
    else if i == 86 { "mulu.w <REG_M>,<REG_N>" }
    else if i == 87 { "muls.w <REG_M>,<REG_N>" }
    else if i == 88 { "cmp/eq <REG_M>,<REG_N>" }
    else if i == 89 { "cmp/hs <REG_M>,<REG_N>" }
    else if i == 90 { "cmp/ge <REG_M>,<REG_N>" }
    else if i == 91 { "div1 <REG_M>,<REG_N>" }
    else if i == 92 { "dmulu.l <REG_M>,<REG_N>" }
    else if i == 93 { "cmp/hi <REG_M>,<REG_N>" }
    else if i == 94 { "cmp/gt <REG_M>,<REG_N>" }
    else if i == 95 { "subc <REG_M>,<REG_N>" }
    else if i == 96 { "subv <REG_M>,<REG_N>" }
    else if i == 97 { "dmuls.l <REG_M>,<REG_N>" }
    else if i == 98 { "addc <REG_M>,<REG_N>" }
    else if i == 99 { "addv <REG_M>,<REG_N>" }
    else if i == 100 { "sts.l FPUL,@-<REG_N>" }
    else if i == 101 { "sts.l FPSCR,@-<REG_N>" }
    else if i == 102 { "sts.l MACH,@-<REG_N>" }
    else if i == 103 { "sts.l MACL,@-<REG_N>" }
    else if i == 104 { "sts.l PR,@-<REG_N>" }
    else if i == 105 { "stc.l DBR,@-<REG_N>" }
    else if i == 106 { "stc.l SR,@-<REG_N>" }
    else if i == 107 { "stc.l GBR,@-<REG_N>" }
    else if i == 108 { "stc.l VBR,@-<REG_N>" }
    else if i == 109 { "stc.l SSR,@-<REG_N>" }
    else if i == 110 { "stc.l SPC,@-<REG_N>" }
    else if i == 111 { "stc <RM_BANK>,@-<REG_N>" }
    else if i == 112 { "lds.l @<REG_N>+,MACH" }
    else if i == 113 { "lds.l @<REG_N>+,MACL" }
    else if i == 114 { "lds.l @<REG_N>+,PR" }
    else if i == 115 { "ldc.l @<REG_N>+,SGR" }
    else if i == 116 { "lds.l @<REG_N>+,FPUL" }
    else if i == 117 { "lds.l @<REG_N>+,FPSCR" }
    else if i == 118 { "ldc.l @<REG_N>+,DBR" }
    else if i == 119 { "ldc.l @<REG_N>+,SR" }
    else if i == 120 { "ldc.l @<REG_N>+,GBR" }
    else if i == 121 { "ldc.l @<REG_N>+,VBR" }
    else if i == 122 { "ldc.l @<REG_N>+,SSR" }
    else if i == 123 { "ldc.l @<REG_N>+,SPC" }
    else if i == 124 { "ldc.l @<REG_N>+,RM_BANK" }
    else if i == 125 { "lds <REG_N>,MACH" }
    else if i == 126 { "lds <REG_N>,MACL" }
    else if i == 127 { "lds <REG_N>,PR" }
    else if i == 128 { "lds <REG_N>,FPSCR" }
    else if i == 129 { "ldc <REG_N>,DBR" }
    else if i == 130 { "ldc <REG_N>,SR" }
    else if i == 131 { "ldc <REG_N>,GBR" }
    else if i == 132 { "ldc <REG_N>,VBR" }
    else if i == 133 { "ldc <REG_N>,SSR" }
    else if i == 134 { "ldc <REG_N>,SPC" }
    else if i == 135 { "ldc <REG_N>,<RM_BANK>" }
    else if i == 136 { "shll <REG_N>" }
    else if i == 137 { "shal <REG_N>" }
    else if i == 138 { "cmp/pz <REG_N>" }
    else if i == 139 { "shar <REG_N>" }
    else if i == 140 { "rotcl <REG_N>" }
    else if i == 141 { "rotl <REG_N>" }
    else if i == 142 { "cmp/pl <REG_N>" }
    else if i == 143 { "rotcr <REG_N>" }
    else if i == 144 { "rotr <REG_N>" }
    else if i == 145 { "shll2 <REG_N>" }
    else if i == 146 { "shll16 <REG_N>" }
    else if i == 147 { "shlr8 <REG_N>" }
    else if i == 148 { "jmp @<REG_N>" }
    else if i == 149 { "jsr @<REG_N>" }
    else if i == 150 { "tas.b @<REG_N>" }
    else if i == 151 { "shad <REG_M>,<REG_N>" }
    else if i == 152 { "shld <REG_M>,<REG_N>" }
    else if i == 153 { "mac.w @<REG_M>+,@<REG_N>+" }
    else if i == 154 { "mov.l @(<disp4dw>,<REG_M>),<REG_N>" }
    else if i == 155 { "mov.w @<REG_M>,<REG_N>" }
    else if i == 156 { "mov.l @<REG_M>,<REG_N>" }
    else if i == 157 { "mov.b @<REG_M>+,<REG_N>" }
    else if i == 158 { "mov.w @<REG_M>+,<REG_N>" }
    else if i == 159 { "mov.l @<REG_M>+,<REG_N>" }
    else if i == 160 { "not <REG_M>,<REG_N>" }
    else if i == 161 { "swap.b <REG_M>,<REG_N>" }
    else if i == 162 { "swap.w <REG_M>,<REG_N>" }
    else if i == 163 { "negc <REG_M>,<REG_N>" }
    else if i == 164 { "extu.w <REG_M>,<REG_N>" }
    else if i == 165 { "exts.b <REG_M>,<REG_N>" }
    else if i == 166 { "exts.w <REG_M>,<REG_N>" }
    else if i == 167 { "mov.w @(<PCdisp8w>),<REG_N>" }
    else if i == 168 { "bt <bdisp8>" }
    else if i == 169 { "bt/s <bdisp8>" }
    else if i == 170 { "bsr <bdisp12>" }
    else if i == 171 { "mov.b R0,@(<disp8b>,GBR)" }
    else if i == 172 { "mov.w R0,@(<disp8w>,GBR)" }
    else if i == 173 { "mov.l R0,@(<disp8dw>,GBR)" }
    else if i == 174 { "trapa #<imm8>" }
    else if i == 175 { "mov.b @(<GBRdisp8b>),R0" }
    else if i == 176 { "mov.w @(<GBRdisp8w>),R0" }
    else if i == 177 { "mov.l @(<GBRdisp8dw>),R0" }
    else if i == 178 { "tst #<imm8>,R0" }
    else if i == 179 { "and #<imm8>,R0" }
    else if i == 180 { "xor #<imm8>,R0" }
    else if i == 181 { "or #<imm8>,R0" }
    else if i == 182 { "tst.b #<imm8>,@(R0,GBR)" }
    else if i == 183 { "and.b #<imm8>,@(R0,GBR)" }
    else if i == 184 { "xor.b #<imm8>,@(R0,GBR)" }
    else if i == 185 { "or.b #<imm8>,@(R0,GBR)" }
    else if i == 186 { "flds <FREG_N>,FPUL" }
    else if i == 187 { "fneg <FREG_N_SD_F>" }
    else if i == 188 { "fabs <FREG_N_SD_F>" }
    else if i == 189 { "fsqrt <FREG_N>" }
    else if i == 190 { "fldi0 <FREG_N>" }
    else if i == 191 { "fldi1 <FREG_N>" }
    else if i == 192 { "ftrv xmtrx,<FV_N>" }
    else if i == 193 { "fcmp/eq <FREG_M_SD_F>,<FREG_N_SD_F>" }
    else if i == 194 { "fcmp/gt <FREG_M_SD_F>,<FREG_N_SD_F>" }
    else if i == 195 { "fmov.s @(R0,<REG_M>),<FREG_N_SD_A>" }
    else if i == 196 { "fmov.s <FREG_M_SD_A>,@(R0,<REG_N>)" }
    else if i == 197 { "fmov.s @<REG_M>+,<FREG_N_SD_A>" }
    else if i == 198 { "fmov.s <FREG_M_SD_A>,@<REG_N>" }
    else if i == 199 { "fmov.s <FREG_M_SD_A>,@-<REG_N>" }
    else if i == 200 { "fcnvds <DR_N>,FPUL" }
    else if i == 201 { "fcnvsd FPUL,<DR_N>" }
    else if i == 202 { "fipr <FV_M>,<FV_N>" }
    else if i == 203 { "frchg" }
    else if i == 204 { "fschg" }
    else if i == 205 { "fsts FPUL,<FREG_N>" }
    else if i == 206 { "fsrra <FREG_N>" }
    else if i == 207 { "fmac <FREG_0>,<FREG_M>,<FREG_N>" }
    else if i == 208 { "sts PR,<REG_N>" }
    else if i == 209 { "ldc <REG_N>,SGR" }
    else if i == 210 { "stc.l SGR,@-<REG_N>" }
    else if i == 211 { "REIOS_OPCODE" }
    else { "unknown opcode" }
}

/// Entry `i` of the opcode table: its instruction, pattern, the mask and
/// key that the pattern gives, and its template; the closing entry (the
/// last) has mask 0xFFFF and key 0.
pub open spec fn table_entry(i: int) -> sh4_opcodelistentry {
    if i == NUM_OPCODE_ENTRIES - 1 {
        sh4_opcodelistentry { op: Sh4Op::Unknown, handler_name: "unknown_opcode", mask: 0xFFFF, key: 0, diss: "unknown opcode" }
    } else {
        sh4_opcodelistentry {
            op: op_at(i),
            handler_name: pattern_at(i),
            mask: spec_parse_opcode(pattern_at(i).spec_bytes()).0,
            key: spec_parse_opcode(pattern_at(i).spec_bytes()).1,
            diss: template_at(i),
        }
    }
}

/// Entry `i` of the opcode table, for a machine index.
pub open spec fn table_entry_index(i: usize) -> sh4_opcodelistentry {
    table_entry(i as int)
}

/// The opcode table as a sequence.
pub open spec fn opcode_table() -> Seq<sh4_opcodelistentry> {
    Seq::new(NUM_OPCODE_ENTRIES as nat, |i: int| table_entry(i))
}



/// The instruction of table entry `i`.
pub open spec fn op_at(i: int) -> Sh4Op {
    if i == 0 { Sh4Op::MulLRmRn }
    else if i == 1 { Sh4Op::Nop }
    else if i == 2 { Sh4Op::StsFpulRn }
    else if i == 3 { Sh4Op::StsMaclRn }
    else if i == 4 { Sh4Op::MovBRmAtRn }
    else if i == 5 { Sh4Op::MovWRmAtRn }
    else if i == 6 { Sh4Op::MovLRmAtRn }
    else if i == 7 { Sh4Op::AndRmRn }
    else if i == 8 { Sh4Op::XorRmRn }
    else if i == 9 { Sh4Op::SubRmRn }
    else if i == 10 { Sh4Op::AddRmRn }
    else if i == 11 { Sh4Op::DtRn }
    else if i == 12 { Sh4Op::ShlrRn }
    else if i == 13 { Sh4Op::Shll8Rn }
    else if i == 14 { Sh4Op::Shlr2Rn }
    else if i == 15 { Sh4Op::Shlr16Rn }
    else if i == 16 { Sh4Op::MovBAtRmRn }
    else if i == 17 { Sh4Op::MovRmRn }
    else if i == 18 { Sh4Op::NegRmRn }
    else if i == 19 { Sh4Op::ExtuBRmRn }
    else if i == 20 { Sh4Op::AddImmRn }
    else if i == 21 { Sh4Op::BfDisp }
    else if i == 22 { Sh4Op::BfSDisp }
    else if i == 23 { Sh4Op::BraDisp }
    else if i == 24 { Sh4Op::MovaAtPcDispR0 }
    else if i == 25 { Sh4Op::MovBR0AtDispRm }
    else if i == 26 { Sh4Op::MovWR0AtDispRm }
    else if i == 27 { Sh4Op::MovBAtDispRmR0 }
    else if i == 28 { Sh4Op::MovWAtDispRmR0 }
    else if i == 29 { Sh4Op::CmpEqImmR0 }
    else if i == 30 { Sh4Op::MovLAtPcDispRn }
    else if i == 31 { Sh4Op::MovImmRn }
    else if i == 32 { Sh4Op::FaddFmFn }
    else if i == 33 { Sh4Op::FsubFmFn }
    else if i == 34 { Sh4Op::FmulFmFn }
    else if i == 35 { Sh4Op::FdivFmFn }
    else if i == 36 { Sh4Op::FmovSAtRmFn }
    else if i == 37 { Sh4Op::FmovFmFn }
    else if i == 38 { Sh4Op::FscaFpulDn }
    else if i == 39 { Sh4Op::FloatFpulFn }
    else if i == 40 { Sh4Op::FtrcFnFpul }
    else if i == 41 { Sh4Op::LdsRnFpul }
    else if i == 42 { Sh4Op::StcSrRn }
    else if i == 43 { Sh4Op::StcGbrRn }
    else if i == 44 { Sh4Op::StcVbrRn }
    else if i == 45 { Sh4Op::StcSsrRn }
    else if i == 46 { Sh4Op::StsSgrRn }
    else if i == 47 { Sh4Op::StcSpcRn }
    else if i == 48 { Sh4Op::StcRmBankRn }
    else if i == 49 { Sh4Op::BrafRn }
    else if i == 50 { Sh4Op::BsrfRn }
    else if i == 51 { Sh4Op::MovcaLR0AtRn }
    else if i == 52 { Sh4Op::OcbiAtRn }
    else if i == 53 { Sh4Op::OcbpAtRn }
    else if i == 54 { Sh4Op::OcbwbAtRn }
    else if i == 55 { Sh4Op::PrefAtRn }
    else if i == 56 { Sh4Op::MovBRmAtR0Rn }
    else if i == 57 { Sh4Op::MovWRmAtR0Rn }
    else if i == 58 { Sh4Op::MovLRmAtR0Rn }
    else if i == 59 { Sh4Op::Clrmac }
    else if i == 60 { Sh4Op::Clrs }
    else if i == 61 { Sh4Op::Clrt }
    else if i == 62 { Sh4Op::Ldtlb }
    else if i == 63 { Sh4Op::Sets }
    else if i == 64 { Sh4Op::Sett }
    else if i == 65 { Sh4Op::Div0u }
    else if i == 66 { Sh4Op::MovtRn }
    else if i == 67 { Sh4Op::StsFpscrRn }
    else if i == 68 { Sh4Op::StsDbrRn }
    else if i == 69 { Sh4Op::StsMachRn }
    else if i == 70 { Sh4Op::Rte }
    else if i == 71 { Sh4Op::Rts }
    else if i == 72 { Sh4Op::Sleep }
    else if i == 73 { Sh4Op::MovBAtR0RmRn }
    else if i == 74 { Sh4Op::MovWAtR0RmRn }
    else if i == 75 { Sh4Op::MovLAtR0RmRn }
    else if i == 76 { Sh4Op::MacLAtRmPostIncAtRnPostInc }
    else if i == 77 { Sh4Op::MovLRmAtDispRn }
    else if i == 78 { Sh4Op::MovBRmPreDecRn }
    else if i == 79 { Sh4Op::MovWRmPreDecRn }
    else if i == 80 { Sh4Op::MovLRmPreDecRn }
    else if i == 81 { Sh4Op::Div0sRmRn }
    else if i == 82 { Sh4Op::TstRmRn }
    else if i == 83 { Sh4Op::OrRmRn }
    else if i == 84 { Sh4Op::CmpStrRmRn }
    else if i == 85 { Sh4Op::XtrctRmRn }
    else if i == 86 { Sh4Op::MuluWRmRn }
    else if i == 87 { Sh4Op::MulsWRmRn }
    else if i == 88 { Sh4Op::CmpEqRmRn }
    else if i == 89 { Sh4Op::CmpHsRmRn }
    else if i == 90 { Sh4Op::CmpGeRmRn }
    else if i == 91 { Sh4Op::Div1RmRn }
    else if i == 92 { Sh4Op::DmuluLRmRn }
    else if i == 93 { Sh4Op::CmpHiRmRn }
    else if i == 94 { Sh4Op::CmpGtRmRn }
    else if i == 95 { Sh4Op::SubcRmRn }
    else if i == 96 { Sh4Op::SubvRmRn }
    else if i == 97 { Sh4Op::DmulsLRmRn }
    else if i == 98 { Sh4Op::AddcRmRn }
    else if i == 99 { Sh4Op::AddvRmRn }
    else if i == 100 { Sh4Op::StsLFpulPreDecRn }
    else if i == 101 { Sh4Op::StsLFpscrPreDecRn }
    else if i == 102 { Sh4Op::StsLMachPreDecRn }
    else if i == 103 { Sh4Op::StsLMaclPreDecRn }
    else if i == 104 { Sh4Op::StsLPrPreDecRn }
    else if i == 105 { Sh4Op::StcLDbrPreDecRn }
    else if i == 106 { Sh4Op::StcLSrPreDecRn }
    else if i == 107 { Sh4Op::StcLGbrPreDecRn }
    else if i == 108 { Sh4Op::StcLVbrPreDecRn }
    else if i == 109 { Sh4Op::StcLSsrPreDecRn }
    else if i == 110 { Sh4Op::StcLSpcPreDecRn }
    else if i == 111 { Sh4Op::StcRmBankPreDecRn }
    else if i == 112 { Sh4Op::LdsLAtRnPostIncMach }
    else if i == 113 { Sh4Op::LdsLAtRnPostIncMacl }
    else if i == 114 { Sh4Op::LdsLAtRnPostIncPr }
    else if i == 115 { Sh4Op::LdcLAtRnPostIncSgr }
    else if i == 116 { Sh4Op::LdsLAtRnPostIncFpul }
    else if i == 117 { Sh4Op::LdsLAtRnPostIncFpscr }
    else if i == 118 { Sh4Op::LdcLAtRnPostIncDbr }
    else if i == 119 { Sh4Op::LdcLAtRnPostIncSr }
    else if i == 120 { Sh4Op::LdcLAtRnPostIncGbr }
    else if i == 121 { Sh4Op::LdcLAtRnPostIncVbr }
    else if i == 122 { Sh4Op::LdcLAtRnPostIncSsr }
    else if i == 123 { Sh4Op::LdcLAtRnPostIncSpc }
    else if i == 124 { Sh4Op::LdcLAtRnPostIncRmBank }
    else if i == 125 { Sh4Op::LdsRnMach }
    else if i == 126 { Sh4Op::LdsRnMacl }
    else if i == 127 { Sh4Op::LdsRnPr }
    else if i == 128 { Sh4Op::LdsRnFpscr }
    else if i == 129 { Sh4Op::LdcRnDbr }
    else if i == 130 { Sh4Op::LdcRnSr }
    else if i == 131 { Sh4Op::LdcRnGbr }
    else if i == 132 { Sh4Op::LdcRnVbr }
    else if i == 133 { Sh4Op::LdcRnSsr }
    else if i == 134 { Sh4Op::LdcRnSpc }
    else if i == 135 { Sh4Op::LdcRnRmBank }
    else if i == 136 { Sh4Op::ShllRn }
    else if i == 137 { Sh4Op::ShalRn }
    else if i == 138 { Sh4Op::CmpPzRn }
    else if i == 139 { Sh4Op::SharRn }
    else if i == 140 { Sh4Op::RotclRn }
    else if i == 141 { Sh4Op::RotlRn }
    else if i == 142 { Sh4Op::CmpPlRn }
    else if i == 143 { Sh4Op::RotcrRn }
    else if i == 144 { Sh4Op::RotrRn }
    else if i == 145 { Sh4Op::Shll2Rn }
    else if i == 146 { Sh4Op::Shll16Rn }
    else if i == 147 { Sh4Op::Shlr8Rn }
    else if i == 148 { Sh4Op::JmpAtRn }
    else if i == 149 { Sh4Op::JsrAtRn }
    else if i == 150 { Sh4Op::TasBAtRn }
    else if i == 151 { Sh4Op::ShadRmRn }
    else if i == 152 { Sh4Op::ShldRmRn }
    else if i == 153 { Sh4Op::MacWAtRmPostIncAtRnPostInc }
    else if i == 154 { Sh4Op::MovLAtDispRmRn }
    else if i == 155 { Sh4Op::MovWAtRmRn }
    else if i == 156 { Sh4Op::MovLAtRmRn }
    else if i == 157 { Sh4Op::MovBAtRmPostIncRn }
    else if i == 158 { Sh4Op::MovWAtRmPostIncRn }
    else if i == 159 { Sh4Op::MovLAtRmPostIncRn }
    else if i == 160 { Sh4Op::NotRmRn }
    else if i == 161 { Sh4Op::SwapBRmRn }
    else if i == 162 { Sh4Op::SwapWRmRn }
    else if i == 163 { Sh4Op::NegcRmRn }
    else if i == 164 { Sh4Op::ExtuWRmRn }
    else if i == 165 { Sh4Op::ExtsBRmRn }
    else if i == 166 { Sh4Op::ExtsWRmRn }
    else if i == 167 { Sh4Op::MovWAtPcDispRn }
    else if i == 168 { Sh4Op::BtDisp }
    else if i == 169 { Sh4Op::BtSDisp }
    else if i == 170 { Sh4Op::BsrDisp }
    else if i == 171 { Sh4Op::MovBR0AtDispGbr }
    else if i == 172 { Sh4Op::MovWR0AtDispGbr }
    else if i == 173 { Sh4Op::MovLR0AtDispGbr }
    else if i == 174 { Sh4Op::TrapaImm }
    else if i == 175 { Sh4Op::MovBAtGbrDispR0 }
    else if i == 176 { Sh4Op::MovWAtGbrDispR0 }
    else if i == 177 { Sh4Op::MovLAtGbrDispR0 }
    else if i == 178 { Sh4Op::TstImmR0 }
    else if i == 179 { Sh4Op::AndImmR0 }
    else if i == 180 { Sh4Op::XorImmR0 }
    else if i == 181 { Sh4Op::OrImmR0 }
    else if i == 182 { Sh4Op::TstBImmAtR0Gbr }
    else if i == 183 { Sh4Op::AndBImmAtR0Gbr }
    else if i == 184 { Sh4Op::XorBImmAtR0Gbr }
    else if i == 185 { Sh4Op::OrBImmAtR0Gbr }
    else if i == 186 { Sh4Op::FldsFnFpul }
    else if i == 187 { Sh4Op::FnegFn }
    else if i == 188 { Sh4Op::FabsFn }
    else if i == 189 { Sh4Op::FsqrtFn }
    else if i == 190 { Sh4Op::Fldi0Fn }
    else if i == 191 { Sh4Op::Fldi1Fn }
    else if i == 192 { Sh4Op::FtrvXmtrxFvn }
    else if i == 193 { Sh4Op::FcmpEqFmFn }
    else if i == 194 { Sh4Op::FcmpGtFmFn }
    else if i == 195 { Sh4Op::FmovSAtR0RmFn }
    else if i == 196 { Sh4Op::FmovSFmAtR0Rn }
    else if i == 197 { Sh4Op::FmovSAtRmPostIncFn }
    else if i == 198 { Sh4Op::FmovSFmAtRn }
    else if i == 199 { Sh4Op::FmovSFmPreDecRn }
    else if i == 200 { Sh4Op::FcnvdsDnFpul }
    else if i == 201 { Sh4Op::FcnvsdFpulDn }
    else if i == 202 { Sh4Op::FiprFvmFvn }
    else if i == 203 { Sh4Op::Frchg }
    else if i == 204 { Sh4Op::Fschg }
    else if i == 205 { Sh4Op::FstsFpulFn }
    else if i == 206 { Sh4Op::FsrraFn }
    else if i == 207 { Sh4Op::FmacF0FmFn }
    else if i == 208 { Sh4Op::StsPrRn }
    else if i == 209 { Sh4Op::LdcRnSgr }
    else if i == 210 { Sh4Op::StcLSgrPreDecRn }
    else if i == 211 { Sh4Op::ReiosTrap }
    else { Sh4Op::Unknown }
}

/// The instruction of table entry `i`, for a machine index.
pub open spec fn op_at_index(i: usize) -> Sh4Op {
    op_at(i as int)
}

/// What `mul.l <REG_M>,<REG_N>` does.
pub open spec fn post_mul_l_rm_rn(o: Sh4Ctx, c: Sh4Ctx, op: u16, out: ExecOutcome) -> bool {
    let ni = field_n(op);
    let mi = field_m(op);
    let rn = o.r[ni];
    let rm = o.r[mi];
    out == ExecOutcome::Done && c == (Sh4Ctx { mac: with_mac_l(o.mac, wrap32(signed32(rn) * signed32(rm))), ..o })
}

fn exec_mul_l_rm_rn(ctx: &mut Sh4Ctx, op: u16) -> (out: ExecOutcome)
    requires
        old(ctx).wf(),
    ensures
        final(ctx).wf(),
        final(ctx).remaining_cycles == old(ctx).remaining_cycles,
        post_mul_l_rm_rn(*old(ctx), *final(ctx), op, out),
{
    let n = GetN(op);
    let m = GetM(op);
    let a = ctx.r[n];
    let b = ctx.r[m];
    let mut l: u32 = 0;
    sh4_muls32(&mut l, a, b);
    ctx.mac = with_mac_l_exec(ctx.mac, l);
    ExecOutcome::Done
}

/// What `nop` does.
pub open spec fn post_nop(o: Sh4Ctx, c: Sh4Ctx, op: u16, out: ExecOutcome) -> bool {
    let ni = field_n(op);
    let mi = field_m(op);
    let rn = o.r[ni];
    let rm = o.r[mi];
    out == ExecOutcome::Done && c == o
}

fn exec_nop(ctx: &mut Sh4Ctx, op: u16) -> (out: ExecOutcome)
    requires
        old(ctx).wf(),
    ensures
        final(ctx).wf(),
        final(ctx).remaining_cycles == old(ctx).remaining_cycles,
        post_nop(*old(ctx), *final(ctx), op, out),
{
    ExecOutcome::Done
}

/// What `sts FPUL,<REG_N>` does.
pub open spec fn post_sts_fpul_rn(o: Sh4Ctx, c: Sh4Ctx, op: u16, out: ExecOutcome) -> bool {
    let ni = field_n(op);
    let mi = field_m(op);
    let rn = o.r[ni];
    let rm = o.r[mi];
    out == ExecOutcome::Done && only_r(o, c, ni, o.fpul)
}

fn exec_sts_fpul_rn(ctx: &mut Sh4Ctx, op: u16) -> (out: ExecOutcome)
    requires
        old(ctx).wf(),
    ensures
        final(ctx).wf(),
        final(ctx).remaining_cycles == old(ctx).remaining_cycles,
        post_sts_fpul_rn(*old(ctx), *final(ctx), op, out),
{
    let n = GetN(op);
    let v = ctx.fpul;
    ctx.r[n] = v;
    ExecOutcome::Done
}

/// What `sts MACL,<REG_N>` does.
pub open spec fn post_sts_macl_rn(o: Sh4Ctx, c: Sh4Ctx, op: u16, out: ExecOutcome) -> bool {
    let ni = field_n(op);
    let mi = field_m(op);
    let rn = o.r[ni];
    let rm = o.r[mi];
    out == ExecOutcome::Done && only_r(o, c, ni, mac_l(o.mac))
}

fn exec_sts_macl_rn(ctx: &mut Sh4Ctx, op: u16) -> (out: ExecOutcome)
    requires
        old(ctx).wf(),
    ensures
        final(ctx).wf(),
        final(ctx).remaining_cycles == old(ctx).remaining_cycles,
        post_sts_macl_rn(*old(ctx), *final(ctx), op, out),
{
    let n = GetN(op);
    let v = mac_parts(ctx.mac).l;
    ctx.r[n] = v;
    ExecOutcome::Done
}

/// What `mov.b <REG_M>,@<REG_N>` does.
pub open spec fn post_mov_b_rm_at_rn(o: Sh4Ctx, c: Sh4Ctx, op: u16, out: ExecOutcome) -> bool {
    let ni = field_n(op);
    let mi = field_m(op);
    let rn = o.r[ni];
    let rm = o.r[mi];
    store_post(o, c, out, rn, 1, (rm % 0x100) as u64)
}

fn exec_mov_b_rm_at_rn(ctx: &mut Sh4Ctx, op: u16) -> (out: ExecOutcome)
    requires
        old(ctx).wf(),
    ensures
        final(ctx).wf(),
        final(ctx).remaining_cycles == old(ctx).remaining_cycles,
        post_mov_b_rm_at_rn(*old(ctx), *final(ctx), op, out),
{
    let n = GetN(op);
    let m = GetM(op);
    let a = ctx.r[n];
    let d = ctx.r[m];
    if sh4_write_mem8(ctx, a, d) { ExecOutcome::Done } else { ExecOutcome::Fault }
}

/// What `mov.w <REG_M>,@<REG_N>` does.
pub open spec fn post_mov_w_rm_at_rn(o: Sh4Ctx, c: Sh4Ctx, op: u16, out: ExecOutcome) -> bool {
    let ni = field_n(op);
    let mi = field_m(op);
    let rn = o.r[ni];
    let rm = o.r[mi];
    store_post(o, c, out, rn, 2, (rm % 0x1_0000) as u64)
}

fn exec_mov_w_rm_at_rn(ctx: &mut Sh4Ctx, op: u16) -> (out: ExecOutcome)
    requires
        old(ctx).wf(),
    ensures
        final(ctx).wf(),
        final(ctx).remaining_cycles == old(ctx).remaining_cycles,
        post_mov_w_rm_at_rn(*old(ctx), *final(ctx), op, out),
{
    let n = GetN(op);
    let m = GetM(op);
    let a = ctx.r[n];
    let d = ctx.r[m];
    if sh4_write_mem16(ctx, a, d) { ExecOutcome::Done } else { ExecOutcome::Fault }
}

/// What `mov.l <REG_M>,@<REG_N>` does.
pub open spec fn post_mov_l_rm_at_rn(o: Sh4Ctx, c: Sh4Ctx, op: u16, out: ExecOutcome) -> bool {
    let ni = field_n(op);
    let mi = field_m(op);
    let rn = o.r[ni];
    let rm = o.r[mi];
    store_post(o, c, out, rn, 4, rm as u64)
}

fn exec_mov_l_rm_at_rn(ctx: &mut Sh4Ctx, op: u16) -> (out: ExecOutcome)
    requires
        old(ctx).wf(),
    ensures
        final(ctx).wf(),
        final(ctx).remaining_cycles == old(ctx).remaining_cycles,
        post_mov_l_rm_at_rn(*old(ctx), *final(ctx), op, out),
{
    let n = GetN(op);
    let m = GetM(op);
    let a = ctx.r[n];
    let d = ctx.r[m];
    if sh4_write_mem32(ctx, a, d) { ExecOutcome::Done } else { ExecOutcome::Fault }
}

/// What `and <REG_M>,<REG_N>` does.
pub open spec fn post_and_rm_rn(o: Sh4Ctx, c: Sh4Ctx, op: u16, out: ExecOutcome) -> bool {
    let ni = field_n(op);
    let mi = field_m(op);
    let rn = o.r[ni];
    let rm = o.r[mi];
    out == ExecOutcome::Done && only_r(o, c, ni, rn & rm)
}

fn exec_and_rm_rn(ctx: &mut Sh4Ctx, op: u16) -> (out: ExecOutcome)
    requires
        old(ctx).wf(),
    ensures
        final(ctx).wf(),
        final(ctx).remaining_cycles == old(ctx).remaining_cycles,
        post_and_rm_rn(*old(ctx), *final(ctx), op, out),
{
    let n = GetN(op);
    let m = GetM(op);
    let a = ctx.r[n];
    let b = ctx.r[m];
    let mut d: u32 = 0;
    sh4_and(&mut d, a, b);
    ctx.r[n] = d;
    ExecOutcome::Done
}

/// What `xor <REG_M>,<REG_N>` does.
pub open spec fn post_xor_rm_rn(o: Sh4Ctx, c: Sh4Ctx, op: u16, out: ExecOutcome) -> bool {
    let ni = field_n(op);
    let mi = field_m(op);
    let rn = o.r[ni];
    let rm = o.r[mi];
    out == ExecOutcome::Done && only_r(o, c, ni, rn ^ rm)
}

fn exec_xor_rm_rn(ctx: &mut Sh4Ctx, op: u16) -> (out: ExecOutcome)
    requires
        old(ctx).wf(),
    ensures
        final(ctx).wf(),
        final(ctx).remaining_cycles == old(ctx).remaining_cycles,
        post_xor_rm_rn(*old(ctx), *final(ctx), op, out),
{
    let n = GetN(op);
    let m = GetM(op);
    let a = ctx.r[n];
    let b = ctx.r[m];
    let mut d: u32 = 0;
    sh4_xor(&mut d, a, b);
    ctx.r[n] = d;
    ExecOutcome::Done
}

/// What `sub <REG_M>,<REG_N>` does.
pub open spec fn post_sub_rm_rn(o: Sh4Ctx, c: Sh4Ctx, op: u16, out: ExecOutcome) -> bool {
    let ni = field_n(op);
    let mi = field_m(op);
    let rn = o.r[ni];
    let rm = o.r[mi];
    out == ExecOutcome::Done && only_r(o, c, ni, wrap32(rn - rm))
}

fn exec_sub_rm_rn(ctx: &mut Sh4Ctx, op: u16) -> (out: ExecOutcome)
    requires
        old(ctx).wf(),
    ensures
        final(ctx).wf(),
        final(ctx).remaining_cycles == old(ctx).remaining_cycles,
        post_sub_rm_rn(*old(ctx), *final(ctx), op, out),
{
    let n = GetN(op);
    let m = GetM(op);
    let a = ctx.r[n];
    let b = ctx.r[m];
    let mut d: u32 = 0;
    sh4_sub(&mut d, a, b);
    ctx.r[n] = d;
    ExecOutcome::Done
}

/// What `add <REG_M>,<REG_N>` does.
pub open spec fn post_add_rm_rn(o: Sh4Ctx, c: Sh4Ctx, op: u16, out: ExecOutcome) -> bool {
    let ni = field_n(op);
    let mi = field_m(op);
    let rn = o.r[ni];
    let rm = o.r[mi];
    out == ExecOutcome::Done && only_r(o, c, ni, wrap32(rn + rm))
}

fn exec_add_rm_rn(ctx: &mut Sh4Ctx, op: u16) -> (out: ExecOutcome)
    requires
        old(ctx).wf(),
    ensures
        final(ctx).wf(),
        final(ctx).remaining_cycles == old(ctx).remaining_cycles,
        post_add_rm_rn(*old(ctx), *final(ctx), op, out),
{
    let n = GetN(op);
    let m = GetM(op);
    let a = ctx.r[n];
    let b = ctx.r[m];
    let mut d: u32 = 0;
    sh4_add(&mut d, a, b);
    ctx.r[n] = d;
    ExecOutcome::Done
}

/// What `dt <REG_N>` does.
pub open spec fn post_dt_rn(o: Sh4Ctx, c: Sh4Ctx, op: u16, out: ExecOutcome) -> bool {
    let ni = field_n(op);
    let mi = field_m(op);
    let rn = o.r[ni];
    let rm = o.r[mi];
    out == ExecOutcome::Done && only_r_t(o, c, ni, wrap32(rn - 1), flag(rn == 1))
}

fn exec_dt_rn(ctx: &mut Sh4Ctx, op: u16) -> (out: ExecOutcome)
    requires
        old(ctx).wf(),
    ensures
        final(ctx).wf(),
        final(ctx).remaining_cycles == old(ctx).remaining_cycles,
        post_dt_rn(*old(ctx), *final(ctx), op, out),
{
    let n = GetN(op);
    let mut t: u32 = ctx.sr_t;
    let mut d: u32 = ctx.r[n];
    let a = ctx.r[n];
    sh4_dt(&mut t, &mut d);
    
    ctx.r[n] = d;
    ctx.sr_t = t;
    ExecOutcome::Done
}

/// What `shlr <REG_N>` does.
pub open spec fn post_shlr_rn(o: Sh4Ctx, c: Sh4Ctx, op: u16, out: ExecOutcome) -> bool {
    let ni = field_n(op);
    let mi = field_m(op);
    let rn = o.r[ni];
    let rm = o.r[mi];
    out == ExecOutcome::Done && only_r_t(o, c, ni, rn / 2, rn % 2)
}

fn exec_shlr_rn(ctx: &mut Sh4Ctx, op: u16) -> (out: ExecOutcome)
    requires
        old(ctx).wf(),
    ensures
        final(ctx).wf(),
        final(ctx).remaining_cycles == old(ctx).remaining_cycles,
        post_shlr_rn(*old(ctx), *final(ctx), op, out),
{
    let n = GetN(op);
    let mut t: u32 = ctx.sr_t;
    let mut d: u32 = ctx.r[n];
    let a = ctx.r[n];
    sh4_shlr(&mut t, &mut d, a);
    
    ctx.r[n] = d;
    ctx.sr_t = t;
    ExecOutcome::Done
}

/// What `shll8 <REG_N>` does.
pub open spec fn post_shll8_rn(o: Sh4Ctx, c: Sh4Ctx, op: u16, out: ExecOutcome) -> bool {
    let ni = field_n(op);
    let mi = field_m(op);
    let rn = o.r[ni];
    let rm = o.r[mi];
    out == ExecOutcome::Done && only_r(o, c, ni, rn << 8u32)
}

fn exec_shll8_rn(ctx: &mut Sh4Ctx, op: u16) -> (out: ExecOutcome)
    requires
        old(ctx).wf(),
    ensures
        final(ctx).wf(),
        final(ctx).remaining_cycles == old(ctx).remaining_cycles,
        post_shll8_rn(*old(ctx), *final(ctx), op, out),
{
    let n = GetN(op);
    let a = ctx.r[n];
    let mut d: u32 = 0;
    sh4_shllf(&mut d, a, 8);
    ctx.r[n] = d;
    ExecOutcome::Done
}

/// What `shlr2 <REG_N>` does.
pub open spec fn post_shlr2_rn(o: Sh4Ctx, c: Sh4Ctx, op: u16, out: ExecOutcome) -> bool {
    let ni = field_n(op);
    let mi = field_m(op);
    let rn = o.r[ni];
    let rm = o.r[mi];
    out == ExecOutcome::Done && only_r(o, c, ni, rn >> 2u32)
}

fn exec_shlr2_rn(ctx: &mut Sh4Ctx, op: u16) -> (out: ExecOutcome)
    requires
        old(ctx).wf(),
    ensures
        final(ctx).wf(),
        final(ctx).remaining_cycles == old(ctx).remaining_cycles,
        post_shlr2_rn(*old(ctx), *final(ctx), op, out),
{
    let n = GetN(op);
    let a = ctx.r[n];
    let mut d: u32 = 0;
    sh4_shlrf(&mut d, a, 2);
    ctx.r[n] = d;
    ExecOutcome::Done
}

/// What `shlr16 <REG_N>` does.
pub open spec fn post_shlr16_rn(o: Sh4Ctx, c: Sh4Ctx, op: u16, out: ExecOutcome) -> bool {
    let ni = field_n(op);
    let mi = field_m(op);
    let rn = o.r[ni];
    let rm = o.r[mi];
    out == ExecOutcome::Done && only_r(o, c, ni, rn >> 16u32)
}

fn exec_shlr16_rn(ctx: &mut Sh4Ctx, op: u16) -> (out: ExecOutcome)
    requires
        old(ctx).wf(),
    ensures
        final(ctx).wf(),
        final(ctx).remaining_cycles == old(ctx).remaining_cycles,
        post_shlr16_rn(*old(ctx), *final(ctx), op, out),
{
    let n = GetN(op);
    let a = ctx.r[n];
    let mut d: u32 = 0;
    sh4_shlrf(&mut d, a, 16);
    ctx.r[n] = d;
    ExecOutcome::Done
}

/// What `mov.b @<REG_M>,<REG_N>` does.
pub open spec fn post_mov_b_at_rm_rn(o: Sh4Ctx, c: Sh4Ctx, op: u16, out: ExecOutcome) -> bool {
    let ni = field_n(op);
    let mi = field_m(op);
    let rn = o.r[ni];
    let rm = o.r[mi];
    match spec_read_mem(o, rm, 1) {
        Some(v) => out == ExecOutcome::Done && only_r(o, c, ni, sext_read(v, 1)),
        None => out == ExecOutcome::Fault && c == o,
    }
}

fn exec_mov_b_at_rm_rn(ctx: &mut Sh4Ctx, op: u16) -> (out: ExecOutcome)
    requires
        old(ctx).wf(),
    ensures
        final(ctx).wf(),
        final(ctx).remaining_cycles == old(ctx).remaining_cycles,
        post_mov_b_at_rm_rn(*old(ctx), *final(ctx), op, out),
{
    let n = GetN(op);
    let m = GetM(op);
    let a = ctx.r[m];
    match sh4_read_mems8(ctx, a) {
        Some(v) => {
            ctx.r[n] = v;
            ExecOutcome::Done
        },
        None => ExecOutcome::Fault,
    }
}

/// What `mov <REG_M>,<REG_N>` does.
pub open spec fn post_mov_rm_rn(o: Sh4Ctx, c: Sh4Ctx, op: u16, out: ExecOutcome) -> bool {
    let ni = field_n(op);
    let mi = field_m(op);
    let rn = o.r[ni];
    let rm = o.r[mi];
    out == ExecOutcome::Done && only_r(o, c, ni, rm)
}

fn exec_mov_rm_rn(ctx: &mut Sh4Ctx, op: u16) -> (out: ExecOutcome)
    requires
        old(ctx).wf(),
    ensures
        final(ctx).wf(),
        final(ctx).remaining_cycles == old(ctx).remaining_cycles,
        post_mov_rm_rn(*old(ctx), *final(ctx), op, out),
{
    let n = GetN(op);
    let m = GetM(op);
    let v = ctx.r[m];
    ctx.r[n] = v;
    ExecOutcome::Done
}

/// What `neg <REG_M>,<REG_N>` does.
pub open spec fn post_neg_rm_rn(o: Sh4Ctx, c: Sh4Ctx, op: u16, out: ExecOutcome) -> bool {
    let ni = field_n(op);
    let mi = field_m(op);
    let rn = o.r[ni];
    let rm = o.r[mi];
    out == ExecOutcome::Done && only_r(o, c, ni, wrap32(0 - rm))
}

fn exec_neg_rm_rn(ctx: &mut Sh4Ctx, op: u16) -> (out: ExecOutcome)
    requires
        old(ctx).wf(),
    ensures
        final(ctx).wf(),
        final(ctx).remaining_cycles == old(ctx).remaining_cycles,
        post_neg_rm_rn(*old(ctx), *final(ctx), op, out),
{
    let n = GetN(op);
    let m = GetM(op);
    let b = ctx.r[m];
    let mut d: u32 = 0;
    sh4_neg(&mut d, b);
    ctx.r[n] = d;
    ExecOutcome::Done
}

/// What `extu.b <REG_M>,<REG_N>` does.
pub open spec fn post_extu_b_rm_rn(o: Sh4Ctx, c: Sh4Ctx, op: u16, out: ExecOutcome) -> bool {
    let ni = field_n(op);
    let mi = field_m(op);
    let rn = o.r[ni];
    let rm = o.r[mi];
    out == ExecOutcome::Done && only_r(o, c, ni, rm % 0x100)
}

fn exec_extu_b_rm_rn(ctx: &mut Sh4Ctx, op: u16) -> (out: ExecOutcome)
    requires
        old(ctx).wf(),
    ensures
        final(ctx).wf(),
        final(ctx).remaining_cycles == old(ctx).remaining_cycles,
        post_extu_b_rm_rn(*old(ctx), *final(ctx), op, out),
{
    let n = GetN(op);
    let m = GetM(op);
    let b = ctx.r[m];
    let mut d: u32 = 0;
    sh4_extub(&mut d, b);
    ctx.r[n] = d;
    ExecOutcome::Done
}

/// What `add #<simm8>,<REG_N>` does.
pub open spec fn post_add_imm_rn(o: Sh4Ctx, c: Sh4Ctx, op: u16, out: ExecOutcome) -> bool {
    let ni = field_n(op);
    let mi = field_m(op);
    let rn = o.r[ni];
    let rm = o.r[mi];
    out == ExecOutcome::Done && only_r(o, c, ni, wrap32(rn + wrap32(simm8(op))))
}

fn exec_add_imm_rn(ctx: &mut Sh4Ctx, op: u16) -> (out: ExecOutcome)
    requires
        old(ctx).wf(),
    ensures
        final(ctx).wf(),
        final(ctx).remaining_cycles == old(ctx).remaining_cycles,
        post_add_imm_rn(*old(ctx), *final(ctx), op, out),
{
    let n = GetN(op);
    let imm = GetSImm8(op);
    let a = ctx.r[n];
    let mut d: u32 = 0;
    sh4_addi(&mut d, a, imm_bits(imm));
    ctx.r[n] = d;
    ExecOutcome::Done
}

/// What `bf <bdisp8>` does.
pub open spec fn post_bf_disp(o: Sh4Ctx, c: Sh4Ctx, op: u16, out: ExecOutcome) -> bool {
    let ni = field_n(op);
    let mi = field_m(op);
    let rn = o.r[ni];
    let rm = o.r[mi];
    out == ExecOutcome::Done && ({
            let sel = if o.sr_t == 0 { spec_branch_target(o.pc0, simm8(op)) } else { o.pc0.wrapping_add(2) };
            c == (Sh4Ctx { pc1: sel, pc2: sel.wrapping_add(2), ..o })
        })
}

fn exec_bf_disp(ctx: &mut Sh4Ctx, op: u16) -> (out: ExecOutcome)
    requires
        old(ctx).wf(),
    ensures
        final(ctx).wf(),
        final(ctx).remaining_cycles == old(ctx).remaining_cycles,
        post_bf_disp(*old(ctx), *final(ctx), op, out),
{
    let pc = ctx.pc0;
    let disp8 = GetSImm8(op);
    let next = pc.wrapping_add(2);
    let target = branch_target_s8(pc, disp8);
    let t = ctx.sr_t;
    sh4_branch_cond(ctx, t, 0, next, target);
    ExecOutcome::Done
}

/// What `bf/s <bdisp8>` does.
pub open spec fn post_bf_s_disp(o: Sh4Ctx, c: Sh4Ctx, op: u16, out: ExecOutcome) -> bool {
    let ni = field_n(op);
    let mi = field_m(op);
    let rn = o.r[ni];
    let rm = o.r[mi];
    out == ExecOutcome::Done && c == (Sh4Ctx {
            pc2: if o.sr_t == 0 { spec_branch_target(o.pc0, simm8(op)) } else { o.pc0.wrapping_add(4) },
            is_delayslot1: 1,
            ..o
        })
}

fn exec_bf_s_disp(ctx: &mut Sh4Ctx, op: u16) -> (out: ExecOutcome)
    requires
        old(ctx).wf(),
    ensures
        final(ctx).wf(),
        final(ctx).remaining_cycles == old(ctx).remaining_cycles,
        post_bf_s_disp(*old(ctx), *final(ctx), op, out),
{
    let pc = ctx.pc0;
    let disp8 = GetSImm8(op);
    let next = pc.wrapping_add(4);
    let target = branch_target_s8(pc, disp8);
    let t = ctx.sr_t;
    sh4_branch_cond_delay(ctx, t, 0, next, target);
    ExecOutcome::Done
}

/// What `bra <bdisp12>` does.
pub open spec fn post_bra_disp(o: Sh4Ctx, c: Sh4Ctx, op: u16, out: ExecOutcome) -> bool {
    let ni = field_n(op);
    let mi = field_m(op);
    let rn = o.r[ni];
    let rm = o.r[mi];
    out == ExecOutcome::Done && c == (Sh4Ctx { pc2: spec_branch_target(o.pc0, simm12(op)), is_delayslot1: 1, ..o })
}

fn exec_bra_disp(ctx: &mut Sh4Ctx, op: u16) -> (out: ExecOutcome)
    requires
        old(ctx).wf(),
    ensures
        final(ctx).wf(),
        final(ctx).remaining_cycles == old(ctx).remaining_cycles,
        post_bra_disp(*old(ctx), *final(ctx), op, out),
{
    let pc = ctx.pc0;
    let disp12 = GetSImm12(op);
    let target = branch_target_s12(pc, disp12);
    sh4_branch_delay(ctx, target);
    ExecOutcome::Done
}

/// What `mova @(<PCdisp8d>),R0` does.
pub open spec fn post_mova_at_pc_disp_r0(o: Sh4Ctx, c: Sh4Ctx, op: u16, out: ExecOutcome) -> bool {
    let ni = field_n(op);
    let mi = field_m(op);
    let rn = o.r[ni];
    let rm = o.r[mi];
    out == ExecOutcome::Done && only_r(o, c, 0, spec_data_target_s8(o.pc0, (op % 256) as int))
}

fn exec_mova_at_pc_disp_r0(ctx: &mut Sh4Ctx, op: u16) -> (out: ExecOutcome)
    requires
        old(ctx).wf(),
    ensures
        final(ctx).wf(),
        final(ctx).remaining_cycles == old(ctx).remaining_cycles,
        post_mova_at_pc_disp_r0(*old(ctx), *final(ctx), op, out),
{
    let pc = ctx.pc0;
    let disp8 = GetImm8(op) as i32;
    let a = data_target_s8(pc, disp8);
    ctx.r[0] = a;
    ExecOutcome::Done
}

/// What `mov.b R0,@(<disp4b>,<REG_M>)` does.
pub open spec fn post_mov_b_r0_at_disp_rm(o: Sh4Ctx, c: Sh4Ctx, op: u16, out: ExecOutcome) -> bool {
    let ni = field_n(op);
    let mi = field_m(op);
    let rn = o.r[ni];
    let rm = o.r[mi];
    store_post(o, c, out, rm.wrapping_add((op % 16) as u32), 1, (o.r[0] % 0x100) as u64)
}

fn exec_mov_b_r0_at_disp_rm(ctx: &mut Sh4Ctx, op: u16) -> (out: ExecOutcome)
    requires
        old(ctx).wf(),
    ensures
        final(ctx).wf(),
        final(ctx).remaining_cycles == old(ctx).remaining_cycles,
        post_mov_b_r0_at_disp_rm(*old(ctx), *final(ctx), op, out),
{
    let m = GetM(op);
    let a = ctx.r[m].wrapping_add(GetImm4(op));
    let d = ctx.r[0];
    if sh4_write_mem8(ctx, a, d) { ExecOutcome::Done } else { ExecOutcome::Fault }
}

/// What `mov.w R0,@(<disp4w>,<REG_M>)` does.
pub open spec fn post_mov_w_r0_at_disp_rm(o: Sh4Ctx, c: Sh4Ctx, op: u16, out: ExecOutcome) -> bool {
    let ni = field_n(op);
    let mi = field_m(op);
    let rn = o.r[ni];
    let rm = o.r[mi];
    store_post(o, c, out, rm.wrapping_add(((op % 16) * 2) as u32), 2, (o.r[0] % 0x1_0000) as u64)
}

fn exec_mov_w_r0_at_disp_rm(ctx: &mut Sh4Ctx, op: u16) -> (out: ExecOutcome)
    requires
        old(ctx).wf(),
    ensures
        final(ctx).wf(),
        final(ctx).remaining_cycles == old(ctx).remaining_cycles,
        post_mov_w_r0_at_disp_rm(*old(ctx), *final(ctx), op, out),
{
    let m = GetM(op);
    let a = ctx.r[m].wrapping_add(GetImm4(op) * 2);
    let d = ctx.r[0];
    if sh4_write_mem16(ctx, a, d) { ExecOutcome::Done } else { ExecOutcome::Fault }
}

/// What `mov.b @(<disp4b>,<REG_M>),R0` does.
pub open spec fn post_mov_b_at_disp_rm_r0(o: Sh4Ctx, c: Sh4Ctx, op: u16, out: ExecOutcome) -> bool {
    let ni = field_n(op);
    let mi = field_m(op);
    let rn = o.r[ni];
    let rm = o.r[mi];
    match spec_read_mem(o, rm.wrapping_add((op % 16) as u32), 1) {
        Some(v) => out == ExecOutcome::Done && only_r(o, c, 0, sext_read(v, 1)),
        None => out == ExecOutcome::Fault && c == o,
    }
}

fn exec_mov_b_at_disp_rm_r0(ctx: &mut Sh4Ctx, op: u16) -> (out: ExecOutcome)
    requires
        old(ctx).wf(),
    ensures
        final(ctx).wf(),
        final(ctx).remaining_cycles == old(ctx).remaining_cycles,
        post_mov_b_at_disp_rm_r0(*old(ctx), *final(ctx), op, out),
{
    let m = GetM(op);
    let a = ctx.r[m].wrapping_add(GetImm4(op));
    match sh4_read_mems8(ctx, a) {
        Some(v) => {
            ctx.r[0] = v;
            ExecOutcome::Done
        },
        None => ExecOutcome::Fault,
    }
}

/// What `mov.w @(<disp4w>,<REG_M>),R0` does.
pub open spec fn post_mov_w_at_disp_rm_r0(o: Sh4Ctx, c: Sh4Ctx, op: u16, out: ExecOutcome) -> bool {
    let ni = field_n(op);
    let mi = field_m(op);
    let rn = o.r[ni];
    let rm = o.r[mi];
    match spec_read_mem(o, rm.wrapping_add(((op % 16) * 2) as u32), 2) {
        Some(v) => out == ExecOutcome::Done && only_r(o, c, 0, sext_read(v, 2)),
        None => out == ExecOutcome::Fault && c == o,
    }
}

fn exec_mov_w_at_disp_rm_r0(ctx: &mut Sh4Ctx, op: u16) -> (out: ExecOutcome)
    requires
        old(ctx).wf(),
    ensures
        final(ctx).wf(),
        final(ctx).remaining_cycles == old(ctx).remaining_cycles,
        post_mov_w_at_disp_rm_r0(*old(ctx), *final(ctx), op, out),
{
    let m = GetM(op);
    let a = ctx.r[m].wrapping_add(GetImm4(op) * 2);
    match sh4_read_mems16(ctx, a) {
        Some(v) => {
            ctx.r[0] = v;
            ExecOutcome::Done
        },
        None => ExecOutcome::Fault,
    }
}

/// What `cmp/eq #<simm8hex>,R0` does.
pub open spec fn post_cmp_eq_imm_r0(o: Sh4Ctx, c: Sh4Ctx, op: u16, out: ExecOutcome) -> bool {
    let ni = field_n(op);
    let mi = field_m(op);
    let rn = o.r[ni];
    let rm = o.r[mi];
    out == ExecOutcome::Done && only_t(o, c, flag(o.r[0] == wrap32(simm8(op))))
}

fn exec_cmp_eq_imm_r0(ctx: &mut Sh4Ctx, op: u16) -> (out: ExecOutcome)
    requires
        old(ctx).wf(),
    ensures
        final(ctx).wf(),
        final(ctx).remaining_cycles == old(ctx).remaining_cycles,
        post_cmp_eq_imm_r0(*old(ctx), *final(ctx), op, out),
{
    let mut t: u32 = ctx.sr_t;
    sh4_cmp_eq_imm(&mut t, ctx.r[0], imm_bits(GetSImm8(op)));
    ctx.sr_t = t;
    ExecOutcome::Done
}

/// What `mov.l @(<PCdisp8d>),<REG_N>` does.
pub open spec fn post_mov_l_at_pc_disp_rn(o: Sh4Ctx, c: Sh4Ctx, op: u16, out: ExecOutcome) -> bool {
    let ni = field_n(op);
    let mi = field_m(op);
    let rn = o.r[ni];
    let rm = o.r[mi];
    match spec_read_mem(o, spec_data_target_s8(o.pc0, (op % 256) as int), 4) {
        Some(v) => out == ExecOutcome::Done && only_r(o, c, ni, (v % 0x1_0000_0000) as u32),
        None => out == ExecOutcome::Fault && c == o,
    }
}

fn exec_mov_l_at_pc_disp_rn(ctx: &mut Sh4Ctx, op: u16) -> (out: ExecOutcome)
    requires
        old(ctx).wf(),
    ensures
        final(ctx).wf(),
        final(ctx).remaining_cycles == old(ctx).remaining_cycles,
        post_mov_l_at_pc_disp_rn(*old(ctx), *final(ctx), op, out),
{
    let n = GetN(op);
    let pc = ctx.pc0;
    let disp8 = GetImm8(op) as i32;
    let a = data_target_s8(pc, disp8);
    match sh4_read_mem32i(ctx, a) {
        Some(v) => {
            ctx.r[n] = v;
            ExecOutcome::Done
        },
        None => ExecOutcome::Fault,
    }
}

/// What `mov #<simm8hex>,<REG_N>` does.
pub open spec fn post_mov_imm_rn(o: Sh4Ctx, c: Sh4Ctx, op: u16, out: ExecOutcome) -> bool {
    let ni = field_n(op);
    let mi = field_m(op);
    let rn = o.r[ni];
    let rm = o.r[mi];
    out == ExecOutcome::Done && only_r(o, c, ni, wrap32(simm8(op)))
}

fn exec_mov_imm_rn(ctx: &mut Sh4Ctx, op: u16) -> (out: ExecOutcome)
    requires
        old(ctx).wf(),
    ensures
        final(ctx).wf(),
        final(ctx).remaining_cycles == old(ctx).remaining_cycles,
        post_mov_imm_rn(*old(ctx), *final(ctx), op, out),
{
    let n = GetN(op);
    let v = imm_bits(GetSImm8(op));
    ctx.r[n] = v;
    ExecOutcome::Done
}

/// What `fadd <FREG_M_SD_F>,<FREG_N_SD_F>` does.
pub open spec fn post_fadd_fm_fn(o: Sh4Ctx, c: Sh4Ctx, op: u16, out: ExecOutcome) -> bool {
    let ni = field_n(op);
    let mi = field_m(op);
    let rn = o.r[ni];
    let rm = o.r[mi];
    out == ExecOutcome::Float && c == o
}

fn exec_fadd_fm_fn(ctx: &mut Sh4Ctx, op: u16) -> (out: ExecOutcome)
    requires
        old(ctx).wf(),
    ensures
        final(ctx).wf(),
        final(ctx).remaining_cycles == old(ctx).remaining_cycles,
        post_fadd_fm_fn(*old(ctx), *final(ctx), op, out),
{
    ExecOutcome::Float
}

/// What `fsub <FREG_M_SD_F>,<FREG_N_SD_F>` does.
pub open spec fn post_fsub_fm_fn(o: Sh4Ctx, c: Sh4Ctx, op: u16, out: ExecOutcome) -> bool {
    let ni = field_n(op);
    let mi = field_m(op);
    let rn = o.r[ni];
    let rm = o.r[mi];
    out == ExecOutcome::Float && c == o
}

fn exec_fsub_fm_fn(ctx: &mut Sh4Ctx, op: u16) -> (out: ExecOutcome)
    requires
        old(ctx).wf(),
    ensures
        final(ctx).wf(),
        final(ctx).remaining_cycles == old(ctx).remaining_cycles,
        post_fsub_fm_fn(*old(ctx), *final(ctx), op, out),
{
    ExecOutcome::Float
}

/// What `fmul <FREG_M_SD_F>,<FREG_N_SD_F>` does.
pub open spec fn post_fmul_fm_fn(o: Sh4Ctx, c: Sh4Ctx, op: u16, out: ExecOutcome) -> bool {
    let ni = field_n(op);
    let mi = field_m(op);
    let rn = o.r[ni];
    let rm = o.r[mi];
    out == ExecOutcome::Float && c == o
}

fn exec_fmul_fm_fn(ctx: &mut Sh4Ctx, op: u16) -> (out: ExecOutcome)
    requires
        old(ctx).wf(),
    ensures
        final(ctx).wf(),
        final(ctx).remaining_cycles == old(ctx).remaining_cycles,
        post_fmul_fm_fn(*old(ctx), *final(ctx), op, out),
{
    ExecOutcome::Float
}

/// What `fdiv <FREG_M_SD_F>,<FREG_N_SD_F>` does.
pub open spec fn post_fdiv_fm_fn(o: Sh4Ctx, c: Sh4Ctx, op: u16, out: ExecOutcome) -> bool {
    let ni = field_n(op);
    let mi = field_m(op);
    let rn = o.r[ni];
    let rm = o.r[mi];
    out == ExecOutcome::Float && c == o
}

fn exec_fdiv_fm_fn(ctx: &mut Sh4Ctx, op: u16) -> (out: ExecOutcome)
    requires
        old(ctx).wf(),
    ensures
        final(ctx).wf(),
        final(ctx).remaining_cycles == old(ctx).remaining_cycles,
        post_fdiv_fm_fn(*old(ctx), *final(ctx), op, out),
{
    ExecOutcome::Float
}

/// What `fmov.s @<REG_M>,<FREG_N_SD_A>` does.
pub open spec fn post_fmov_s_at_rm_fn(o: Sh4Ctx, c: Sh4Ctx, op: u16, out: ExecOutcome) -> bool {
    let ni = field_n(op);
    let mi = field_m(op);
    let rn = o.r[ni];
    let rm = o.r[mi];
    if !bit_of(o.fpscr.0, 20) {
        match spec_read_mem(o, rm, 4) {
            Some(v) => out == ExecOutcome::Done && c.fr@ == o.fr@.update(ni, (v % 0x1_0000_0000) as u32)
                && c == (Sh4Ctx { fr: c.fr, ..o }),
            None => out == ExecOutcome::Fault && c == o,
        }
    } else {
        match spec_read_mem(o, rm, 8) {
            Some(v) => out == ExecOutcome::Done && pair_set(o, c, ni, v),
            None => out == ExecOutcome::Fault && c == o,
        }
    }
}

fn exec_fmov_s_at_rm_fn(ctx: &mut Sh4Ctx, op: u16) -> (out: ExecOutcome)
    requires
        old(ctx).wf(),
    ensures
        final(ctx).wf(),
        final(ctx).remaining_cycles == old(ctx).remaining_cycles,
        post_fmov_s_at_rm_fn(*old(ctx), *final(ctx), op, out),
{
    let n = GetN(op);
    let m = GetM(op);
    let a = ctx.r[m];
    if !ctx.fpscr.sz() {
        match sh4_read_mem32(ctx, a) {
            Some(v) => {
                ctx.fr[n] = v;
                ExecOutcome::Done
            },
            None => ExecOutcome::Fault,
        }
    } else {
        match sh4_read_mem64(ctx, a) {
            Some(v) => {
                set_pair(ctx, n, v);
                ExecOutcome::Done
            },
            None => ExecOutcome::Fault,
        }
    }
}

/// What `fmov <FREG_M_SD_A>,<FREG_N_SD_A>` does.
pub open spec fn post_fmov_fm_fn(o: Sh4Ctx, c: Sh4Ctx, op: u16, out: ExecOutcome) -> bool {
    let ni = field_n(op);
    let mi = field_m(op);
    let rn = o.r[ni];
    let rm = o.r[mi];
    out == ExecOutcome::Done && if !bit_of(o.fpscr.0, 20) {
        c.fr@ == o.fr@.update(ni, o.fr[mi]) && c == (Sh4Ctx { fr: c.fr, ..o })
    } else {
        pair_set(o, c, ni, pair_of(o, mi))
    }
}

fn exec_fmov_fm_fn(ctx: &mut Sh4Ctx, op: u16) -> (out: ExecOutcome)
    requires
        old(ctx).wf(),
    ensures
        final(ctx).wf(),
        final(ctx).remaining_cycles == old(ctx).remaining_cycles,
        post_fmov_fm_fn(*old(ctx), *final(ctx), op, out),
{
    let n = GetN(op);
    let m = GetM(op);
    if !ctx.fpscr.sz() {
        let v = ctx.fr[m];
        ctx.fr[n] = v;
    } else {
        let v = get_pair(ctx, m);
        set_pair(ctx, n, v);
    }
    ExecOutcome::Done
}

/// What `fsca FPUL,<DR_N>` does.
pub open spec fn post_fsca_fpul_dn(o: Sh4Ctx, c: Sh4Ctx, op: u16, out: ExecOutcome) -> bool {
    let ni = field_n(op);
    let mi = field_m(op);
    let rn = o.r[ni];
    let rm = o.r[mi];
    out == ExecOutcome::Float && c == o
}

fn exec_fsca_fpul_dn(ctx: &mut Sh4Ctx, op: u16) -> (out: ExecOutcome)
    requires
        old(ctx).wf(),
    ensures
        final(ctx).wf(),
        final(ctx).remaining_cycles == old(ctx).remaining_cycles,
        post_fsca_fpul_dn(*old(ctx), *final(ctx), op, out),
{
    ExecOutcome::Float
}

/// What `float FPUL,<FREG_N_SD_F>` does.
pub open spec fn post_float_fpul_fn(o: Sh4Ctx, c: Sh4Ctx, op: u16, out: ExecOutcome) -> bool {
    let ni = field_n(op);
    let mi = field_m(op);
    let rn = o.r[ni];
    let rm = o.r[mi];
    out == ExecOutcome::Float && c == o
}

fn exec_float_fpul_fn(ctx: &mut Sh4Ctx, op: u16) -> (out: ExecOutcome)
    requires
        old(ctx).wf(),
    ensures
        final(ctx).wf(),
        final(ctx).remaining_cycles == old(ctx).remaining_cycles,
        post_float_fpul_fn(*old(ctx), *final(ctx), op, out),
{
    ExecOutcome::Float
}

/// What `ftrc <FREG_N>,FPUL` does.
pub open spec fn post_ftrc_fn_fpul(o: Sh4Ctx, c: Sh4Ctx, op: u16, out: ExecOutcome) -> bool {
    let ni = field_n(op);
    let mi = field_m(op);
    let rn = o.r[ni];
    let rm = o.r[mi];
    out == ExecOutcome::Float && c == o
}

fn exec_ftrc_fn_fpul(ctx: &mut Sh4Ctx, op: u16) -> (out: ExecOutcome)
    requires
        old(ctx).wf(),
    ensures
        final(ctx).wf(),
        final(ctx).remaining_cycles == old(ctx).remaining_cycles,
        post_ftrc_fn_fpul(*old(ctx), *final(ctx), op, out),
{
    ExecOutcome::Float
}

/// What `lds <REG_N>,FPUL` does.
pub open spec fn post_lds_rn_fpul(o: Sh4Ctx, c: Sh4Ctx, op: u16, out: ExecOutcome) -> bool {
    let ni = field_n(op);
    let mi = field_m(op);
    let rn = o.r[ni];
    let rm = o.r[mi];
    out == ExecOutcome::Done && c == (Sh4Ctx { fpul: rn, ..o })
}

fn exec_lds_rn_fpul(ctx: &mut Sh4Ctx, op: u16) -> (out: ExecOutcome)
    requires
        old(ctx).wf(),
    ensures
        final(ctx).wf(),
        final(ctx).remaining_cycles == old(ctx).remaining_cycles,
        post_lds_rn_fpul(*old(ctx), *final(ctx), op, out),
{
    let n = GetN(op);
    let v = ctx.r[n];
    ctx.fpul = v;
    ExecOutcome::Done
}

/// What `stc SR,<REG_N>` does.
pub open spec fn post_stc_sr_rn(o: Sh4Ctx, c: Sh4Ctx, op: u16, out: ExecOutcome) -> bool {
    let ni = field_n(op);
    let mi = field_m(op);
    let rn = o.r[ni];
    let rm = o.r[mi];
    out == ExecOutcome::Done && only_r(o, c, ni, spec_full_sr(o))
}

fn exec_stc_sr_rn(ctx: &mut Sh4Ctx, op: u16) -> (out: ExecOutcome)
    requires
        old(ctx).wf(),
    ensures
        final(ctx).wf(),
        final(ctx).remaining_cycles == old(ctx).remaining_cycles,
        post_stc_sr_rn(*old(ctx), *final(ctx), op, out),
{
    let n = GetN(op);
    let v = ctx.sr.0 | ctx.sr_t;
    ctx.r[n] = v;
    ExecOutcome::Done
}

/// What `stc GBR,<REG_N>` does.
pub open spec fn post_stc_gbr_rn(o: Sh4Ctx, c: Sh4Ctx, op: u16, out: ExecOutcome) -> bool {
    let ni = field_n(op);
    let mi = field_m(op);
    let rn = o.r[ni];
    let rm = o.r[mi];
    out == ExecOutcome::Done && only_r(o, c, ni, o.gbr)
}

fn exec_stc_gbr_rn(ctx: &mut Sh4Ctx, op: u16) -> (out: ExecOutcome)
    requires
        old(ctx).wf(),
    ensures
        final(ctx).wf(),
        final(ctx).remaining_cycles == old(ctx).remaining_cycles,
        post_stc_gbr_rn(*old(ctx), *final(ctx), op, out),
{
    let n = GetN(op);
    let v = ctx.gbr;
    ctx.r[n] = v;
    ExecOutcome::Done
}

/// What `stc VBR,<REG_N>` does.
pub open spec fn post_stc_vbr_rn(o: Sh4Ctx, c: Sh4Ctx, op: u16, out: ExecOutcome) -> bool {
    let ni = field_n(op);
    let mi = field_m(op);
    let rn = o.r[ni];
    let rm = o.r[mi];
    out == ExecOutcome::Done && only_r(o, c, ni, o.vbr)
}

fn exec_stc_vbr_rn(ctx: &mut Sh4Ctx, op: u16) -> (out: ExecOutcome)
    requires
        old(ctx).wf(),
    ensures
        final(ctx).wf(),
        final(ctx).remaining_cycles == old(ctx).remaining_cycles,
        post_stc_vbr_rn(*old(ctx), *final(ctx), op, out),
{
    let n = GetN(op);
    let v = ctx.vbr;
    ctx.r[n] = v;
    ExecOutcome::Done
}

/// What `stc SSR,<REG_N>` does.
pub open spec fn post_stc_ssr_rn(o: Sh4Ctx, c: Sh4Ctx, op: u16, out: ExecOutcome) -> bool {
    let ni = field_n(op);
    let mi = field_m(op);
    let rn = o.r[ni];
    let rm = o.r[mi];
    out == ExecOutcome::Done && only_r(o, c, ni, o.ssr)
}

fn exec_stc_ssr_rn(ctx: &mut Sh4Ctx, op: u16) -> (out: ExecOutcome)
    requires
        old(ctx).wf(),
    ensures
        final(ctx).wf(),
        final(ctx).remaining_cycles == old(ctx).remaining_cycles,
        post_stc_ssr_rn(*old(ctx), *final(ctx), op, out),
{
    let n = GetN(op);
    let v = ctx.ssr;
    ctx.r[n] = v;
    ExecOutcome::Done
}

/// What `sts SGR,<REG_N>` does.
pub open spec fn post_sts_sgr_rn(o: Sh4Ctx, c: Sh4Ctx, op: u16, out: ExecOutcome) -> bool {
    let ni = field_n(op);
    let mi = field_m(op);
    let rn = o.r[ni];
    let rm = o.r[mi];
    out == ExecOutcome::Done && only_r(o, c, ni, o.sgr)
}

fn exec_sts_sgr_rn(ctx: &mut Sh4Ctx, op: u16) -> (out: ExecOutcome)
    requires
        old(ctx).wf(),
    ensures
        final(ctx).wf(),
        final(ctx).remaining_cycles == old(ctx).remaining_cycles,
        post_sts_sgr_rn(*old(ctx), *final(ctx), op, out),
{
    let n = GetN(op);
    let v = ctx.sgr;
    ctx.r[n] = v;
    ExecOutcome::Done
}

/// What `stc SPC,<REG_N>` does.
pub open spec fn post_stc_spc_rn(o: Sh4Ctx, c: Sh4Ctx, op: u16, out: ExecOutcome) -> bool {
    let ni = field_n(op);
    let mi = field_m(op);
    let rn = o.r[ni];
    let rm = o.r[mi];
    out == ExecOutcome::Done && only_r(o, c, ni, o.spc)
}

fn exec_stc_spc_rn(ctx: &mut Sh4Ctx, op: u16) -> (out: ExecOutcome)
    requires
        old(ctx).wf(),
    ensures
        final(ctx).wf(),
        final(ctx).remaining_cycles == old(ctx).remaining_cycles,
        post_stc_spc_rn(*old(ctx), *final(ctx), op, out),
{
    let n = GetN(op);
    let v = ctx.spc;
    ctx.r[n] = v;
    ExecOutcome::Done
}

/// What `stc RM_BANK,<REG_N>` does.
pub open spec fn post_stc_rm_bank_rn(o: Sh4Ctx, c: Sh4Ctx, op: u16, out: ExecOutcome) -> bool {
    let ni = field_n(op);
    let mi = field_m(op);
    let rn = o.r[ni];
    let rm = o.r[mi];
    out == ExecOutcome::Done && only_r(o, c, ni, o.r_bank[mi % 8])
}

fn exec_stc_rm_bank_rn(ctx: &mut Sh4Ctx, op: u16) -> (out: ExecOutcome)
    requires
        old(ctx).wf(),
    ensures
        final(ctx).wf(),
        final(ctx).remaining_cycles == old(ctx).remaining_cycles,
        post_stc_rm_bank_rn(*old(ctx), *final(ctx), op, out),
{
    let n = GetN(op);
    let m = GetM(op);
    let v = ctx.r_bank[m % 8];
    ctx.r[n] = v;
    ExecOutcome::Done
}

/// What `braf <REG_N>` does.
pub open spec fn post_braf_rn(o: Sh4Ctx, c: Sh4Ctx, op: u16, out: ExecOutcome) -> bool {
    let ni = field_n(op);
    let mi = field_m(op);
    let rn = o.r[ni];
    let rm = o.r[mi];
    out == ExecOutcome::Done && c == (Sh4Ctx { pc2: rn.wrapping_add(o.pc0).wrapping_add(4), is_delayslot1: 1, ..o })
}

fn exec_braf_rn(ctx: &mut Sh4Ctx, op: u16) -> (out: ExecOutcome)
    requires
        old(ctx).wf(),
    ensures
        final(ctx).wf(),
        final(ctx).remaining_cycles == old(ctx).remaining_cycles,
        post_braf_rn(*old(ctx), *final(ctx), op, out),
{
    let n = GetN(op);
    let pc = ctx.pc0;
    let s = ctx.r[n];
    sh4_braf(ctx, s, pc);
    ExecOutcome::Done
}

/// What `bsrf <REG_N>` does.
pub open spec fn post_bsrf_rn(o: Sh4Ctx, c: Sh4Ctx, op: u16, out: ExecOutcome) -> bool {
    let ni = field_n(op);
    let mi = field_m(op);
    let rn = o.r[ni];
    let rm = o.r[mi];
    out == ExecOutcome::Done && c == (Sh4Ctx { pr: o.pc0.wrapping_add(4), pc2: rn.wrapping_add(o.pc0).wrapping_add(4), is_delayslot1: 1, ..o })
}

fn exec_bsrf_rn(ctx: &mut Sh4Ctx, op: u16) -> (out: ExecOutcome)
    requires
        old(ctx).wf(),
    ensures
        final(ctx).wf(),
        final(ctx).remaining_cycles == old(ctx).remaining_cycles,
        post_bsrf_rn(*old(ctx), *final(ctx), op, out),
{
    let n = GetN(op);
    let pc = ctx.pc0;
    let s = ctx.r[n];
    sh4_bsrf(ctx, s, pc);
    ExecOutcome::Done
}

/// What `movca.l R0,@<REG_N>` does.
pub open spec fn post_movca_l_r0_at_rn(o: Sh4Ctx, c: Sh4Ctx, op: u16, out: ExecOutcome) -> bool {
    let ni = field_n(op);
    let mi = field_m(op);
    let rn = o.r[ni];
    let rm = o.r[mi];
    store_post(o, c, out, rn, 4, o.r[0] as u64)
}

fn exec_movca_l_r0_at_rn(ctx: &mut Sh4Ctx, op: u16) -> (out: ExecOutcome)
    requires
        old(ctx).wf(),
    ensures
        final(ctx).wf(),
        final(ctx).remaining_cycles == old(ctx).remaining_cycles,
        post_movca_l_r0_at_rn(*old(ctx), *final(ctx), op, out),
{
    let n = GetN(op);
    let a = ctx.r[n];
    let d = ctx.r[0];
    if sh4_write_mem32(ctx, a, d) { ExecOutcome::Done } else { ExecOutcome::Fault }
}

/// What `ocbi @<REG_N>` does.
pub open spec fn post_ocbi_at_rn(o: Sh4Ctx, c: Sh4Ctx, op: u16, out: ExecOutcome) -> bool {
    let ni = field_n(op);
    let mi = field_m(op);
    let rn = o.r[ni];
    let rm = o.r[mi];
    out == ExecOutcome::Done && c == o
}

fn exec_ocbi_at_rn(ctx: &mut Sh4Ctx, op: u16) -> (out: ExecOutcome)
    requires
        old(ctx).wf(),
    ensures
        final(ctx).wf(),
        final(ctx).remaining_cycles == old(ctx).remaining_cycles,
        post_ocbi_at_rn(*old(ctx), *final(ctx), op, out),
{
    ExecOutcome::Done
}

/// What `ocbp @<REG_N>` does.
pub open spec fn post_ocbp_at_rn(o: Sh4Ctx, c: Sh4Ctx, op: u16, out: ExecOutcome) -> bool {
    let ni = field_n(op);
    let mi = field_m(op);
    let rn = o.r[ni];
    let rm = o.r[mi];
    out == ExecOutcome::Done && c == o
}

fn exec_ocbp_at_rn(ctx: &mut Sh4Ctx, op: u16) -> (out: ExecOutcome)
    requires
        old(ctx).wf(),
    ensures
        final(ctx).wf(),
        final(ctx).remaining_cycles == old(ctx).remaining_cycles,
        post_ocbp_at_rn(*old(ctx), *final(ctx), op, out),
{
    ExecOutcome::Done
}

/// What `ocbwb @<REG_N>` does.
pub open spec fn post_ocbwb_at_rn(o: Sh4Ctx, c: Sh4Ctx, op: u16, out: ExecOutcome) -> bool {
    let ni = field_n(op);
    let mi = field_m(op);
    let rn = o.r[ni];
    let rm = o.r[mi];
    out == ExecOutcome::Done && c == o
}

fn exec_ocbwb_at_rn(ctx: &mut Sh4Ctx, op: u16) -> (out: ExecOutcome)
    requires
        old(ctx).wf(),
    ensures
        final(ctx).wf(),
        final(ctx).remaining_cycles == old(ctx).remaining_cycles,
        post_ocbwb_at_rn(*old(ctx), *final(ctx), op, out),
{
    ExecOutcome::Done
}

/// What `pref @<REG_N>` does.
pub open spec fn post_pref_at_rn(o: Sh4Ctx, c: Sh4Ctx, op: u16, out: ExecOutcome) -> bool {
    let ni = field_n(op);
    let mi = field_m(op);
    let rn = o.r[ni];
    let rm = o.r[mi];
    pref_post(o, c, rn, out)
}

fn exec_pref_at_rn(ctx: &mut Sh4Ctx, op: u16) -> (out: ExecOutcome)
    requires
        old(ctx).wf(),
    ensures
        final(ctx).wf(),
        final(ctx).remaining_cycles == old(ctx).remaining_cycles,
        post_pref_at_rn(*old(ctx), *final(ctx), op, out),
{
    let n = GetN(op);
    let a = ctx.r[n];
    sh4_pref(ctx, a)
}

/// What `mov.b <REG_M>,@(R0,<REG_N>)` does.
pub open spec fn post_mov_b_rm_at_r0_rn(o: Sh4Ctx, c: Sh4Ctx, op: u16, out: ExecOutcome) -> bool {
    let ni = field_n(op);
    let mi = field_m(op);
    let rn = o.r[ni];
    let rm = o.r[mi];
    store_post(o, c, out, o.r[0].wrapping_add(rn), 1, (rm % 0x100) as u64)
}

fn exec_mov_b_rm_at_r0_rn(ctx: &mut Sh4Ctx, op: u16) -> (out: ExecOutcome)
    requires
        old(ctx).wf(),
    ensures
        final(ctx).wf(),
        final(ctx).remaining_cycles == old(ctx).remaining_cycles,
        post_mov_b_rm_at_r0_rn(*old(ctx), *final(ctx), op, out),
{
    let n = GetN(op);
    let m = GetM(op);
    let a = ctx.r[0].wrapping_add(ctx.r[n]);
    let d = ctx.r[m];
    if sh4_write_mem8(ctx, a, d) { ExecOutcome::Done } else { ExecOutcome::Fault }
}

/// What `mov.w <REG_M>,@(R0,<REG_N>)` does.
pub open spec fn post_mov_w_rm_at_r0_rn(o: Sh4Ctx, c: Sh4Ctx, op: u16, out: ExecOutcome) -> bool {
    let ni = field_n(op);
    let mi = field_m(op);
    let rn = o.r[ni];
    let rm = o.r[mi];
    store_post(o, c, out, o.r[0].wrapping_add(rn), 2, (rm % 0x1_0000) as u64)
}

fn exec_mov_w_rm_at_r0_rn(ctx: &mut Sh4Ctx, op: u16) -> (out: ExecOutcome)
    requires
        old(ctx).wf(),
    ensures
        final(ctx).wf(),
        final(ctx).remaining_cycles == old(ctx).remaining_cycles,
        post_mov_w_rm_at_r0_rn(*old(ctx), *final(ctx), op, out),
{
    let n = GetN(op);
    let m = GetM(op);
    let a = ctx.r[0].wrapping_add(ctx.r[n]);
    let d = ctx.r[m];
    if sh4_write_mem16(ctx, a, d) { ExecOutcome::Done } else { ExecOutcome::Fault }
}

/// What `mov.l <REG_M>,@(R0,<REG_N>)` does.
pub open spec fn post_mov_l_rm_at_r0_rn(o: Sh4Ctx, c: Sh4Ctx, op: u16, out: ExecOutcome) -> bool {
    let ni = field_n(op);
    let mi = field_m(op);
    let rn = o.r[ni];
    let rm = o.r[mi];
    store_post(o, c, out, o.r[0].wrapping_add(rn), 4, rm as u64)
}

fn exec_mov_l_rm_at_r0_rn(ctx: &mut Sh4Ctx, op: u16) -> (out: ExecOutcome)
    requires
        old(ctx).wf(),
    ensures
        final(ctx).wf(),
        final(ctx).remaining_cycles == old(ctx).remaining_cycles,
        post_mov_l_rm_at_r0_rn(*old(ctx), *final(ctx), op, out),
{
    let n = GetN(op);
    let m = GetM(op);
    let a = ctx.r[0].wrapping_add(ctx.r[n]);
    let d = ctx.r[m];
    if sh4_write_mem32(ctx, a, d) { ExecOutcome::Done } else { ExecOutcome::Fault }
}

/// What `clrmac` does.
pub open spec fn post_clrmac(o: Sh4Ctx, c: Sh4Ctx, op: u16, out: ExecOutcome) -> bool {
    let ni = field_n(op);
    let mi = field_m(op);
    let rn = o.r[ni];
    let rm = o.r[mi];
    out == ExecOutcome::Done && c == (Sh4Ctx { mac: 0, ..o })
}

fn exec_clrmac(ctx: &mut Sh4Ctx, op: u16) -> (out: ExecOutcome)
    requires
        old(ctx).wf(),
    ensures
        final(ctx).wf(),
        final(ctx).remaining_cycles == old(ctx).remaining_cycles,
        post_clrmac(*old(ctx), *final(ctx), op, out),
{
    ctx.mac = 0;
    ExecOutcome::Done
}

/// What `clrs` does.
pub open spec fn post_clrs(o: Sh4Ctx, c: Sh4Ctx, op: u16, out: ExecOutcome) -> bool {
    let ni = field_n(op);
    let mi = field_m(op);
    let rn = o.r[ni];
    let rm = o.r[mi];
    out == ExecOutcome::Done && c == (Sh4Ctx { sr: SrStatus(o.sr.0 & 0xFFFF_FFFD), ..o })
}

fn exec_clrs(ctx: &mut Sh4Ctx, op: u16) -> (out: ExecOutcome)
    requires
        old(ctx).wf(),
    ensures
        final(ctx).wf(),
        final(ctx).remaining_cycles == old(ctx).remaining_cycles,
        post_clrs(*old(ctx), *final(ctx), op, out),
{
    let s = ctx.sr.0;
    let mut d: u32 = 0;
    sh4_andi(&mut d, s, 0xFFFF_FFFD);
    ctx.sr = SrStatus(d);
    ExecOutcome::Done
}

/// What `clrt` does.
pub open spec fn post_clrt(o: Sh4Ctx, c: Sh4Ctx, op: u16, out: ExecOutcome) -> bool {
    let ni = field_n(op);
    let mi = field_m(op);
    let rn = o.r[ni];
    let rm = o.r[mi];
    out == ExecOutcome::Done && only_t(o, c, 0)
}

fn exec_clrt(ctx: &mut Sh4Ctx, op: u16) -> (out: ExecOutcome)
    requires
        old(ctx).wf(),
    ensures
        final(ctx).wf(),
        final(ctx).remaining_cycles == old(ctx).remaining_cycles,
        post_clrt(*old(ctx), *final(ctx), op, out),
{
    let mut t: u32 = ctx.sr_t;
    sh4_clrt(&mut t);
    ctx.sr_t = t;
    ExecOutcome::Done
}

/// What `ldtlb` does.
pub open spec fn post_ldtlb(o: Sh4Ctx, c: Sh4Ctx, op: u16, out: ExecOutcome) -> bool {
    let ni = field_n(op);
    let mi = field_m(op);
    let rn = o.r[ni];
    let rm = o.r[mi];
    out == ExecOutcome::Done && c == o
}

fn exec_ldtlb(ctx: &mut Sh4Ctx, op: u16) -> (out: ExecOutcome)
    requires
        old(ctx).wf(),
    ensures
        final(ctx).wf(),
        final(ctx).remaining_cycles == old(ctx).remaining_cycles,
        post_ldtlb(*old(ctx), *final(ctx), op, out),
{
    ExecOutcome::Done
}

/// What `sets` does.
pub open spec fn post_sets(o: Sh4Ctx, c: Sh4Ctx, op: u16, out: ExecOutcome) -> bool {
    let ni = field_n(op);
    let mi = field_m(op);
    let rn = o.r[ni];
    let rm = o.r[mi];
    out == ExecOutcome::Done && c == (Sh4Ctx { sr: SrStatus(o.sr.0 | 2), ..o })
}

fn exec_sets(ctx: &mut Sh4Ctx, op: u16) -> (out: ExecOutcome)
    requires
        old(ctx).wf(),
    ensures
        final(ctx).wf(),
        final(ctx).remaining_cycles == old(ctx).remaining_cycles,
        post_sets(*old(ctx), *final(ctx), op, out),
{
    let s = ctx.sr.0;
    let mut d: u32 = 0;
    sh4_or_imm(&mut d, s, 2);
    ctx.sr = SrStatus(d);
    ExecOutcome::Done
}

/// What `sett` does.
pub open spec fn post_sett(o: Sh4Ctx, c: Sh4Ctx, op: u16, out: ExecOutcome) -> bool {
    let ni = field_n(op);
    let mi = field_m(op);
    let rn = o.r[ni];
    let rm = o.r[mi];
    out == ExecOutcome::Done && only_t(o, c, 1)
}

fn exec_sett(ctx: &mut Sh4Ctx, op: u16) -> (out: ExecOutcome)
    requires
        old(ctx).wf(),
    ensures
        final(ctx).wf(),
        final(ctx).remaining_cycles == old(ctx).remaining_cycles,
        post_sett(*old(ctx), *final(ctx), op, out),
{
    let mut t: u32 = ctx.sr_t;
    sh4_sett(&mut t);
    ctx.sr_t = t;
    ExecOutcome::Done
}

/// What `div0u` does.
pub open spec fn post_div0u(o: Sh4Ctx, c: Sh4Ctx, op: u16, out: ExecOutcome) -> bool {
    let ni = field_n(op);
    let mi = field_m(op);
    let rn = o.r[ni];
    let rm = o.r[mi];
    out == ExecOutcome::Done && c == (Sh4Ctx { sr: SrStatus(with_bit(with_bit(o.sr.0, 9, false), 8, false)), sr_t: 0, ..o })
}

fn exec_div0u(ctx: &mut Sh4Ctx, op: u16) -> (out: ExecOutcome)
    requires
        old(ctx).wf(),
    ensures
        final(ctx).wf(),
        final(ctx).remaining_cycles == old(ctx).remaining_cycles,
        post_div0u(*old(ctx), *final(ctx), op, out),
{
    let mut sr = ctx.sr;
    let mut t: u32 = ctx.sr_t;
    sh4_div0u(&mut sr, &mut t);
    ctx.sr = sr;
    ctx.sr_t = t;
    ExecOutcome::Done
}

/// What `movt <REG_N>` does.
pub open spec fn post_movt_rn(o: Sh4Ctx, c: Sh4Ctx, op: u16, out: ExecOutcome) -> bool {
    let ni = field_n(op);
    let mi = field_m(op);
    let rn = o.r[ni];
    let rm = o.r[mi];
    out == ExecOutcome::Done && only_r(o, c, ni, o.sr_t)
}

fn exec_movt_rn(ctx: &mut Sh4Ctx, op: u16) -> (out: ExecOutcome)
    requires
        old(ctx).wf(),
    ensures
        final(ctx).wf(),
        final(ctx).remaining_cycles == old(ctx).remaining_cycles,
        post_movt_rn(*old(ctx), *final(ctx), op, out),
{
    let n = GetN(op);
    let v = ctx.sr_t;
    ctx.r[n] = v;
    ExecOutcome::Done
}

/// What `sts FPSCR,<REG_N>` does.
pub open spec fn post_sts_fpscr_rn(o: Sh4Ctx, c: Sh4Ctx, op: u16, out: ExecOutcome) -> bool {
    let ni = field_n(op);
    let mi = field_m(op);
    let rn = o.r[ni];
    let rm = o.r[mi];
    out == ExecOutcome::Done && only_r(o, c, ni, o.fpscr.0)
}

fn exec_sts_fpscr_rn(ctx: &mut Sh4Ctx, op: u16) -> (out: ExecOutcome)
    requires
        old(ctx).wf(),
    ensures
        final(ctx).wf(),
        final(ctx).remaining_cycles == old(ctx).remaining_cycles,
        post_sts_fpscr_rn(*old(ctx), *final(ctx), op, out),
{
    let n = GetN(op);
    let v = ctx.fpscr.0;
    ctx.r[n] = v;
    ExecOutcome::Done
}

/// What `sts DBR,<REG_N>` does.
pub open spec fn post_sts_dbr_rn(o: Sh4Ctx, c: Sh4Ctx, op: u16, out: ExecOutcome) -> bool {
    let ni = field_n(op);
    let mi = field_m(op);
    let rn = o.r[ni];
    let rm = o.r[mi];
    out == ExecOutcome::Done && only_r(o, c, ni, o.dbr)
}

fn exec_sts_dbr_rn(ctx: &mut Sh4Ctx, op: u16) -> (out: ExecOutcome)
    requires
        old(ctx).wf(),
    ensures
        final(ctx).wf(),
        final(ctx).remaining_cycles == old(ctx).remaining_cycles,
        post_sts_dbr_rn(*old(ctx), *final(ctx), op, out),
{
    let n = GetN(op);
    let v = ctx.dbr;
    ctx.r[n] = v;
    ExecOutcome::Done
}

/// What `sts MACH,<REG_N>` does.
pub open spec fn post_sts_mach_rn(o: Sh4Ctx, c: Sh4Ctx, op: u16, out: ExecOutcome) -> bool {
    let ni = field_n(op);
    let mi = field_m(op);
    let rn = o.r[ni];
    let rm = o.r[mi];
    out == ExecOutcome::Done && only_r(o, c, ni, mac_h(o.mac))
}

fn exec_sts_mach_rn(ctx: &mut Sh4Ctx, op: u16) -> (out: ExecOutcome)
    requires
        old(ctx).wf(),
    ensures
        final(ctx).wf(),
        final(ctx).remaining_cycles == old(ctx).remaining_cycles,
        post_sts_mach_rn(*old(ctx), *final(ctx), op, out),
{
    let n = GetN(op);
    let v = mac_parts(ctx.mac).h;
    ctx.r[n] = v;
    ExecOutcome::Done
}

/// What `rte` does.
pub open spec fn post_rte(o: Sh4Ctx, c: Sh4Ctx, op: u16, out: ExecOutcome) -> bool {
    let ni = field_n(op);
    let mi = field_m(op);
    let rn = o.r[ni];
    let rm = o.r[mi];
    out == ExecOutcome::Done && c.virt_jdyn == o.spc && c.sr_t == (o.ssr & 1)
        && c.sr.0 == spec_sr_rest(o.ssr) && c.pc2 == o.spc
        && banks_after(o.sr.0, spec_sr_rest(o.ssr), o.r@, o.r_bank@, c)
        && c == (Sh4Ctx { virt_jdyn: c.virt_jdyn, sr_t: c.sr_t, sr: c.sr, r: c.r, r_bank: c.r_bank, pc2: c.pc2, is_delayslot1: 1, ..o })
}

fn exec_rte(ctx: &mut Sh4Ctx, op: u16) -> (out: ExecOutcome)
    requires
        old(ctx).wf(),
    ensures
        final(ctx).wf(),
        final(ctx).remaining_cycles == old(ctx).remaining_cycles,
        post_rte(*old(ctx), *final(ctx), op, out),
{
    let spc = ctx.spc;
    ctx.virt_jdyn = spc;
    let ssr = ctx.ssr;
    let mut t: u32 = 0;
    sh4_andi(&mut t, ssr, 1);
    proof { lemma_mask_u32(ssr); }
    ctx.sr_t = t;
    let mut s = ctx.sr.0;
    sh4_store_sr_rest(&mut s, ssr, &mut ctx.r, &mut ctx.r_bank);
    ctx.sr = SrStatus(s);
    let j = ctx.virt_jdyn;
    sh4_rte(ctx, j);
    ExecOutcome::Done
}

/// What `rts` does.
pub open spec fn post_rts(o: Sh4Ctx, c: Sh4Ctx, op: u16, out: ExecOutcome) -> bool {
    let ni = field_n(op);
    let mi = field_m(op);
    let rn = o.r[ni];
    let rm = o.r[mi];
    out == ExecOutcome::Done && c == (Sh4Ctx { pc2: o.pr, is_delayslot1: 1, ..o })
}

fn exec_rts(ctx: &mut Sh4Ctx, op: u16) -> (out: ExecOutcome)
    requires
        old(ctx).wf(),
    ensures
        final(ctx).wf(),
        final(ctx).remaining_cycles == old(ctx).remaining_cycles,
        post_rts(*old(ctx), *final(ctx), op, out),
{
    let pr = ctx.pr;
    sh4_rts(ctx, pr);
    ExecOutcome::Done
}

/// What `sleep` does.
pub open spec fn post_sleep(o: Sh4Ctx, c: Sh4Ctx, op: u16, out: ExecOutcome) -> bool {
    let ni = field_n(op);
    let mi = field_m(op);
    let rn = o.r[ni];
    let rm = o.r[mi];
    out == ExecOutcome::Done && c == o
}

fn exec_sleep(ctx: &mut Sh4Ctx, op: u16) -> (out: ExecOutcome)
    requires
        old(ctx).wf(),
    ensures
        final(ctx).wf(),
        final(ctx).remaining_cycles == old(ctx).remaining_cycles,
        post_sleep(*old(ctx), *final(ctx), op, out),
{
    ExecOutcome::Done
}

/// What `mov.b @(R0,<REG_M>),<REG_N>` does.
pub open spec fn post_mov_b_at_r0_rm_rn(o: Sh4Ctx, c: Sh4Ctx, op: u16, out: ExecOutcome) -> bool {
    let ni = field_n(op);
    let mi = field_m(op);
    let rn = o.r[ni];
    let rm = o.r[mi];
    match spec_read_mem(o, o.r[0].wrapping_add(rm), 1) {
        Some(v) => out == ExecOutcome::Done && only_r(o, c, ni, sext_read(v, 1)),
        None => out == ExecOutcome::Fault && c == o,
    }
}

fn exec_mov_b_at_r0_rm_rn(ctx: &mut Sh4Ctx, op: u16) -> (out: ExecOutcome)
    requires
        old(ctx).wf(),
    ensures
        final(ctx).wf(),
        final(ctx).remaining_cycles == old(ctx).remaining_cycles,
        post_mov_b_at_r0_rm_rn(*old(ctx), *final(ctx), op, out),
{
    let n = GetN(op);
    let m = GetM(op);
    let a = ctx.r[0].wrapping_add(ctx.r[m]);
    match sh4_read_mems8(ctx, a) {
        Some(v) => {
            ctx.r[n] = v;
            ExecOutcome::Done
        },
        None => ExecOutcome::Fault,
    }
}

/// What `mov.w @(R0,<REG_M>),<REG_N>` does.
pub open spec fn post_mov_w_at_r0_rm_rn(o: Sh4Ctx, c: Sh4Ctx, op: u16, out: ExecOutcome) -> bool {
    let ni = field_n(op);
    let mi = field_m(op);
    let rn = o.r[ni];
    let rm = o.r[mi];
    match spec_read_mem(o, o.r[0].wrapping_add(rm), 2) {
        Some(v) => out == ExecOutcome::Done && only_r(o, c, ni, sext_read(v, 2)),
        None => out == ExecOutcome::Fault && c == o,
    }
}

fn exec_mov_w_at_r0_rm_rn(ctx: &mut Sh4Ctx, op: u16) -> (out: ExecOutcome)
    requires
        old(ctx).wf(),
    ensures
        final(ctx).wf(),
        final(ctx).remaining_cycles == old(ctx).remaining_cycles,
        post_mov_w_at_r0_rm_rn(*old(ctx), *final(ctx), op, out),
{
    let n = GetN(op);
    let m = GetM(op);
    let a = ctx.r[0].wrapping_add(ctx.r[m]);
    match sh4_read_mems16(ctx, a) {
        Some(v) => {
            ctx.r[n] = v;
            ExecOutcome::Done
        },
        None => ExecOutcome::Fault,
    }
}

/// What `mov.l @(R0,<REG_M>),<REG_N>` does.
pub open spec fn post_mov_l_at_r0_rm_rn(o: Sh4Ctx, c: Sh4Ctx, op: u16, out: ExecOutcome) -> bool {
    let ni = field_n(op);
    let mi = field_m(op);
    let rn = o.r[ni];
    let rm = o.r[mi];
    match spec_read_mem(o, o.r[0].wrapping_add(rm), 4) {
        Some(v) => out == ExecOutcome::Done && only_r(o, c, ni, (v % 0x1_0000_0000) as u32),
        None => out == ExecOutcome::Fault && c == o,
    }
}

fn exec_mov_l_at_r0_rm_rn(ctx: &mut Sh4Ctx, op: u16) -> (out: ExecOutcome)
    requires
        old(ctx).wf(),
    ensures
        final(ctx).wf(),
        final(ctx).remaining_cycles == old(ctx).remaining_cycles,
        post_mov_l_at_r0_rm_rn(*old(ctx), *final(ctx), op, out),
{
    let n = GetN(op);
    let m = GetM(op);
    let a = ctx.r[0].wrapping_add(ctx.r[m]);
    match sh4_read_mem32(ctx, a) {
        Some(v) => {
            ctx.r[n] = v;
            ExecOutcome::Done
        },
        None => ExecOutcome::Fault,
    }
}

/// What `mac.l @<REG_M>+,@<REG_N>+` does.
pub open spec fn post_mac_l_at_rm_post_inc_at_rn_post_inc(o: Sh4Ctx, c: Sh4Ctx, op: u16, out: ExecOutcome) -> bool {
    let ni = field_n(op);
    let mi = field_m(op);
    let rn = o.r[ni];
    let rm = o.r[mi];
    ({
        let b = if ni == mi { rn.wrapping_add(4) } else { rm };
        match (spec_read_mem(o, rn, 4), spec_read_mem(o, b, 4)) {
            (Some(v0), Some(v1)) => {
                let t0 = (v0 % 0x1_0000_0000) as u32;
                let t1 = (v1 % 0x1_0000_0000) as u32;
                &&& out == ExecOutcome::Done
                &&& c.temp@ == o.temp@.update(0, t0).update(1, t1)
                &&& c.mac == wrap64(o.mac + signed32(t0) * signed32(t1))
                &&& c.r@ == (if ni == mi { o.r@.update(ni, wrap32(rn + 4)) } else { o.r@.update(mi, wrap32(rm + 4)).update(ni, wrap32(rn + 4)) })
                &&& c == (Sh4Ctx { temp: c.temp, mac: c.mac, r: c.r, ..o })
            },
            _ => out == ExecOutcome::Fault && c == o,
        }
    })
}

fn exec_mac_l_at_rm_post_inc_at_rn_post_inc(ctx: &mut Sh4Ctx, op: u16) -> (out: ExecOutcome)
    requires
        old(ctx).wf(),
    ensures
        final(ctx).wf(),
        final(ctx).remaining_cycles == old(ctx).remaining_cycles,
        post_mac_l_at_rm_post_inc_at_rn_post_inc(*old(ctx), *final(ctx), op, out),
{
    let n = GetN(op);
    let m = GetM(op);
    let a = ctx.r[n];
    let b = if n == m { a.wrapping_add(4) } else { ctx.r[m] };
    let t0 = match sh4_read_mem32(ctx, a) { Some(v) => v, None => { return ExecOutcome::Fault; } };
    let t1 = match sh4_read_mem32(ctx, b) { Some(v) => v, None => { return ExecOutcome::Fault; } };
    ctx.temp[0] = t0;
    ctx.temp[1] = t1;
    let mut mac = ctx.mac;
    sh4_mac_l_mul(&mut mac, t0, t1);
    ctx.mac = mac;
    if n == m {
        let mut nv: u32 = 0;
        sh4_addi(&mut nv, a, 4);
        ctx.r[n] = nv;
    } else {
        let rm0 = ctx.r[m];
        let mut mv: u32 = 0;
        sh4_addi(&mut mv, rm0, 4);
        ctx.r[m] = mv;
        let mut nv: u32 = 0;
        sh4_addi(&mut nv, a, 4);
        ctx.r[n] = nv;
    }
    ExecOutcome::Done
}

/// What `mov.l <REG_M>,@(<disp4dw>,<REG_N>)` does.
pub open spec fn post_mov_l_rm_at_disp_rn(o: Sh4Ctx, c: Sh4Ctx, op: u16, out: ExecOutcome) -> bool {
    let ni = field_n(op);
    let mi = field_m(op);
    let rn = o.r[ni];
    let rm = o.r[mi];
    store_post(o, c, out, rn.wrapping_add(((op % 16) * 4) as u32), 4, rm as u64)
}

fn exec_mov_l_rm_at_disp_rn(ctx: &mut Sh4Ctx, op: u16) -> (out: ExecOutcome)
    requires
        old(ctx).wf(),
    ensures
        final(ctx).wf(),
        final(ctx).remaining_cycles == old(ctx).remaining_cycles,
        post_mov_l_rm_at_disp_rn(*old(ctx), *final(ctx), op, out),
{
    let n = GetN(op);
    let m = GetM(op);
    let a = ctx.r[n].wrapping_add(GetImm4(op) * 4);
    let d = ctx.r[m];
    if sh4_write_mem32(ctx, a, d) { ExecOutcome::Done } else { ExecOutcome::Fault }
}

/// What `mov.b <REG_M>,@-<REG_N>` does.
pub open spec fn post_mov_b_rm_pre_dec_rn(o: Sh4Ctx, c: Sh4Ctx, op: u16, out: ExecOutcome) -> bool {
    let ni = field_n(op);
    let mi = field_m(op);
    let rn = o.r[ni];
    let rm = o.r[mi];
    store_dec_post(o, c, out, ni, rn.wrapping_add(0xFFFF_FFFF), 1, (rm % 0x100) as u64, wrap32(rn + 0xFFFF_FFFF))
}

fn exec_mov_b_rm_pre_dec_rn(ctx: &mut Sh4Ctx, op: u16) -> (out: ExecOutcome)
    requires
        old(ctx).wf(),
    ensures
        final(ctx).wf(),
        final(ctx).remaining_cycles == old(ctx).remaining_cycles,
        post_mov_b_rm_pre_dec_rn(*old(ctx), *final(ctx), op, out),
{
    let n = GetN(op);
    let m = GetM(op);
    let rn0 = ctx.r[n];
    let a = rn0.wrapping_add(0xFFFF_FFFF);
    let d = ctx.r[m];
    if !sh4_write_mem8(ctx, a, d) {
        return ExecOutcome::Fault;
    }
    let mut nv: u32 = 0;
    sh4_addi(&mut nv, rn0, 0xFFFF_FFFF);
    ctx.r[n] = nv;
    ExecOutcome::Done
}

/// What `mov.w <REG_M>,@-<REG_N>` does.
pub open spec fn post_mov_w_rm_pre_dec_rn(o: Sh4Ctx, c: Sh4Ctx, op: u16, out: ExecOutcome) -> bool {
    let ni = field_n(op);
    let mi = field_m(op);
    let rn = o.r[ni];
    let rm = o.r[mi];
    store_dec_post(o, c, out, ni, rn.wrapping_add(0xFFFF_FFFE), 2, (rm % 0x1_0000) as u64, wrap32(rn + 0xFFFF_FFFE))
}

fn exec_mov_w_rm_pre_dec_rn(ctx: &mut Sh4Ctx, op: u16) -> (out: ExecOutcome)
    requires
        old(ctx).wf(),
    ensures
        final(ctx).wf(),
        final(ctx).remaining_cycles == old(ctx).remaining_cycles,
        post_mov_w_rm_pre_dec_rn(*old(ctx), *final(ctx), op, out),
{
    let n = GetN(op);
    let m = GetM(op);
    let rn0 = ctx.r[n];
    let a = rn0.wrapping_add(0xFFFF_FFFE);
    let d = ctx.r[m];
    if !sh4_write_mem16(ctx, a, d) {
        return ExecOutcome::Fault;
    }
    let mut nv: u32 = 0;
    sh4_addi(&mut nv, rn0, 0xFFFF_FFFE);
    ctx.r[n] = nv;
    ExecOutcome::Done
}

/// What `mov.l <REG_M>,@-<REG_N>` does.
pub open spec fn post_mov_l_rm_pre_dec_rn(o: Sh4Ctx, c: Sh4Ctx, op: u16, out: ExecOutcome) -> bool {
    let ni = field_n(op);
    let mi = field_m(op);
    let rn = o.r[ni];
    let rm = o.r[mi];
    store_dec_post(o, c, out, ni, rn.wrapping_add(0xFFFF_FFFC), 4, rm as u64, wrap32(rn + 0xFFFF_FFFC))
}

fn exec_mov_l_rm_pre_dec_rn(ctx: &mut Sh4Ctx, op: u16) -> (out: ExecOutcome)
    requires
        old(ctx).wf(),
    ensures
        final(ctx).wf(),
        final(ctx).remaining_cycles == old(ctx).remaining_cycles,
        post_mov_l_rm_pre_dec_rn(*old(ctx), *final(ctx), op, out),
{
    let n = GetN(op);
    let m = GetM(op);
    let rn0 = ctx.r[n];
    let a = rn0.wrapping_add(0xFFFF_FFFC);
    let d = ctx.r[m];
    if !sh4_write_mem32(ctx, a, d) {
        return ExecOutcome::Fault;
    }
    let mut nv: u32 = 0;
    sh4_addi(&mut nv, rn0, 0xFFFF_FFFC);
    ctx.r[n] = nv;
    ExecOutcome::Done
}

/// What `div0s <REG_M>,<REG_N>` does.
pub open spec fn post_div0s_rm_rn(o: Sh4Ctx, c: Sh4Ctx, op: u16, out: ExecOutcome) -> bool {
    let ni = field_n(op);
    let mi = field_m(op);
    let rn = o.r[ni];
    let rm = o.r[mi];
    out == ExecOutcome::Done && c == (Sh4Ctx { sr: SrStatus(with_bit(with_bit(o.sr.0, 8, rn >= 0x8000_0000), 9, rm >= 0x8000_0000)), sr_t: flag((rn >= 0x8000_0000) != (rm >= 0x8000_0000)), ..o })
}

fn exec_div0s_rm_rn(ctx: &mut Sh4Ctx, op: u16) -> (out: ExecOutcome)
    requires
        old(ctx).wf(),
    ensures
        final(ctx).wf(),
        final(ctx).remaining_cycles == old(ctx).remaining_cycles,
        post_div0s_rm_rn(*old(ctx), *final(ctx), op, out),
{
    let n = GetN(op);
    let m = GetM(op);
    let mut sr = ctx.sr;
    let mut t: u32 = ctx.sr_t;
    let a = ctx.r[n];
    let b = ctx.r[m];
    sh4_div0s(&mut sr, &mut t, a, b);
    ctx.sr = sr;
    ctx.sr_t = t;
    ExecOutcome::Done
}

/// What `tst <REG_M>,<REG_N>` does.
pub open spec fn post_tst_rm_rn(o: Sh4Ctx, c: Sh4Ctx, op: u16, out: ExecOutcome) -> bool {
    let ni = field_n(op);
    let mi = field_m(op);
    let rn = o.r[ni];
    let rm = o.r[mi];
    out == ExecOutcome::Done && only_t(o, c, flag(rn & rm == 0))
}

fn exec_tst_rm_rn(ctx: &mut Sh4Ctx, op: u16) -> (out: ExecOutcome)
    requires
        old(ctx).wf(),
    ensures
        final(ctx).wf(),
        final(ctx).remaining_cycles == old(ctx).remaining_cycles,
        post_tst_rm_rn(*old(ctx), *final(ctx), op, out),
{
    let n = GetN(op);
    let m = GetM(op);
    let mut t: u32 = ctx.sr_t;
    sh4_tst(&mut t, ctx.r[n], ctx.r[m]);
    ctx.sr_t = t;
    ExecOutcome::Done
}

/// What `or <REG_M>,<REG_N>` does.
pub open spec fn post_or_rm_rn(o: Sh4Ctx, c: Sh4Ctx, op: u16, out: ExecOutcome) -> bool {
    let ni = field_n(op);
    let mi = field_m(op);
    let rn = o.r[ni];
    let rm = o.r[mi];
    out == ExecOutcome::Done && only_r(o, c, ni, rn | rm)
}

fn exec_or_rm_rn(ctx: &mut Sh4Ctx, op: u16) -> (out: ExecOutcome)
    requires
        old(ctx).wf(),
    ensures
        final(ctx).wf(),
        final(ctx).remaining_cycles == old(ctx).remaining_cycles,
        post_or_rm_rn(*old(ctx), *final(ctx), op, out),
{
    let n = GetN(op);
    let m = GetM(op);
    let a = ctx.r[n];
    let b = ctx.r[m];
    let mut d: u32 = 0;
    sh4_or(&mut d, a, b);
    ctx.r[n] = d;
    ExecOutcome::Done
}

/// What `cmp/str <REG_M>,<REG_N>` does.
pub open spec fn post_cmp_str_rm_rn(o: Sh4Ctx, c: Sh4Ctx, op: u16, out: ExecOutcome) -> bool {
    let ni = field_n(op);
    let mi = field_m(op);
    let rn = o.r[ni];
    let rm = o.r[mi];
    out == ExecOutcome::Done && only_t(o, c, flag(some_byte_equal(rn, rm)))
}

fn exec_cmp_str_rm_rn(ctx: &mut Sh4Ctx, op: u16) -> (out: ExecOutcome)
    requires
        old(ctx).wf(),
    ensures
        final(ctx).wf(),
        final(ctx).remaining_cycles == old(ctx).remaining_cycles,
        post_cmp_str_rm_rn(*old(ctx), *final(ctx), op, out),
{
    let n = GetN(op);
    let m = GetM(op);
    let mut t: u32 = ctx.sr_t;
    sh4_cmp_str(&mut t, ctx.r[n], ctx.r[m]);
    ctx.sr_t = t;
    ExecOutcome::Done
}

/// What `xtrct <REG_M>,<REG_N>` does.
pub open spec fn post_xtrct_rm_rn(o: Sh4Ctx, c: Sh4Ctx, op: u16, out: ExecOutcome) -> bool {
    let ni = field_n(op);
    let mi = field_m(op);
    let rn = o.r[ni];
    let rm = o.r[mi];
    out == ExecOutcome::Done && only_r(o, c, ni, ((rn >> 16u32) & 0xFFFF) | ((rm << 16u32) & 0xFFFF_0000))
}

fn exec_xtrct_rm_rn(ctx: &mut Sh4Ctx, op: u16) -> (out: ExecOutcome)
    requires
        old(ctx).wf(),
    ensures
        final(ctx).wf(),
        final(ctx).remaining_cycles == old(ctx).remaining_cycles,
        post_xtrct_rm_rn(*old(ctx), *final(ctx), op, out),
{
    let n = GetN(op);
    let m = GetM(op);
    let a = ctx.r[n];
    let b = ctx.r[m];
    let mut d: u32 = 0;
    sh4_xtrct(&mut d, a, b);
    ctx.r[n] = d;
    ExecOutcome::Done
}

/// What `mulu.w <REG_M>,<REG_N>` does.
pub open spec fn post_mulu_w_rm_rn(o: Sh4Ctx, c: Sh4Ctx, op: u16, out: ExecOutcome) -> bool {
    let ni = field_n(op);
    let mi = field_m(op);
    let rn = o.r[ni];
    let rm = o.r[mi];
    out == ExecOutcome::Done && c == (Sh4Ctx { mac: with_mac_l(o.mac, ((rn % 0x1_0000) * (rm % 0x1_0000)) as u32), ..o })
}

fn exec_mulu_w_rm_rn(ctx: &mut Sh4Ctx, op: u16) -> (out: ExecOutcome)
    requires
        old(ctx).wf(),
    ensures
        final(ctx).wf(),
        final(ctx).remaining_cycles == old(ctx).remaining_cycles,
        post_mulu_w_rm_rn(*old(ctx), *final(ctx), op, out),
{
    let n = GetN(op);
    let m = GetM(op);
    let a = ctx.r[n];
    let b = ctx.r[m];
    let mut l: u32 = 0;
    sh4_muluw(&mut l, a, b);
    ctx.mac = with_mac_l_exec(ctx.mac, l);
    ExecOutcome::Done
}

/// What `muls.w <REG_M>,<REG_N>` does.
pub open spec fn post_muls_w_rm_rn(o: Sh4Ctx, c: Sh4Ctx, op: u16, out: ExecOutcome) -> bool {
    let ni = field_n(op);
    let mi = field_m(op);
    let rn = o.r[ni];
    let rm = o.r[mi];
    out == ExecOutcome::Done && c == (Sh4Ctx { mac: with_mac_l(o.mac, wrap32(signed16(rn) * signed16(rm))), ..o })
}

fn exec_muls_w_rm_rn(ctx: &mut Sh4Ctx, op: u16) -> (out: ExecOutcome)
    requires
        old(ctx).wf(),
    ensures
        final(ctx).wf(),
        final(ctx).remaining_cycles == old(ctx).remaining_cycles,
        post_muls_w_rm_rn(*old(ctx), *final(ctx), op, out),
{
    let n = GetN(op);
    let m = GetM(op);
    let a = ctx.r[n];
    let b = ctx.r[m];
    let mut l: u32 = 0;
    sh4_mulsw(&mut l, a, b);
    ctx.mac = with_mac_l_exec(ctx.mac, l);
    ExecOutcome::Done
}

/// What `cmp/eq <REG_M>,<REG_N>` does.
pub open spec fn post_cmp_eq_rm_rn(o: Sh4Ctx, c: Sh4Ctx, op: u16, out: ExecOutcome) -> bool {
    let ni = field_n(op);
    let mi = field_m(op);
    let rn = o.r[ni];
    let rm = o.r[mi];
    out == ExecOutcome::Done && only_t(o, c, flag(rn == rm))
}

fn exec_cmp_eq_rm_rn(ctx: &mut Sh4Ctx, op: u16) -> (out: ExecOutcome)
    requires
        old(ctx).wf(),
    ensures
        final(ctx).wf(),
        final(ctx).remaining_cycles == old(ctx).remaining_cycles,
        post_cmp_eq_rm_rn(*old(ctx), *final(ctx), op, out),
{
    let n = GetN(op);
    let m = GetM(op);
    let mut t: u32 = ctx.sr_t;
    sh4_cmp_eq(&mut t, ctx.r[n], ctx.r[m]);
    ctx.sr_t = t;
    ExecOutcome::Done
}

/// What `cmp/hs <REG_M>,<REG_N>` does.
pub open spec fn post_cmp_hs_rm_rn(o: Sh4Ctx, c: Sh4Ctx, op: u16, out: ExecOutcome) -> bool {
    let ni = field_n(op);
    let mi = field_m(op);
    let rn = o.r[ni];
    let rm = o.r[mi];
    out == ExecOutcome::Done && only_t(o, c, flag(rn >= rm))
}

fn exec_cmp_hs_rm_rn(ctx: &mut Sh4Ctx, op: u16) -> (out: ExecOutcome)
    requires
        old(ctx).wf(),
    ensures
        final(ctx).wf(),
        final(ctx).remaining_cycles == old(ctx).remaining_cycles,
        post_cmp_hs_rm_rn(*old(ctx), *final(ctx), op, out),
{
    let n = GetN(op);
    let m = GetM(op);
    let mut t: u32 = ctx.sr_t;
    sh4_cmp_hs(&mut t, ctx.r[n], ctx.r[m]);
    ctx.sr_t = t;
    ExecOutcome::Done
}

/// What `cmp/ge <REG_M>,<REG_N>` does.
pub open spec fn post_cmp_ge_rm_rn(o: Sh4Ctx, c: Sh4Ctx, op: u16, out: ExecOutcome) -> bool {
    let ni = field_n(op);
    let mi = field_m(op);
    let rn = o.r[ni];
    let rm = o.r[mi];
    out == ExecOutcome::Done && only_t(o, c, flag(signed32(rn) >= signed32(rm)))
}

fn exec_cmp_ge_rm_rn(ctx: &mut Sh4Ctx, op: u16) -> (out: ExecOutcome)
    requires
        old(ctx).wf(),
    ensures
        final(ctx).wf(),
        final(ctx).remaining_cycles == old(ctx).remaining_cycles,
        post_cmp_ge_rm_rn(*old(ctx), *final(ctx), op, out),
{
    let n = GetN(op);
    let m = GetM(op);
    let mut t: u32 = ctx.sr_t;
    sh4_cmp_ge(&mut t, ctx.r[n], ctx.r[m]);
    ctx.sr_t = t;
    ExecOutcome::Done
}

/// What `div1 <REG_M>,<REG_N>` does.
pub open spec fn post_div1_rm_rn(o: Sh4Ctx, c: Sh4Ctx, op: u16, out: ExecOutcome) -> bool {
    let ni = field_n(op);
    let mi = field_m(op);
    let rn = o.r[ni];
    let rm = o.r[mi];
    ({
        let q = div1_q(rn, o.sr_t, rm, ni == mi, bit_of(o.sr.0, 8), bit_of(o.sr.0, 9));
        &&& out == ExecOutcome::Done
        &&& c.r@ == o.r@.update(ni, div1_result(rn, o.sr_t, rm, ni == mi, bit_of(o.sr.0, 8), bit_of(o.sr.0, 9)))
        &&& c == (Sh4Ctx { r: c.r, sr: SrStatus(with_bit(o.sr.0, 8, q)), sr_t: flag(q == bit_of(o.sr.0, 9)), ..o })
    })
}

fn exec_div1_rm_rn(ctx: &mut Sh4Ctx, op: u16) -> (out: ExecOutcome)
    requires
        old(ctx).wf(),
    ensures
        final(ctx).wf(),
        final(ctx).remaining_cycles == old(ctx).remaining_cycles,
        post_div1_rm_rn(*old(ctx), *final(ctx), op, out),
{
    let n = GetN(op);
    let m = GetM(op);
    let mut sr = ctx.sr;
    let mut t: u32 = ctx.sr_t;
    let a = ctx.r[n];
    let b = ctx.r[m];
    let mut d: u32 = a;
    sh4_div1(&mut sr, &mut t, &mut d, a, b, n == m);
    ctx.sr = sr;
    ctx.sr_t = t;
    ctx.r[n] = d;
    ExecOutcome::Done
}

/// What `dmulu.l <REG_M>,<REG_N>` does.
pub open spec fn post_dmulu_l_rm_rn(o: Sh4Ctx, c: Sh4Ctx, op: u16, out: ExecOutcome) -> bool {
    let ni = field_n(op);
    let mi = field_m(op);
    let rn = o.r[ni];
    let rm = o.r[mi];
    out == ExecOutcome::Done && c == (Sh4Ctx { mac: (rn * rm) as u64, ..o })
}

fn exec_dmulu_l_rm_rn(ctx: &mut Sh4Ctx, op: u16) -> (out: ExecOutcome)
    requires
        old(ctx).wf(),
    ensures
        final(ctx).wf(),
        final(ctx).remaining_cycles == old(ctx).remaining_cycles,
        post_dmulu_l_rm_rn(*old(ctx), *final(ctx), op, out),
{
    let n = GetN(op);
    let m = GetM(op);
    let a = ctx.r[n];
    let b = ctx.r[m];
    let mut d: u64 = 0;
    sh4_dmulu(&mut d, a, b);
    ctx.mac = d;
    ExecOutcome::Done
}

/// What `cmp/hi <REG_M>,<REG_N>` does.
pub open spec fn post_cmp_hi_rm_rn(o: Sh4Ctx, c: Sh4Ctx, op: u16, out: ExecOutcome) -> bool {
    let ni = field_n(op);
    let mi = field_m(op);
    let rn = o.r[ni];
    let rm = o.r[mi];
    out == ExecOutcome::Done && only_t(o, c, flag(rn > rm))
}

fn exec_cmp_hi_rm_rn(ctx: &mut Sh4Ctx, op: u16) -> (out: ExecOutcome)
    requires
        old(ctx).wf(),
    ensures
        final(ctx).wf(),
        final(ctx).remaining_cycles == old(ctx).remaining_cycles,
        post_cmp_hi_rm_rn(*old(ctx), *final(ctx), op, out),
{
    let n = GetN(op);
    let m = GetM(op);
    let mut t: u32 = ctx.sr_t;
    sh4_cmp_hi(&mut t, ctx.r[n], ctx.r[m]);
    ctx.sr_t = t;
    ExecOutcome::Done
}

/// What `cmp/gt <REG_M>,<REG_N>` does.
pub open spec fn post_cmp_gt_rm_rn(o: Sh4Ctx, c: Sh4Ctx, op: u16, out: ExecOutcome) -> bool {
    let ni = field_n(op);
    let mi = field_m(op);
    let rn = o.r[ni];
    let rm = o.r[mi];
    out == ExecOutcome::Done && only_t(o, c, flag(signed32(rn) > signed32(rm)))
}

fn exec_cmp_gt_rm_rn(ctx: &mut Sh4Ctx, op: u16) -> (out: ExecOutcome)
    requires
        old(ctx).wf(),
    ensures
        final(ctx).wf(),
        final(ctx).remaining_cycles == old(ctx).remaining_cycles,
        post_cmp_gt_rm_rn(*old(ctx), *final(ctx), op, out),
{
    let n = GetN(op);
    let m = GetM(op);
    let mut t: u32 = ctx.sr_t;
    sh4_cmp_gt(&mut t, ctx.r[n], ctx.r[m]);
    ctx.sr_t = t;
    ExecOutcome::Done
}

/// What `subc <REG_M>,<REG_N>` does.
pub open spec fn post_subc_rm_rn(o: Sh4Ctx, c: Sh4Ctx, op: u16, out: ExecOutcome) -> bool {
    let ni = field_n(op);
    let mi = field_m(op);
    let rn = o.r[ni];
    let rm = o.r[mi];
    out == ExecOutcome::Done && only_r_t(o, c, ni, wrap32(rn - rm - o.sr_t), flag(rn - rm - o.sr_t < 0))
}

fn exec_subc_rm_rn(ctx: &mut Sh4Ctx, op: u16) -> (out: ExecOutcome)
    requires
        old(ctx).wf(),
    ensures
        final(ctx).wf(),
        final(ctx).remaining_cycles == old(ctx).remaining_cycles,
        post_subc_rm_rn(*old(ctx), *final(ctx), op, out),
{
    let n = GetN(op);
    let m = GetM(op);
    let mut t: u32 = ctx.sr_t;
    let mut d: u32 = ctx.r[n];
    let a = ctx.r[n];
    sh4_subc(&mut t, &mut d, a, ctx.r[m]);
    
    ctx.r[n] = d;
    ctx.sr_t = t;
    ExecOutcome::Done
}

/// What `subv <REG_M>,<REG_N>` does.
pub open spec fn post_subv_rm_rn(o: Sh4Ctx, c: Sh4Ctx, op: u16, out: ExecOutcome) -> bool {
    let ni = field_n(op);
    let mi = field_m(op);
    let rn = o.r[ni];
    let rm = o.r[mi];
    out == ExecOutcome::Done && only_r_t(o, c, ni, wrap32(rn - rm), flag(overflows32(signed32(rn) - signed32(rm))))
}

fn exec_subv_rm_rn(ctx: &mut Sh4Ctx, op: u16) -> (out: ExecOutcome)
    requires
        old(ctx).wf(),
    ensures
        final(ctx).wf(),
        final(ctx).remaining_cycles == old(ctx).remaining_cycles,
        post_subv_rm_rn(*old(ctx), *final(ctx), op, out),
{
    let n = GetN(op);
    let m = GetM(op);
    let mut t: u32 = ctx.sr_t;
    let mut d: u32 = ctx.r[n];
    let a = ctx.r[n];
    sh4_subv(&mut t, &mut d, a, ctx.r[m]);
    
    ctx.r[n] = d;
    ctx.sr_t = t;
    ExecOutcome::Done
}

/// What `dmuls.l <REG_M>,<REG_N>` does.
pub open spec fn post_dmuls_l_rm_rn(o: Sh4Ctx, c: Sh4Ctx, op: u16, out: ExecOutcome) -> bool {
    let ni = field_n(op);
    let mi = field_m(op);
    let rn = o.r[ni];
    let rm = o.r[mi];
    out == ExecOutcome::Done && c == (Sh4Ctx { mac: wrap64(signed32(rn) * signed32(rm)), ..o })
}

fn exec_dmuls_l_rm_rn(ctx: &mut Sh4Ctx, op: u16) -> (out: ExecOutcome)
    requires
        old(ctx).wf(),
    ensures
        final(ctx).wf(),
        final(ctx).remaining_cycles == old(ctx).remaining_cycles,
        post_dmuls_l_rm_rn(*old(ctx), *final(ctx), op, out),
{
    let n = GetN(op);
    let m = GetM(op);
    let a = ctx.r[n];
    let b = ctx.r[m];
    let mut d: u64 = 0;
    sh4_dmuls(&mut d, a, b);
    ctx.mac = d;
    ExecOutcome::Done
}

/// What `addc <REG_M>,<REG_N>` does.
pub open spec fn post_addc_rm_rn(o: Sh4Ctx, c: Sh4Ctx, op: u16, out: ExecOutcome) -> bool {
    let ni = field_n(op);
    let mi = field_m(op);
    let rn = o.r[ni];
    let rm = o.r[mi];
    out == ExecOutcome::Done && only_r_t(o, c, ni, wrap32(rn + rm + o.sr_t), flag(rn + rm + o.sr_t >= pow32()))
}

fn exec_addc_rm_rn(ctx: &mut Sh4Ctx, op: u16) -> (out: ExecOutcome)
    requires
        old(ctx).wf(),
    ensures
        final(ctx).wf(),
        final(ctx).remaining_cycles == old(ctx).remaining_cycles,
        post_addc_rm_rn(*old(ctx), *final(ctx), op, out),
{
    let n = GetN(op);
    let m = GetM(op);
    let mut t: u32 = ctx.sr_t;
    let mut d: u32 = ctx.r[n];
    let a = ctx.r[n];
    sh4_addc(&mut t, &mut d, a, ctx.r[m]);
    
    ctx.r[n] = d;
    ctx.sr_t = t;
    ExecOutcome::Done
}

/// What `addv <REG_M>,<REG_N>` does.
pub open spec fn post_addv_rm_rn(o: Sh4Ctx, c: Sh4Ctx, op: u16, out: ExecOutcome) -> bool {
    let ni = field_n(op);
    let mi = field_m(op);
    let rn = o.r[ni];
    let rm = o.r[mi];
    out == ExecOutcome::Done && only_r_t(o, c, ni, wrap32(rn + rm), flag(overflows32(signed32(rn) + signed32(rm))))
}

fn exec_addv_rm_rn(ctx: &mut Sh4Ctx, op: u16) -> (out: ExecOutcome)
    requires
        old(ctx).wf(),
    ensures
        final(ctx).wf(),
        final(ctx).remaining_cycles == old(ctx).remaining_cycles,
        post_addv_rm_rn(*old(ctx), *final(ctx), op, out),
{
    let n = GetN(op);
    let m = GetM(op);
    let mut t: u32 = ctx.sr_t;
    let mut d: u32 = ctx.r[n];
    let a = ctx.r[n];
    sh4_addv(&mut t, &mut d, a, ctx.r[m]);
    
    ctx.r[n] = d;
    ctx.sr_t = t;
    ExecOutcome::Done
}

/// What `sts.l FPUL,@-<REG_N>` does.
pub open spec fn post_sts_l_fpul_pre_dec_rn(o: Sh4Ctx, c: Sh4Ctx, op: u16, out: ExecOutcome) -> bool {
    let ni = field_n(op);
    let mi = field_m(op);
    let rn = o.r[ni];
    let rm = o.r[mi];
    store_dec_post(o, c, out, ni, rn.wrapping_add(0xFFFF_FFFC), 4, o.fpul as u64, wrap32(rn + 0xFFFF_FFFC))
}

fn exec_sts_l_fpul_pre_dec_rn(ctx: &mut Sh4Ctx, op: u16) -> (out: ExecOutcome)
    requires
        old(ctx).wf(),
    ensures
        final(ctx).wf(),
        final(ctx).remaining_cycles == old(ctx).remaining_cycles,
        post_sts_l_fpul_pre_dec_rn(*old(ctx), *final(ctx), op, out),
{
    let n = GetN(op);
    let rn0 = ctx.r[n];
    let a = rn0.wrapping_add(0xFFFF_FFFC);
    let d = ctx.fpul;
    if !sh4_write_mem32(ctx, a, d) {
        return ExecOutcome::Fault;
    }
    let mut nv: u32 = 0;
    sh4_addi(&mut nv, rn0, 0xFFFF_FFFC);
    ctx.r[n] = nv;
    ExecOutcome::Done
}

/// What `sts.l FPSCR,@-<REG_N>` does.
pub open spec fn post_sts_l_fpscr_pre_dec_rn(o: Sh4Ctx, c: Sh4Ctx, op: u16, out: ExecOutcome) -> bool {
    let ni = field_n(op);
    let mi = field_m(op);
    let rn = o.r[ni];
    let rm = o.r[mi];
    store_dec_post(o, c, out, ni, rn.wrapping_add(0xFFFF_FFFC), 4, o.fpscr.0 as u64, wrap32(rn + 0xFFFF_FFFC))
}

fn exec_sts_l_fpscr_pre_dec_rn(ctx: &mut Sh4Ctx, op: u16) -> (out: ExecOutcome)
    requires
        old(ctx).wf(),
    ensures
        final(ctx).wf(),
        final(ctx).remaining_cycles == old(ctx).remaining_cycles,
        post_sts_l_fpscr_pre_dec_rn(*old(ctx), *final(ctx), op, out),
{
    let n = GetN(op);
    let rn0 = ctx.r[n];
    let a = rn0.wrapping_add(0xFFFF_FFFC);
    let d = ctx.fpscr.0;
    if !sh4_write_mem32(ctx, a, d) {
        return ExecOutcome::Fault;
    }
    let mut nv: u32 = 0;
    sh4_addi(&mut nv, rn0, 0xFFFF_FFFC);
    ctx.r[n] = nv;
    ExecOutcome::Done
}

/// What `sts.l MACH,@-<REG_N>` does.
pub open spec fn post_sts_l_mach_pre_dec_rn(o: Sh4Ctx, c: Sh4Ctx, op: u16, out: ExecOutcome) -> bool {
    let ni = field_n(op);
    let mi = field_m(op);
    let rn = o.r[ni];
    let rm = o.r[mi];
    store_dec_post(o, c, out, ni, rn.wrapping_add(0xFFFF_FFFC), 4, mac_h(o.mac) as u64, wrap32(rn + 0xFFFF_FFFC))
}

fn exec_sts_l_mach_pre_dec_rn(ctx: &mut Sh4Ctx, op: u16) -> (out: ExecOutcome)
    requires
        old(ctx).wf(),
    ensures
        final(ctx).wf(),
        final(ctx).remaining_cycles == old(ctx).remaining_cycles,
        post_sts_l_mach_pre_dec_rn(*old(ctx), *final(ctx), op, out),
{
    let n = GetN(op);
    let rn0 = ctx.r[n];
    let a = rn0.wrapping_add(0xFFFF_FFFC);
    let d = mac_parts(ctx.mac).h;
    if !sh4_write_mem32(ctx, a, d) {
        return ExecOutcome::Fault;
    }
    let mut nv: u32 = 0;
    sh4_addi(&mut nv, rn0, 0xFFFF_FFFC);
    ctx.r[n] = nv;
    ExecOutcome::Done
}

/// What `sts.l MACL,@-<REG_N>` does.
pub open spec fn post_sts_l_macl_pre_dec_rn(o: Sh4Ctx, c: Sh4Ctx, op: u16, out: ExecOutcome) -> bool {
    let ni = field_n(op);
    let mi = field_m(op);
    let rn = o.r[ni];
    let rm = o.r[mi];
    store_dec_post(o, c, out, ni, rn.wrapping_add(0xFFFF_FFFC), 4, mac_l(o.mac) as u64, wrap32(rn + 0xFFFF_FFFC))
}

fn exec_sts_l_macl_pre_dec_rn(ctx: &mut Sh4Ctx, op: u16) -> (out: ExecOutcome)
    requires
        old(ctx).wf(),
    ensures
        final(ctx).wf(),
        final(ctx).remaining_cycles == old(ctx).remaining_cycles,
        post_sts_l_macl_pre_dec_rn(*old(ctx), *final(ctx), op, out),
{
    let n = GetN(op);
    let rn0 = ctx.r[n];
    let a = rn0.wrapping_add(0xFFFF_FFFC);
    let d = mac_parts(ctx.mac).l;
    if !sh4_write_mem32(ctx, a, d) {
        return ExecOutcome::Fault;
    }
    let mut nv: u32 = 0;
    sh4_addi(&mut nv, rn0, 0xFFFF_FFFC);
    ctx.r[n] = nv;
    ExecOutcome::Done
}

/// What `sts.l PR,@-<REG_N>` does.
pub open spec fn post_sts_l_pr_pre_dec_rn(o: Sh4Ctx, c: Sh4Ctx, op: u16, out: ExecOutcome) -> bool {
    let ni = field_n(op);
    let mi = field_m(op);
    let rn = o.r[ni];
    let rm = o.r[mi];
    store_dec_post(o, c, out, ni, rn.wrapping_add(0xFFFF_FFFC), 4, o.pr as u64, wrap32(rn + 0xFFFF_FFFC))
}

fn exec_sts_l_pr_pre_dec_rn(ctx: &mut Sh4Ctx, op: u16) -> (out: ExecOutcome)
    requires
        old(ctx).wf(),
    ensures
        final(ctx).wf(),
        final(ctx).remaining_cycles == old(ctx).remaining_cycles,
        post_sts_l_pr_pre_dec_rn(*old(ctx), *final(ctx), op, out),
{
    let n = GetN(op);
    let rn0 = ctx.r[n];
    let a = rn0.wrapping_add(0xFFFF_FFFC);
    let d = ctx.pr;
    if !sh4_write_mem32(ctx, a, d) {
        return ExecOutcome::Fault;
    }
    let mut nv: u32 = 0;
    sh4_addi(&mut nv, rn0, 0xFFFF_FFFC);
    ctx.r[n] = nv;
    ExecOutcome::Done
}

/// What `stc.l DBR,@-<REG_N>` does.
pub open spec fn post_stc_l_dbr_pre_dec_rn(o: Sh4Ctx, c: Sh4Ctx, op: u16, out: ExecOutcome) -> bool {
    let ni = field_n(op);
    let mi = field_m(op);
    let rn = o.r[ni];
    let rm = o.r[mi];
    store_dec_post(o, c, out, ni, rn.wrapping_add(0xFFFF_FFFC), 4, o.dbr as u64, wrap32(rn + 0xFFFF_FFFC))
}

fn exec_stc_l_dbr_pre_dec_rn(ctx: &mut Sh4Ctx, op: u16) -> (out: ExecOutcome)
    requires
        old(ctx).wf(),
    ensures
        final(ctx).wf(),
        final(ctx).remaining_cycles == old(ctx).remaining_cycles,
        post_stc_l_dbr_pre_dec_rn(*old(ctx), *final(ctx), op, out),
{
    let n = GetN(op);
    let rn0 = ctx.r[n];
    let a = rn0.wrapping_add(0xFFFF_FFFC);
    let d = ctx.dbr;
    if !sh4_write_mem32(ctx, a, d) {
        return ExecOutcome::Fault;
    }
    let mut nv: u32 = 0;
    sh4_addi(&mut nv, rn0, 0xFFFF_FFFC);
    ctx.r[n] = nv;
    ExecOutcome::Done
}

/// What `stc.l SR,@-<REG_N>` does.
pub open spec fn post_stc_l_sr_pre_dec_rn(o: Sh4Ctx, c: Sh4Ctx, op: u16, out: ExecOutcome) -> bool {
    let ni = field_n(op);
    let mi = field_m(op);
    let rn = o.r[ni];
    let rm = o.r[mi];
    if !spec_write_ok(o, rn.wrapping_add(0xFFFF_FFFC), 4) {
        out == ExecOutcome::Fault && c == o
    } else {
        &&& out == ExecOutcome::Done
        &&& mem_written(o, Sh4Ctx { r: o.r, temp: o.temp, ..c }, rn.wrapping_add(0xFFFF_FFFC), 4, spec_full_sr(o) as u64)
        &&& c.r@ == o.r@.update(ni, wrap32(rn + 0xFFFF_FFFC))
        &&& c.temp@ == o.temp@.update(0, spec_full_sr(o))
    }
}

fn exec_stc_l_sr_pre_dec_rn(ctx: &mut Sh4Ctx, op: u16) -> (out: ExecOutcome)
    requires
        old(ctx).wf(),
    ensures
        final(ctx).wf(),
        final(ctx).remaining_cycles == old(ctx).remaining_cycles,
        post_stc_l_sr_pre_dec_rn(*old(ctx), *final(ctx), op, out),
{
    let n = GetN(op);
    let full = ctx.sr.0 | ctx.sr_t;
    let rn0 = ctx.r[n];
    let a = rn0.wrapping_add(0xFFFF_FFFC);
    if !sh4_write_mem32(ctx, a, full) {
        return ExecOutcome::Fault;
    }
    ctx.temp[0] = full;
    let mut nv: u32 = 0;
    sh4_addi(&mut nv, rn0, 0xFFFF_FFFC);
    ctx.r[n] = nv;
    ExecOutcome::Done
}

/// What `stc.l GBR,@-<REG_N>` does.
pub open spec fn post_stc_l_gbr_pre_dec_rn(o: Sh4Ctx, c: Sh4Ctx, op: u16, out: ExecOutcome) -> bool {
    let ni = field_n(op);
    let mi = field_m(op);
    let rn = o.r[ni];
    let rm = o.r[mi];
    store_dec_post(o, c, out, ni, rn.wrapping_add(0xFFFF_FFFC), 4, o.gbr as u64, wrap32(rn + 0xFFFF_FFFC))
}

fn exec_stc_l_gbr_pre_dec_rn(ctx: &mut Sh4Ctx, op: u16) -> (out: ExecOutcome)
    requires
        old(ctx).wf(),
    ensures
        final(ctx).wf(),
        final(ctx).remaining_cycles == old(ctx).remaining_cycles,
        post_stc_l_gbr_pre_dec_rn(*old(ctx), *final(ctx), op, out),
{
    let n = GetN(op);
    let rn0 = ctx.r[n];
    let a = rn0.wrapping_add(0xFFFF_FFFC);
    let d = ctx.gbr;
    if !sh4_write_mem32(ctx, a, d) {
        return ExecOutcome::Fault;
    }
    let mut nv: u32 = 0;
    sh4_addi(&mut nv, rn0, 0xFFFF_FFFC);
    ctx.r[n] = nv;
    ExecOutcome::Done
}

/// What `stc.l VBR,@-<REG_N>` does.
pub open spec fn post_stc_l_vbr_pre_dec_rn(o: Sh4Ctx, c: Sh4Ctx, op: u16, out: ExecOutcome) -> bool {
    let ni = field_n(op);
    let mi = field_m(op);
    let rn = o.r[ni];
    let rm = o.r[mi];
    store_dec_post(o, c, out, ni, rn.wrapping_add(0xFFFF_FFFC), 4, o.vbr as u64, wrap32(rn + 0xFFFF_FFFC))
}

fn exec_stc_l_vbr_pre_dec_rn(ctx: &mut Sh4Ctx, op: u16) -> (out: ExecOutcome)
    requires
        old(ctx).wf(),
    ensures
        final(ctx).wf(),
        final(ctx).remaining_cycles == old(ctx).remaining_cycles,
        post_stc_l_vbr_pre_dec_rn(*old(ctx), *final(ctx), op, out),
{
    let n = GetN(op);
    let rn0 = ctx.r[n];
    let a = rn0.wrapping_add(0xFFFF_FFFC);
    let d = ctx.vbr;
    if !sh4_write_mem32(ctx, a, d) {
        return ExecOutcome::Fault;
    }
    let mut nv: u32 = 0;
    sh4_addi(&mut nv, rn0, 0xFFFF_FFFC);
    ctx.r[n] = nv;
    ExecOutcome::Done
}

/// What `stc.l SSR,@-<REG_N>` does.
pub open spec fn post_stc_l_ssr_pre_dec_rn(o: Sh4Ctx, c: Sh4Ctx, op: u16, out: ExecOutcome) -> bool {
    let ni = field_n(op);
    let mi = field_m(op);
    let rn = o.r[ni];
    let rm = o.r[mi];
    store_dec_post(o, c, out, ni, rn.wrapping_add(0xFFFF_FFFC), 4, o.ssr as u64, wrap32(rn + 0xFFFF_FFFC))
}

fn exec_stc_l_ssr_pre_dec_rn(ctx: &mut Sh4Ctx, op: u16) -> (out: ExecOutcome)
    requires
        old(ctx).wf(),
    ensures
        final(ctx).wf(),
        final(ctx).remaining_cycles == old(ctx).remaining_cycles,
        post_stc_l_ssr_pre_dec_rn(*old(ctx), *final(ctx), op, out),
{
    let n = GetN(op);
    let rn0 = ctx.r[n];
    let a = rn0.wrapping_add(0xFFFF_FFFC);
    let d = ctx.ssr;
    if !sh4_write_mem32(ctx, a, d) {
        return ExecOutcome::Fault;
    }
    let mut nv: u32 = 0;
    sh4_addi(&mut nv, rn0, 0xFFFF_FFFC);
    ctx.r[n] = nv;
    ExecOutcome::Done
}

/// What `stc.l SPC,@-<REG_N>` does.
pub open spec fn post_stc_l_spc_pre_dec_rn(o: Sh4Ctx, c: Sh4Ctx, op: u16, out: ExecOutcome) -> bool {
    let ni = field_n(op);
    let mi = field_m(op);
    let rn = o.r[ni];
    let rm = o.r[mi];
    store_dec_post(o, c, out, ni, rn.wrapping_add(0xFFFF_FFFC), 4, o.spc as u64, wrap32(rn + 0xFFFF_FFFC))
}

fn exec_stc_l_spc_pre_dec_rn(ctx: &mut Sh4Ctx, op: u16) -> (out: ExecOutcome)
    requires
        old(ctx).wf(),
    ensures
        final(ctx).wf(),
        final(ctx).remaining_cycles == old(ctx).remaining_cycles,
        post_stc_l_spc_pre_dec_rn(*old(ctx), *final(ctx), op, out),
{
    let n = GetN(op);
    let rn0 = ctx.r[n];
    let a = rn0.wrapping_add(0xFFFF_FFFC);
    let d = ctx.spc;
    if !sh4_write_mem32(ctx, a, d) {
        return ExecOutcome::Fault;
    }
    let mut nv: u32 = 0;
    sh4_addi(&mut nv, rn0, 0xFFFF_FFFC);
    ctx.r[n] = nv;
    ExecOutcome::Done
}

/// What `stc <RM_BANK>,@-<REG_N>` does.
pub open spec fn post_stc_rm_bank_pre_dec_rn(o: Sh4Ctx, c: Sh4Ctx, op: u16, out: ExecOutcome) -> bool {
    let ni = field_n(op);
    let mi = field_m(op);
    let rn = o.r[ni];
    let rm = o.r[mi];
    store_dec_post(o, c, out, ni, rn.wrapping_add(0xFFFF_FFFC), 4, o.r_bank[mi % 8] as u64, wrap32(rn + 0xFFFF_FFFC))
}

fn exec_stc_rm_bank_pre_dec_rn(ctx: &mut Sh4Ctx, op: u16) -> (out: ExecOutcome)
    requires
        old(ctx).wf(),
    ensures
        final(ctx).wf(),
        final(ctx).remaining_cycles == old(ctx).remaining_cycles,
        post_stc_rm_bank_pre_dec_rn(*old(ctx), *final(ctx), op, out),
{
    let n = GetN(op);
    let m = GetM(op);
    let rn0 = ctx.r[n];
    let a = rn0.wrapping_add(0xFFFF_FFFC);
    let d = ctx.r_bank[m % 8];
    if !sh4_write_mem32(ctx, a, d) {
        return ExecOutcome::Fault;
    }
    let mut nv: u32 = 0;
    sh4_addi(&mut nv, rn0, 0xFFFF_FFFC);
    ctx.r[n] = nv;
    ExecOutcome::Done
}

/// What `lds.l @<REG_N>+,MACH` does.
pub open spec fn post_lds_l_at_rn_post_inc_mach(o: Sh4Ctx, c: Sh4Ctx, op: u16, out: ExecOutcome) -> bool {
    let ni = field_n(op);
    let mi = field_m(op);
    let rn = o.r[ni];
    let rm = o.r[mi];
    match spec_read_mem(o, rn, 4) {
        Some(v) => out == ExecOutcome::Done && c.r@ == o.r@.update(ni, wrap32(rn + 4))
            && c == (Sh4Ctx { r: c.r, mac: with_mac_h(o.mac, (v % 0x1_0000_0000) as u32), ..o }),
        None => out == ExecOutcome::Fault && c == o,
    }
}

fn exec_lds_l_at_rn_post_inc_mach(ctx: &mut Sh4Ctx, op: u16) -> (out: ExecOutcome)
    requires
        old(ctx).wf(),
    ensures
        final(ctx).wf(),
        final(ctx).remaining_cycles == old(ctx).remaining_cycles,
        post_lds_l_at_rn_post_inc_mach(*old(ctx), *final(ctx), op, out),
{
    let n = GetN(op);
    let a = ctx.r[n];
    match sh4_read_mem32(ctx, a) {
        Some(v) => {
            ctx.mac = with_mac_h_exec(ctx.mac, v);
            let mut nv: u32 = 0;
            sh4_addi(&mut nv, a, 4);
            ctx.r[n] = nv;
            ExecOutcome::Done
        },
        None => ExecOutcome::Fault,
    }
}

/// What `lds.l @<REG_N>+,MACL` does.
pub open spec fn post_lds_l_at_rn_post_inc_macl(o: Sh4Ctx, c: Sh4Ctx, op: u16, out: ExecOutcome) -> bool {
    let ni = field_n(op);
    let mi = field_m(op);
    let rn = o.r[ni];
    let rm = o.r[mi];
    match spec_read_mem(o, rn, 4) {
        Some(v) => out == ExecOutcome::Done && c.r@ == o.r@.update(ni, wrap32(rn + 4))
            && c == (Sh4Ctx { r: c.r, mac: with_mac_l(o.mac, (v % 0x1_0000_0000) as u32), ..o }),
        None => out == ExecOutcome::Fault && c == o,
    }
}

fn exec_lds_l_at_rn_post_inc_macl(ctx: &mut Sh4Ctx, op: u16) -> (out: ExecOutcome)
    requires
        old(ctx).wf(),
    ensures
        final(ctx).wf(),
        final(ctx).remaining_cycles == old(ctx).remaining_cycles,
        post_lds_l_at_rn_post_inc_macl(*old(ctx), *final(ctx), op, out),
{
    let n = GetN(op);
    let a = ctx.r[n];
    match sh4_read_mem32(ctx, a) {
        Some(v) => {
            ctx.mac = with_mac_l_exec(ctx.mac, v);
            let mut nv: u32 = 0;
            sh4_addi(&mut nv, a, 4);
            ctx.r[n] = nv;
            ExecOutcome::Done
        },
        None => ExecOutcome::Fault,
    }
}

/// What `lds.l @<REG_N>+,PR` does.
pub open spec fn post_lds_l_at_rn_post_inc_pr(o: Sh4Ctx, c: Sh4Ctx, op: u16, out: ExecOutcome) -> bool {
    let ni = field_n(op);
    let mi = field_m(op);
    let rn = o.r[ni];
    let rm = o.r[mi];
    match spec_read_mem(o, rn, 4) {
        Some(v) => out == ExecOutcome::Done && c.r@ == o.r@.update(ni, wrap32(rn + 4))
            && c == (Sh4Ctx { r: c.r, pr: (v % 0x1_0000_0000) as u32, ..o }),
        None => out == ExecOutcome::Fault && c == o,
    }
}

fn exec_lds_l_at_rn_post_inc_pr(ctx: &mut Sh4Ctx, op: u16) -> (out: ExecOutcome)
    requires
        old(ctx).wf(),
    ensures
        final(ctx).wf(),
        final(ctx).remaining_cycles == old(ctx).remaining_cycles,
        post_lds_l_at_rn_post_inc_pr(*old(ctx), *final(ctx), op, out),
{
    let n = GetN(op);
    let a = ctx.r[n];
    match sh4_read_mem32(ctx, a) {
        Some(v) => {
            ctx.pr = v;
            let mut nv: u32 = 0;
            sh4_addi(&mut nv, a, 4);
            ctx.r[n] = nv;
            ExecOutcome::Done
        },
        None => ExecOutcome::Fault,
    }
}

/// What `ldc.l @<REG_N>+,SGR` does.
pub open spec fn post_ldc_l_at_rn_post_inc_sgr(o: Sh4Ctx, c: Sh4Ctx, op: u16, out: ExecOutcome) -> bool {
    let ni = field_n(op);
    let mi = field_m(op);
    let rn = o.r[ni];
    let rm = o.r[mi];
    match spec_read_mem(o, rn, 4) {
        Some(v) => out == ExecOutcome::Done && c.r@ == o.r@.update(ni, wrap32(rn + 4))
            && c == (Sh4Ctx { r: c.r, sgr: (v % 0x1_0000_0000) as u32, ..o }),
        None => out == ExecOutcome::Fault && c == o,
    }
}

fn exec_ldc_l_at_rn_post_inc_sgr(ctx: &mut Sh4Ctx, op: u16) -> (out: ExecOutcome)
    requires
        old(ctx).wf(),
    ensures
        final(ctx).wf(),
        final(ctx).remaining_cycles == old(ctx).remaining_cycles,
        post_ldc_l_at_rn_post_inc_sgr(*old(ctx), *final(ctx), op, out),
{
    let n = GetN(op);
    let a = ctx.r[n];
    match sh4_read_mem32(ctx, a) {
        Some(v) => {
            ctx.sgr = v;
            let mut nv: u32 = 0;
            sh4_addi(&mut nv, a, 4);
            ctx.r[n] = nv;
            ExecOutcome::Done
        },
        None => ExecOutcome::Fault,
    }
}

/// What `lds.l @<REG_N>+,FPUL` does.
pub open spec fn post_lds_l_at_rn_post_inc_fpul(o: Sh4Ctx, c: Sh4Ctx, op: u16, out: ExecOutcome) -> bool {
    let ni = field_n(op);
    let mi = field_m(op);
    let rn = o.r[ni];
    let rm = o.r[mi];
    match spec_read_mem(o, rn, 4) {
        Some(v) => out == ExecOutcome::Done && c.r@ == o.r@.update(ni, wrap32(rn + 4))
            && c == (Sh4Ctx { r: c.r, fpul: (v % 0x1_0000_0000) as u32, ..o }),
        None => out == ExecOutcome::Fault && c == o,
    }
}

fn exec_lds_l_at_rn_post_inc_fpul(ctx: &mut Sh4Ctx, op: u16) -> (out: ExecOutcome)
    requires
        old(ctx).wf(),
    ensures
        final(ctx).wf(),
        final(ctx).remaining_cycles == old(ctx).remaining_cycles,
        post_lds_l_at_rn_post_inc_fpul(*old(ctx), *final(ctx), op, out),
{
    let n = GetN(op);
    let a = ctx.r[n];
    match sh4_read_mem32(ctx, a) {
        Some(v) => {
            ctx.fpul = v;
            let mut nv: u32 = 0;
            sh4_addi(&mut nv, a, 4);
            ctx.r[n] = nv;
            ExecOutcome::Done
        },
        None => ExecOutcome::Fault,
    }
}

/// What `lds.l @<REG_N>+,FPSCR` does.
pub open spec fn post_lds_l_at_rn_post_inc_fpscr(o: Sh4Ctx, c: Sh4Ctx, op: u16, out: ExecOutcome) -> bool {
    let ni = field_n(op);
    let mi = field_m(op);
    let rn = o.r[ni];
    let rm = o.r[mi];
    match spec_read_mem(o, rn, 4) {
        Some(w) => {
            let v = (w % 0x1_0000_0000) as u32;
            &&& out == ExecOutcome::Fpscr(fpscr_effects(o.fpscr.0, v))
            &&& c.fpscr.0 == v
            &&& c.temp@ == o.temp@.update(0, v)
            &&& c.r@ == o.r@.update(ni, wrap32(rn + 4))
            &&& fpu_banks_after(o.fpscr.0, v, o, c)
            &&& c == (Sh4Ctx { fpscr: c.fpscr, temp: c.temp, r: c.r, fr: c.fr, xf: c.xf, ..o })
        },
        None => out == ExecOutcome::Fault && c == o,
    }
}

fn exec_lds_l_at_rn_post_inc_fpscr(ctx: &mut Sh4Ctx, op: u16) -> (out: ExecOutcome)
    requires
        old(ctx).wf(),
    ensures
        final(ctx).wf(),
        final(ctx).remaining_cycles == old(ctx).remaining_cycles,
        post_lds_l_at_rn_post_inc_fpscr(*old(ctx), *final(ctx), op, out),
{
    let n = GetN(op);
    let a = ctx.r[n];
    let v = match sh4_read_mem32(ctx, a) { Some(v) => v, None => { return ExecOutcome::Fault; } };
    ctx.temp[0] = v;
    let mut f = ctx.fpscr.0;
    let eff = sh4_store_fpscr(&mut f, v, &mut ctx.fr, &mut ctx.xf);
    ctx.fpscr = FpscrReg(f);
    let mut nv: u32 = 0;
    sh4_addi(&mut nv, a, 4);
    ctx.r[n] = nv;
    ExecOutcome::Fpscr(eff)
}

/// What `ldc.l @<REG_N>+,DBR` does.
pub open spec fn post_ldc_l_at_rn_post_inc_dbr(o: Sh4Ctx, c: Sh4Ctx, op: u16, out: ExecOutcome) -> bool {
    let ni = field_n(op);
    let mi = field_m(op);
    let rn = o.r[ni];
    let rm = o.r[mi];
    match spec_read_mem(o, rn, 4) {
        Some(v) => out == ExecOutcome::Done && c.r@ == o.r@.update(ni, wrap32(rn + 4))
            && c == (Sh4Ctx { r: c.r, dbr: (v % 0x1_0000_0000) as u32, ..o }),
        None => out == ExecOutcome::Fault && c == o,
    }
}

fn exec_ldc_l_at_rn_post_inc_dbr(ctx: &mut Sh4Ctx, op: u16) -> (out: ExecOutcome)
    requires
        old(ctx).wf(),
    ensures
        final(ctx).wf(),
        final(ctx).remaining_cycles == old(ctx).remaining_cycles,
        post_ldc_l_at_rn_post_inc_dbr(*old(ctx), *final(ctx), op, out),
{
    let n = GetN(op);
    let a = ctx.r[n];
    match sh4_read_mem32(ctx, a) {
        Some(v) => {
            ctx.dbr = v;
            let mut nv: u32 = 0;
            sh4_addi(&mut nv, a, 4);
            ctx.r[n] = nv;
            ExecOutcome::Done
        },
        None => ExecOutcome::Fault,
    }
}

/// What `ldc.l @<REG_N>+,SR` does.
pub open spec fn post_ldc_l_at_rn_post_inc_sr(o: Sh4Ctx, c: Sh4Ctx, op: u16, out: ExecOutcome) -> bool {
    let ni = field_n(op);
    let mi = field_m(op);
    let rn = o.r[ni];
    let rm = o.r[mi];
    match spec_read_mem(o, rn, 4) {
        Some(w) => {
            let v = (w % 0x1_0000_0000) as u32;
            &&& out == ExecOutcome::Done
            &&& c.temp@ == o.temp@.update(0, v)
            &&& c.sr_t == (v & 1)
            &&& c.sr.0 == spec_sr_rest(v)
            &&& banks_after(o.sr.0, spec_sr_rest(v), o.r@.update(ni, wrap32(rn + 4)), o.r_bank@, c)
            &&& c == (Sh4Ctx { temp: c.temp, sr_t: c.sr_t, sr: c.sr, r: c.r, r_bank: c.r_bank, ..o })
        },
        None => out == ExecOutcome::Fault && c == o,
    }
}

fn exec_ldc_l_at_rn_post_inc_sr(ctx: &mut Sh4Ctx, op: u16) -> (out: ExecOutcome)
    requires
        old(ctx).wf(),
    ensures
        final(ctx).wf(),
        final(ctx).remaining_cycles == old(ctx).remaining_cycles,
        post_ldc_l_at_rn_post_inc_sr(*old(ctx), *final(ctx), op, out),
{
    let n = GetN(op);
    let a = ctx.r[n];
    let v = match sh4_read_mem32(ctx, a) { Some(v) => v, None => { return ExecOutcome::Fault; } };
    ctx.temp[0] = v;
    let mut nv: u32 = 0;
    sh4_addi(&mut nv, a, 4);
    ctx.r[n] = nv;
    let mut t: u32 = 0;
    sh4_andi(&mut t, v, 1);
    proof { lemma_mask_u32(v); }
    ctx.sr_t = t;
    let mut s = ctx.sr.0;
    sh4_store_sr_rest(&mut s, v, &mut ctx.r, &mut ctx.r_bank);
    ctx.sr = SrStatus(s);
    ExecOutcome::Done
}

/// What `ldc.l @<REG_N>+,GBR` does.
pub open spec fn post_ldc_l_at_rn_post_inc_gbr(o: Sh4Ctx, c: Sh4Ctx, op: u16, out: ExecOutcome) -> bool {
    let ni = field_n(op);
    let mi = field_m(op);
    let rn = o.r[ni];
    let rm = o.r[mi];
    match spec_read_mem(o, rn, 4) {
        Some(v) => out == ExecOutcome::Done && c.r@ == o.r@.update(ni, wrap32(rn + 4))
            && c == (Sh4Ctx { r: c.r, gbr: (v % 0x1_0000_0000) as u32, ..o }),
        None => out == ExecOutcome::Fault && c == o,
    }
}

fn exec_ldc_l_at_rn_post_inc_gbr(ctx: &mut Sh4Ctx, op: u16) -> (out: ExecOutcome)
    requires
        old(ctx).wf(),
    ensures
        final(ctx).wf(),
        final(ctx).remaining_cycles == old(ctx).remaining_cycles,
        post_ldc_l_at_rn_post_inc_gbr(*old(ctx), *final(ctx), op, out),
{
    let n = GetN(op);
    let a = ctx.r[n];
    match sh4_read_mem32(ctx, a) {
        Some(v) => {
            ctx.gbr = v;
            let mut nv: u32 = 0;
            sh4_addi(&mut nv, a, 4);
            ctx.r[n] = nv;
            ExecOutcome::Done
        },
        None => ExecOutcome::Fault,
    }
}

/// What `ldc.l @<REG_N>+,VBR` does.
pub open spec fn post_ldc_l_at_rn_post_inc_vbr(o: Sh4Ctx, c: Sh4Ctx, op: u16, out: ExecOutcome) -> bool {
    let ni = field_n(op);
    let mi = field_m(op);
    let rn = o.r[ni];
    let rm = o.r[mi];
    match spec_read_mem(o, rn, 4) {
        Some(v) => out == ExecOutcome::Done && c.r@ == o.r@.update(ni, wrap32(rn + 4))
            && c == (Sh4Ctx { r: c.r, vbr: (v % 0x1_0000_0000) as u32, ..o }),
        None => out == ExecOutcome::Fault && c == o,
    }
}

fn exec_ldc_l_at_rn_post_inc_vbr(ctx: &mut Sh4Ctx, op: u16) -> (out: ExecOutcome)
    requires
        old(ctx).wf(),
    ensures
        final(ctx).wf(),
        final(ctx).remaining_cycles == old(ctx).remaining_cycles,
        post_ldc_l_at_rn_post_inc_vbr(*old(ctx), *final(ctx), op, out),
{
    let n = GetN(op);
    let a = ctx.r[n];
    match sh4_read_mem32(ctx, a) {
        Some(v) => {
            ctx.vbr = v;
            let mut nv: u32 = 0;
            sh4_addi(&mut nv, a, 4);
            ctx.r[n] = nv;
            ExecOutcome::Done
        },
        None => ExecOutcome::Fault,
    }
}

/// What `ldc.l @<REG_N>+,SSR` does.
pub open spec fn post_ldc_l_at_rn_post_inc_ssr(o: Sh4Ctx, c: Sh4Ctx, op: u16, out: ExecOutcome) -> bool {
    let ni = field_n(op);
    let mi = field_m(op);
    let rn = o.r[ni];
    let rm = o.r[mi];
    match spec_read_mem(o, rn, 4) {
        Some(v) => out == ExecOutcome::Done && c.r@ == o.r@.update(ni, wrap32(rn + 4))
            && c == (Sh4Ctx { r: c.r, ssr: (v % 0x1_0000_0000) as u32, ..o }),
        None => out == ExecOutcome::Fault && c == o,
    }
}

fn exec_ldc_l_at_rn_post_inc_ssr(ctx: &mut Sh4Ctx, op: u16) -> (out: ExecOutcome)
    requires
        old(ctx).wf(),
    ensures
        final(ctx).wf(),
        final(ctx).remaining_cycles == old(ctx).remaining_cycles,
        post_ldc_l_at_rn_post_inc_ssr(*old(ctx), *final(ctx), op, out),
{
    let n = GetN(op);
    let a = ctx.r[n];
    match sh4_read_mem32(ctx, a) {
        Some(v) => {
            ctx.ssr = v;
            let mut nv: u32 = 0;
            sh4_addi(&mut nv, a, 4);
            ctx.r[n] = nv;
            ExecOutcome::Done
        },
        None => ExecOutcome::Fault,
    }
}

/// What `ldc.l @<REG_N>+,SPC` does.
pub open spec fn post_ldc_l_at_rn_post_inc_spc(o: Sh4Ctx, c: Sh4Ctx, op: u16, out: ExecOutcome) -> bool {
    let ni = field_n(op);
    let mi = field_m(op);
    let rn = o.r[ni];
    let rm = o.r[mi];
    match spec_read_mem(o, rn, 4) {
        Some(v) => out == ExecOutcome::Done && c.r@ == o.r@.update(ni, wrap32(rn + 4))
            && c == (Sh4Ctx { r: c.r, spc: (v % 0x1_0000_0000) as u32, ..o }),
        None => out == ExecOutcome::Fault && c == o,
    }
}

fn exec_ldc_l_at_rn_post_inc_spc(ctx: &mut Sh4Ctx, op: u16) -> (out: ExecOutcome)
    requires
        old(ctx).wf(),
    ensures
        final(ctx).wf(),
        final(ctx).remaining_cycles == old(ctx).remaining_cycles,
        post_ldc_l_at_rn_post_inc_spc(*old(ctx), *final(ctx), op, out),
{
    let n = GetN(op);
    let a = ctx.r[n];
    match sh4_read_mem32(ctx, a) {
        Some(v) => {
            ctx.spc = v;
            let mut nv: u32 = 0;
            sh4_addi(&mut nv, a, 4);
            ctx.r[n] = nv;
            ExecOutcome::Done
        },
        None => ExecOutcome::Fault,
    }
}

/// What `ldc.l @<REG_N>+,RM_BANK` does.
pub open spec fn post_ldc_l_at_rn_post_inc_rm_bank(o: Sh4Ctx, c: Sh4Ctx, op: u16, out: ExecOutcome) -> bool {
    let ni = field_n(op);
    let mi = field_m(op);
    let rn = o.r[ni];
    let rm = o.r[mi];
    match spec_read_mem(o, rn, 4) {
        Some(v) => out == ExecOutcome::Done && c.r@ == o.r@.update(ni, wrap32(rn + 4))
            && c.r_bank@ == o.r_bank@.update(mi % 8, (v % 0x1_0000_0000) as u32)
            && c == (Sh4Ctx { r: c.r, r_bank: c.r_bank, ..o }),
        None => out == ExecOutcome::Fault && c == o,
    }
}

fn exec_ldc_l_at_rn_post_inc_rm_bank(ctx: &mut Sh4Ctx, op: u16) -> (out: ExecOutcome)
    requires
        old(ctx).wf(),
    ensures
        final(ctx).wf(),
        final(ctx).remaining_cycles == old(ctx).remaining_cycles,
        post_ldc_l_at_rn_post_inc_rm_bank(*old(ctx), *final(ctx), op, out),
{
    let n = GetN(op);
    let m = GetM(op);
    let a = ctx.r[n];
    match sh4_read_mem32(ctx, a) {
        Some(v) => {
            ctx.r_bank[m % 8] = v;
            let mut nv: u32 = 0;
            sh4_addi(&mut nv, a, 4);
            ctx.r[n] = nv;
            ExecOutcome::Done
        },
        None => ExecOutcome::Fault,
    }
}

/// What `lds <REG_N>,MACH` does.
pub open spec fn post_lds_rn_mach(o: Sh4Ctx, c: Sh4Ctx, op: u16, out: ExecOutcome) -> bool {
    let ni = field_n(op);
    let mi = field_m(op);
    let rn = o.r[ni];
    let rm = o.r[mi];
    out == ExecOutcome::Done && c == (Sh4Ctx { mac: with_mac_h(o.mac, rn), ..o })
}

fn exec_lds_rn_mach(ctx: &mut Sh4Ctx, op: u16) -> (out: ExecOutcome)
    requires
        old(ctx).wf(),
    ensures
        final(ctx).wf(),
        final(ctx).remaining_cycles == old(ctx).remaining_cycles,
        post_lds_rn_mach(*old(ctx), *final(ctx), op, out),
{
    let n = GetN(op);
    let v = with_mac_h_exec(ctx.mac, ctx.r[n]);
    ctx.mac = v;
    ExecOutcome::Done
}

/// What `lds <REG_N>,MACL` does.
pub open spec fn post_lds_rn_macl(o: Sh4Ctx, c: Sh4Ctx, op: u16, out: ExecOutcome) -> bool {
    let ni = field_n(op);
    let mi = field_m(op);
    let rn = o.r[ni];
    let rm = o.r[mi];
    out == ExecOutcome::Done && c == (Sh4Ctx { mac: with_mac_l(o.mac, rn), ..o })
}

fn exec_lds_rn_macl(ctx: &mut Sh4Ctx, op: u16) -> (out: ExecOutcome)
    requires
        old(ctx).wf(),
    ensures
        final(ctx).wf(),
        final(ctx).remaining_cycles == old(ctx).remaining_cycles,
        post_lds_rn_macl(*old(ctx), *final(ctx), op, out),
{
    let n = GetN(op);
    let v = with_mac_l_exec(ctx.mac, ctx.r[n]);
    ctx.mac = v;
    ExecOutcome::Done
}

/// What `lds <REG_N>,PR` does.
pub open spec fn post_lds_rn_pr(o: Sh4Ctx, c: Sh4Ctx, op: u16, out: ExecOutcome) -> bool {
    let ni = field_n(op);
    let mi = field_m(op);
    let rn = o.r[ni];
    let rm = o.r[mi];
    out == ExecOutcome::Done && c == (Sh4Ctx { pr: rn, ..o })
}

fn exec_lds_rn_pr(ctx: &mut Sh4Ctx, op: u16) -> (out: ExecOutcome)
    requires
        old(ctx).wf(),
    ensures
        final(ctx).wf(),
        final(ctx).remaining_cycles == old(ctx).remaining_cycles,
        post_lds_rn_pr(*old(ctx), *final(ctx), op, out),
{
    let n = GetN(op);
    let v = ctx.r[n];
    ctx.pr = v;
    ExecOutcome::Done
}

/// What `lds <REG_N>,FPSCR` does.
pub open spec fn post_lds_rn_fpscr(o: Sh4Ctx, c: Sh4Ctx, op: u16, out: ExecOutcome) -> bool {
    let ni = field_n(op);
    let mi = field_m(op);
    let rn = o.r[ni];
    let rm = o.r[mi];
    out == ExecOutcome::Fpscr(fpscr_effects(o.fpscr.0, rn)) && c.fpscr.0 == rn
        && fpu_banks_after(o.fpscr.0, rn, o, c)
        && c == (Sh4Ctx { fpscr: c.fpscr, fr: c.fr, xf: c.xf, ..o })
}

fn exec_lds_rn_fpscr(ctx: &mut Sh4Ctx, op: u16) -> (out: ExecOutcome)
    requires
        old(ctx).wf(),
    ensures
        final(ctx).wf(),
        final(ctx).remaining_cycles == old(ctx).remaining_cycles,
        post_lds_rn_fpscr(*old(ctx), *final(ctx), op, out),
{
    let n = GetN(op);
    let v = ctx.r[n];
    let mut f = ctx.fpscr.0;
    let eff = sh4_store_fpscr(&mut f, v, &mut ctx.fr, &mut ctx.xf);
    ctx.fpscr = FpscrReg(f);
    ExecOutcome::Fpscr(eff)
}

/// What `ldc <REG_N>,DBR` does.
pub open spec fn post_ldc_rn_dbr(o: Sh4Ctx, c: Sh4Ctx, op: u16, out: ExecOutcome) -> bool {
    let ni = field_n(op);
    let mi = field_m(op);
    let rn = o.r[ni];
    let rm = o.r[mi];
    out == ExecOutcome::Done && c == (Sh4Ctx { dbr: rn, ..o })
}

fn exec_ldc_rn_dbr(ctx: &mut Sh4Ctx, op: u16) -> (out: ExecOutcome)
    requires
        old(ctx).wf(),
    ensures
        final(ctx).wf(),
        final(ctx).remaining_cycles == old(ctx).remaining_cycles,
        post_ldc_rn_dbr(*old(ctx), *final(ctx), op, out),
{
    let n = GetN(op);
    let v = ctx.r[n];
    ctx.dbr = v;
    ExecOutcome::Done
}

/// What `ldc <REG_N>,SR` does.
pub open spec fn post_ldc_rn_sr(o: Sh4Ctx, c: Sh4Ctx, op: u16, out: ExecOutcome) -> bool {
    let ni = field_n(op);
    let mi = field_m(op);
    let rn = o.r[ni];
    let rm = o.r[mi];
    out == ExecOutcome::Done && c.sr_t == (rn & 1) && c.sr.0 == spec_sr_rest(rn)
        && banks_after(o.sr.0, spec_sr_rest(rn), o.r@, o.r_bank@, c)
        && c == (Sh4Ctx { sr_t: c.sr_t, sr: c.sr, r: c.r, r_bank: c.r_bank, ..o })
}

fn exec_ldc_rn_sr(ctx: &mut Sh4Ctx, op: u16) -> (out: ExecOutcome)
    requires
        old(ctx).wf(),
    ensures
        final(ctx).wf(),
        final(ctx).remaining_cycles == old(ctx).remaining_cycles,
        post_ldc_rn_sr(*old(ctx), *final(ctx), op, out),
{
    let n = GetN(op);
    let v = ctx.r[n];
    let mut t: u32 = 0;
    sh4_andi(&mut t, v, 1);
    proof { lemma_mask_u32(v); }
    ctx.sr_t = t;
    let mut s = ctx.sr.0;
    sh4_store_sr_rest(&mut s, v, &mut ctx.r, &mut ctx.r_bank);
    ctx.sr = SrStatus(s);
    ExecOutcome::Done
}

/// What `ldc <REG_N>,GBR` does.
pub open spec fn post_ldc_rn_gbr(o: Sh4Ctx, c: Sh4Ctx, op: u16, out: ExecOutcome) -> bool {
    let ni = field_n(op);
    let mi = field_m(op);
    let rn = o.r[ni];
    let rm = o.r[mi];
    out == ExecOutcome::Done && c == (Sh4Ctx { gbr: rn, ..o })
}

fn exec_ldc_rn_gbr(ctx: &mut Sh4Ctx, op: u16) -> (out: ExecOutcome)
    requires
        old(ctx).wf(),
    ensures
        final(ctx).wf(),
        final(ctx).remaining_cycles == old(ctx).remaining_cycles,
        post_ldc_rn_gbr(*old(ctx), *final(ctx), op, out),
{
    let n = GetN(op);
    let v = ctx.r[n];
    ctx.gbr = v;
    ExecOutcome::Done
}

/// What `ldc <REG_N>,VBR` does.
pub open spec fn post_ldc_rn_vbr(o: Sh4Ctx, c: Sh4Ctx, op: u16, out: ExecOutcome) -> bool {
    let ni = field_n(op);
    let mi = field_m(op);
    let rn = o.r[ni];
    let rm = o.r[mi];
    out == ExecOutcome::Done && c == (Sh4Ctx { vbr: rn, ..o })
}

fn exec_ldc_rn_vbr(ctx: &mut Sh4Ctx, op: u16) -> (out: ExecOutcome)
    requires
        old(ctx).wf(),
    ensures
        final(ctx).wf(),
        final(ctx).remaining_cycles == old(ctx).remaining_cycles,
        post_ldc_rn_vbr(*old(ctx), *final(ctx), op, out),
{
    let n = GetN(op);
    let v = ctx.r[n];
    ctx.vbr = v;
    ExecOutcome::Done
}

/// What `ldc <REG_N>,SSR` does.
pub open spec fn post_ldc_rn_ssr(o: Sh4Ctx, c: Sh4Ctx, op: u16, out: ExecOutcome) -> bool {
    let ni = field_n(op);
    let mi = field_m(op);
    let rn = o.r[ni];
    let rm = o.r[mi];
    out == ExecOutcome::Done && c == (Sh4Ctx { ssr: rn, ..o })
}

fn exec_ldc_rn_ssr(ctx: &mut Sh4Ctx, op: u16) -> (out: ExecOutcome)
    requires
        old(ctx).wf(),
    ensures
        final(ctx).wf(),
        final(ctx).remaining_cycles == old(ctx).remaining_cycles,
        post_ldc_rn_ssr(*old(ctx), *final(ctx), op, out),
{
    let n = GetN(op);
    let v = ctx.r[n];
    ctx.ssr = v;
    ExecOutcome::Done
}

/// What `ldc <REG_N>,SPC` does.
pub open spec fn post_ldc_rn_spc(o: Sh4Ctx, c: Sh4Ctx, op: u16, out: ExecOutcome) -> bool {
    let ni = field_n(op);
    let mi = field_m(op);
    let rn = o.r[ni];
    let rm = o.r[mi];
    out == ExecOutcome::Done && c == (Sh4Ctx { spc: rn, ..o })
}

fn exec_ldc_rn_spc(ctx: &mut Sh4Ctx, op: u16) -> (out: ExecOutcome)
    requires
        old(ctx).wf(),
    ensures
        final(ctx).wf(),
        final(ctx).remaining_cycles == old(ctx).remaining_cycles,
        post_ldc_rn_spc(*old(ctx), *final(ctx), op, out),
{
    let n = GetN(op);
    let v = ctx.r[n];
    ctx.spc = v;
    ExecOutcome::Done
}

/// What `ldc <REG_N>,<RM_BANK>` does.
pub open spec fn post_ldc_rn_rm_bank(o: Sh4Ctx, c: Sh4Ctx, op: u16, out: ExecOutcome) -> bool {
    let ni = field_n(op);
    let mi = field_m(op);
    let rn = o.r[ni];
    let rm = o.r[mi];
    out == ExecOutcome::Done && c.r_bank@ == o.r_bank@.update(mi % 8, rn) && c == (Sh4Ctx { r_bank: c.r_bank, ..o })
}

fn exec_ldc_rn_rm_bank(ctx: &mut Sh4Ctx, op: u16) -> (out: ExecOutcome)
    requires
        old(ctx).wf(),
    ensures
        final(ctx).wf(),
        final(ctx).remaining_cycles == old(ctx).remaining_cycles,
        post_ldc_rn_rm_bank(*old(ctx), *final(ctx), op, out),
{
    let n = GetN(op);
    let m = GetM(op);
    let v = ctx.r[n];
    ctx.r_bank[m % 8] = v;
    ExecOutcome::Done
}

/// What `shll <REG_N>` does.
pub open spec fn post_shll_rn(o: Sh4Ctx, c: Sh4Ctx, op: u16, out: ExecOutcome) -> bool {
    let ni = field_n(op);
    let mi = field_m(op);
    let rn = o.r[ni];
    let rm = o.r[mi];
    out == ExecOutcome::Done && only_r_t(o, c, ni, rn << 1u32, rn >> 31u32)
}

fn exec_shll_rn(ctx: &mut Sh4Ctx, op: u16) -> (out: ExecOutcome)
    requires
        old(ctx).wf(),
    ensures
        final(ctx).wf(),
        final(ctx).remaining_cycles == old(ctx).remaining_cycles,
        post_shll_rn(*old(ctx), *final(ctx), op, out),
{
    let n = GetN(op);
    let mut t: u32 = ctx.sr_t;
    let mut d: u32 = ctx.r[n];
    let a = ctx.r[n];
    sh4_shll(&mut t, &mut d, a);
    proof { lemma_mask_u32(a); }
    ctx.r[n] = d;
    ctx.sr_t = t;
    ExecOutcome::Done
}

/// What `shal <REG_N>` does.
pub open spec fn post_shal_rn(o: Sh4Ctx, c: Sh4Ctx, op: u16, out: ExecOutcome) -> bool {
    let ni = field_n(op);
    let mi = field_m(op);
    let rn = o.r[ni];
    let rm = o.r[mi];
    out == ExecOutcome::Done && only_r_t(o, c, ni, rn << 1u32, rn >> 31u32)
}

fn exec_shal_rn(ctx: &mut Sh4Ctx, op: u16) -> (out: ExecOutcome)
    requires
        old(ctx).wf(),
    ensures
        final(ctx).wf(),
        final(ctx).remaining_cycles == old(ctx).remaining_cycles,
        post_shal_rn(*old(ctx), *final(ctx), op, out),
{
    let n = GetN(op);
    let mut t: u32 = ctx.sr_t;
    let mut d: u32 = ctx.r[n];
    let a = ctx.r[n];
    sh4_shal(&mut t, &mut d, a);
    proof { lemma_mask_u32(a); }
    ctx.r[n] = d;
    ctx.sr_t = t;
    ExecOutcome::Done
}

/// What `cmp/pz <REG_N>` does.
pub open spec fn post_cmp_pz_rn(o: Sh4Ctx, c: Sh4Ctx, op: u16, out: ExecOutcome) -> bool {
    let ni = field_n(op);
    let mi = field_m(op);
    let rn = o.r[ni];
    let rm = o.r[mi];
    out == ExecOutcome::Done && only_t(o, c, flag(signed32(rn) >= 0))
}

fn exec_cmp_pz_rn(ctx: &mut Sh4Ctx, op: u16) -> (out: ExecOutcome)
    requires
        old(ctx).wf(),
    ensures
        final(ctx).wf(),
        final(ctx).remaining_cycles == old(ctx).remaining_cycles,
        post_cmp_pz_rn(*old(ctx), *final(ctx), op, out),
{
    let n = GetN(op);
    let mut t: u32 = ctx.sr_t;
    sh4_cmp_pz(&mut t, ctx.r[n]);
    ctx.sr_t = t;
    ExecOutcome::Done
}

/// What `shar <REG_N>` does.
pub open spec fn post_shar_rn(o: Sh4Ctx, c: Sh4Ctx, op: u16, out: ExecOutcome) -> bool {
    let ni = field_n(op);
    let mi = field_m(op);
    let rn = o.r[ni];
    let rm = o.r[mi];
    out == ExecOutcome::Done && only_r_t(o, c, ni, wrap32(signed32(rn) / 2), rn % 2)
}

fn exec_shar_rn(ctx: &mut Sh4Ctx, op: u16) -> (out: ExecOutcome)
    requires
        old(ctx).wf(),
    ensures
        final(ctx).wf(),
        final(ctx).remaining_cycles == old(ctx).remaining_cycles,
        post_shar_rn(*old(ctx), *final(ctx), op, out),
{
    let n = GetN(op);
    let mut t: u32 = ctx.sr_t;
    let mut d: u32 = ctx.r[n];
    let a = ctx.r[n];
    sh4_shar(&mut t, &mut d, a);
    
    ctx.r[n] = d;
    ctx.sr_t = t;
    ExecOutcome::Done
}

/// What `rotcl <REG_N>` does.
pub open spec fn post_rotcl_rn(o: Sh4Ctx, c: Sh4Ctx, op: u16, out: ExecOutcome) -> bool {
    let ni = field_n(op);
    let mi = field_m(op);
    let rn = o.r[ni];
    let rm = o.r[mi];
    out == ExecOutcome::Done && only_r_t(o, c, ni, (rn << 1u32) | o.sr_t, rn >> 31u32)
}

fn exec_rotcl_rn(ctx: &mut Sh4Ctx, op: u16) -> (out: ExecOutcome)
    requires
        old(ctx).wf(),
    ensures
        final(ctx).wf(),
        final(ctx).remaining_cycles == old(ctx).remaining_cycles,
        post_rotcl_rn(*old(ctx), *final(ctx), op, out),
{
    let n = GetN(op);
    let mut t: u32 = ctx.sr_t;
    let mut d: u32 = ctx.r[n];
    let a = ctx.r[n];
    sh4_rotcl(&mut t, &mut d, a);
    proof { lemma_mask_u32(a); }
    ctx.r[n] = d;
    ctx.sr_t = t;
    ExecOutcome::Done
}

/// What `rotl <REG_N>` does.
pub open spec fn post_rotl_rn(o: Sh4Ctx, c: Sh4Ctx, op: u16, out: ExecOutcome) -> bool {
    let ni = field_n(op);
    let mi = field_m(op);
    let rn = o.r[ni];
    let rm = o.r[mi];
    out == ExecOutcome::Done && only_r_t(o, c, ni, (rn << 1u32) | (rn >> 31u32), rn >> 31u32)
}

fn exec_rotl_rn(ctx: &mut Sh4Ctx, op: u16) -> (out: ExecOutcome)
    requires
        old(ctx).wf(),
    ensures
        final(ctx).wf(),
        final(ctx).remaining_cycles == old(ctx).remaining_cycles,
        post_rotl_rn(*old(ctx), *final(ctx), op, out),
{
    let n = GetN(op);
    let mut t: u32 = ctx.sr_t;
    let mut d: u32 = ctx.r[n];
    let a = ctx.r[n];
    sh4_rotl(&mut t, &mut d, a);
    proof { lemma_mask_u32(a); }
    ctx.r[n] = d;
    ctx.sr_t = t;
    ExecOutcome::Done
}

/// What `cmp/pl <REG_N>` does.
pub open spec fn post_cmp_pl_rn(o: Sh4Ctx, c: Sh4Ctx, op: u16, out: ExecOutcome) -> bool {
    let ni = field_n(op);
    let mi = field_m(op);
    let rn = o.r[ni];
    let rm = o.r[mi];
    out == ExecOutcome::Done && only_t(o, c, flag(signed32(rn) > 0))
}

fn exec_cmp_pl_rn(ctx: &mut Sh4Ctx, op: u16) -> (out: ExecOutcome)
    requires
        old(ctx).wf(),
    ensures
        final(ctx).wf(),
        final(ctx).remaining_cycles == old(ctx).remaining_cycles,
        post_cmp_pl_rn(*old(ctx), *final(ctx), op, out),
{
    let n = GetN(op);
    let mut t: u32 = ctx.sr_t;
    sh4_cmp_pl(&mut t, ctx.r[n]);
    ctx.sr_t = t;
    ExecOutcome::Done
}

/// What `rotcr <REG_N>` does.
pub open spec fn post_rotcr_rn(o: Sh4Ctx, c: Sh4Ctx, op: u16, out: ExecOutcome) -> bool {
    let ni = field_n(op);
    let mi = field_m(op);
    let rn = o.r[ni];
    let rm = o.r[mi];
    out == ExecOutcome::Done && only_r_t(o, c, ni, (rn >> 1u32) | (o.sr_t << 31u32), rn & 1)
}

fn exec_rotcr_rn(ctx: &mut Sh4Ctx, op: u16) -> (out: ExecOutcome)
    requires
        old(ctx).wf(),
    ensures
        final(ctx).wf(),
        final(ctx).remaining_cycles == old(ctx).remaining_cycles,
        post_rotcr_rn(*old(ctx), *final(ctx), op, out),
{
    let n = GetN(op);
    let mut t: u32 = ctx.sr_t;
    let mut d: u32 = ctx.r[n];
    let a = ctx.r[n];
    sh4_rotcr(&mut t, &mut d, a);
    proof { lemma_mask_u32(a); }
    ctx.r[n] = d;
    ctx.sr_t = t;
    ExecOutcome::Done
}

/// What `rotr <REG_N>` does.
pub open spec fn post_rotr_rn(o: Sh4Ctx, c: Sh4Ctx, op: u16, out: ExecOutcome) -> bool {
    let ni = field_n(op);
    let mi = field_m(op);
    let rn = o.r[ni];
    let rm = o.r[mi];
    out == ExecOutcome::Done && only_r_t(o, c, ni, (rn >> 1u32) | ((rn & 1) << 31u32), rn & 1)
}

fn exec_rotr_rn(ctx: &mut Sh4Ctx, op: u16) -> (out: ExecOutcome)
    requires
        old(ctx).wf(),
    ensures
        final(ctx).wf(),
        final(ctx).remaining_cycles == old(ctx).remaining_cycles,
        post_rotr_rn(*old(ctx), *final(ctx), op, out),
{
    let n = GetN(op);
    let mut t: u32 = ctx.sr_t;
    let mut d: u32 = ctx.r[n];
    let a = ctx.r[n];
    sh4_rotr(&mut t, &mut d, a);
    proof { lemma_mask_u32(a); }
    ctx.r[n] = d;
    ctx.sr_t = t;
    ExecOutcome::Done
}

/// What `shll2 <REG_N>` does.
pub open spec fn post_shll2_rn(o: Sh4Ctx, c: Sh4Ctx, op: u16, out: ExecOutcome) -> bool {
    let ni = field_n(op);
    let mi = field_m(op);
    let rn = o.r[ni];
    let rm = o.r[mi];
    out == ExecOutcome::Done && only_r(o, c, ni, rn << 2u32)
}

fn exec_shll2_rn(ctx: &mut Sh4Ctx, op: u16) -> (out: ExecOutcome)
    requires
        old(ctx).wf(),
    ensures
        final(ctx).wf(),
        final(ctx).remaining_cycles == old(ctx).remaining_cycles,
        post_shll2_rn(*old(ctx), *final(ctx), op, out),
{
    let n = GetN(op);
    let a = ctx.r[n];
    let mut d: u32 = 0;
    sh4_shllf(&mut d, a, 2);
    ctx.r[n] = d;
    ExecOutcome::Done
}

/// What `shll16 <REG_N>` does.
pub open spec fn post_shll16_rn(o: Sh4Ctx, c: Sh4Ctx, op: u16, out: ExecOutcome) -> bool {
    let ni = field_n(op);
    let mi = field_m(op);
    let rn = o.r[ni];
    let rm = o.r[mi];
    out == ExecOutcome::Done && only_r(o, c, ni, rn << 16u32)
}

fn exec_shll16_rn(ctx: &mut Sh4Ctx, op: u16) -> (out: ExecOutcome)
    requires
        old(ctx).wf(),
    ensures
        final(ctx).wf(),
        final(ctx).remaining_cycles == old(ctx).remaining_cycles,
        post_shll16_rn(*old(ctx), *final(ctx), op, out),
{
    let n = GetN(op);
    let a = ctx.r[n];
    let mut d: u32 = 0;
    sh4_shllf(&mut d, a, 16);
    ctx.r[n] = d;
    ExecOutcome::Done
}

/// What `shlr8 <REG_N>` does.
pub open spec fn post_shlr8_rn(o: Sh4Ctx, c: Sh4Ctx, op: u16, out: ExecOutcome) -> bool {
    let ni = field_n(op);
    let mi = field_m(op);
    let rn = o.r[ni];
    let rm = o.r[mi];
    out == ExecOutcome::Done && only_r(o, c, ni, rn >> 8u32)
}

fn exec_shlr8_rn(ctx: &mut Sh4Ctx, op: u16) -> (out: ExecOutcome)
    requires
        old(ctx).wf(),
    ensures
        final(ctx).wf(),
        final(ctx).remaining_cycles == old(ctx).remaining_cycles,
        post_shlr8_rn(*old(ctx), *final(ctx), op, out),
{
    let n = GetN(op);
    let a = ctx.r[n];
    let mut d: u32 = 0;
    sh4_shlrf(&mut d, a, 8);
    ctx.r[n] = d;
    ExecOutcome::Done
}

/// What `jmp @<REG_N>` does.
pub open spec fn post_jmp_at_rn(o: Sh4Ctx, c: Sh4Ctx, op: u16, out: ExecOutcome) -> bool {
    let ni = field_n(op);
    let mi = field_m(op);
    let rn = o.r[ni];
    let rm = o.r[mi];
    out == ExecOutcome::Done && c == (Sh4Ctx { pc2: rn, is_delayslot1: 1, ..o })
}

fn exec_jmp_at_rn(ctx: &mut Sh4Ctx, op: u16) -> (out: ExecOutcome)
    requires
        old(ctx).wf(),
    ensures
        final(ctx).wf(),
        final(ctx).remaining_cycles == old(ctx).remaining_cycles,
        post_jmp_at_rn(*old(ctx), *final(ctx), op, out),
{
    let n = GetN(op);
    let s = ctx.r[n];
    sh4_jmp(ctx, s);
    ExecOutcome::Done
}

/// What `jsr @<REG_N>` does.
pub open spec fn post_jsr_at_rn(o: Sh4Ctx, c: Sh4Ctx, op: u16, out: ExecOutcome) -> bool {
    let ni = field_n(op);
    let mi = field_m(op);
    let rn = o.r[ni];
    let rm = o.r[mi];
    out == ExecOutcome::Done && c == (Sh4Ctx { pr: o.pc0.wrapping_add(4), pc2: rn, is_delayslot1: 1, ..o })
}

fn exec_jsr_at_rn(ctx: &mut Sh4Ctx, op: u16) -> (out: ExecOutcome)
    requires
        old(ctx).wf(),
    ensures
        final(ctx).wf(),
        final(ctx).remaining_cycles == old(ctx).remaining_cycles,
        post_jsr_at_rn(*old(ctx), *final(ctx), op, out),
{
    let n = GetN(op);
    let next_pc = ctx.pc0.wrapping_add(4);
    let s = ctx.r[n];
    sh4_jsr(ctx, s, next_pc);
    ExecOutcome::Done
}

/// What `tas.b @<REG_N>` does.
pub open spec fn post_tas_b_at_rn(o: Sh4Ctx, c: Sh4Ctx, op: u16, out: ExecOutcome) -> bool {
    let ni = field_n(op);
    let mi = field_m(op);
    let rn = o.r[ni];
    let rm = o.r[mi];
    match spec_read_mem(o, rn, 1) {
        Some(v) => if spec_write_ok(o, rn, 1) {
            &&& out == ExecOutcome::Done
            &&& c.sr_t == flag(v % 0x100 == 0)
            &&& mem_written(o, Sh4Ctx { sr_t: o.sr_t, ..c }, rn, 1, (((v % 0x100) as u8) | 0x80) as u64)
        } else {
            out == ExecOutcome::Fault && c == o
        },
        None => out == ExecOutcome::Fault && c == o,
    }
}

fn exec_tas_b_at_rn(ctx: &mut Sh4Ctx, op: u16) -> (out: ExecOutcome)
    requires
        old(ctx).wf(),
    ensures
        final(ctx).wf(),
        final(ctx).remaining_cycles == old(ctx).remaining_cycles,
        post_tas_b_at_rn(*old(ctx), *final(ctx), op, out),
{
    let n = GetN(op);
    let a = ctx.r[n];
    match sh4_tas(ctx, a) {
        Some(t) => {
            ctx.sr_t = t;
            ExecOutcome::Done
        },
        None => ExecOutcome::Fault,
    }
}

/// What `shad <REG_M>,<REG_N>` does.
pub open spec fn post_shad_rm_rn(o: Sh4Ctx, c: Sh4Ctx, op: u16, out: ExecOutcome) -> bool {
    let ni = field_n(op);
    let mi = field_m(op);
    let rn = o.r[ni];
    let rm = o.r[mi];
    out == ExecOutcome::Done && only_r(o, c, ni, spec_shad(rn, rm))
}

fn exec_shad_rm_rn(ctx: &mut Sh4Ctx, op: u16) -> (out: ExecOutcome)
    requires
        old(ctx).wf(),
    ensures
        final(ctx).wf(),
        final(ctx).remaining_cycles == old(ctx).remaining_cycles,
        post_shad_rm_rn(*old(ctx), *final(ctx), op, out),
{
    let n = GetN(op);
    let m = GetM(op);
    let a = ctx.r[n];
    let b = ctx.r[m];
    let mut d: u32 = 0;
    sh4_shad(&mut d, a, b);
    ctx.r[n] = d;
    ExecOutcome::Done
}

/// What `shld <REG_M>,<REG_N>` does.
pub open spec fn post_shld_rm_rn(o: Sh4Ctx, c: Sh4Ctx, op: u16, out: ExecOutcome) -> bool {
    let ni = field_n(op);
    let mi = field_m(op);
    let rn = o.r[ni];
    let rm = o.r[mi];
    out == ExecOutcome::Done && only_r(o, c, ni, spec_shld(rn, rm))
}

fn exec_shld_rm_rn(ctx: &mut Sh4Ctx, op: u16) -> (out: ExecOutcome)
    requires
        old(ctx).wf(),
    ensures
        final(ctx).wf(),
        final(ctx).remaining_cycles == old(ctx).remaining_cycles,
        post_shld_rm_rn(*old(ctx), *final(ctx), op, out),
{
    let n = GetN(op);
    let m = GetM(op);
    let a = ctx.r[n];
    let b = ctx.r[m];
    let mut d: u32 = 0;
    sh4_shld(&mut d, a, b);
    ctx.r[n] = d;
    ExecOutcome::Done
}

/// What `mac.w @<REG_M>+,@<REG_N>+` does.
pub open spec fn post_mac_w_at_rm_post_inc_at_rn_post_inc(o: Sh4Ctx, c: Sh4Ctx, op: u16, out: ExecOutcome) -> bool {
    let ni = field_n(op);
    let mi = field_m(op);
    let rn = o.r[ni];
    let rm = o.r[mi];
    ({
        let b = if ni == mi { rn.wrapping_add(2) } else { rm };
        match (spec_read_mem(o, rn, 2), spec_read_mem(o, b, 2)) {
            (Some(v0), Some(v1)) => {
                let t0 = sext_read(v0, 2);
                let t1 = sext_read(v1, 2);
                &&& out == ExecOutcome::Done
                &&& c.temp@ == o.temp@.update(0, t0).update(1, t1)
                &&& c.mac == wrap64(o.mac + signed32(t0) * signed32(t1))
                &&& c.r@ == (if ni == mi { o.r@.update(ni, wrap32(rn + 2)) } else { o.r@.update(ni, wrap32(rn + 2)).update(mi, wrap32(rm + 2)) })
                &&& c == (Sh4Ctx { temp: c.temp, mac: c.mac, r: c.r, ..o })
            },
            _ => out == ExecOutcome::Fault && c == o,
        }
    })
}

fn exec_mac_w_at_rm_post_inc_at_rn_post_inc(ctx: &mut Sh4Ctx, op: u16) -> (out: ExecOutcome)
    requires
        old(ctx).wf(),
    ensures
        final(ctx).wf(),
        final(ctx).remaining_cycles == old(ctx).remaining_cycles,
        post_mac_w_at_rm_post_inc_at_rn_post_inc(*old(ctx), *final(ctx), op, out),
{
    let n = GetN(op);
    let m = GetM(op);
    let a = ctx.r[n];
    let b = if n == m { a.wrapping_add(2) } else { ctx.r[m] };
    let t0 = match sh4_read_mems16(ctx, a) { Some(v) => v, None => { return ExecOutcome::Fault; } };
    let t1 = match sh4_read_mems16(ctx, b) { Some(v) => v, None => { return ExecOutcome::Fault; } };
    proof {
        lemma_sext_read16(spec_read_mem(*ctx, a, 2).unwrap());
        lemma_sext_read16(spec_read_mem(*ctx, b, 2).unwrap());
        let s0 = signed32(t0);
        let s1 = signed32(t1);
        assert(-0x8000_0000 <= s0 * s1 < 0x8000_0000) by (nonlinear_arith)
            requires -0x8000 <= s0 < 0x8000, -0x8000 <= s1 < 0x8000;
    }
    ctx.temp[0] = t0;
    ctx.temp[1] = t1;
    let mut mac = ctx.mac;
    sh4_mac_w_mul(&mut mac, t0, t1);
    ctx.mac = mac;
    if n == m {
        let mut nv: u32 = 0;
        sh4_addi(&mut nv, a, 2);
        ctx.r[n] = nv;
    } else {
        let mut nv: u32 = 0;
        sh4_addi(&mut nv, a, 2);
        ctx.r[n] = nv;
        let rm0 = ctx.r[m];
        let mut mv: u32 = 0;
        sh4_addi(&mut mv, rm0, 2);
        ctx.r[m] = mv;
    }
    ExecOutcome::Done
}

/// What `mov.l @(<disp4dw>,<REG_M>),<REG_N>` does.
pub open spec fn post_mov_l_at_disp_rm_rn(o: Sh4Ctx, c: Sh4Ctx, op: u16, out: ExecOutcome) -> bool {
    let ni = field_n(op);
    let mi = field_m(op);
    let rn = o.r[ni];
    let rm = o.r[mi];
    match spec_read_mem(o, rm.wrapping_add(((op % 16) * 4) as u32), 4) {
        Some(v) => out == ExecOutcome::Done && only_r(o, c, ni, (v % 0x1_0000_0000) as u32),
        None => out == ExecOutcome::Fault && c == o,
    }
}

fn exec_mov_l_at_disp_rm_rn(ctx: &mut Sh4Ctx, op: u16) -> (out: ExecOutcome)
    requires
        old(ctx).wf(),
    ensures
        final(ctx).wf(),
        final(ctx).remaining_cycles == old(ctx).remaining_cycles,
        post_mov_l_at_disp_rm_rn(*old(ctx), *final(ctx), op, out),
{
    let n = GetN(op);
    let m = GetM(op);
    let a = ctx.r[m].wrapping_add(GetImm4(op) * 4);
    match sh4_read_mem32(ctx, a) {
        Some(v) => {
            ctx.r[n] = v;
            ExecOutcome::Done
        },
        None => ExecOutcome::Fault,
    }
}

/// What `mov.w @<REG_M>,<REG_N>` does.
pub open spec fn post_mov_w_at_rm_rn(o: Sh4Ctx, c: Sh4Ctx, op: u16, out: ExecOutcome) -> bool {
    let ni = field_n(op);
    let mi = field_m(op);
    let rn = o.r[ni];
    let rm = o.r[mi];
    match spec_read_mem(o, rm, 2) {
        Some(v) => out == ExecOutcome::Done && only_r(o, c, ni, sext_read(v, 2)),
        None => out == ExecOutcome::Fault && c == o,
    }
}

fn exec_mov_w_at_rm_rn(ctx: &mut Sh4Ctx, op: u16) -> (out: ExecOutcome)
    requires
        old(ctx).wf(),
    ensures
        final(ctx).wf(),
        final(ctx).remaining_cycles == old(ctx).remaining_cycles,
        post_mov_w_at_rm_rn(*old(ctx), *final(ctx), op, out),
{
    let n = GetN(op);
    let m = GetM(op);
    let a = ctx.r[m];
    match sh4_read_mems16(ctx, a) {
        Some(v) => {
            ctx.r[n] = v;
            ExecOutcome::Done
        },
        None => ExecOutcome::Fault,
    }
}

/// What `mov.l @<REG_M>,<REG_N>` does.
pub open spec fn post_mov_l_at_rm_rn(o: Sh4Ctx, c: Sh4Ctx, op: u16, out: ExecOutcome) -> bool {
    let ni = field_n(op);
    let mi = field_m(op);
    let rn = o.r[ni];
    let rm = o.r[mi];
    match spec_read_mem(o, rm, 4) {
        Some(v) => out == ExecOutcome::Done && only_r(o, c, ni, (v % 0x1_0000_0000) as u32),
        None => out == ExecOutcome::Fault && c == o,
    }
}

fn exec_mov_l_at_rm_rn(ctx: &mut Sh4Ctx, op: u16) -> (out: ExecOutcome)
    requires
        old(ctx).wf(),
    ensures
        final(ctx).wf(),
        final(ctx).remaining_cycles == old(ctx).remaining_cycles,
        post_mov_l_at_rm_rn(*old(ctx), *final(ctx), op, out),
{
    let n = GetN(op);
    let m = GetM(op);
    let a = ctx.r[m];
    match sh4_read_mem32(ctx, a) {
        Some(v) => {
            ctx.r[n] = v;
            ExecOutcome::Done
        },
        None => ExecOutcome::Fault,
    }
}

/// What `mov.b @<REG_M>+,<REG_N>` does.
pub open spec fn post_mov_b_at_rm_post_inc_rn(o: Sh4Ctx, c: Sh4Ctx, op: u16, out: ExecOutcome) -> bool {
    let ni = field_n(op);
    let mi = field_m(op);
    let rn = o.r[ni];
    let rm = o.r[mi];
    match spec_read_mem(o, rm, 1) {
        Some(v) => out == ExecOutcome::Done && c == (Sh4Ctx { r: c.r, ..o })
            && c.r@ == (if ni != mi {
                o.r@.update(ni, sext_read(v, 1)).update(mi, wrap32(rm + 1))
            } else {
                o.r@.update(ni, sext_read(v, 1))
            }),
        None => out == ExecOutcome::Fault && c == o,
    }
}

fn exec_mov_b_at_rm_post_inc_rn(ctx: &mut Sh4Ctx, op: u16) -> (out: ExecOutcome)
    requires
        old(ctx).wf(),
    ensures
        final(ctx).wf(),
        final(ctx).remaining_cycles == old(ctx).remaining_cycles,
        post_mov_b_at_rm_post_inc_rn(*old(ctx), *final(ctx), op, out),
{
    let n = GetN(op);
    let m = GetM(op);
    let a = ctx.r[m];
    match sh4_read_mems8(ctx, a) {
        Some(v) => {
            ctx.r[n] = v;
            if n != m {
                let mut nv: u32 = 0;
                sh4_addi(&mut nv, a, 1);
                ctx.r[m] = nv;
            }
            ExecOutcome::Done
        },
        None => ExecOutcome::Fault,
    }
}

/// What `mov.w @<REG_M>+,<REG_N>` does.
pub open spec fn post_mov_w_at_rm_post_inc_rn(o: Sh4Ctx, c: Sh4Ctx, op: u16, out: ExecOutcome) -> bool {
    let ni = field_n(op);
    let mi = field_m(op);
    let rn = o.r[ni];
    let rm = o.r[mi];
    match spec_read_mem(o, rm, 2) {
        Some(v) => out == ExecOutcome::Done && c == (Sh4Ctx { r: c.r, ..o })
            && c.r@ == (if ni != mi {
                o.r@.update(ni, sext_read(v, 2)).update(mi, wrap32(rm + 2))
            } else {
                o.r@.update(ni, sext_read(v, 2))
            }),
        None => out == ExecOutcome::Fault && c == o,
    }
}

fn exec_mov_w_at_rm_post_inc_rn(ctx: &mut Sh4Ctx, op: u16) -> (out: ExecOutcome)
    requires
        old(ctx).wf(),
    ensures
        final(ctx).wf(),
        final(ctx).remaining_cycles == old(ctx).remaining_cycles,
        post_mov_w_at_rm_post_inc_rn(*old(ctx), *final(ctx), op, out),
{
    let n = GetN(op);
    let m = GetM(op);
    let a = ctx.r[m];
    match sh4_read_mems16(ctx, a) {
        Some(v) => {
            ctx.r[n] = v;
            if n != m {
                let mut nv: u32 = 0;
                sh4_addi(&mut nv, a, 2);
                ctx.r[m] = nv;
            }
            ExecOutcome::Done
        },
        None => ExecOutcome::Fault,
    }
}

/// What `mov.l @<REG_M>+,<REG_N>` does.
pub open spec fn post_mov_l_at_rm_post_inc_rn(o: Sh4Ctx, c: Sh4Ctx, op: u16, out: ExecOutcome) -> bool {
    let ni = field_n(op);
    let mi = field_m(op);
    let rn = o.r[ni];
    let rm = o.r[mi];
    match spec_read_mem(o, rm, 4) {
        Some(v) => out == ExecOutcome::Done && c == (Sh4Ctx { r: c.r, ..o })
            && c.r@ == (if ni != mi {
                o.r@.update(ni, (v % 0x1_0000_0000) as u32).update(mi, wrap32(rm + 4))
            } else {
                o.r@.update(ni, (v % 0x1_0000_0000) as u32)
            }),
        None => out == ExecOutcome::Fault && c == o,
    }
}

fn exec_mov_l_at_rm_post_inc_rn(ctx: &mut Sh4Ctx, op: u16) -> (out: ExecOutcome)
    requires
        old(ctx).wf(),
    ensures
        final(ctx).wf(),
        final(ctx).remaining_cycles == old(ctx).remaining_cycles,
        post_mov_l_at_rm_post_inc_rn(*old(ctx), *final(ctx), op, out),
{
    let n = GetN(op);
    let m = GetM(op);
    let a = ctx.r[m];
    match sh4_read_mem32(ctx, a) {
        Some(v) => {
            ctx.r[n] = v;
            if n != m {
                let mut nv: u32 = 0;
                sh4_addi(&mut nv, a, 4);
                ctx.r[m] = nv;
            }
            ExecOutcome::Done
        },
        None => ExecOutcome::Fault,
    }
}

/// What `not <REG_M>,<REG_N>` does.
pub open spec fn post_not_rm_rn(o: Sh4Ctx, c: Sh4Ctx, op: u16, out: ExecOutcome) -> bool {
    let ni = field_n(op);
    let mi = field_m(op);
    let rn = o.r[ni];
    let rm = o.r[mi];
    out == ExecOutcome::Done && only_r(o, c, ni, !rm)
}

fn exec_not_rm_rn(ctx: &mut Sh4Ctx, op: u16) -> (out: ExecOutcome)
    requires
        old(ctx).wf(),
    ensures
        final(ctx).wf(),
        final(ctx).remaining_cycles == old(ctx).remaining_cycles,
        post_not_rm_rn(*old(ctx), *final(ctx), op, out),
{
    let n = GetN(op);
    let m = GetM(op);
    let b = ctx.r[m];
    let mut d: u32 = 0;
    sh4_not(&mut d, b);
    ctx.r[n] = d;
    ExecOutcome::Done
}

/// What `swap.b <REG_M>,<REG_N>` does.
pub open spec fn post_swap_b_rm_rn(o: Sh4Ctx, c: Sh4Ctx, op: u16, out: ExecOutcome) -> bool {
    let ni = field_n(op);
    let mi = field_m(op);
    let rn = o.r[ni];
    let rm = o.r[mi];
    out == ExecOutcome::Done && only_r(o, c, ni, spec_swapb(rm))
}

fn exec_swap_b_rm_rn(ctx: &mut Sh4Ctx, op: u16) -> (out: ExecOutcome)
    requires
        old(ctx).wf(),
    ensures
        final(ctx).wf(),
        final(ctx).remaining_cycles == old(ctx).remaining_cycles,
        post_swap_b_rm_rn(*old(ctx), *final(ctx), op, out),
{
    let n = GetN(op);
    let m = GetM(op);
    let b = ctx.r[m];
    let mut d: u32 = 0;
    sh4_swapb(&mut d, b);
    ctx.r[n] = d;
    ExecOutcome::Done
}

/// What `swap.w <REG_M>,<REG_N>` does.
pub open spec fn post_swap_w_rm_rn(o: Sh4Ctx, c: Sh4Ctx, op: u16, out: ExecOutcome) -> bool {
    let ni = field_n(op);
    let mi = field_m(op);
    let rn = o.r[ni];
    let rm = o.r[mi];
    out == ExecOutcome::Done && only_r(o, c, ni, spec_swapw(rm))
}

fn exec_swap_w_rm_rn(ctx: &mut Sh4Ctx, op: u16) -> (out: ExecOutcome)
    requires
        old(ctx).wf(),
    ensures
        final(ctx).wf(),
        final(ctx).remaining_cycles == old(ctx).remaining_cycles,
        post_swap_w_rm_rn(*old(ctx), *final(ctx), op, out),
{
    let n = GetN(op);
    let m = GetM(op);
    let b = ctx.r[m];
    let mut d: u32 = 0;
    sh4_swapw(&mut d, b);
    ctx.r[n] = d;
    ExecOutcome::Done
}

/// What `negc <REG_M>,<REG_N>` does.
pub open spec fn post_negc_rm_rn(o: Sh4Ctx, c: Sh4Ctx, op: u16, out: ExecOutcome) -> bool {
    let ni = field_n(op);
    let mi = field_m(op);
    let rn = o.r[ni];
    let rm = o.r[mi];
    out == ExecOutcome::Done && only_r_t(o, c, ni, wrap32(0 - rm - o.sr_t), flag(0 - rm - o.sr_t < 0))
}

fn exec_negc_rm_rn(ctx: &mut Sh4Ctx, op: u16) -> (out: ExecOutcome)
    requires
        old(ctx).wf(),
    ensures
        final(ctx).wf(),
        final(ctx).remaining_cycles == old(ctx).remaining_cycles,
        post_negc_rm_rn(*old(ctx), *final(ctx), op, out),
{
    let n = GetN(op);
    let m = GetM(op);
    let mut t: u32 = ctx.sr_t;
    let mut d: u32 = 0;
    let b = ctx.r[m];
    sh4_negc(&mut t, &mut d, b);
    ctx.r[n] = d;
    ctx.sr_t = t;
    ExecOutcome::Done
}

/// What `extu.w <REG_M>,<REG_N>` does.
pub open spec fn post_extu_w_rm_rn(o: Sh4Ctx, c: Sh4Ctx, op: u16, out: ExecOutcome) -> bool {
    let ni = field_n(op);
    let mi = field_m(op);
    let rn = o.r[ni];
    let rm = o.r[mi];
    out == ExecOutcome::Done && only_r(o, c, ni, rm % 0x1_0000)
}

fn exec_extu_w_rm_rn(ctx: &mut Sh4Ctx, op: u16) -> (out: ExecOutcome)
    requires
        old(ctx).wf(),
    ensures
        final(ctx).wf(),
        final(ctx).remaining_cycles == old(ctx).remaining_cycles,
        post_extu_w_rm_rn(*old(ctx), *final(ctx), op, out),
{
    let n = GetN(op);
    let m = GetM(op);
    let b = ctx.r[m];
    let mut d: u32 = 0;
    sh4_extuw(&mut d, b);
    ctx.r[n] = d;
    ExecOutcome::Done
}

/// What `exts.b <REG_M>,<REG_N>` does.
pub open spec fn post_exts_b_rm_rn(o: Sh4Ctx, c: Sh4Ctx, op: u16, out: ExecOutcome) -> bool {
    let ni = field_n(op);
    let mi = field_m(op);
    let rn = o.r[ni];
    let rm = o.r[mi];
    out == ExecOutcome::Done && only_r(o, c, ni, wrap32(signed8(rm)))
}

fn exec_exts_b_rm_rn(ctx: &mut Sh4Ctx, op: u16) -> (out: ExecOutcome)
    requires
        old(ctx).wf(),
    ensures
        final(ctx).wf(),
        final(ctx).remaining_cycles == old(ctx).remaining_cycles,
        post_exts_b_rm_rn(*old(ctx), *final(ctx), op, out),
{
    let n = GetN(op);
    let m = GetM(op);
    let b = ctx.r[m];
    let mut d: u32 = 0;
    sh4_extsb(&mut d, b);
    ctx.r[n] = d;
    ExecOutcome::Done
}

/// What `exts.w <REG_M>,<REG_N>` does.
pub open spec fn post_exts_w_rm_rn(o: Sh4Ctx, c: Sh4Ctx, op: u16, out: ExecOutcome) -> bool {
    let ni = field_n(op);
    let mi = field_m(op);
    let rn = o.r[ni];
    let rm = o.r[mi];
    out == ExecOutcome::Done && only_r(o, c, ni, wrap32(signed16(rm)))
}

fn exec_exts_w_rm_rn(ctx: &mut Sh4Ctx, op: u16) -> (out: ExecOutcome)
    requires
        old(ctx).wf(),
    ensures
        final(ctx).wf(),
        final(ctx).remaining_cycles == old(ctx).remaining_cycles,
        post_exts_w_rm_rn(*old(ctx), *final(ctx), op, out),
{
    let n = GetN(op);
    let m = GetM(op);
    let b = ctx.r[m];
    let mut d: u32 = 0;
    sh4_extsw(&mut d, b);
    ctx.r[n] = d;
    ExecOutcome::Done
}

/// What `mov.w @(<PCdisp8w>),<REG_N>` does.
pub open spec fn post_mov_w_at_pc_disp_rn(o: Sh4Ctx, c: Sh4Ctx, op: u16, out: ExecOutcome) -> bool {
    let ni = field_n(op);
    let mi = field_m(op);
    let rn = o.r[ni];
    let rm = o.r[mi];
    match spec_read_mem(o, (((op % 256) * 2) as u32).wrapping_add(o.pc0).wrapping_add(4), 2) {
        Some(v) => out == ExecOutcome::Done && only_r(o, c, ni, sext_read(v, 2)),
        None => out == ExecOutcome::Fault && c == o,
    }
}

fn exec_mov_w_at_pc_disp_rn(ctx: &mut Sh4Ctx, op: u16) -> (out: ExecOutcome)
    requires
        old(ctx).wf(),
    ensures
        final(ctx).wf(),
        final(ctx).remaining_cycles == old(ctx).remaining_cycles,
        post_mov_w_at_pc_disp_rn(*old(ctx), *final(ctx), op, out),
{
    let n = GetN(op);
    let pc = ctx.pc0;
    let disp = GetImm8(op);
    let a = (disp * 2).wrapping_add(pc).wrapping_add(4);
    match sh4_read_mems16_i(ctx, a) {
        Some(v) => {
            ctx.r[n] = v;
            ExecOutcome::Done
        },
        None => ExecOutcome::Fault,
    }
}

/// What `bt <bdisp8>` does.
pub open spec fn post_bt_disp(o: Sh4Ctx, c: Sh4Ctx, op: u16, out: ExecOutcome) -> bool {
    let ni = field_n(op);
    let mi = field_m(op);
    let rn = o.r[ni];
    let rm = o.r[mi];
    out == ExecOutcome::Done && ({
            let sel = if o.sr_t == 1 { spec_branch_target(o.pc0, simm8(op)) } else { o.pc0.wrapping_add(2) };
            c == (Sh4Ctx { pc1: sel, pc2: sel.wrapping_add(2), ..o })
        })
}

fn exec_bt_disp(ctx: &mut Sh4Ctx, op: u16) -> (out: ExecOutcome)
    requires
        old(ctx).wf(),
    ensures
        final(ctx).wf(),
        final(ctx).remaining_cycles == old(ctx).remaining_cycles,
        post_bt_disp(*old(ctx), *final(ctx), op, out),
{
    let pc = ctx.pc0;
    let disp8 = GetSImm8(op);
    let next = pc.wrapping_add(2);
    let target = branch_target_s8(pc, disp8);
    let t = ctx.sr_t;
    sh4_branch_cond(ctx, t, 1, next, target);
    ExecOutcome::Done
}

/// What `bt/s <bdisp8>` does.
pub open spec fn post_bt_s_disp(o: Sh4Ctx, c: Sh4Ctx, op: u16, out: ExecOutcome) -> bool {
    let ni = field_n(op);
    let mi = field_m(op);
    let rn = o.r[ni];
    let rm = o.r[mi];
    out == ExecOutcome::Done && c == (Sh4Ctx {
            pc2: if o.sr_t == 1 { spec_branch_target(o.pc0, simm8(op)) } else { o.pc0.wrapping_add(4) },
            is_delayslot1: 1,
            ..o
        })
}

fn exec_bt_s_disp(ctx: &mut Sh4Ctx, op: u16) -> (out: ExecOutcome)
    requires
        old(ctx).wf(),
    ensures
        final(ctx).wf(),
        final(ctx).remaining_cycles == old(ctx).remaining_cycles,
        post_bt_s_disp(*old(ctx), *final(ctx), op, out),
{
    let pc = ctx.pc0;
    let disp8 = GetSImm8(op);
    let next = pc.wrapping_add(4);
    let target = branch_target_s8(pc, disp8);
    let t = ctx.sr_t;
    sh4_branch_cond_delay(ctx, t, 1, next, target);
    ExecOutcome::Done
}

/// What `bsr <bdisp12>` does.
pub open spec fn post_bsr_disp(o: Sh4Ctx, c: Sh4Ctx, op: u16, out: ExecOutcome) -> bool {
    let ni = field_n(op);
    let mi = field_m(op);
    let rn = o.r[ni];
    let rm = o.r[mi];
    out == ExecOutcome::Done && c == (Sh4Ctx { pr: o.pc0.wrapping_add(4), pc2: spec_branch_target(o.pc0, simm12(op)), is_delayslot1: 1, ..o })
}

fn exec_bsr_disp(ctx: &mut Sh4Ctx, op: u16) -> (out: ExecOutcome)
    requires
        old(ctx).wf(),
    ensures
        final(ctx).wf(),
        final(ctx).remaining_cycles == old(ctx).remaining_cycles,
        post_bsr_disp(*old(ctx), *final(ctx), op, out),
{
    let pc = ctx.pc0;
    let disp12 = GetSImm12(op);
    let target = branch_target_s12(pc, disp12);
    ctx.pr = pc.wrapping_add(4);
    sh4_branch_delay(ctx, target);
    ExecOutcome::Done
}

/// What `mov.b R0,@(<disp8b>,GBR)` does.
pub open spec fn post_mov_b_r0_at_disp_gbr(o: Sh4Ctx, c: Sh4Ctx, op: u16, out: ExecOutcome) -> bool {
    let ni = field_n(op);
    let mi = field_m(op);
    let rn = o.r[ni];
    let rm = o.r[mi];
    store_post(o, c, out, o.gbr.wrapping_add((op % 256) as u32), 1, (o.r[0] % 0x100) as u64)
}

fn exec_mov_b_r0_at_disp_gbr(ctx: &mut Sh4Ctx, op: u16) -> (out: ExecOutcome)
    requires
        old(ctx).wf(),
    ensures
        final(ctx).wf(),
        final(ctx).remaining_cycles == old(ctx).remaining_cycles,
        post_mov_b_r0_at_disp_gbr(*old(ctx), *final(ctx), op, out),
{
    let a = ctx.gbr.wrapping_add(GetImm8(op));
    let d = ctx.r[0];
    if sh4_write_mem8(ctx, a, d) { ExecOutcome::Done } else { ExecOutcome::Fault }
}

/// What `mov.w R0,@(<disp8w>,GBR)` does.
pub open spec fn post_mov_w_r0_at_disp_gbr(o: Sh4Ctx, c: Sh4Ctx, op: u16, out: ExecOutcome) -> bool {
    let ni = field_n(op);
    let mi = field_m(op);
    let rn = o.r[ni];
    let rm = o.r[mi];
    store_post(o, c, out, o.gbr.wrapping_add(((op % 256) * 2) as u32), 2, (o.r[0] % 0x1_0000) as u64)
}

fn exec_mov_w_r0_at_disp_gbr(ctx: &mut Sh4Ctx, op: u16) -> (out: ExecOutcome)
    requires
        old(ctx).wf(),
    ensures
        final(ctx).wf(),
        final(ctx).remaining_cycles == old(ctx).remaining_cycles,
        post_mov_w_r0_at_disp_gbr(*old(ctx), *final(ctx), op, out),
{
    let a = ctx.gbr.wrapping_add(GetImm8(op) * 2);
    let d = ctx.r[0];
    if sh4_write_mem16(ctx, a, d) { ExecOutcome::Done } else { ExecOutcome::Fault }
}

/// What `mov.l R0,@(<disp8dw>,GBR)` does.
pub open spec fn post_mov_l_r0_at_disp_gbr(o: Sh4Ctx, c: Sh4Ctx, op: u16, out: ExecOutcome) -> bool {
    let ni = field_n(op);
    let mi = field_m(op);
    let rn = o.r[ni];
    let rm = o.r[mi];
    store_post(o, c, out, o.gbr.wrapping_add(((op % 256) * 4) as u32), 4, o.r[0] as u64)
}

fn exec_mov_l_r0_at_disp_gbr(ctx: &mut Sh4Ctx, op: u16) -> (out: ExecOutcome)
    requires
        old(ctx).wf(),
    ensures
        final(ctx).wf(),
        final(ctx).remaining_cycles == old(ctx).remaining_cycles,
        post_mov_l_r0_at_disp_gbr(*old(ctx), *final(ctx), op, out),
{
    let a = ctx.gbr.wrapping_add(GetImm8(op) * 4);
    let d = ctx.r[0];
    if sh4_write_mem32(ctx, a, d) { ExecOutcome::Done } else { ExecOutcome::Fault }
}

/// What `trapa #<imm8>` does.
pub open spec fn post_trapa_imm(o: Sh4Ctx, c: Sh4Ctx, op: u16, out: ExecOutcome) -> bool {
    let ni = field_n(op);
    let mi = field_m(op);
    let rn = o.r[ni];
    let rm = o.r[mi];
    out == ExecOutcome::Trap((op % 256) as u32) && c == o
}

fn exec_trapa_imm(ctx: &mut Sh4Ctx, op: u16) -> (out: ExecOutcome)
    requires
        old(ctx).wf(),
    ensures
        final(ctx).wf(),
        final(ctx).remaining_cycles == old(ctx).remaining_cycles,
        post_trapa_imm(*old(ctx), *final(ctx), op, out),
{
    ExecOutcome::Trap(GetImm8(op))
}

/// What `mov.b @(<GBRdisp8b>),R0` does.
pub open spec fn post_mov_b_at_gbr_disp_r0(o: Sh4Ctx, c: Sh4Ctx, op: u16, out: ExecOutcome) -> bool {
    let ni = field_n(op);
    let mi = field_m(op);
    let rn = o.r[ni];
    let rm = o.r[mi];
    match spec_read_mem(o, o.gbr.wrapping_add((op % 256) as u32), 1) {
        Some(v) => out == ExecOutcome::Done && only_r(o, c, 0, sext_read(v, 1)),
        None => out == ExecOutcome::Fault && c == o,
    }
}

fn exec_mov_b_at_gbr_disp_r0(ctx: &mut Sh4Ctx, op: u16) -> (out: ExecOutcome)
    requires
        old(ctx).wf(),
    ensures
        final(ctx).wf(),
        final(ctx).remaining_cycles == old(ctx).remaining_cycles,
        post_mov_b_at_gbr_disp_r0(*old(ctx), *final(ctx), op, out),
{
    let a = ctx.gbr.wrapping_add(GetImm8(op));
    match sh4_read_mems8(ctx, a) {
        Some(v) => {
            ctx.r[0] = v;
            ExecOutcome::Done
        },
        None => ExecOutcome::Fault,
    }
}

/// What `mov.w @(<GBRdisp8w>),R0` does.
pub open spec fn post_mov_w_at_gbr_disp_r0(o: Sh4Ctx, c: Sh4Ctx, op: u16, out: ExecOutcome) -> bool {
    let ni = field_n(op);
    let mi = field_m(op);
    let rn = o.r[ni];
    let rm = o.r[mi];
    match spec_read_mem(o, o.gbr.wrapping_add(((op % 256) * 2) as u32), 2) {
        Some(v) => out == ExecOutcome::Done && only_r(o, c, 0, sext_read(v, 2)),
        None => out == ExecOutcome::Fault && c == o,
    }
}

fn exec_mov_w_at_gbr_disp_r0(ctx: &mut Sh4Ctx, op: u16) -> (out: ExecOutcome)
    requires
        old(ctx).wf(),
    ensures
        final(ctx).wf(),
        final(ctx).remaining_cycles == old(ctx).remaining_cycles,
        post_mov_w_at_gbr_disp_r0(*old(ctx), *final(ctx), op, out),
{
    let a = ctx.gbr.wrapping_add(GetImm8(op) * 2);
    match sh4_read_mems16(ctx, a) {
        Some(v) => {
            ctx.r[0] = v;
            ExecOutcome::Done
        },
        None => ExecOutcome::Fault,
    }
}

/// What `mov.l @(<GBRdisp8dw>),R0` does.
pub open spec fn post_mov_l_at_gbr_disp_r0(o: Sh4Ctx, c: Sh4Ctx, op: u16, out: ExecOutcome) -> bool {
    let ni = field_n(op);
    let mi = field_m(op);
    let rn = o.r[ni];
    let rm = o.r[mi];
    match spec_read_mem(o, o.gbr.wrapping_add(((op % 256) * 4) as u32), 4) {
        Some(v) => out == ExecOutcome::Done && only_r(o, c, 0, (v % 0x1_0000_0000) as u32),
        None => out == ExecOutcome::Fault && c == o,
    }
}

fn exec_mov_l_at_gbr_disp_r0(ctx: &mut Sh4Ctx, op: u16) -> (out: ExecOutcome)
    requires
        old(ctx).wf(),
    ensures
        final(ctx).wf(),
        final(ctx).remaining_cycles == old(ctx).remaining_cycles,
        post_mov_l_at_gbr_disp_r0(*old(ctx), *final(ctx), op, out),
{
    let a = ctx.gbr.wrapping_add(GetImm8(op) * 4);
    match sh4_read_mem32(ctx, a) {
        Some(v) => {
            ctx.r[0] = v;
            ExecOutcome::Done
        },
        None => ExecOutcome::Fault,
    }
}

/// What `tst #<imm8>,R0` does.
pub open spec fn post_tst_imm_r0(o: Sh4Ctx, c: Sh4Ctx, op: u16, out: ExecOutcome) -> bool {
    let ni = field_n(op);
    let mi = field_m(op);
    let rn = o.r[ni];
    let rm = o.r[mi];
    out == ExecOutcome::Done && only_t(o, c, flag(o.r[0] & ((op % 256) as u32) == 0))
}

fn exec_tst_imm_r0(ctx: &mut Sh4Ctx, op: u16) -> (out: ExecOutcome)
    requires
        old(ctx).wf(),
    ensures
        final(ctx).wf(),
        final(ctx).remaining_cycles == old(ctx).remaining_cycles,
        post_tst_imm_r0(*old(ctx), *final(ctx), op, out),
{
    let mut t: u32 = ctx.sr_t;
    sh4_tst_imm(&mut t, ctx.r[0], GetImm8(op));
    ctx.sr_t = t;
    ExecOutcome::Done
}

/// What `and #<imm8>,R0` does.
pub open spec fn post_and_imm_r0(o: Sh4Ctx, c: Sh4Ctx, op: u16, out: ExecOutcome) -> bool {
    let ni = field_n(op);
    let mi = field_m(op);
    let rn = o.r[ni];
    let rm = o.r[mi];
    out == ExecOutcome::Done && only_r(o, c, 0, o.r[0] & ((op % 256) as u32))
}

fn exec_and_imm_r0(ctx: &mut Sh4Ctx, op: u16) -> (out: ExecOutcome)
    requires
        old(ctx).wf(),
    ensures
        final(ctx).wf(),
        final(ctx).remaining_cycles == old(ctx).remaining_cycles,
        post_and_imm_r0(*old(ctx), *final(ctx), op, out),
{
    let a = ctx.r[0];
    let mut d: u32 = 0;
    sh4_and_imm(&mut d, a, GetImm8(op));
    ctx.r[0] = d;
    ExecOutcome::Done
}

/// What `xor #<imm8>,R0` does.
pub open spec fn post_xor_imm_r0(o: Sh4Ctx, c: Sh4Ctx, op: u16, out: ExecOutcome) -> bool {
    let ni = field_n(op);
    let mi = field_m(op);
    let rn = o.r[ni];
    let rm = o.r[mi];
    out == ExecOutcome::Done && only_r(o, c, 0, o.r[0] ^ ((op % 256) as u32))
}

fn exec_xor_imm_r0(ctx: &mut Sh4Ctx, op: u16) -> (out: ExecOutcome)
    requires
        old(ctx).wf(),
    ensures
        final(ctx).wf(),
        final(ctx).remaining_cycles == old(ctx).remaining_cycles,
        post_xor_imm_r0(*old(ctx), *final(ctx), op, out),
{
    let a = ctx.r[0];
    let mut d: u32 = 0;
    sh4_xor_imm(&mut d, a, GetImm8(op));
    ctx.r[0] = d;
    ExecOutcome::Done
}

/// What `or #<imm8>,R0` does.
pub open spec fn post_or_imm_r0(o: Sh4Ctx, c: Sh4Ctx, op: u16, out: ExecOutcome) -> bool {
    let ni = field_n(op);
    let mi = field_m(op);
    let rn = o.r[ni];
    let rm = o.r[mi];
    out == ExecOutcome::Done && only_r(o, c, 0, o.r[0] | ((op % 256) as u32))
}

fn exec_or_imm_r0(ctx: &mut Sh4Ctx, op: u16) -> (out: ExecOutcome)
    requires
        old(ctx).wf(),
    ensures
        final(ctx).wf(),
        final(ctx).remaining_cycles == old(ctx).remaining_cycles,
        post_or_imm_r0(*old(ctx), *final(ctx), op, out),
{
    let a = ctx.r[0];
    let mut d: u32 = 0;
    sh4_or_imm(&mut d, a, GetImm8(op));
    ctx.r[0] = d;
    ExecOutcome::Done
}

/// What `tst.b #<imm8>,@(R0,GBR)` does.
pub open spec fn post_tst_b_imm_at_r0_gbr(o: Sh4Ctx, c: Sh4Ctx, op: u16, out: ExecOutcome) -> bool {
    let ni = field_n(op);
    let mi = field_m(op);
    let rn = o.r[ni];
    let rm = o.r[mi];
    match spec_read_mem(o, o.gbr.wrapping_add(o.r[0]), 1) {
        Some(v) => out == ExecOutcome::Done && only_t(o, c, flag(((v % 0x100) as u32 & ((op % 256) as u32)) == 0)),
        None => out == ExecOutcome::Fault && c == o,
    }
}

fn exec_tst_b_imm_at_r0_gbr(ctx: &mut Sh4Ctx, op: u16) -> (out: ExecOutcome)
    requires
        old(ctx).wf(),
    ensures
        final(ctx).wf(),
        final(ctx).remaining_cycles == old(ctx).remaining_cycles,
        post_tst_b_imm_at_r0_gbr(*old(ctx), *final(ctx), op, out),
{
    let g = ctx.gbr;
    let r0 = ctx.r[0];
    match sh4_tst_mem(ctx, g, r0, GetImm8(op)) {
        Some(t) => {
            ctx.sr_t = t;
            ExecOutcome::Done
        },
        None => ExecOutcome::Fault,
    }
}

/// What `and.b #<imm8>,@(R0,GBR)` does.
pub open spec fn post_and_b_imm_at_r0_gbr(o: Sh4Ctx, c: Sh4Ctx, op: u16, out: ExecOutcome) -> bool {
    let ni = field_n(op);
    let mi = field_m(op);
    let rn = o.r[ni];
    let rm = o.r[mi];
    match spec_read_mem(o, o.gbr.wrapping_add(o.r[0]), 1) {
        Some(v) => out == (if spec_write_ok(o, o.gbr.wrapping_add(o.r[0]), 1) { ExecOutcome::Done } else { ExecOutcome::Fault })
            && mem_written(o, c, o.gbr.wrapping_add(o.r[0]), 1, (((v % 0x100) as u8) & ((op % 256) as u8)) as u64),
        None => out == ExecOutcome::Fault && c == o,
    }
}

fn exec_and_b_imm_at_r0_gbr(ctx: &mut Sh4Ctx, op: u16) -> (out: ExecOutcome)
    requires
        old(ctx).wf(),
    ensures
        final(ctx).wf(),
        final(ctx).remaining_cycles == old(ctx).remaining_cycles,
        post_and_b_imm_at_r0_gbr(*old(ctx), *final(ctx), op, out),
{
    let g = ctx.gbr;
    let r0 = ctx.r[0];
    let imm = (GetImm8(op) % 256) as u8;
    if sh4_and_mem(ctx, g, r0, imm) { ExecOutcome::Done } else { ExecOutcome::Fault }
}

/// What `xor.b #<imm8>,@(R0,GBR)` does.
pub open spec fn post_xor_b_imm_at_r0_gbr(o: Sh4Ctx, c: Sh4Ctx, op: u16, out: ExecOutcome) -> bool {
    let ni = field_n(op);
    let mi = field_m(op);
    let rn = o.r[ni];
    let rm = o.r[mi];
    match spec_read_mem(o, o.gbr.wrapping_add(o.r[0]), 1) {
        Some(v) => out == (if spec_write_ok(o, o.gbr.wrapping_add(o.r[0]), 1) { ExecOutcome::Done } else { ExecOutcome::Fault })
            && mem_written(o, c, o.gbr.wrapping_add(o.r[0]), 1, (((v % 0x100) as u8) ^ ((op % 256) as u8)) as u64),
        None => out == ExecOutcome::Fault && c == o,
    }
}

fn exec_xor_b_imm_at_r0_gbr(ctx: &mut Sh4Ctx, op: u16) -> (out: ExecOutcome)
    requires
        old(ctx).wf(),
    ensures
        final(ctx).wf(),
        final(ctx).remaining_cycles == old(ctx).remaining_cycles,
        post_xor_b_imm_at_r0_gbr(*old(ctx), *final(ctx), op, out),
{
    let g = ctx.gbr;
    let r0 = ctx.r[0];
    let imm = (GetImm8(op) % 256) as u8;
    if sh4_xor_mem(ctx, g, r0, imm) { ExecOutcome::Done } else { ExecOutcome::Fault }
}

/// What `or.b #<imm8>,@(R0,GBR)` does.
pub open spec fn post_or_b_imm_at_r0_gbr(o: Sh4Ctx, c: Sh4Ctx, op: u16, out: ExecOutcome) -> bool {
    let ni = field_n(op);
    let mi = field_m(op);
    let rn = o.r[ni];
    let rm = o.r[mi];
    match spec_read_mem(o, o.gbr.wrapping_add(o.r[0]), 1) {
        Some(v) => out == (if spec_write_ok(o, o.gbr.wrapping_add(o.r[0]), 1) { ExecOutcome::Done } else { ExecOutcome::Fault })
            && mem_written(o, c, o.gbr.wrapping_add(o.r[0]), 1, (((v % 0x100) as u8) | ((op % 256) as u8)) as u64),
        None => out == ExecOutcome::Fault && c == o,
    }
}

fn exec_or_b_imm_at_r0_gbr(ctx: &mut Sh4Ctx, op: u16) -> (out: ExecOutcome)
    requires
        old(ctx).wf(),
    ensures
        final(ctx).wf(),
        final(ctx).remaining_cycles == old(ctx).remaining_cycles,
        post_or_b_imm_at_r0_gbr(*old(ctx), *final(ctx), op, out),
{
    let g = ctx.gbr;
    let r0 = ctx.r[0];
    let imm = (GetImm8(op) % 256) as u8;
    if sh4_or_mem(ctx, g, r0, imm) { ExecOutcome::Done } else { ExecOutcome::Fault }
}

/// What `flds <FREG_N>,FPUL` does.
pub open spec fn post_flds_fn_fpul(o: Sh4Ctx, c: Sh4Ctx, op: u16, out: ExecOutcome) -> bool {
    let ni = field_n(op);
    let mi = field_m(op);
    let rn = o.r[ni];
    let rm = o.r[mi];
    out == ExecOutcome::Done && c == (Sh4Ctx { fpul: o.fr[ni], ..o })
}

fn exec_flds_fn_fpul(ctx: &mut Sh4Ctx, op: u16) -> (out: ExecOutcome)
    requires
        old(ctx).wf(),
    ensures
        final(ctx).wf(),
        final(ctx).remaining_cycles == old(ctx).remaining_cycles,
        post_flds_fn_fpul(*old(ctx), *final(ctx), op, out),
{
    let n = GetN(op);
    let v = ctx.fr[n];
    ctx.fpul = v;
    ExecOutcome::Done
}

/// What `fneg <FREG_N_SD_F>` does.
pub open spec fn post_fneg_fn(o: Sh4Ctx, c: Sh4Ctx, op: u16, out: ExecOutcome) -> bool {
    let ni = field_n(op);
    let mi = field_m(op);
    let rn = o.r[ni];
    let rm = o.r[mi];
    ({
        let k = if bit_of(o.fpscr.0, 19) { ni - ni % 2 } else { ni };
        out == ExecOutcome::Done && c.fr@ == o.fr@.update(k, o.fr[k] ^ 0x8000_0000) && c == (Sh4Ctx { fr: c.fr, ..o })
    })
}

fn exec_fneg_fn(ctx: &mut Sh4Ctx, op: u16) -> (out: ExecOutcome)
    requires
        old(ctx).wf(),
    ensures
        final(ctx).wf(),
        final(ctx).remaining_cycles == old(ctx).remaining_cycles,
        post_fneg_fn(*old(ctx), *final(ctx), op, out),
{
    let n = GetN(op);
    let k = if ctx.fpscr.pr() { n - n % 2 } else { n };
    let v = ctx.fr[k];
    let mut d: u32 = 0;
    sh4_fneg(&mut d, v);
    ctx.fr[k] = d;
    ExecOutcome::Done
}

/// What `fabs <FREG_N_SD_F>` does.
pub open spec fn post_fabs_fn(o: Sh4Ctx, c: Sh4Ctx, op: u16, out: ExecOutcome) -> bool {
    let ni = field_n(op);
    let mi = field_m(op);
    let rn = o.r[ni];
    let rm = o.r[mi];
    ({
        let k = if bit_of(o.fpscr.0, 19) { ni - ni % 2 } else { ni };
        out == ExecOutcome::Done && c.fr@ == o.fr@.update(k, o.fr[k] & 0x7FFF_FFFF) && c == (Sh4Ctx { fr: c.fr, ..o })
    })
}

fn exec_fabs_fn(ctx: &mut Sh4Ctx, op: u16) -> (out: ExecOutcome)
    requires
        old(ctx).wf(),
    ensures
        final(ctx).wf(),
        final(ctx).remaining_cycles == old(ctx).remaining_cycles,
        post_fabs_fn(*old(ctx), *final(ctx), op, out),
{
    let n = GetN(op);
    let k = if ctx.fpscr.pr() { n - n % 2 } else { n };
    let v = ctx.fr[k];
    let mut d: u32 = 0;
    sh4_fabs(&mut d, v);
    ctx.fr[k] = d;
    ExecOutcome::Done
}

/// What `fsqrt <FREG_N>` does.
pub open spec fn post_fsqrt_fn(o: Sh4Ctx, c: Sh4Ctx, op: u16, out: ExecOutcome) -> bool {
    let ni = field_n(op);
    let mi = field_m(op);
    let rn = o.r[ni];
    let rm = o.r[mi];
    out == ExecOutcome::Float && c == o
}

fn exec_fsqrt_fn(ctx: &mut Sh4Ctx, op: u16) -> (out: ExecOutcome)
    requires
        old(ctx).wf(),
    ensures
        final(ctx).wf(),
        final(ctx).remaining_cycles == old(ctx).remaining_cycles,
        post_fsqrt_fn(*old(ctx), *final(ctx), op, out),
{
    ExecOutcome::Float
}

/// What `fldi0 <FREG_N>` does.
pub open spec fn post_fldi0_fn(o: Sh4Ctx, c: Sh4Ctx, op: u16, out: ExecOutcome) -> bool {
    let ni = field_n(op);
    let mi = field_m(op);
    let rn = o.r[ni];
    let rm = o.r[mi];
    out == ExecOutcome::Done && if !bit_of(o.fpscr.0, 19) {
        c.fr@ == o.fr@.update(ni, 0x0000_0000u32) && c == (Sh4Ctx { fr: c.fr, ..o })
    } else {
        c == o
    }
}

fn exec_fldi0_fn(ctx: &mut Sh4Ctx, op: u16) -> (out: ExecOutcome)
    requires
        old(ctx).wf(),
    ensures
        final(ctx).wf(),
        final(ctx).remaining_cycles == old(ctx).remaining_cycles,
        post_fldi0_fn(*old(ctx), *final(ctx), op, out),
{
    let n = GetN(op);
    if !ctx.fpscr.pr() {
        ctx.fr[n] = 0x0000_0000u32;
    }
    ExecOutcome::Done
}

/// What `fldi1 <FREG_N>` does.
pub open spec fn post_fldi1_fn(o: Sh4Ctx, c: Sh4Ctx, op: u16, out: ExecOutcome) -> bool {
    let ni = field_n(op);
    let mi = field_m(op);
    let rn = o.r[ni];
    let rm = o.r[mi];
    out == ExecOutcome::Done && if !bit_of(o.fpscr.0, 19) {
        c.fr@ == o.fr@.update(ni, 0x3F80_0000u32) && c == (Sh4Ctx { fr: c.fr, ..o })
    } else {
        c == o
    }
}

fn exec_fldi1_fn(ctx: &mut Sh4Ctx, op: u16) -> (out: ExecOutcome)
    requires
        old(ctx).wf(),
    ensures
        final(ctx).wf(),
        final(ctx).remaining_cycles == old(ctx).remaining_cycles,
        post_fldi1_fn(*old(ctx), *final(ctx), op, out),
{
    let n = GetN(op);
    if !ctx.fpscr.pr() {
        ctx.fr[n] = 0x3F80_0000u32;
    }
    ExecOutcome::Done
}

/// What `ftrv xmtrx,<FV_N>` does.
pub open spec fn post_ftrv_xmtrx_fvn(o: Sh4Ctx, c: Sh4Ctx, op: u16, out: ExecOutcome) -> bool {
    let ni = field_n(op);
    let mi = field_m(op);
    let rn = o.r[ni];
    let rm = o.r[mi];
    out == ExecOutcome::Float && c == o
}

fn exec_ftrv_xmtrx_fvn(ctx: &mut Sh4Ctx, op: u16) -> (out: ExecOutcome)
    requires
        old(ctx).wf(),
    ensures
        final(ctx).wf(),
        final(ctx).remaining_cycles == old(ctx).remaining_cycles,
        post_ftrv_xmtrx_fvn(*old(ctx), *final(ctx), op, out),
{
    ExecOutcome::Float
}

/// What `fcmp/eq <FREG_M_SD_F>,<FREG_N_SD_F>` does.
pub open spec fn post_fcmp_eq_fm_fn(o: Sh4Ctx, c: Sh4Ctx, op: u16, out: ExecOutcome) -> bool {
    let ni = field_n(op);
    let mi = field_m(op);
    let rn = o.r[ni];
    let rm = o.r[mi];
    out == ExecOutcome::Float && c == o
}

fn exec_fcmp_eq_fm_fn(ctx: &mut Sh4Ctx, op: u16) -> (out: ExecOutcome)
    requires
        old(ctx).wf(),
    ensures
        final(ctx).wf(),
        final(ctx).remaining_cycles == old(ctx).remaining_cycles,
        post_fcmp_eq_fm_fn(*old(ctx), *final(ctx), op, out),
{
    ExecOutcome::Float
}

/// What `fcmp/gt <FREG_M_SD_F>,<FREG_N_SD_F>` does.
pub open spec fn post_fcmp_gt_fm_fn(o: Sh4Ctx, c: Sh4Ctx, op: u16, out: ExecOutcome) -> bool {
    let ni = field_n(op);
    let mi = field_m(op);
    let rn = o.r[ni];
    let rm = o.r[mi];
    out == ExecOutcome::Float && c == o
}

fn exec_fcmp_gt_fm_fn(ctx: &mut Sh4Ctx, op: u16) -> (out: ExecOutcome)
    requires
        old(ctx).wf(),
    ensures
        final(ctx).wf(),
        final(ctx).remaining_cycles == old(ctx).remaining_cycles,
        post_fcmp_gt_fm_fn(*old(ctx), *final(ctx), op, out),
{
    ExecOutcome::Float
}

/// What `fmov.s @(R0,<REG_M>),<FREG_N_SD_A>` does.
pub open spec fn post_fmov_s_at_r0_rm_fn(o: Sh4Ctx, c: Sh4Ctx, op: u16, out: ExecOutcome) -> bool {
    let ni = field_n(op);
    let mi = field_m(op);
    let rn = o.r[ni];
    let rm = o.r[mi];
    ({
        let a = rm.wrapping_add(o.r[0]);
        if !bit_of(o.fpscr.0, 20) {
            match spec_read_mem(o, a, 4) {
                Some(v) => out == ExecOutcome::Done && c.fr@ == o.fr@.update(ni, (v % 0x1_0000_0000) as u32)
                    && c == (Sh4Ctx { fr: c.fr, ..o }),
                None => out == ExecOutcome::Fault && c == o,
            }
        } else {
            match spec_read_mem(o, a, 8) {
                Some(v) => out == ExecOutcome::Done && pair_set(o, c, ni, v),
                None => out == ExecOutcome::Fault && c == o,
            }
        }
    })
}

fn exec_fmov_s_at_r0_rm_fn(ctx: &mut Sh4Ctx, op: u16) -> (out: ExecOutcome)
    requires
        old(ctx).wf(),
    ensures
        final(ctx).wf(),
        final(ctx).remaining_cycles == old(ctx).remaining_cycles,
        post_fmov_s_at_r0_rm_fn(*old(ctx), *final(ctx), op, out),
{
    let n = GetN(op);
    let m = GetM(op);
    let a = ctx.r[m].wrapping_add(ctx.r[0]);
    if !ctx.fpscr.sz() {
        match sh4_read_mem32(ctx, a) {
            Some(v) => {
                ctx.fr[n] = v;
                ExecOutcome::Done
            },
            None => ExecOutcome::Fault,
        }
    } else {
        match sh4_read_mem64(ctx, a) {
            Some(v) => {
                set_pair(ctx, n, v);
                ExecOutcome::Done
            },
            None => ExecOutcome::Fault,
        }
    }
}

/// What `fmov.s <FREG_M_SD_A>,@(R0,<REG_N>)` does.
pub open spec fn post_fmov_s_fm_at_r0_rn(o: Sh4Ctx, c: Sh4Ctx, op: u16, out: ExecOutcome) -> bool {
    let ni = field_n(op);
    let mi = field_m(op);
    let rn = o.r[ni];
    let rm = o.r[mi];
    ({
        let a = o.r[0].wrapping_add(rn);
        if !bit_of(o.fpscr.0, 20) {
            store_post(o, c, out, a, 4, o.fr[mi] as u64)
        } else {
            store_post(o, c, out, a, 8, pair_of(o, mi))
        }
    })
}

fn exec_fmov_s_fm_at_r0_rn(ctx: &mut Sh4Ctx, op: u16) -> (out: ExecOutcome)
    requires
        old(ctx).wf(),
    ensures
        final(ctx).wf(),
        final(ctx).remaining_cycles == old(ctx).remaining_cycles,
        post_fmov_s_fm_at_r0_rn(*old(ctx), *final(ctx), op, out),
{
    let n = GetN(op);
    let m = GetM(op);
    let a = ctx.r[0].wrapping_add(ctx.r[n]);
    if !ctx.fpscr.sz() {
        let v = ctx.fr[m];
        if sh4_write_mem32(ctx, a, v) { ExecOutcome::Done } else { ExecOutcome::Fault }
    } else {
        let v = get_pair(ctx, m);
        if sh4_write_mem64(ctx, a, v) { ExecOutcome::Done } else { ExecOutcome::Fault }
    }
}

/// What `fmov.s @<REG_M>+,<FREG_N_SD_A>` does.
pub open spec fn post_fmov_s_at_rm_post_inc_fn(o: Sh4Ctx, c: Sh4Ctx, op: u16, out: ExecOutcome) -> bool {
    let ni = field_n(op);
    let mi = field_m(op);
    let rn = o.r[ni];
    let rm = o.r[mi];
    if !bit_of(o.fpscr.0, 20) {
        match spec_read_mem(o, rm, 4) {
            Some(v) => out == ExecOutcome::Done && c.fr@ == o.fr@.update(ni, (v % 0x1_0000_0000) as u32)
                && c.r@ == o.r@.update(mi, wrap32(rm + 4)) && c == (Sh4Ctx { fr: c.fr, r: c.r, ..o }),
            None => out == ExecOutcome::Fault && c == o,
        }
    } else {
        match spec_read_mem(o, rm, 8) {
            Some(v) => out == ExecOutcome::Done && pair_set(o, Sh4Ctx { r: o.r, ..c }, ni, v)
                && c.r@ == o.r@.update(mi, wrap32(rm + 8)),
            None => out == ExecOutcome::Fault && c == o,
        }
    }
}

fn exec_fmov_s_at_rm_post_inc_fn(ctx: &mut Sh4Ctx, op: u16) -> (out: ExecOutcome)
    requires
        old(ctx).wf(),
    ensures
        final(ctx).wf(),
        final(ctx).remaining_cycles == old(ctx).remaining_cycles,
        post_fmov_s_at_rm_post_inc_fn(*old(ctx), *final(ctx), op, out),
{
    let n = GetN(op);
    let m = GetM(op);
    let a = ctx.r[m];
    if !ctx.fpscr.sz() {
        match sh4_read_mem32(ctx, a) {
            Some(v) => {
                ctx.fr[n] = v;
                let mut mv: u32 = 0;
                sh4_addi(&mut mv, a, 4);
                ctx.r[m] = mv;
                ExecOutcome::Done
            },
            None => ExecOutcome::Fault,
        }
    } else {
        match sh4_read_mem64(ctx, a) {
            Some(v) => {
                set_pair(ctx, n, v);
                let mut mv: u32 = 0;
                sh4_addi(&mut mv, a, 8);
                ctx.r[m] = mv;
                ExecOutcome::Done
            },
            None => ExecOutcome::Fault,
        }
    }
}

/// What `fmov.s <FREG_M_SD_A>,@<REG_N>` does.
pub open spec fn post_fmov_s_fm_at_rn(o: Sh4Ctx, c: Sh4Ctx, op: u16, out: ExecOutcome) -> bool {
    let ni = field_n(op);
    let mi = field_m(op);
    let rn = o.r[ni];
    let rm = o.r[mi];
    ({
        let a = rn;
        if !bit_of(o.fpscr.0, 20) {
            store_post(o, c, out, a, 4, o.fr[mi] as u64)
        } else {
            store_post(o, c, out, a, 8, pair_of(o, mi))
        }
    })
}

fn exec_fmov_s_fm_at_rn(ctx: &mut Sh4Ctx, op: u16) -> (out: ExecOutcome)
    requires
        old(ctx).wf(),
    ensures
        final(ctx).wf(),
        final(ctx).remaining_cycles == old(ctx).remaining_cycles,
        post_fmov_s_fm_at_rn(*old(ctx), *final(ctx), op, out),
{
    let n = GetN(op);
    let m = GetM(op);
    let a = ctx.r[n];
    if !ctx.fpscr.sz() {
        let v = ctx.fr[m];
        if sh4_write_mem32(ctx, a, v) { ExecOutcome::Done } else { ExecOutcome::Fault }
    } else {
        let v = get_pair(ctx, m);
        if sh4_write_mem64(ctx, a, v) { ExecOutcome::Done } else { ExecOutcome::Fault }
    }
}

/// What `fmov.s <FREG_M_SD_A>,@-<REG_N>` does.
pub open spec fn post_fmov_s_fm_pre_dec_rn(o: Sh4Ctx, c: Sh4Ctx, op: u16, out: ExecOutcome) -> bool {
    let ni = field_n(op);
    let mi = field_m(op);
    let rn = o.r[ni];
    let rm = o.r[mi];
    if !bit_of(o.fpscr.0, 20) {
        store_dec_post(o, c, out, ni, rn.wrapping_add(0xFFFF_FFFC), 4, o.fr[mi] as u64, wrap32(rn + 0xFFFF_FFFC))
    } else {
        store_dec_post(o, c, out, ni, rn.wrapping_add(0xFFFF_FFF8), 8, pair_of(o, mi), wrap32(rn + 0xFFFF_FFF8))
    }
}

fn exec_fmov_s_fm_pre_dec_rn(ctx: &mut Sh4Ctx, op: u16) -> (out: ExecOutcome)
    requires
        old(ctx).wf(),
    ensures
        final(ctx).wf(),
        final(ctx).remaining_cycles == old(ctx).remaining_cycles,
        post_fmov_s_fm_pre_dec_rn(*old(ctx), *final(ctx), op, out),
{
    let n = GetN(op);
    let m = GetM(op);
    let rn0 = ctx.r[n];
    if !ctx.fpscr.sz() {
        let v = ctx.fr[m];
        if !sh4_write_mem32(ctx, rn0.wrapping_add(0xFFFF_FFFC), v) {
            return ExecOutcome::Fault;
        }
        let mut nv: u32 = 0;
        sh4_addi(&mut nv, rn0, 0xFFFF_FFFC);
        ctx.r[n] = nv;
    } else {
        let v = get_pair(ctx, m);
        if !sh4_write_mem64(ctx, rn0.wrapping_add(0xFFFF_FFF8), v) {
            return ExecOutcome::Fault;
        }
        let mut nv: u32 = 0;
        sh4_addi(&mut nv, rn0, 0xFFFF_FFF8);
        ctx.r[n] = nv;
    }
    ExecOutcome::Done
}

/// What `fcnvds <DR_N>,FPUL` does.
pub open spec fn post_fcnvds_dn_fpul(o: Sh4Ctx, c: Sh4Ctx, op: u16, out: ExecOutcome) -> bool {
    let ni = field_n(op);
    let mi = field_m(op);
    let rn = o.r[ni];
    let rm = o.r[mi];
    out == ExecOutcome::Float && c == o
}

fn exec_fcnvds_dn_fpul(ctx: &mut Sh4Ctx, op: u16) -> (out: ExecOutcome)
    requires
        old(ctx).wf(),
    ensures
        final(ctx).wf(),
        final(ctx).remaining_cycles == old(ctx).remaining_cycles,
        post_fcnvds_dn_fpul(*old(ctx), *final(ctx), op, out),
{
    ExecOutcome::Float
}

/// What `fcnvsd FPUL,<DR_N>` does.
pub open spec fn post_fcnvsd_fpul_dn(o: Sh4Ctx, c: Sh4Ctx, op: u16, out: ExecOutcome) -> bool {
    let ni = field_n(op);
    let mi = field_m(op);
    let rn = o.r[ni];
    let rm = o.r[mi];
    out == ExecOutcome::Float && c == o
}

fn exec_fcnvsd_fpul_dn(ctx: &mut Sh4Ctx, op: u16) -> (out: ExecOutcome)
    requires
        old(ctx).wf(),
    ensures
        final(ctx).wf(),
        final(ctx).remaining_cycles == old(ctx).remaining_cycles,
        post_fcnvsd_fpul_dn(*old(ctx), *final(ctx), op, out),
{
    ExecOutcome::Float
}

/// What `fipr <FV_M>,<FV_N>` does.
pub open spec fn post_fipr_fvm_fvn(o: Sh4Ctx, c: Sh4Ctx, op: u16, out: ExecOutcome) -> bool {
    let ni = field_n(op);
    let mi = field_m(op);
    let rn = o.r[ni];
    let rm = o.r[mi];
    out == ExecOutcome::Float && c == o
}

fn exec_fipr_fvm_fvn(ctx: &mut Sh4Ctx, op: u16) -> (out: ExecOutcome)
    requires
        old(ctx).wf(),
    ensures
        final(ctx).wf(),
        final(ctx).remaining_cycles == old(ctx).remaining_cycles,
        post_fipr_fvm_fvn(*old(ctx), *final(ctx), op, out),
{
    ExecOutcome::Float
}

/// What `frchg` does.
pub open spec fn post_frchg(o: Sh4Ctx, c: Sh4Ctx, op: u16, out: ExecOutcome) -> bool {
    let ni = field_n(op);
    let mi = field_m(op);
    let rn = o.r[ni];
    let rm = o.r[mi];
    out == ExecOutcome::Done && c.fpscr.0 == o.fpscr.0 ^ 0x20_0000
        && (forall|i: int| 0 <= i < 16 ==> c.fr[i] == o.xf[i] && c.xf[i] == o.fr[i])
        && (forall|i: int| 16 <= i < 32 ==> c.fr[i] == o.fr[i] && c.xf[i] == o.xf[i])
        && c == (Sh4Ctx { fpscr: c.fpscr, fr: c.fr, xf: c.xf, ..o })
}

fn exec_frchg(ctx: &mut Sh4Ctx, op: u16) -> (out: ExecOutcome)
    requires
        old(ctx).wf(),
    ensures
        final(ctx).wf(),
        final(ctx).remaining_cycles == old(ctx).remaining_cycles,
        post_frchg(*old(ctx), *final(ctx), op, out),
{
    let f = ctx.fpscr.0;
    let mut d: u32 = 0;
    sh4_xor_imm(&mut d, f, 0x20_0000);
    ctx.fpscr = FpscrReg(d);
    sh4_frchg(&mut ctx.fr, &mut ctx.xf);
    ExecOutcome::Done
}

/// What `fschg` does.
pub open spec fn post_fschg(o: Sh4Ctx, c: Sh4Ctx, op: u16, out: ExecOutcome) -> bool {
    let ni = field_n(op);
    let mi = field_m(op);
    let rn = o.r[ni];
    let rm = o.r[mi];
    out == ExecOutcome::Done && c == (Sh4Ctx { fpscr: FpscrReg(o.fpscr.0 ^ 0x10_0000), ..o })
}

fn exec_fschg(ctx: &mut Sh4Ctx, op: u16) -> (out: ExecOutcome)
    requires
        old(ctx).wf(),
    ensures
        final(ctx).wf(),
        final(ctx).remaining_cycles == old(ctx).remaining_cycles,
        post_fschg(*old(ctx), *final(ctx), op, out),
{
    let f = ctx.fpscr.0;
    let mut d: u32 = 0;
    sh4_xor_imm(&mut d, f, 0x10_0000);
    ctx.fpscr = FpscrReg(d);
    sh4_fschg();
    ExecOutcome::Done
}

/// What `fsts FPUL,<FREG_N>` does.
pub open spec fn post_fsts_fpul_fn(o: Sh4Ctx, c: Sh4Ctx, op: u16, out: ExecOutcome) -> bool {
    let ni = field_n(op);
    let mi = field_m(op);
    let rn = o.r[ni];
    let rm = o.r[mi];
    out == ExecOutcome::Done && c.fr@ == o.fr@.update(ni, o.fpul) && c == (Sh4Ctx { fr: c.fr, ..o })
}

fn exec_fsts_fpul_fn(ctx: &mut Sh4Ctx, op: u16) -> (out: ExecOutcome)
    requires
        old(ctx).wf(),
    ensures
        final(ctx).wf(),
        final(ctx).remaining_cycles == old(ctx).remaining_cycles,
        post_fsts_fpul_fn(*old(ctx), *final(ctx), op, out),
{
    let n = GetN(op);
    let v = ctx.fpul;
    ctx.fr[n] = v;
    ExecOutcome::Done
}

/// What `fsrra <FREG_N>` does.
pub open spec fn post_fsrra_fn(o: Sh4Ctx, c: Sh4Ctx, op: u16, out: ExecOutcome) -> bool {
    let ni = field_n(op);
    let mi = field_m(op);
    let rn = o.r[ni];
    let rm = o.r[mi];
    out == ExecOutcome::Float && c == o
}

fn exec_fsrra_fn(ctx: &mut Sh4Ctx, op: u16) -> (out: ExecOutcome)
    requires
        old(ctx).wf(),
    ensures
        final(ctx).wf(),
        final(ctx).remaining_cycles == old(ctx).remaining_cycles,
        post_fsrra_fn(*old(ctx), *final(ctx), op, out),
{
    ExecOutcome::Float
}

/// What `fmac <FREG_0>,<FREG_M>,<FREG_N>` does.
pub open spec fn post_fmac_f0_fm_fn(o: Sh4Ctx, c: Sh4Ctx, op: u16, out: ExecOutcome) -> bool {
    let ni = field_n(op);
    let mi = field_m(op);
    let rn = o.r[ni];
    let rm = o.r[mi];
    out == ExecOutcome::Float && c == o
}

fn exec_fmac_f0_fm_fn(ctx: &mut Sh4Ctx, op: u16) -> (out: ExecOutcome)
    requires
        old(ctx).wf(),
    ensures
        final(ctx).wf(),
        final(ctx).remaining_cycles == old(ctx).remaining_cycles,
        post_fmac_f0_fm_fn(*old(ctx), *final(ctx), op, out),
{
    ExecOutcome::Float
}

/// What `sts PR,<REG_N>` does.
pub open spec fn post_sts_pr_rn(o: Sh4Ctx, c: Sh4Ctx, op: u16, out: ExecOutcome) -> bool {
    let ni = field_n(op);
    let mi = field_m(op);
    let rn = o.r[ni];
    let rm = o.r[mi];
    out == ExecOutcome::Done && only_r(o, c, ni, o.pr)
}

fn exec_sts_pr_rn(ctx: &mut Sh4Ctx, op: u16) -> (out: ExecOutcome)
    requires
        old(ctx).wf(),
    ensures
        final(ctx).wf(),
        final(ctx).remaining_cycles == old(ctx).remaining_cycles,
        post_sts_pr_rn(*old(ctx), *final(ctx), op, out),
{
    let n = GetN(op);
    let v = ctx.pr;
    ctx.r[n] = v;
    ExecOutcome::Done
}

/// What `ldc <REG_N>,SGR` does.
pub open spec fn post_ldc_rn_sgr(o: Sh4Ctx, c: Sh4Ctx, op: u16, out: ExecOutcome) -> bool {
    let ni = field_n(op);
    let mi = field_m(op);
    let rn = o.r[ni];
    let rm = o.r[mi];
    out == ExecOutcome::Done && c == (Sh4Ctx { sgr: rn, ..o })
}

fn exec_ldc_rn_sgr(ctx: &mut Sh4Ctx, op: u16) -> (out: ExecOutcome)
    requires
        old(ctx).wf(),
    ensures
        final(ctx).wf(),
        final(ctx).remaining_cycles == old(ctx).remaining_cycles,
        post_ldc_rn_sgr(*old(ctx), *final(ctx), op, out),
{
    let n = GetN(op);
    let v = ctx.r[n];
    ctx.sgr = v;
    ExecOutcome::Done
}

/// What `stc.l SGR,@-<REG_N>` does.
pub open spec fn post_stc_l_sgr_pre_dec_rn(o: Sh4Ctx, c: Sh4Ctx, op: u16, out: ExecOutcome) -> bool {
    let ni = field_n(op);
    let mi = field_m(op);
    let rn = o.r[ni];
    let rm = o.r[mi];
    store_dec_post(o, c, out, ni, rn.wrapping_add(0xFFFF_FFFC), 4, o.sgr as u64, wrap32(rn + 0xFFFF_FFFC))
}

fn exec_stc_l_sgr_pre_dec_rn(ctx: &mut Sh4Ctx, op: u16) -> (out: ExecOutcome)
    requires
        old(ctx).wf(),
    ensures
        final(ctx).wf(),
        final(ctx).remaining_cycles == old(ctx).remaining_cycles,
        post_stc_l_sgr_pre_dec_rn(*old(ctx), *final(ctx), op, out),
{
    let n = GetN(op);
    let rn0 = ctx.r[n];
    let a = rn0.wrapping_add(0xFFFF_FFFC);
    let d = ctx.sgr;
    if !sh4_write_mem32(ctx, a, d) {
        return ExecOutcome::Fault;
    }
    let mut nv: u32 = 0;
    sh4_addi(&mut nv, rn0, 0xFFFF_FFFC);
    ctx.r[n] = nv;
    ExecOutcome::Done
}

/// What `REIOS_OPCODE` does.
pub open spec fn post_reios_trap(o: Sh4Ctx, c: Sh4Ctx, op: u16, out: ExecOutcome) -> bool {
    let ni = field_n(op);
    let mi = field_m(op);
    let rn = o.r[ni];
    let rm = o.r[mi];
    out == ExecOutcome::BiosTrap && c == o
}

fn exec_reios_trap(ctx: &mut Sh4Ctx, op: u16) -> (out: ExecOutcome)
    requires
        old(ctx).wf(),
    ensures
        final(ctx).wf(),
        final(ctx).remaining_cycles == old(ctx).remaining_cycles,
        post_reios_trap(*old(ctx), *final(ctx), op, out),
{
    ExecOutcome::BiosTrap
}

/// What executing instruction `i` with opcode `op` does.
pub open spec fn spec_execute(i: Sh4Op, o: Sh4Ctx, c: Sh4Ctx, op: u16, out: ExecOutcome) -> bool {
    match i {
        Sh4Op::MulLRmRn => post_mul_l_rm_rn(o, c, op, out),
        Sh4Op::Nop => post_nop(o, c, op, out),
        Sh4Op::StsFpulRn => post_sts_fpul_rn(o, c, op, out),
        Sh4Op::StsMaclRn => post_sts_macl_rn(o, c, op, out),
        Sh4Op::MovBRmAtRn => post_mov_b_rm_at_rn(o, c, op, out),
        Sh4Op::MovWRmAtRn => post_mov_w_rm_at_rn(o, c, op, out),
        Sh4Op::MovLRmAtRn => post_mov_l_rm_at_rn(o, c, op, out),
        Sh4Op::AndRmRn => post_and_rm_rn(o, c, op, out),
        Sh4Op::XorRmRn => post_xor_rm_rn(o, c, op, out),
        Sh4Op::SubRmRn => post_sub_rm_rn(o, c, op, out),
        Sh4Op::AddRmRn => post_add_rm_rn(o, c, op, out),
        Sh4Op::DtRn => post_dt_rn(o, c, op, out),
        Sh4Op::ShlrRn => post_shlr_rn(o, c, op, out),
        Sh4Op::Shll8Rn => post_shll8_rn(o, c, op, out),
        Sh4Op::Shlr2Rn => post_shlr2_rn(o, c, op, out),
        Sh4Op::Shlr16Rn => post_shlr16_rn(o, c, op, out),
        Sh4Op::MovBAtRmRn => post_mov_b_at_rm_rn(o, c, op, out),
        Sh4Op::MovRmRn => post_mov_rm_rn(o, c, op, out),
        Sh4Op::NegRmRn => post_neg_rm_rn(o, c, op, out),
        Sh4Op::ExtuBRmRn => post_extu_b_rm_rn(o, c, op, out),
        Sh4Op::AddImmRn => post_add_imm_rn(o, c, op, out),
        Sh4Op::BfDisp => post_bf_disp(o, c, op, out),
        Sh4Op::BfSDisp => post_bf_s_disp(o, c, op, out),
        Sh4Op::BraDisp => post_bra_disp(o, c, op, out),
        Sh4Op::MovaAtPcDispR0 => post_mova_at_pc_disp_r0(o, c, op, out),
        Sh4Op::MovBR0AtDispRm => post_mov_b_r0_at_disp_rm(o, c, op, out),
        Sh4Op::MovWR0AtDispRm => post_mov_w_r0_at_disp_rm(o, c, op, out),
        Sh4Op::MovBAtDispRmR0 => post_mov_b_at_disp_rm_r0(o, c, op, out),
        Sh4Op::MovWAtDispRmR0 => post_mov_w_at_disp_rm_r0(o, c, op, out),
        Sh4Op::CmpEqImmR0 => post_cmp_eq_imm_r0(o, c, op, out),
        Sh4Op::MovLAtPcDispRn => post_mov_l_at_pc_disp_rn(o, c, op, out),
        Sh4Op::MovImmRn => post_mov_imm_rn(o, c, op, out),
        Sh4Op::FaddFmFn => post_fadd_fm_fn(o, c, op, out),
        Sh4Op::FsubFmFn => post_fsub_fm_fn(o, c, op, out),
        Sh4Op::FmulFmFn => post_fmul_fm_fn(o, c, op, out),
        Sh4Op::FdivFmFn => post_fdiv_fm_fn(o, c, op, out),
        Sh4Op::FmovSAtRmFn => post_fmov_s_at_rm_fn(o, c, op, out),
        Sh4Op::FmovFmFn => post_fmov_fm_fn(o, c, op, out),
        Sh4Op::FscaFpulDn => post_fsca_fpul_dn(o, c, op, out),
        Sh4Op::FloatFpulFn => post_float_fpul_fn(o, c, op, out),
        Sh4Op::FtrcFnFpul => post_ftrc_fn_fpul(o, c, op, out),
        Sh4Op::LdsRnFpul => post_lds_rn_fpul(o, c, op, out),
        Sh4Op::StcSrRn => post_stc_sr_rn(o, c, op, out),
        Sh4Op::StcGbrRn => post_stc_gbr_rn(o, c, op, out),
        Sh4Op::StcVbrRn => post_stc_vbr_rn(o, c, op, out),
        Sh4Op::StcSsrRn => post_stc_ssr_rn(o, c, op, out),
        Sh4Op::StsSgrRn => post_sts_sgr_rn(o, c, op, out),
        Sh4Op::StcSpcRn => post_stc_spc_rn(o, c, op, out),
        Sh4Op::StcRmBankRn => post_stc_rm_bank_rn(o, c, op, out),
        Sh4Op::BrafRn => post_braf_rn(o, c, op, out),
        Sh4Op::BsrfRn => post_bsrf_rn(o, c, op, out),
        Sh4Op::MovcaLR0AtRn => post_movca_l_r0_at_rn(o, c, op, out),
        Sh4Op::OcbiAtRn => post_ocbi_at_rn(o, c, op, out),
        Sh4Op::OcbpAtRn => post_ocbp_at_rn(o, c, op, out),
        Sh4Op::OcbwbAtRn => post_ocbwb_at_rn(o, c, op, out),
        Sh4Op::PrefAtRn => post_pref_at_rn(o, c, op, out),
        Sh4Op::MovBRmAtR0Rn => post_mov_b_rm_at_r0_rn(o, c, op, out),
        Sh4Op::MovWRmAtR0Rn => post_mov_w_rm_at_r0_rn(o, c, op, out),
        Sh4Op::MovLRmAtR0Rn => post_mov_l_rm_at_r0_rn(o, c, op, out),
        Sh4Op::Clrmac => post_clrmac(o, c, op, out),
        Sh4Op::Clrs => post_clrs(o, c, op, out),
        Sh4Op::Clrt => post_clrt(o, c, op, out),
        Sh4Op::Ldtlb => post_ldtlb(o, c, op, out),
        Sh4Op::Sets => post_sets(o, c, op, out),
        Sh4Op::Sett => post_sett(o, c, op, out),
        Sh4Op::Div0u => post_div0u(o, c, op, out),
        Sh4Op::MovtRn => post_movt_rn(o, c, op, out),
        Sh4Op::StsFpscrRn => post_sts_fpscr_rn(o, c, op, out),
        Sh4Op::StsDbrRn => post_sts_dbr_rn(o, c, op, out),
        Sh4Op::StsMachRn => post_sts_mach_rn(o, c, op, out),
        Sh4Op::Rte => post_rte(o, c, op, out),
        Sh4Op::Rts => post_rts(o, c, op, out),
        Sh4Op::Sleep => post_sleep(o, c, op, out),
        Sh4Op::MovBAtR0RmRn => post_mov_b_at_r0_rm_rn(o, c, op, out),
        Sh4Op::MovWAtR0RmRn => post_mov_w_at_r0_rm_rn(o, c, op, out),
        Sh4Op::MovLAtR0RmRn => post_mov_l_at_r0_rm_rn(o, c, op, out),
        Sh4Op::MacLAtRmPostIncAtRnPostInc => post_mac_l_at_rm_post_inc_at_rn_post_inc(o, c, op, out),
        Sh4Op::MovLRmAtDispRn => post_mov_l_rm_at_disp_rn(o, c, op, out),
        Sh4Op::MovBRmPreDecRn => post_mov_b_rm_pre_dec_rn(o, c, op, out),
        Sh4Op::MovWRmPreDecRn => post_mov_w_rm_pre_dec_rn(o, c, op, out),
        Sh4Op::MovLRmPreDecRn => post_mov_l_rm_pre_dec_rn(o, c, op, out),
        Sh4Op::Div0sRmRn => post_div0s_rm_rn(o, c, op, out),
        Sh4Op::TstRmRn => post_tst_rm_rn(o, c, op, out),
        Sh4Op::OrRmRn => post_or_rm_rn(o, c, op, out),
        Sh4Op::CmpStrRmRn => post_cmp_str_rm_rn(o, c, op, out),
        Sh4Op::XtrctRmRn => post_xtrct_rm_rn(o, c, op, out),
        Sh4Op::MuluWRmRn => post_mulu_w_rm_rn(o, c, op, out),
        Sh4Op::MulsWRmRn => post_muls_w_rm_rn(o, c, op, out),
        Sh4Op::CmpEqRmRn => post_cmp_eq_rm_rn(o, c, op, out),
        Sh4Op::CmpHsRmRn => post_cmp_hs_rm_rn(o, c, op, out),
        Sh4Op::CmpGeRmRn => post_cmp_ge_rm_rn(o, c, op, out),
        Sh4Op::Div1RmRn => post_div1_rm_rn(o, c, op, out),
        Sh4Op::DmuluLRmRn => post_dmulu_l_rm_rn(o, c, op, out),
        Sh4Op::CmpHiRmRn => post_cmp_hi_rm_rn(o, c, op, out),
        Sh4Op::CmpGtRmRn => post_cmp_gt_rm_rn(o, c, op, out),
        Sh4Op::SubcRmRn => post_subc_rm_rn(o, c, op, out),
        Sh4Op::SubvRmRn => post_subv_rm_rn(o, c, op, out),
        Sh4Op::DmulsLRmRn => post_dmuls_l_rm_rn(o, c, op, out),
        Sh4Op::AddcRmRn => post_addc_rm_rn(o, c, op, out),
        Sh4Op::AddvRmRn => post_addv_rm_rn(o, c, op, out),
        Sh4Op::StsLFpulPreDecRn => post_sts_l_fpul_pre_dec_rn(o, c, op, out),
        Sh4Op::StsLFpscrPreDecRn => post_sts_l_fpscr_pre_dec_rn(o, c, op, out),
        Sh4Op::StsLMachPreDecRn => post_sts_l_mach_pre_dec_rn(o, c, op, out),
        Sh4Op::StsLMaclPreDecRn => post_sts_l_macl_pre_dec_rn(o, c, op, out),
        Sh4Op::StsLPrPreDecRn => post_sts_l_pr_pre_dec_rn(o, c, op, out),
        Sh4Op::StcLDbrPreDecRn => post_stc_l_dbr_pre_dec_rn(o, c, op, out),
        Sh4Op::StcLSrPreDecRn => post_stc_l_sr_pre_dec_rn(o, c, op, out),
        Sh4Op::StcLGbrPreDecRn => post_stc_l_gbr_pre_dec_rn(o, c, op, out),
        Sh4Op::StcLVbrPreDecRn => post_stc_l_vbr_pre_dec_rn(o, c, op, out),
        Sh4Op::StcLSsrPreDecRn => post_stc_l_ssr_pre_dec_rn(o, c, op, out),
        Sh4Op::StcLSpcPreDecRn => post_stc_l_spc_pre_dec_rn(o, c, op, out),
        Sh4Op::StcRmBankPreDecRn => post_stc_rm_bank_pre_dec_rn(o, c, op, out),
        Sh4Op::LdsLAtRnPostIncMach => post_lds_l_at_rn_post_inc_mach(o, c, op, out),
        Sh4Op::LdsLAtRnPostIncMacl => post_lds_l_at_rn_post_inc_macl(o, c, op, out),
        Sh4Op::LdsLAtRnPostIncPr => post_lds_l_at_rn_post_inc_pr(o, c, op, out),
        Sh4Op::LdcLAtRnPostIncSgr => post_ldc_l_at_rn_post_inc_sgr(o, c, op, out),
        Sh4Op::LdsLAtRnPostIncFpul => post_lds_l_at_rn_post_inc_fpul(o, c, op, out),
        Sh4Op::LdsLAtRnPostIncFpscr => post_lds_l_at_rn_post_inc_fpscr(o, c, op, out),
        Sh4Op::LdcLAtRnPostIncDbr => post_ldc_l_at_rn_post_inc_dbr(o, c, op, out),
        Sh4Op::LdcLAtRnPostIncSr => post_ldc_l_at_rn_post_inc_sr(o, c, op, out),
        Sh4Op::LdcLAtRnPostIncGbr => post_ldc_l_at_rn_post_inc_gbr(o, c, op, out),
        Sh4Op::LdcLAtRnPostIncVbr => post_ldc_l_at_rn_post_inc_vbr(o, c, op, out),
        Sh4Op::LdcLAtRnPostIncSsr => post_ldc_l_at_rn_post_inc_ssr(o, c, op, out),
        Sh4Op::LdcLAtRnPostIncSpc => post_ldc_l_at_rn_post_inc_spc(o, c, op, out),
        Sh4Op::LdcLAtRnPostIncRmBank => post_ldc_l_at_rn_post_inc_rm_bank(o, c, op, out),
        Sh4Op::LdsRnMach => post_lds_rn_mach(o, c, op, out),
        Sh4Op::LdsRnMacl => post_lds_rn_macl(o, c, op, out),
        Sh4Op::LdsRnPr => post_lds_rn_pr(o, c, op, out),
        Sh4Op::LdsRnFpscr => post_lds_rn_fpscr(o, c, op, out),
        Sh4Op::LdcRnDbr => post_ldc_rn_dbr(o, c, op, out),
        Sh4Op::LdcRnSr => post_ldc_rn_sr(o, c, op, out),
        Sh4Op::LdcRnGbr => post_ldc_rn_gbr(o, c, op, out),
        Sh4Op::LdcRnVbr => post_ldc_rn_vbr(o, c, op, out),
        Sh4Op::LdcRnSsr => post_ldc_rn_ssr(o, c, op, out),
        Sh4Op::LdcRnSpc => post_ldc_rn_spc(o, c, op, out),
        Sh4Op::LdcRnRmBank => post_ldc_rn_rm_bank(o, c, op, out),
        Sh4Op::ShllRn => post_shll_rn(o, c, op, out),
        Sh4Op::ShalRn => post_shal_rn(o, c, op, out),
        Sh4Op::CmpPzRn => post_cmp_pz_rn(o, c, op, out),
        Sh4Op::SharRn => post_shar_rn(o, c, op, out),
        Sh4Op::RotclRn => post_rotcl_rn(o, c, op, out),
        Sh4Op::RotlRn => post_rotl_rn(o, c, op, out),
        Sh4Op::CmpPlRn => post_cmp_pl_rn(o, c, op, out),
        Sh4Op::RotcrRn => post_rotcr_rn(o, c, op, out),
        Sh4Op::RotrRn => post_rotr_rn(o, c, op, out),
        Sh4Op::Shll2Rn => post_shll2_rn(o, c, op, out),
        Sh4Op::Shll16Rn => post_shll16_rn(o, c, op, out),
        Sh4Op::Shlr8Rn => post_shlr8_rn(o, c, op, out),
        Sh4Op::JmpAtRn => post_jmp_at_rn(o, c, op, out),
        Sh4Op::JsrAtRn => post_jsr_at_rn(o, c, op, out),
        Sh4Op::TasBAtRn => post_tas_b_at_rn(o, c, op, out),
        Sh4Op::ShadRmRn => post_shad_rm_rn(o, c, op, out),
        Sh4Op::ShldRmRn => post_shld_rm_rn(o, c, op, out),
        Sh4Op::MacWAtRmPostIncAtRnPostInc => post_mac_w_at_rm_post_inc_at_rn_post_inc(o, c, op, out),
        Sh4Op::MovLAtDispRmRn => post_mov_l_at_disp_rm_rn(o, c, op, out),
        Sh4Op::MovWAtRmRn => post_mov_w_at_rm_rn(o, c, op, out),
        Sh4Op::MovLAtRmRn => post_mov_l_at_rm_rn(o, c, op, out),
        Sh4Op::MovBAtRmPostIncRn => post_mov_b_at_rm_post_inc_rn(o, c, op, out),
        Sh4Op::MovWAtRmPostIncRn => post_mov_w_at_rm_post_inc_rn(o, c, op, out),
        Sh4Op::MovLAtRmPostIncRn => post_mov_l_at_rm_post_inc_rn(o, c, op, out),
        Sh4Op::NotRmRn => post_not_rm_rn(o, c, op, out),
        Sh4Op::SwapBRmRn => post_swap_b_rm_rn(o, c, op, out),
        Sh4Op::SwapWRmRn => post_swap_w_rm_rn(o, c, op, out),
        Sh4Op::NegcRmRn => post_negc_rm_rn(o, c, op, out),
        Sh4Op::ExtuWRmRn => post_extu_w_rm_rn(o, c, op, out),
        Sh4Op::ExtsBRmRn => post_exts_b_rm_rn(o, c, op, out),
        Sh4Op::ExtsWRmRn => post_exts_w_rm_rn(o, c, op, out),
        Sh4Op::MovWAtPcDispRn => post_mov_w_at_pc_disp_rn(o, c, op, out),
        Sh4Op::BtDisp => post_bt_disp(o, c, op, out),
        Sh4Op::BtSDisp => post_bt_s_disp(o, c, op, out),
        Sh4Op::BsrDisp => post_bsr_disp(o, c, op, out),
        Sh4Op::MovBR0AtDispGbr => post_mov_b_r0_at_disp_gbr(o, c, op, out),
        Sh4Op::MovWR0AtDispGbr => post_mov_w_r0_at_disp_gbr(o, c, op, out),
        Sh4Op::MovLR0AtDispGbr => post_mov_l_r0_at_disp_gbr(o, c, op, out),
        Sh4Op::TrapaImm => post_trapa_imm(o, c, op, out),
        Sh4Op::MovBAtGbrDispR0 => post_mov_b_at_gbr_disp_r0(o, c, op, out),
        Sh4Op::MovWAtGbrDispR0 => post_mov_w_at_gbr_disp_r0(o, c, op, out),
        Sh4Op::MovLAtGbrDispR0 => post_mov_l_at_gbr_disp_r0(o, c, op, out),
        Sh4Op::TstImmR0 => post_tst_imm_r0(o, c, op, out),
        Sh4Op::AndImmR0 => post_and_imm_r0(o, c, op, out),
        Sh4Op::XorImmR0 => post_xor_imm_r0(o, c, op, out),
        Sh4Op::OrImmR0 => post_or_imm_r0(o, c, op, out),
        Sh4Op::TstBImmAtR0Gbr => post_tst_b_imm_at_r0_gbr(o, c, op, out),
        Sh4Op::AndBImmAtR0Gbr => post_and_b_imm_at_r0_gbr(o, c, op, out),
        Sh4Op::XorBImmAtR0Gbr => post_xor_b_imm_at_r0_gbr(o, c, op, out),
        Sh4Op::OrBImmAtR0Gbr => post_or_b_imm_at_r0_gbr(o, c, op, out),
        Sh4Op::FldsFnFpul => post_flds_fn_fpul(o, c, op, out),
        Sh4Op::FnegFn => post_fneg_fn(o, c, op, out),
        Sh4Op::FabsFn => post_fabs_fn(o, c, op, out),
        Sh4Op::FsqrtFn => post_fsqrt_fn(o, c, op, out),
        Sh4Op::Fldi0Fn => post_fldi0_fn(o, c, op, out),
        Sh4Op::Fldi1Fn => post_fldi1_fn(o, c, op, out),
        Sh4Op::FtrvXmtrxFvn => post_ftrv_xmtrx_fvn(o, c, op, out),
        Sh4Op::FcmpEqFmFn => post_fcmp_eq_fm_fn(o, c, op, out),
        Sh4Op::FcmpGtFmFn => post_fcmp_gt_fm_fn(o, c, op, out),
        Sh4Op::FmovSAtR0RmFn => post_fmov_s_at_r0_rm_fn(o, c, op, out),
        Sh4Op::FmovSFmAtR0Rn => post_fmov_s_fm_at_r0_rn(o, c, op, out),
        Sh4Op::FmovSAtRmPostIncFn => post_fmov_s_at_rm_post_inc_fn(o, c, op, out),
        Sh4Op::FmovSFmAtRn => post_fmov_s_fm_at_rn(o, c, op, out),
        Sh4Op::FmovSFmPreDecRn => post_fmov_s_fm_pre_dec_rn(o, c, op, out),
        Sh4Op::FcnvdsDnFpul => post_fcnvds_dn_fpul(o, c, op, out),
        Sh4Op::FcnvsdFpulDn => post_fcnvsd_fpul_dn(o, c, op, out),
        Sh4Op::FiprFvmFvn => post_fipr_fvm_fvn(o, c, op, out),
        Sh4Op::Frchg => post_frchg(o, c, op, out),
        Sh4Op::Fschg => post_fschg(o, c, op, out),
        Sh4Op::FstsFpulFn => post_fsts_fpul_fn(o, c, op, out),
        Sh4Op::FsrraFn => post_fsrra_fn(o, c, op, out),
        Sh4Op::FmacF0FmFn => post_fmac_f0_fm_fn(o, c, op, out),
        Sh4Op::StsPrRn => post_sts_pr_rn(o, c, op, out),
        Sh4Op::LdcRnSgr => post_ldc_rn_sgr(o, c, op, out),
        Sh4Op::StcLSgrPreDecRn => post_stc_l_sgr_pre_dec_rn(o, c, op, out),
        Sh4Op::ReiosTrap => post_reios_trap(o, c, op, out),
        Sh4Op::Unknown => out == ExecOutcome::Unknown && c == o,
    }
}

/// Executes instruction `i` with opcode `op` on the context. The pipeline
/// is not advanced here; branches set the later pipeline slots.
#[verifier::rlimit(100)]
pub fn execute(ctx: &mut Sh4Ctx, i: Sh4Op, op: u16) -> (out: ExecOutcome)
    requires
        old(ctx).wf(),
    ensures
        final(ctx).wf(),
        final(ctx).remaining_cycles == old(ctx).remaining_cycles,
        spec_execute(i, *old(ctx), *final(ctx), op, out),
{
    match i {
        Sh4Op::MulLRmRn => exec_mul_l_rm_rn(ctx, op),
        Sh4Op::Nop => exec_nop(ctx, op),
        Sh4Op::StsFpulRn => exec_sts_fpul_rn(ctx, op),
        Sh4Op::StsMaclRn => exec_sts_macl_rn(ctx, op),
        Sh4Op::MovBRmAtRn => exec_mov_b_rm_at_rn(ctx, op),
        Sh4Op::MovWRmAtRn => exec_mov_w_rm_at_rn(ctx, op),
        Sh4Op::MovLRmAtRn => exec_mov_l_rm_at_rn(ctx, op),
        Sh4Op::AndRmRn => exec_and_rm_rn(ctx, op),
        Sh4Op::XorRmRn => exec_xor_rm_rn(ctx, op),
        Sh4Op::SubRmRn => exec_sub_rm_rn(ctx, op),
        Sh4Op::AddRmRn => exec_add_rm_rn(ctx, op),
        Sh4Op::DtRn => exec_dt_rn(ctx, op),
        Sh4Op::ShlrRn => exec_shlr_rn(ctx, op),
        Sh4Op::Shll8Rn => exec_shll8_rn(ctx, op),
        Sh4Op::Shlr2Rn => exec_shlr2_rn(ctx, op),
        Sh4Op::Shlr16Rn => exec_shlr16_rn(ctx, op),
        Sh4Op::MovBAtRmRn => exec_mov_b_at_rm_rn(ctx, op),
        Sh4Op::MovRmRn => exec_mov_rm_rn(ctx, op),
        Sh4Op::NegRmRn => exec_neg_rm_rn(ctx, op),
        Sh4Op::ExtuBRmRn => exec_extu_b_rm_rn(ctx, op),
        Sh4Op::AddImmRn => exec_add_imm_rn(ctx, op),
        Sh4Op::BfDisp => exec_bf_disp(ctx, op),
        Sh4Op::BfSDisp => exec_bf_s_disp(ctx, op),
        Sh4Op::BraDisp => exec_bra_disp(ctx, op),
        Sh4Op::MovaAtPcDispR0 => exec_mova_at_pc_disp_r0(ctx, op),
        Sh4Op::MovBR0AtDispRm => exec_mov_b_r0_at_disp_rm(ctx, op),
        Sh4Op::MovWR0AtDispRm => exec_mov_w_r0_at_disp_rm(ctx, op),
        Sh4Op::MovBAtDispRmR0 => exec_mov_b_at_disp_rm_r0(ctx, op),
        Sh4Op::MovWAtDispRmR0 => exec_mov_w_at_disp_rm_r0(ctx, op),
        Sh4Op::CmpEqImmR0 => exec_cmp_eq_imm_r0(ctx, op),
        Sh4Op::MovLAtPcDispRn => exec_mov_l_at_pc_disp_rn(ctx, op),
        Sh4Op::MovImmRn => exec_mov_imm_rn(ctx, op),
        Sh4Op::FaddFmFn => exec_fadd_fm_fn(ctx, op),
        Sh4Op::FsubFmFn => exec_fsub_fm_fn(ctx, op),
        Sh4Op::FmulFmFn => exec_fmul_fm_fn(ctx, op),
        Sh4Op::FdivFmFn => exec_fdiv_fm_fn(ctx, op),
        Sh4Op::FmovSAtRmFn => exec_fmov_s_at_rm_fn(ctx, op),
        Sh4Op::FmovFmFn => exec_fmov_fm_fn(ctx, op),
        Sh4Op::FscaFpulDn => exec_fsca_fpul_dn(ctx, op),
        Sh4Op::FloatFpulFn => exec_float_fpul_fn(ctx, op),
        Sh4Op::FtrcFnFpul => exec_ftrc_fn_fpul(ctx, op),
        Sh4Op::LdsRnFpul => exec_lds_rn_fpul(ctx, op),
        Sh4Op::StcSrRn => exec_stc_sr_rn(ctx, op),
        Sh4Op::StcGbrRn => exec_stc_gbr_rn(ctx, op),
        Sh4Op::StcVbrRn => exec_stc_vbr_rn(ctx, op),
        Sh4Op::StcSsrRn => exec_stc_ssr_rn(ctx, op),
        Sh4Op::StsSgrRn => exec_sts_sgr_rn(ctx, op),
        Sh4Op::StcSpcRn => exec_stc_spc_rn(ctx, op),
        Sh4Op::StcRmBankRn => exec_stc_rm_bank_rn(ctx, op),
        Sh4Op::BrafRn => exec_braf_rn(ctx, op),
        Sh4Op::BsrfRn => exec_bsrf_rn(ctx, op),
        Sh4Op::MovcaLR0AtRn => exec_movca_l_r0_at_rn(ctx, op),
        Sh4Op::OcbiAtRn => exec_ocbi_at_rn(ctx, op),
        Sh4Op::OcbpAtRn => exec_ocbp_at_rn(ctx, op),
        Sh4Op::OcbwbAtRn => exec_ocbwb_at_rn(ctx, op),
        Sh4Op::PrefAtRn => exec_pref_at_rn(ctx, op),
        Sh4Op::MovBRmAtR0Rn => exec_mov_b_rm_at_r0_rn(ctx, op),
        Sh4Op::MovWRmAtR0Rn => exec_mov_w_rm_at_r0_rn(ctx, op),
        Sh4Op::MovLRmAtR0Rn => exec_mov_l_rm_at_r0_rn(ctx, op),
        Sh4Op::Clrmac => exec_clrmac(ctx, op),
        Sh4Op::Clrs => exec_clrs(ctx, op),
        Sh4Op::Clrt => exec_clrt(ctx, op),
        Sh4Op::Ldtlb => exec_ldtlb(ctx, op),
        Sh4Op::Sets => exec_sets(ctx, op),
        Sh4Op::Sett => exec_sett(ctx, op),
        Sh4Op::Div0u => exec_div0u(ctx, op),
        Sh4Op::MovtRn => exec_movt_rn(ctx, op),
        Sh4Op::StsFpscrRn => exec_sts_fpscr_rn(ctx, op),
        Sh4Op::StsDbrRn => exec_sts_dbr_rn(ctx, op),
        Sh4Op::StsMachRn => exec_sts_mach_rn(ctx, op),
        Sh4Op::Rte => exec_rte(ctx, op),
        Sh4Op::Rts => exec_rts(ctx, op),
        Sh4Op::Sleep => exec_sleep(ctx, op),
        Sh4Op::MovBAtR0RmRn => exec_mov_b_at_r0_rm_rn(ctx, op),
        Sh4Op::MovWAtR0RmRn => exec_mov_w_at_r0_rm_rn(ctx, op),
        Sh4Op::MovLAtR0RmRn => exec_mov_l_at_r0_rm_rn(ctx, op),
        Sh4Op::MacLAtRmPostIncAtRnPostInc => exec_mac_l_at_rm_post_inc_at_rn_post_inc(ctx, op),
        Sh4Op::MovLRmAtDispRn => exec_mov_l_rm_at_disp_rn(ctx, op),
        Sh4Op::MovBRmPreDecRn => exec_mov_b_rm_pre_dec_rn(ctx, op),
        Sh4Op::MovWRmPreDecRn => exec_mov_w_rm_pre_dec_rn(ctx, op),
        Sh4Op::MovLRmPreDecRn => exec_mov_l_rm_pre_dec_rn(ctx, op),
        Sh4Op::Div0sRmRn => exec_div0s_rm_rn(ctx, op),
        Sh4Op::TstRmRn => exec_tst_rm_rn(ctx, op),
        Sh4Op::OrRmRn => exec_or_rm_rn(ctx, op),
        Sh4Op::CmpStrRmRn => exec_cmp_str_rm_rn(ctx, op),
        Sh4Op::XtrctRmRn => exec_xtrct_rm_rn(ctx, op),
        Sh4Op::MuluWRmRn => exec_mulu_w_rm_rn(ctx, op),
        Sh4Op::MulsWRmRn => exec_muls_w_rm_rn(ctx, op),
        Sh4Op::CmpEqRmRn => exec_cmp_eq_rm_rn(ctx, op),
        Sh4Op::CmpHsRmRn => exec_cmp_hs_rm_rn(ctx, op),
        Sh4Op::CmpGeRmRn => exec_cmp_ge_rm_rn(ctx, op),
        Sh4Op::Div1RmRn => exec_div1_rm_rn(ctx, op),
        Sh4Op::DmuluLRmRn => exec_dmulu_l_rm_rn(ctx, op),
        Sh4Op::CmpHiRmRn => exec_cmp_hi_rm_rn(ctx, op),
        Sh4Op::CmpGtRmRn => exec_cmp_gt_rm_rn(ctx, op),
        Sh4Op::SubcRmRn => exec_subc_rm_rn(ctx, op),
        Sh4Op::SubvRmRn => exec_subv_rm_rn(ctx, op),
        Sh4Op::DmulsLRmRn => exec_dmuls_l_rm_rn(ctx, op),
        Sh4Op::AddcRmRn => exec_addc_rm_rn(ctx, op),
        Sh4Op::AddvRmRn => exec_addv_rm_rn(ctx, op),
        Sh4Op::StsLFpulPreDecRn => exec_sts_l_fpul_pre_dec_rn(ctx, op),
        Sh4Op::StsLFpscrPreDecRn => exec_sts_l_fpscr_pre_dec_rn(ctx, op),
        Sh4Op::StsLMachPreDecRn => exec_sts_l_mach_pre_dec_rn(ctx, op),
        Sh4Op::StsLMaclPreDecRn => exec_sts_l_macl_pre_dec_rn(ctx, op),
        Sh4Op::StsLPrPreDecRn => exec_sts_l_pr_pre_dec_rn(ctx, op),
        Sh4Op::StcLDbrPreDecRn => exec_stc_l_dbr_pre_dec_rn(ctx, op),
        Sh4Op::StcLSrPreDecRn => exec_stc_l_sr_pre_dec_rn(ctx, op),
        Sh4Op::StcLGbrPreDecRn => exec_stc_l_gbr_pre_dec_rn(ctx, op),
        Sh4Op::StcLVbrPreDecRn => exec_stc_l_vbr_pre_dec_rn(ctx, op),
        Sh4Op::StcLSsrPreDecRn => exec_stc_l_ssr_pre_dec_rn(ctx, op),
        Sh4Op::StcLSpcPreDecRn => exec_stc_l_spc_pre_dec_rn(ctx, op),
        Sh4Op::StcRmBankPreDecRn => exec_stc_rm_bank_pre_dec_rn(ctx, op),
        Sh4Op::LdsLAtRnPostIncMach => exec_lds_l_at_rn_post_inc_mach(ctx, op),
        Sh4Op::LdsLAtRnPostIncMacl => exec_lds_l_at_rn_post_inc_macl(ctx, op),
        Sh4Op::LdsLAtRnPostIncPr => exec_lds_l_at_rn_post_inc_pr(ctx, op),
        Sh4Op::LdcLAtRnPostIncSgr => exec_ldc_l_at_rn_post_inc_sgr(ctx, op),
        Sh4Op::LdsLAtRnPostIncFpul => exec_lds_l_at_rn_post_inc_fpul(ctx, op),
        Sh4Op::LdsLAtRnPostIncFpscr => exec_lds_l_at_rn_post_inc_fpscr(ctx, op),
        Sh4Op::LdcLAtRnPostIncDbr => exec_ldc_l_at_rn_post_inc_dbr(ctx, op),
        Sh4Op::LdcLAtRnPostIncSr => exec_ldc_l_at_rn_post_inc_sr(ctx, op),
        Sh4Op::LdcLAtRnPostIncGbr => exec_ldc_l_at_rn_post_inc_gbr(ctx, op),
        Sh4Op::LdcLAtRnPostIncVbr => exec_ldc_l_at_rn_post_inc_vbr(ctx, op),
        Sh4Op::LdcLAtRnPostIncSsr => exec_ldc_l_at_rn_post_inc_ssr(ctx, op),
        Sh4Op::LdcLAtRnPostIncSpc => exec_ldc_l_at_rn_post_inc_spc(ctx, op),
        Sh4Op::LdcLAtRnPostIncRmBank => exec_ldc_l_at_rn_post_inc_rm_bank(ctx, op),
        Sh4Op::LdsRnMach => exec_lds_rn_mach(ctx, op),
        Sh4Op::LdsRnMacl => exec_lds_rn_macl(ctx, op),
        Sh4Op::LdsRnPr => exec_lds_rn_pr(ctx, op),
        Sh4Op::LdsRnFpscr => exec_lds_rn_fpscr(ctx, op),
        Sh4Op::LdcRnDbr => exec_ldc_rn_dbr(ctx, op),
        Sh4Op::LdcRnSr => exec_ldc_rn_sr(ctx, op),
        Sh4Op::LdcRnGbr => exec_ldc_rn_gbr(ctx, op),
        Sh4Op::LdcRnVbr => exec_ldc_rn_vbr(ctx, op),
        Sh4Op::LdcRnSsr => exec_ldc_rn_ssr(ctx, op),
        Sh4Op::LdcRnSpc => exec_ldc_rn_spc(ctx, op),
        Sh4Op::LdcRnRmBank => exec_ldc_rn_rm_bank(ctx, op),
        Sh4Op::ShllRn => exec_shll_rn(ctx, op),
        Sh4Op::ShalRn => exec_shal_rn(ctx, op),
        Sh4Op::CmpPzRn => exec_cmp_pz_rn(ctx, op),
        Sh4Op::SharRn => exec_shar_rn(ctx, op),
        Sh4Op::RotclRn => exec_rotcl_rn(ctx, op),
        Sh4Op::RotlRn => exec_rotl_rn(ctx, op),
        Sh4Op::CmpPlRn => exec_cmp_pl_rn(ctx, op),
        Sh4Op::RotcrRn => exec_rotcr_rn(ctx, op),
        Sh4Op::RotrRn => exec_rotr_rn(ctx, op),
        Sh4Op::Shll2Rn => exec_shll2_rn(ctx, op),
        Sh4Op::Shll16Rn => exec_shll16_rn(ctx, op),
        Sh4Op::Shlr8Rn => exec_shlr8_rn(ctx, op),
        Sh4Op::JmpAtRn => exec_jmp_at_rn(ctx, op),
        Sh4Op::JsrAtRn => exec_jsr_at_rn(ctx, op),
        Sh4Op::TasBAtRn => exec_tas_b_at_rn(ctx, op),
        Sh4Op::ShadRmRn => exec_shad_rm_rn(ctx, op),
        Sh4Op::ShldRmRn => exec_shld_rm_rn(ctx, op),
        Sh4Op::MacWAtRmPostIncAtRnPostInc => exec_mac_w_at_rm_post_inc_at_rn_post_inc(ctx, op),
        Sh4Op::MovLAtDispRmRn => exec_mov_l_at_disp_rm_rn(ctx, op),
        Sh4Op::MovWAtRmRn => exec_mov_w_at_rm_rn(ctx, op),
        Sh4Op::MovLAtRmRn => exec_mov_l_at_rm_rn(ctx, op),
        Sh4Op::MovBAtRmPostIncRn => exec_mov_b_at_rm_post_inc_rn(ctx, op),
        Sh4Op::MovWAtRmPostIncRn => exec_mov_w_at_rm_post_inc_rn(ctx, op),
        Sh4Op::MovLAtRmPostIncRn => exec_mov_l_at_rm_post_inc_rn(ctx, op),
        Sh4Op::NotRmRn => exec_not_rm_rn(ctx, op),
        Sh4Op::SwapBRmRn => exec_swap_b_rm_rn(ctx, op),
        Sh4Op::SwapWRmRn => exec_swap_w_rm_rn(ctx, op),
        Sh4Op::NegcRmRn => exec_negc_rm_rn(ctx, op),
        Sh4Op::ExtuWRmRn => exec_extu_w_rm_rn(ctx, op),
        Sh4Op::ExtsBRmRn => exec_exts_b_rm_rn(ctx, op),
        Sh4Op::ExtsWRmRn => exec_exts_w_rm_rn(ctx, op),
        Sh4Op::MovWAtPcDispRn => exec_mov_w_at_pc_disp_rn(ctx, op),
        Sh4Op::BtDisp => exec_bt_disp(ctx, op),
        Sh4Op::BtSDisp => exec_bt_s_disp(ctx, op),
        Sh4Op::BsrDisp => exec_bsr_disp(ctx, op),
        Sh4Op::MovBR0AtDispGbr => exec_mov_b_r0_at_disp_gbr(ctx, op),
        Sh4Op::MovWR0AtDispGbr => exec_mov_w_r0_at_disp_gbr(ctx, op),
        Sh4Op::MovLR0AtDispGbr => exec_mov_l_r0_at_disp_gbr(ctx, op),
        Sh4Op::TrapaImm => exec_trapa_imm(ctx, op),
        Sh4Op::MovBAtGbrDispR0 => exec_mov_b_at_gbr_disp_r0(ctx, op),
        Sh4Op::MovWAtGbrDispR0 => exec_mov_w_at_gbr_disp_r0(ctx, op),
        Sh4Op::MovLAtGbrDispR0 => exec_mov_l_at_gbr_disp_r0(ctx, op),
        Sh4Op::TstImmR0 => exec_tst_imm_r0(ctx, op),
        Sh4Op::AndImmR0 => exec_and_imm_r0(ctx, op),
        Sh4Op::XorImmR0 => exec_xor_imm_r0(ctx, op),
        Sh4Op::OrImmR0 => exec_or_imm_r0(ctx, op),
        Sh4Op::TstBImmAtR0Gbr => exec_tst_b_imm_at_r0_gbr(ctx, op),
        Sh4Op::AndBImmAtR0Gbr => exec_and_b_imm_at_r0_gbr(ctx, op),
        Sh4Op::XorBImmAtR0Gbr => exec_xor_b_imm_at_r0_gbr(ctx, op),
        Sh4Op::OrBImmAtR0Gbr => exec_or_b_imm_at_r0_gbr(ctx, op),
        Sh4Op::FldsFnFpul => exec_flds_fn_fpul(ctx, op),
        Sh4Op::FnegFn => exec_fneg_fn(ctx, op),
        Sh4Op::FabsFn => exec_fabs_fn(ctx, op),
        Sh4Op::FsqrtFn => exec_fsqrt_fn(ctx, op),
        Sh4Op::Fldi0Fn => exec_fldi0_fn(ctx, op),
        Sh4Op::Fldi1Fn => exec_fldi1_fn(ctx, op),
        Sh4Op::FtrvXmtrxFvn => exec_ftrv_xmtrx_fvn(ctx, op),
        Sh4Op::FcmpEqFmFn => exec_fcmp_eq_fm_fn(ctx, op),
        Sh4Op::FcmpGtFmFn => exec_fcmp_gt_fm_fn(ctx, op),
        Sh4Op::FmovSAtR0RmFn => exec_fmov_s_at_r0_rm_fn(ctx, op),
        Sh4Op::FmovSFmAtR0Rn => exec_fmov_s_fm_at_r0_rn(ctx, op),
        Sh4Op::FmovSAtRmPostIncFn => exec_fmov_s_at_rm_post_inc_fn(ctx, op),
        Sh4Op::FmovSFmAtRn => exec_fmov_s_fm_at_rn(ctx, op),
        Sh4Op::FmovSFmPreDecRn => exec_fmov_s_fm_pre_dec_rn(ctx, op),
        Sh4Op::FcnvdsDnFpul => exec_fcnvds_dn_fpul(ctx, op),
        Sh4Op::FcnvsdFpulDn => exec_fcnvsd_fpul_dn(ctx, op),
        Sh4Op::FiprFvmFvn => exec_fipr_fvm_fvn(ctx, op),
        Sh4Op::Frchg => exec_frchg(ctx, op),
        Sh4Op::Fschg => exec_fschg(ctx, op),
        Sh4Op::FstsFpulFn => exec_fsts_fpul_fn(ctx, op),
        Sh4Op::FsrraFn => exec_fsrra_fn(ctx, op),
        Sh4Op::FmacF0FmFn => exec_fmac_f0_fm_fn(ctx, op),
        Sh4Op::StsPrRn => exec_sts_pr_rn(ctx, op),
        Sh4Op::LdcRnSgr => exec_ldc_rn_sgr(ctx, op),
        Sh4Op::StcLSgrPreDecRn => exec_stc_l_sgr_pre_dec_rn(ctx, op),
        Sh4Op::ReiosTrap => exec_reios_trap(ctx, op),
        Sh4Op::Unknown => ExecOutcome::Unknown,
    }
}

/// The assembly syntax of each instruction: its mnemonic and operands, with
/// the operand fields as placeholders.
pub open spec fn op_syntax(op: Sh4Op) -> Seq<char> {
    match op {
        Sh4Op::MulLRmRn => "mul.l <REG_M>,<REG_N>"@,
        Sh4Op::Nop => "nop"@,
        Sh4Op::StsFpulRn => "sts FPUL,<REG_N>"@,
        Sh4Op::StsMaclRn => "sts MACL,<REG_N>"@,
        Sh4Op::MovBRmAtRn => "mov.b <REG_M>,@<REG_N>"@,
        Sh4Op::MovWRmAtRn => "mov.w <REG_M>,@<REG_N>"@,
        Sh4Op::MovLRmAtRn => "mov.l <REG_M>,@<REG_N>"@,
        Sh4Op::AndRmRn => "and <REG_M>,<REG_N>"@,
        Sh4Op::XorRmRn => "xor <REG_M>,<REG_N>"@,
        Sh4Op::SubRmRn => "sub <REG_M>,<REG_N>"@,
        Sh4Op::AddRmRn => "add <REG_M>,<REG_N>"@,
        Sh4Op::DtRn => "dt <REG_N>"@,
        Sh4Op::ShlrRn => "shlr <REG_N>"@,
        Sh4Op::Shll8Rn => "shll8 <REG_N>"@,
        Sh4Op::Shlr2Rn => "shlr2 <REG_N>"@,
        Sh4Op::Shlr16Rn => "shlr16 <REG_N>"@,
        Sh4Op::MovBAtRmRn => "mov.b @<REG_M>,<REG_N>"@,
        Sh4Op::MovRmRn => "mov <REG_M>,<REG_N>"@,
        Sh4Op::NegRmRn => "neg <REG_M>,<REG_N>"@,
        Sh4Op::ExtuBRmRn => "extu.b <REG_M>,<REG_N>"@,
        Sh4Op::AddImmRn => "add #<simm8>,<REG_N>"@,
        Sh4Op::BfDisp => "bf <bdisp8>"@,
        Sh4Op::BfSDisp => "bf/s <bdisp8>"@,
        Sh4Op::BraDisp => "bra <bdisp12>"@,
        Sh4Op::MovaAtPcDispR0 => "mova @(<PCdisp8d>),R0"@,
        Sh4Op::MovBR0AtDispRm => "mov.b R0,@(<disp4b>,<REG_M>)"@,
        Sh4Op::MovWR0AtDispRm => "mov.w R0,@(<disp4w>,<REG_M>)"@,
        Sh4Op::MovBAtDispRmR0 => "mov.b @(<disp4b>,<REG_M>),R0"@,
        Sh4Op::MovWAtDispRmR0 => "mov.w @(<disp4w>,<REG_M>),R0"@,
        Sh4Op::CmpEqImmR0 => "cmp/eq #<simm8hex>,R0"@,
        Sh4Op::MovLAtPcDispRn => "mov.l @(<PCdisp8d>),<REG_N>"@,
        Sh4Op::MovImmRn => "mov #<simm8hex>,<REG_N>"@,
        Sh4Op::FaddFmFn => "fadd <FREG_M_SD_F>,<FREG_N_SD_F>"@,
        Sh4Op::FsubFmFn => "fsub <FREG_M_SD_F>,<FREG_N_SD_F>"@,
        Sh4Op::FmulFmFn => "fmul <FREG_M_SD_F>,<FREG_N_SD_F>"@,
        Sh4Op::FdivFmFn => "fdiv <FREG_M_SD_F>,<FREG_N_SD_F>"@,
        Sh4Op::FmovSAtRmFn => "fmov.s @<REG_M>,<FREG_N_SD_A>"@,
        Sh4Op::FmovFmFn => "fmov <FREG_M_SD_A>,<FREG_N_SD_A>"@,
        Sh4Op::FscaFpulDn => "fsca FPUL,<DR_N>"@,
        Sh4Op::FloatFpulFn => "float FPUL,<FREG_N_SD_F>"@,
        Sh4Op::FtrcFnFpul => "ftrc <FREG_N>,FPUL"@,
        Sh4Op::LdsRnFpul => "lds <REG_N>,FPUL"@,
        Sh4Op::StcSrRn => "stc SR,<REG_N>"@,
        Sh4Op::StcGbrRn => "stc GBR,<REG_N>"@,
        Sh4Op::StcVbrRn => "stc VBR,<REG_N>"@,
        Sh4Op::StcSsrRn => "stc SSR,<REG_N>"@,
        Sh4Op::StsSgrRn => "sts SGR,<REG_N>"@,
        Sh4Op::StcSpcRn => "stc SPC,<REG_N>"@,
        Sh4Op::StcRmBankRn => "stc RM_BANK,<REG_N>"@,
        Sh4Op::BrafRn => "braf <REG_N>"@,
        Sh4Op::BsrfRn => "bsrf <REG_N>"@,
        Sh4Op::MovcaLR0AtRn => "movca.l R0,@<REG_N>"@,
        Sh4Op::OcbiAtRn => "ocbi @<REG_N>"@,
        Sh4Op::OcbpAtRn => "ocbp @<REG_N>"@,
        Sh4Op::OcbwbAtRn => "ocbwb @<REG_N>"@,
        Sh4Op::PrefAtRn => "pref @<REG_N>"@,
        Sh4Op::MovBRmAtR0Rn => "mov.b <REG_M>,@(R0,<REG_N>)"@,
        Sh4Op::MovWRmAtR0Rn => "mov.w <REG_M>,@(R0,<REG_N>)"@,
        Sh4Op::MovLRmAtR0Rn => "mov.l <REG_M>,@(R0,<REG_N>)"@,
        Sh4Op::Clrmac => "clrmac"@,
        Sh4Op::Clrs => "clrs"@,
        Sh4Op::Clrt => "clrt"@,
        Sh4Op::Ldtlb => "ldtlb"@,
        Sh4Op::Sets => "sets"@,
        Sh4Op::Sett => "sett"@,
        Sh4Op::Div0u => "div0u"@,
        Sh4Op::MovtRn => "movt <REG_N>"@,
        Sh4Op::StsFpscrRn => "sts FPSCR,<REG_N>"@,
        Sh4Op::StsDbrRn => "sts DBR,<REG_N>"@,
        Sh4Op::StsMachRn => "sts MACH,<REG_N>"@,
        Sh4Op::Rte => "rte"@,
        Sh4Op::Rts => "rts"@,
        Sh4Op::Sleep => "sleep"@,
        Sh4Op::MovBAtR0RmRn => "mov.b @(R0,<REG_M>),<REG_N>"@,
        Sh4Op::MovWAtR0RmRn => "mov.w @(R0,<REG_M>),<REG_N>"@,
        Sh4Op::MovLAtR0RmRn => "mov.l @(R0,<REG_M>),<REG_N>"@,
        Sh4Op::MacLAtRmPostIncAtRnPostInc => "mac.l @<REG_M>+,@<REG_N>+"@,
        Sh4Op::MovLRmAtDispRn => "mov.l <REG_M>,@(<disp4dw>,<REG_N>)"@,
        Sh4Op::MovBRmPreDecRn => "mov.b <REG_M>,@-<REG_N>"@,
        Sh4Op::MovWRmPreDecRn => "mov.w <REG_M>,@-<REG_N>"@,
        Sh4Op::MovLRmPreDecRn => "mov.l <REG_M>,@-<REG_N>"@,
        Sh4Op::Div0sRmRn => "div0s <REG_M>,<REG_N>"@,
        Sh4Op::TstRmRn => "tst <REG_M>,<REG_N>"@,
        Sh4Op::OrRmRn => "or <REG_M>,<REG_N>"@,
        Sh4Op::CmpStrRmRn => "cmp/str <REG_M>,<REG_N>"@,
        Sh4Op::XtrctRmRn => "xtrct <REG_M>,<REG_N>"@,
        Sh4Op::MuluWRmRn => "mulu.w <REG_M>,<REG_N>"@,
        Sh4Op::MulsWRmRn => "muls.w <REG_M>,<REG_N>"@,
        Sh4Op::CmpEqRmRn => "cmp/eq <REG_M>,<REG_N>"@,
        Sh4Op::CmpHsRmRn => "cmp/hs <REG_M>,<REG_N>"@,
        Sh4Op::CmpGeRmRn => "cmp/ge <REG_M>,<REG_N>"@,
        Sh4Op::Div1RmRn => "div1 <REG_M>,<REG_N>"@,
        Sh4Op::DmuluLRmRn => "dmulu.l <REG_M>,<REG_N>"@,
        Sh4Op::CmpHiRmRn => "cmp/hi <REG_M>,<REG_N>"@,
        Sh4Op::CmpGtRmRn => "cmp/gt <REG_M>,<REG_N>"@,
        Sh4Op::SubcRmRn => "subc <REG_M>,<REG_N>"@,
        Sh4Op::SubvRmRn => "subv <REG_M>,<REG_N>"@,
        Sh4Op::DmulsLRmRn => "dmuls.l <REG_M>,<REG_N>"@,
        Sh4Op::AddcRmRn => "addc <REG_M>,<REG_N>"@,
        Sh4Op::AddvRmRn => "addv <REG_M>,<REG_N>"@,
        Sh4Op::StsLFpulPreDecRn => "sts.l FPUL,@-<REG_N>"@,
        Sh4Op::StsLFpscrPreDecRn => "sts.l FPSCR,@-<REG_N>"@,
        Sh4Op::StsLMachPreDecRn => "sts.l MACH,@-<REG_N>"@,
        Sh4Op::StsLMaclPreDecRn => "sts.l MACL,@-<REG_N>"@,
        Sh4Op::StsLPrPreDecRn => "sts.l PR,@-<REG_N>"@,
        Sh4Op::StcLDbrPreDecRn => "stc.l DBR,@-<REG_N>"@,
        Sh4Op::StcLSrPreDecRn => "stc.l SR,@-<REG_N>"@,
        Sh4Op::StcLGbrPreDecRn => "stc.l GBR,@-<REG_N>"@,
        Sh4Op::StcLVbrPreDecRn => "stc.l VBR,@-<REG_N>"@,
        Sh4Op::StcLSsrPreDecRn => "stc.l SSR,@-<REG_N>"@,
        Sh4Op::StcLSpcPreDecRn => "stc.l SPC,@-<REG_N>"@,
        Sh4Op::StcRmBankPreDecRn => "stc <RM_BANK>,@-<REG_N>"@,
        Sh4Op::LdsLAtRnPostIncMach => "lds.l @<REG_N>+,MACH"@,
        Sh4Op::LdsLAtRnPostIncMacl => "lds.l @<REG_N>+,MACL"@,
        Sh4Op::LdsLAtRnPostIncPr => "lds.l @<REG_N>+,PR"@,
        Sh4Op::LdcLAtRnPostIncSgr => "ldc.l @<REG_N>+,SGR"@,
        Sh4Op::LdsLAtRnPostIncFpul => "lds.l @<REG_N>+,FPUL"@,
        Sh4Op::LdsLAtRnPostIncFpscr => "lds.l @<REG_N>+,FPSCR"@,
        Sh4Op::LdcLAtRnPostIncDbr => "ldc.l @<REG_N>+,DBR"@,
        Sh4Op::LdcLAtRnPostIncSr => "ldc.l @<REG_N>+,SR"@,
        Sh4Op::LdcLAtRnPostIncGbr => "ldc.l @<REG_N>+,GBR"@,
        Sh4Op::LdcLAtRnPostIncVbr => "ldc.l @<REG_N>+,VBR"@,
        Sh4Op::LdcLAtRnPostIncSsr => "ldc.l @<REG_N>+,SSR"@,
        Sh4Op::LdcLAtRnPostIncSpc => "ldc.l @<REG_N>+,SPC"@,
        Sh4Op::LdcLAtRnPostIncRmBank => "ldc.l @<REG_N>+,RM_BANK"@,
        Sh4Op::LdsRnMach => "lds <REG_N>,MACH"@,
        Sh4Op::LdsRnMacl => "lds <REG_N>,MACL"@,
        Sh4Op::LdsRnPr => "lds <REG_N>,PR"@,
        Sh4Op::LdsRnFpscr => "lds <REG_N>,FPSCR"@,
        Sh4Op::LdcRnDbr => "ldc <REG_N>,DBR"@,
        Sh4Op::LdcRnSr => "ldc <REG_N>,SR"@,
        Sh4Op::LdcRnGbr => "ldc <REG_N>,GBR"@,
        Sh4Op::LdcRnVbr => "ldc <REG_N>,VBR"@,
        Sh4Op::LdcRnSsr => "ldc <REG_N>,SSR"@,
        Sh4Op::LdcRnSpc => "ldc <REG_N>,SPC"@,
        Sh4Op::LdcRnRmBank => "ldc <REG_N>,<RM_BANK>"@,
        Sh4Op::ShllRn => "shll <REG_N>"@,
        Sh4Op::ShalRn => "shal <REG_N>"@,
        Sh4Op::CmpPzRn => "cmp/pz <REG_N>"@,
        Sh4Op::SharRn => "shar <REG_N>"@,
        Sh4Op::RotclRn => "rotcl <REG_N>"@,
        Sh4Op::RotlRn => "rotl <REG_N>"@,
        Sh4Op::CmpPlRn => "cmp/pl <REG_N>"@,
        Sh4Op::RotcrRn => "rotcr <REG_N>"@,
        Sh4Op::RotrRn => "rotr <REG_N>"@,
        Sh4Op::Shll2Rn => "shll2 <REG_N>"@,
        Sh4Op::Shll16Rn => "shll16 <REG_N>"@,
        Sh4Op::Shlr8Rn => "shlr8 <REG_N>"@,
        Sh4Op::JmpAtRn => "jmp @<REG_N>"@,
        Sh4Op::JsrAtRn => "jsr @<REG_N>"@,
        Sh4Op::TasBAtRn => "tas.b @<REG_N>"@,
        Sh4Op::ShadRmRn => "shad <REG_M>,<REG_N>"@,
        Sh4Op::ShldRmRn => "shld <REG_M>,<REG_N>"@,
        Sh4Op::MacWAtRmPostIncAtRnPostInc => "mac.w @<REG_M>+,@<REG_N>+"@,
        Sh4Op::MovLAtDispRmRn => "mov.l @(<disp4dw>,<REG_M>),<REG_N>"@,
        Sh4Op::MovWAtRmRn => "mov.w @<REG_M>,<REG_N>"@,
        Sh4Op::MovLAtRmRn => "mov.l @<REG_M>,<REG_N>"@,
        Sh4Op::MovBAtRmPostIncRn => "mov.b @<REG_M>+,<REG_N>"@,
        Sh4Op::MovWAtRmPostIncRn => "mov.w @<REG_M>+,<REG_N>"@,
        Sh4Op::MovLAtRmPostIncRn => "mov.l @<REG_M>+,<REG_N>"@,
        Sh4Op::NotRmRn => "not <REG_M>,<REG_N>"@,
        Sh4Op::SwapBRmRn => "swap.b <REG_M>,<REG_N>"@,
        Sh4Op::SwapWRmRn => "swap.w <REG_M>,<REG_N>"@,
        Sh4Op::NegcRmRn => "negc <REG_M>,<REG_N>"@,
        Sh4Op::ExtuWRmRn => "extu.w <REG_M>,<REG_N>"@,
        Sh4Op::ExtsBRmRn => "exts.b <REG_M>,<REG_N>"@,
        Sh4Op::ExtsWRmRn => "exts.w <REG_M>,<REG_N>"@,
        Sh4Op::MovWAtPcDispRn => "mov.w @(<PCdisp8w>),<REG_N>"@,
        Sh4Op::BtDisp => "bt <bdisp8>"@,
        Sh4Op::BtSDisp => "bt/s <bdisp8>"@,
        Sh4Op::BsrDisp => "bsr <bdisp12>"@,
        Sh4Op::MovBR0AtDispGbr => "mov.b R0,@(<disp8b>,GBR)"@,
        Sh4Op::MovWR0AtDispGbr => "mov.w R0,@(<disp8w>,GBR)"@,
        Sh4Op::MovLR0AtDispGbr => "mov.l R0,@(<disp8dw>,GBR)"@,
        Sh4Op::TrapaImm => "trapa #<imm8>"@,
        Sh4Op::MovBAtGbrDispR0 => "mov.b @(<GBRdisp8b>),R0"@,
        Sh4Op::MovWAtGbrDispR0 => "mov.w @(<GBRdisp8w>),R0"@,
        Sh4Op::MovLAtGbrDispR0 => "mov.l @(<GBRdisp8dw>),R0"@,
        Sh4Op::TstImmR0 => "tst #<imm8>,R0"@,
        Sh4Op::AndImmR0 => "and #<imm8>,R0"@,
        Sh4Op::XorImmR0 => "xor #<imm8>,R0"@,
        Sh4Op::OrImmR0 => "or #<imm8>,R0"@,
        Sh4Op::TstBImmAtR0Gbr => "tst.b #<imm8>,@(R0,GBR)"@,
        Sh4Op::AndBImmAtR0Gbr => "and.b #<imm8>,@(R0,GBR)"@,
        Sh4Op::XorBImmAtR0Gbr => "xor.b #<imm8>,@(R0,GBR)"@,
        Sh4Op::OrBImmAtR0Gbr => "or.b #<imm8>,@(R0,GBR)"@,
        Sh4Op::FldsFnFpul => "flds <FREG_N>,FPUL"@,
        Sh4Op::FnegFn => "fneg <FREG_N_SD_F>"@,
        Sh4Op::FabsFn => "fabs <FREG_N_SD_F>"@,
        Sh4Op::FsqrtFn => "fsqrt <FREG_N>"@,
        Sh4Op::Fldi0Fn => "fldi0 <FREG_N>"@,
        Sh4Op::Fldi1Fn => "fldi1 <FREG_N>"@,
        Sh4Op::FtrvXmtrxFvn => "ftrv xmtrx,<FV_N>"@,
        Sh4Op::FcmpEqFmFn => "fcmp/eq <FREG_M_SD_F>,<FREG_N_SD_F>"@,
        Sh4Op::FcmpGtFmFn => "fcmp/gt <FREG_M_SD_F>,<FREG_N_SD_F>"@,
        Sh4Op::FmovSAtR0RmFn => "fmov.s @(R0,<REG_M>),<FREG_N_SD_A>"@,
        Sh4Op::FmovSFmAtR0Rn => "fmov.s <FREG_M_SD_A>,@(R0,<REG_N>)"@,
        Sh4Op::FmovSAtRmPostIncFn => "fmov.s @<REG_M>+,<FREG_N_SD_A>"@,
        Sh4Op::FmovSFmAtRn => "fmov.s <FREG_M_SD_A>,@<REG_N>"@,
        Sh4Op::FmovSFmPreDecRn => "fmov.s <FREG_M_SD_A>,@-<REG_N>"@,
        Sh4Op::FcnvdsDnFpul => "fcnvds <DR_N>,FPUL"@,
        Sh4Op::FcnvsdFpulDn => "fcnvsd FPUL,<DR_N>"@,
        Sh4Op::FiprFvmFvn => "fipr <FV_M>,<FV_N>"@,
        Sh4Op::Frchg => "frchg"@,
        Sh4Op::Fschg => "fschg"@,
        Sh4Op::FstsFpulFn => "fsts FPUL,<FREG_N>"@,
        Sh4Op::FsrraFn => "fsrra <FREG_N>"@,
        Sh4Op::FmacF0FmFn => "fmac <FREG_0>,<FREG_M>,<FREG_N>"@,
        Sh4Op::StsPrRn => "sts PR,<REG_N>"@,
        Sh4Op::LdcRnSgr => "ldc <REG_N>,SGR"@,
        Sh4Op::StcLSgrPreDecRn => "stc.l SGR,@-<REG_N>"@,
        Sh4Op::ReiosTrap => "REIOS_OPCODE"@,
        _ => Seq::empty(),
    }
}

#[verifier::rlimit(60)]
proof fn lemma_entries_match_syntax_0()
    ensures
        forall|i: int| 0 <= i < 10 ==> #[trigger] op_syntax(op_at(i)) == template_at(i)@,
{
    assert(op_syntax(op_at(0)) == template_at(0)@);
    assert(op_syntax(op_at(1)) == template_at(1)@);
    assert(op_syntax(op_at(2)) == template_at(2)@);
    assert(op_syntax(op_at(3)) == template_at(3)@);
    assert(op_syntax(op_at(4)) == template_at(4)@);
    assert(op_syntax(op_at(5)) == template_at(5)@);
    assert(op_syntax(op_at(6)) == template_at(6)@);
    assert(op_syntax(op_at(7)) == template_at(7)@);
    assert(op_syntax(op_at(8)) == template_at(8)@);
    assert(op_syntax(op_at(9)) == template_at(9)@);
}

#[verifier::rlimit(60)]
proof fn lemma_entries_match_syntax_10()
    ensures
        forall|i: int| 10 <= i < 20 ==> #[trigger] op_syntax(op_at(i)) == template_at(i)@,
{
    assert(op_syntax(op_at(10)) == template_at(10)@);
    assert(op_syntax(op_at(11)) == template_at(11)@);
    assert(op_syntax(op_at(12)) == template_at(12)@);
    assert(op_syntax(op_at(13)) == template_at(13)@);
    assert(op_syntax(op_at(14)) == template_at(14)@);
    assert(op_syntax(op_at(15)) == template_at(15)@);
    assert(op_syntax(op_at(16)) == template_at(16)@);
    assert(op_syntax(op_at(17)) == template_at(17)@);
    assert(op_syntax(op_at(18)) == template_at(18)@);
    assert(op_syntax(op_at(19)) == template_at(19)@);
}

#[verifier::rlimit(60)]
proof fn lemma_entries_match_syntax_20()
    ensures
        forall|i: int| 20 <= i < 30 ==> #[trigger] op_syntax(op_at(i)) == template_at(i)@,
{
    assert(op_syntax(op_at(20)) == template_at(20)@);
    assert(op_syntax(op_at(21)) == template_at(21)@);
    assert(op_syntax(op_at(22)) == template_at(22)@);
    assert(op_syntax(op_at(23)) == template_at(23)@);
    assert(op_syntax(op_at(24)) == template_at(24)@);
    assert(op_syntax(op_at(25)) == template_at(25)@);
    assert(op_syntax(op_at(26)) == template_at(26)@);
    assert(op_syntax(op_at(27)) == template_at(27)@);
    assert(op_syntax(op_at(28)) == template_at(28)@);
    assert(op_syntax(op_at(29)) == template_at(29)@);
}

#[verifier::rlimit(60)]
proof fn lemma_entries_match_syntax_30()
    ensures
        forall|i: int| 30 <= i < 40 ==> #[trigger] op_syntax(op_at(i)) == template_at(i)@,
{
    assert(op_syntax(op_at(30)) == template_at(30)@);
    assert(op_syntax(op_at(31)) == template_at(31)@);
    assert(op_syntax(op_at(32)) == template_at(32)@);
    assert(op_syntax(op_at(33)) == template_at(33)@);
    assert(op_syntax(op_at(34)) == template_at(34)@);
    assert(op_syntax(op_at(35)) == template_at(35)@);
    assert(op_syntax(op_at(36)) == template_at(36)@);
    assert(op_syntax(op_at(37)) == template_at(37)@);
    assert(op_syntax(op_at(38)) == template_at(38)@);
    assert(op_syntax(op_at(39)) == template_at(39)@);
}

#[verifier::rlimit(60)]
proof fn lemma_entries_match_syntax_40()
    ensures
        forall|i: int| 40 <= i < 50 ==> #[trigger] op_syntax(op_at(i)) == template_at(i)@,
{
    assert(op_syntax(op_at(40)) == template_at(40)@);
    assert(op_syntax(op_at(41)) == template_at(41)@);
    assert(op_syntax(op_at(42)) == template_at(42)@);
    assert(op_syntax(op_at(43)) == template_at(43)@);
    assert(op_syntax(op_at(44)) == template_at(44)@);
    assert(op_syntax(op_at(45)) == template_at(45)@);
    assert(op_syntax(op_at(46)) == template_at(46)@);
    assert(op_syntax(op_at(47)) == template_at(47)@);
    assert(op_syntax(op_at(48)) == template_at(48)@);
    assert(op_syntax(op_at(49)) == template_at(49)@);
}

#[verifier::rlimit(60)]
proof fn lemma_entries_match_syntax_50()
    ensures
        forall|i: int| 50 <= i < 60 ==> #[trigger] op_syntax(op_at(i)) == template_at(i)@,
{
    assert(op_syntax(op_at(50)) == template_at(50)@);
    assert(op_syntax(op_at(51)) == template_at(51)@);
    assert(op_syntax(op_at(52)) == template_at(52)@);
    assert(op_syntax(op_at(53)) == template_at(53)@);
    assert(op_syntax(op_at(54)) == template_at(54)@);
    assert(op_syntax(op_at(55)) == template_at(55)@);
    assert(op_syntax(op_at(56)) == template_at(56)@);
    assert(op_syntax(op_at(57)) == template_at(57)@);
    assert(op_syntax(op_at(58)) == template_at(58)@);
    assert(op_syntax(op_at(59)) == template_at(59)@);
}

#[verifier::rlimit(60)]
proof fn lemma_entries_match_syntax_60()
    ensures
        forall|i: int| 60 <= i < 70 ==> #[trigger] op_syntax(op_at(i)) == template_at(i)@,
{
    assert(op_syntax(op_at(60)) == template_at(60)@);
    assert(op_syntax(op_at(61)) == template_at(61)@);
    assert(op_syntax(op_at(62)) == template_at(62)@);
    assert(op_syntax(op_at(63)) == template_at(63)@);
    assert(op_syntax(op_at(64)) == template_at(64)@);
    assert(op_syntax(op_at(65)) == template_at(65)@);
    assert(op_syntax(op_at(66)) == template_at(66)@);
    assert(op_syntax(op_at(67)) == template_at(67)@);
    assert(op_syntax(op_at(68)) == template_at(68)@);
    assert(op_syntax(op_at(69)) == template_at(69)@);
}

#[verifier::rlimit(60)]
proof fn lemma_entries_match_syntax_70()
    ensures
        forall|i: int| 70 <= i < 80 ==> #[trigger] op_syntax(op_at(i)) == template_at(i)@,
{
    assert(op_syntax(op_at(70)) == template_at(70)@);
    assert(op_syntax(op_at(71)) == template_at(71)@);
    assert(op_syntax(op_at(72)) == template_at(72)@);
    assert(op_syntax(op_at(73)) == template_at(73)@);
    assert(op_syntax(op_at(74)) == template_at(74)@);
    assert(op_syntax(op_at(75)) == template_at(75)@);
    assert(op_syntax(op_at(76)) == template_at(76)@);
    assert(op_syntax(op_at(77)) == template_at(77)@);
    assert(op_syntax(op_at(78)) == template_at(78)@);
    assert(op_syntax(op_at(79)) == template_at(79)@);
}

#[verifier::rlimit(60)]
proof fn lemma_entries_match_syntax_80()
    ensures
        forall|i: int| 80 <= i < 90 ==> #[trigger] op_syntax(op_at(i)) == template_at(i)@,
{
    assert(op_syntax(op_at(80)) == template_at(80)@);
    assert(op_syntax(op_at(81)) == template_at(81)@);
    assert(op_syntax(op_at(82)) == template_at(82)@);
    assert(op_syntax(op_at(83)) == template_at(83)@);
    assert(op_syntax(op_at(84)) == template_at(84)@);
    assert(op_syntax(op_at(85)) == template_at(85)@);
    assert(op_syntax(op_at(86)) == template_at(86)@);
    assert(op_syntax(op_at(87)) == template_at(87)@);
    assert(op_syntax(op_at(88)) == template_at(88)@);
    assert(op_syntax(op_at(89)) == template_at(89)@);
}

#[verifier::rlimit(60)]
proof fn lemma_entries_match_syntax_90()
    ensures
        forall|i: int| 90 <= i < 100 ==> #[trigger] op_syntax(op_at(i)) == template_at(i)@,
{
    assert(op_syntax(op_at(90)) == template_at(90)@);
    assert(op_syntax(op_at(91)) == template_at(91)@);
    assert(op_syntax(op_at(92)) == template_at(92)@);
    assert(op_syntax(op_at(93)) == template_at(93)@);
    assert(op_syntax(op_at(94)) == template_at(94)@);
    assert(op_syntax(op_at(95)) == template_at(95)@);
    assert(op_syntax(op_at(96)) == template_at(96)@);
    assert(op_syntax(op_at(97)) == template_at(97)@);
    assert(op_syntax(op_at(98)) == template_at(98)@);
    assert(op_syntax(op_at(99)) == template_at(99)@);
}

#[verifier::rlimit(60)]
proof fn lemma_entries_match_syntax_100()
    ensures
        forall|i: int| 100 <= i < 110 ==> #[trigger] op_syntax(op_at(i)) == template_at(i)@,
{
    assert(op_syntax(op_at(100)) == template_at(100)@);
    assert(op_syntax(op_at(101)) == template_at(101)@);
    assert(op_syntax(op_at(102)) == template_at(102)@);
    assert(op_syntax(op_at(103)) == template_at(103)@);
    assert(op_syntax(op_at(104)) == template_at(104)@);
    assert(op_syntax(op_at(105)) == template_at(105)@);
    assert(op_syntax(op_at(106)) == template_at(106)@);
    assert(op_syntax(op_at(107)) == template_at(107)@);
    assert(op_syntax(op_at(108)) == template_at(108)@);
    assert(op_syntax(op_at(109)) == template_at(109)@);
}

#[verifier::rlimit(60)]
proof fn lemma_entries_match_syntax_110()
    ensures
        forall|i: int| 110 <= i < 120 ==> #[trigger] op_syntax(op_at(i)) == template_at(i)@,
{
    assert(op_syntax(op_at(110)) == template_at(110)@);
    assert(op_syntax(op_at(111)) == template_at(111)@);
    assert(op_syntax(op_at(112)) == template_at(112)@);
    assert(op_syntax(op_at(113)) == template_at(113)@);
    assert(op_syntax(op_at(114)) == template_at(114)@);
    assert(op_syntax(op_at(115)) == template_at(115)@);
    assert(op_syntax(op_at(116)) == template_at(116)@);
    assert(op_syntax(op_at(117)) == template_at(117)@);
    assert(op_syntax(op_at(118)) == template_at(118)@);
    assert(op_syntax(op_at(119)) == template_at(119)@);
}

#[verifier::rlimit(60)]
proof fn lemma_entries_match_syntax_120()
    ensures
        forall|i: int| 120 <= i < 130 ==> #[trigger] op_syntax(op_at(i)) == template_at(i)@,
{
    assert(op_syntax(op_at(120)) == template_at(120)@);
    assert(op_syntax(op_at(121)) == template_at(121)@);
    assert(op_syntax(op_at(122)) == template_at(122)@);
    assert(op_syntax(op_at(123)) == template_at(123)@);
    assert(op_syntax(op_at(124)) == template_at(124)@);
    assert(op_syntax(op_at(125)) == template_at(125)@);
    assert(op_syntax(op_at(126)) == template_at(126)@);
    assert(op_syntax(op_at(127)) == template_at(127)@);
    assert(op_syntax(op_at(128)) == template_at(128)@);
    assert(op_syntax(op_at(129)) == template_at(129)@);
}

#[verifier::rlimit(60)]
proof fn lemma_entries_match_syntax_130()
    ensures
        forall|i: int| 130 <= i < 140 ==> #[trigger] op_syntax(op_at(i)) == template_at(i)@,
{
    assert(op_syntax(op_at(130)) == template_at(130)@);
    assert(op_syntax(op_at(131)) == template_at(131)@);
    assert(op_syntax(op_at(132)) == template_at(132)@);
    assert(op_syntax(op_at(133)) == template_at(133)@);
    assert(op_syntax(op_at(134)) == template_at(134)@);
    assert(op_syntax(op_at(135)) == template_at(135)@);
    assert(op_syntax(op_at(136)) == template_at(136)@);
    assert(op_syntax(op_at(137)) == template_at(137)@);
    assert(op_syntax(op_at(138)) == template_at(138)@);
    assert(op_syntax(op_at(139)) == template_at(139)@);
}

#[verifier::rlimit(60)]
proof fn lemma_entries_match_syntax_140()
    ensures
        forall|i: int| 140 <= i < 150 ==> #[trigger] op_syntax(op_at(i)) == template_at(i)@,
{
    assert(op_syntax(op_at(140)) == template_at(140)@);
    assert(op_syntax(op_at(141)) == template_at(141)@);
    assert(op_syntax(op_at(142)) == template_at(142)@);
    assert(op_syntax(op_at(143)) == template_at(143)@);
    assert(op_syntax(op_at(144)) == template_at(144)@);
    assert(op_syntax(op_at(145)) == template_at(145)@);
    assert(op_syntax(op_at(146)) == template_at(146)@);
    assert(op_syntax(op_at(147)) == template_at(147)@);
    assert(op_syntax(op_at(148)) == template_at(148)@);
    assert(op_syntax(op_at(149)) == template_at(149)@);
}

#[verifier::rlimit(60)]
proof fn lemma_entries_match_syntax_150()
    ensures
        forall|i: int| 150 <= i < 160 ==> #[trigger] op_syntax(op_at(i)) == template_at(i)@,
{
    assert(op_syntax(op_at(150)) == template_at(150)@);
    assert(op_syntax(op_at(151)) == template_at(151)@);
    assert(op_syntax(op_at(152)) == template_at(152)@);
    assert(op_syntax(op_at(153)) == template_at(153)@);
    assert(op_syntax(op_at(154)) == template_at(154)@);
    assert(op_syntax(op_at(155)) == template_at(155)@);
    assert(op_syntax(op_at(156)) == template_at(156)@);
    assert(op_syntax(op_at(157)) == template_at(157)@);
    assert(op_syntax(op_at(158)) == template_at(158)@);
    assert(op_syntax(op_at(159)) == template_at(159)@);
}

#[verifier::rlimit(60)]
proof fn lemma_entries_match_syntax_160()
    ensures
        forall|i: int| 160 <= i < 170 ==> #[trigger] op_syntax(op_at(i)) == template_at(i)@,
{
    assert(op_syntax(op_at(160)) == template_at(160)@);
    assert(op_syntax(op_at(161)) == template_at(161)@);
    assert(op_syntax(op_at(162)) == template_at(162)@);
    assert(op_syntax(op_at(163)) == template_at(163)@);
    assert(op_syntax(op_at(164)) == template_at(164)@);
    assert(op_syntax(op_at(165)) == template_at(165)@);
    assert(op_syntax(op_at(166)) == template_at(166)@);
    assert(op_syntax(op_at(167)) == template_at(167)@);
    assert(op_syntax(op_at(168)) == template_at(168)@);
    assert(op_syntax(op_at(169)) == template_at(169)@);
}

#[verifier::rlimit(60)]
proof fn lemma_entries_match_syntax_170()
    ensures
        forall|i: int| 170 <= i < 180 ==> #[trigger] op_syntax(op_at(i)) == template_at(i)@,
{
    assert(op_syntax(op_at(170)) == template_at(170)@);
    assert(op_syntax(op_at(171)) == template_at(171)@);
    assert(op_syntax(op_at(172)) == template_at(172)@);
    assert(op_syntax(op_at(173)) == template_at(173)@);
    assert(op_syntax(op_at(174)) == template_at(174)@);
    assert(op_syntax(op_at(175)) == template_at(175)@);
    assert(op_syntax(op_at(176)) == template_at(176)@);
    assert(op_syntax(op_at(177)) == template_at(177)@);
    assert(op_syntax(op_at(178)) == template_at(178)@);
    assert(op_syntax(op_at(179)) == template_at(179)@);
}

#[verifier::rlimit(60)]
proof fn lemma_entries_match_syntax_180()
    ensures
        forall|i: int| 180 <= i < 190 ==> #[trigger] op_syntax(op_at(i)) == template_at(i)@,
{
    assert(op_syntax(op_at(180)) == template_at(180)@);
    assert(op_syntax(op_at(181)) == template_at(181)@);
    assert(op_syntax(op_at(182)) == template_at(182)@);
    assert(op_syntax(op_at(183)) == template_at(183)@);
    assert(op_syntax(op_at(184)) == template_at(184)@);
    assert(op_syntax(op_at(185)) == template_at(185)@);
    assert(op_syntax(op_at(186)) == template_at(186)@);
    assert(op_syntax(op_at(187)) == template_at(187)@);
    assert(op_syntax(op_at(188)) == template_at(188)@);
    assert(op_syntax(op_at(189)) == template_at(189)@);
}

#[verifier::rlimit(60)]
proof fn lemma_entries_match_syntax_190()
    ensures
        forall|i: int| 190 <= i < 200 ==> #[trigger] op_syntax(op_at(i)) == template_at(i)@,
{
    assert(op_syntax(op_at(190)) == template_at(190)@);
    assert(op_syntax(op_at(191)) == template_at(191)@);
    assert(op_syntax(op_at(192)) == template_at(192)@);
    assert(op_syntax(op_at(193)) == template_at(193)@);
    assert(op_syntax(op_at(194)) == template_at(194)@);
    assert(op_syntax(op_at(195)) == template_at(195)@);
    assert(op_syntax(op_at(196)) == template_at(196)@);
    assert(op_syntax(op_at(197)) == template_at(197)@);
    assert(op_syntax(op_at(198)) == template_at(198)@);
    assert(op_syntax(op_at(199)) == template_at(199)@);
}

#[verifier::rlimit(60)]
proof fn lemma_entries_match_syntax_200()
    ensures
        forall|i: int| 200 <= i < 210 ==> #[trigger] op_syntax(op_at(i)) == template_at(i)@,
{
    assert(op_syntax(op_at(200)) == template_at(200)@);
    assert(op_syntax(op_at(201)) == template_at(201)@);
    assert(op_syntax(op_at(202)) == template_at(202)@);
    assert(op_syntax(op_at(203)) == template_at(203)@);
    assert(op_syntax(op_at(204)) == template_at(204)@);
    assert(op_syntax(op_at(205)) == template_at(205)@);
    assert(op_syntax(op_at(206)) == template_at(206)@);
    assert(op_syntax(op_at(207)) == template_at(207)@);
    assert(op_syntax(op_at(208)) == template_at(208)@);
    assert(op_syntax(op_at(209)) == template_at(209)@);
}

#[verifier::rlimit(60)]
proof fn lemma_entries_match_syntax_210()
    ensures
        forall|i: int| 210 <= i < 212 ==> #[trigger] op_syntax(op_at(i)) == template_at(i)@,
{
    assert(op_syntax(op_at(210)) == template_at(210)@);
    assert(op_syntax(op_at(211)) == template_at(211)@);
}

/// Every entry of the opcode table carries the instruction that its
/// template names: the assembly syntax of the entry's instruction is the
/// entry's disassembly template (and no two instructions share a syntax),
/// so an entry that ran another instruction than its mnemonic says would
/// break this.
pub proof fn lemma_entries_match_syntax()
    ensures
        forall|i: int| 0 <= i < NUM_OPCODE_ENTRIES - 1 ==> #[trigger] op_syntax(opcode_table()[i].op) == opcode_table()[i].diss@,
{
    lemma_entries_match_syntax_0();
    lemma_entries_match_syntax_10();
    lemma_entries_match_syntax_20();
    lemma_entries_match_syntax_30();
    lemma_entries_match_syntax_40();
    lemma_entries_match_syntax_50();
    lemma_entries_match_syntax_60();
    lemma_entries_match_syntax_70();
    lemma_entries_match_syntax_80();
    lemma_entries_match_syntax_90();
    lemma_entries_match_syntax_100();
    lemma_entries_match_syntax_110();
    lemma_entries_match_syntax_120();
    lemma_entries_match_syntax_130();
    lemma_entries_match_syntax_140();
    lemma_entries_match_syntax_150();
    lemma_entries_match_syntax_160();
    lemma_entries_match_syntax_170();
    lemma_entries_match_syntax_180();
    lemma_entries_match_syntax_190();
    lemma_entries_match_syntax_200();
    lemma_entries_match_syntax_210();
    assert forall|i: int| 0 <= i < NUM_OPCODE_ENTRIES - 1 implies #[trigger] op_syntax(opcode_table()[i].op) == opcode_table()[i].diss@ by {
        assert(opcode_table()[i] == table_entry(i));
        assert(op_syntax(op_at(i)) == template_at(i)@);
    }
}

/// The encoding of each instruction: its opcode pattern, fixed bits as `0`
/// and `1` and operand fields as letters.
pub open spec fn op_encoding(op: Sh4Op) -> Seq<char> {
    match op {
        Sh4Op::MulLRmRn => "i0000_nnnn_mmmm_0111"@,
        Sh4Op::Nop => "i0000_0000_0000_1001"@,
        Sh4Op::StsFpulRn => "i0000_nnnn_0101_1010"@,
        Sh4Op::StsMaclRn => "i0000_nnnn_0001_1010"@,
        Sh4Op::MovBRmAtRn => "i0010_nnnn_mmmm_0000"@,
        Sh4Op::MovWRmAtRn => "i0010_nnnn_mmmm_0001"@,
        Sh4Op::MovLRmAtRn => "i0010_nnnn_mmmm_0010"@,
        Sh4Op::AndRmRn => "i0010_nnnn_mmmm_1001"@,
        Sh4Op::XorRmRn => "i0010_nnnn_mmmm_1010"@,
        Sh4Op::SubRmRn => "i0011_nnnn_mmmm_1000"@,
        Sh4Op::AddRmRn => "i0011_nnnn_mmmm_1100"@,
        Sh4Op::DtRn => "i0100_nnnn_0001_0000"@,
        Sh4Op::ShlrRn => "i0100_nnnn_0000_0001"@,
        Sh4Op::Shll8Rn => "i0100_nnnn_0001_1000"@,
        Sh4Op::Shlr2Rn => "i0100_nnnn_0000_1001"@,
        Sh4Op::Shlr16Rn => "i0100_nnnn_0010_1001"@,
        Sh4Op::MovBAtRmRn => "i0110_nnnn_mmmm_0000"@,
        Sh4Op::MovRmRn => "i0110_nnnn_mmmm_0011"@,
        Sh4Op::NegRmRn => "i0110_nnnn_mmmm_1011"@,
        Sh4Op::ExtuBRmRn => "i0110_nnnn_mmmm_1100"@,
        Sh4Op::AddImmRn => "i0111_nnnn_iiii_iiii"@,
        Sh4Op::BfDisp => "i1000_1011_iiii_iiii"@,
        Sh4Op::BfSDisp => "i1000_1111_iiii_iiii"@,
        Sh4Op::BraDisp => "i1010_iiii_iiii_iiii"@,
        Sh4Op::MovaAtPcDispR0 => "i1100_0111_iiii_iiii"@,
        Sh4Op::MovBR0AtDispRm => "i1000_0000_mmmm_iiii"@,
        Sh4Op::MovWR0AtDispRm => "i1000_0001_mmmm_iiii"@,
        Sh4Op::MovBAtDispRmR0 => "i1000_0100_mmmm_iiii"@,
        Sh4Op::MovWAtDispRmR0 => "i1000_0101_mmmm_iiii"@,
        Sh4Op::CmpEqImmR0 => "i1000_1000_iiii_iiii"@,
        Sh4Op::MovLAtPcDispRn => "i1101_nnnn_iiii_iiii"@,
        Sh4Op::MovImmRn => "i1110_nnnn_iiii_iiii"@,
        Sh4Op::FaddFmFn => "i1111_nnnn_mmmm_0000"@,
        Sh4Op::FsubFmFn => "i1111_nnnn_mmmm_0001"@,
        Sh4Op::FmulFmFn => "i1111_nnnn_mmmm_0010"@,
        Sh4Op::FdivFmFn => "i1111_nnnn_mmmm_0011"@,
        Sh4Op::FmovSAtRmFn => "i1111_nnnn_mmmm_1000"@,
        Sh4Op::FmovFmFn => "i1111_nnnn_mmmm_1100"@,
        Sh4Op::FscaFpulDn => "i1111_nnn0_1111_1101"@,
        Sh4Op::FloatFpulFn => "i1111_nnnn_0010_1101"@,
        Sh4Op::FtrcFnFpul => "i1111_nnnn_0011_1101"@,
        Sh4Op::LdsRnFpul => "i0100_nnnn_0101_1010"@,
        Sh4Op::StcSrRn => "i0000_nnnn_0000_0010"@,
        Sh4Op::StcGbrRn => "i0000_nnnn_0001_0010"@,
        Sh4Op::StcVbrRn => "i0000_nnnn_0010_0010"@,
        Sh4Op::StcSsrRn => "i0000_nnnn_0011_0010"@,
        Sh4Op::StsSgrRn => "i0000_nnnn_0011_1010"@,
        Sh4Op::StcSpcRn => "i0000_nnnn_0100_0010"@,
        Sh4Op::StcRmBankRn => "i0000_nnnn_1mmm_0010"@,
        Sh4Op::BrafRn => "i0000_nnnn_0010_0011"@,
        Sh4Op::BsrfRn => "i0000_nnnn_0000_0011"@,
        Sh4Op::MovcaLR0AtRn => "i0000_nnnn_1100_0011"@,
        Sh4Op::OcbiAtRn => "i0000_nnnn_1001_0011"@,
        Sh4Op::OcbpAtRn => "i0000_nnnn_1010_0011"@,
        Sh4Op::OcbwbAtRn => "i0000_nnnn_1011_0011"@,
        Sh4Op::PrefAtRn => "i0000_nnnn_1000_0011"@,
        Sh4Op::MovBRmAtR0Rn => "i0000_nnnn_mmmm_0100"@,
        Sh4Op::MovWRmAtR0Rn => "i0000_nnnn_mmmm_0101"@,
        Sh4Op::MovLRmAtR0Rn => "i0000_nnnn_mmmm_0110"@,
        Sh4Op::Clrmac => "i0000_0000_0010_1000"@,
        Sh4Op::Clrs => "i0000_0000_0100_1000"@,
        Sh4Op::Clrt => "i0000_0000_0000_1000"@,
        Sh4Op::Ldtlb => "i0000_0000_0011_1000"@,
        Sh4Op::Sets => "i0000_0000_0101_1000"@,
        Sh4Op::Sett => "i0000_0000_0001_1000"@,
        Sh4Op::Div0u => "i0000_0000_0001_1001"@,
        Sh4Op::MovtRn => "i0000_nnnn_0010_1001"@,
        Sh4Op::StsFpscrRn => "i0000_nnnn_0110_1010"@,
        Sh4Op::StsDbrRn => "i0000_nnnn_1111_1010"@,
        Sh4Op::StsMachRn => "i0000_nnnn_0000_1010"@,
        Sh4Op::Rte => "i0000_0000_0010_1011"@,
        Sh4Op::Rts => "i0000_0000_0000_1011"@,
        Sh4Op::Sleep => "i0000_0000_0001_1011"@,
        Sh4Op::MovBAtR0RmRn => "i0000_nnnn_mmmm_1100"@,
        Sh4Op::MovWAtR0RmRn => "i0000_nnnn_mmmm_1101"@,
        Sh4Op::MovLAtR0RmRn => "i0000_nnnn_mmmm_1110"@,
        Sh4Op::MacLAtRmPostIncAtRnPostInc => "i0000_nnnn_mmmm_1111"@,
        Sh4Op::MovLRmAtDispRn => "i0001_nnnn_mmmm_iiii"@,
        Sh4Op::MovBRmPreDecRn => "i0010_nnnn_mmmm_0100"@,
        Sh4Op::MovWRmPreDecRn => "i0010_nnnn_mmmm_0101"@,
        Sh4Op::MovLRmPreDecRn => "i0010_nnnn_mmmm_0110"@,
        Sh4Op::Div0sRmRn => "i0010_nnnn_mmmm_0111"@,
        Sh4Op::TstRmRn => "i0010_nnnn_mmmm_1000"@,
        Sh4Op::OrRmRn => "i0010_nnnn_mmmm_1011"@,
        Sh4Op::CmpStrRmRn => "i0010_nnnn_mmmm_1100"@,
        Sh4Op::XtrctRmRn => "i0010_nnnn_mmmm_1101"@,
        Sh4Op::MuluWRmRn => "i0010_nnnn_mmmm_1110"@,
        Sh4Op::MulsWRmRn => "i0010_nnnn_mmmm_1111"@,
        Sh4Op::CmpEqRmRn => "i0011_nnnn_mmmm_0000"@,
        Sh4Op::CmpHsRmRn => "i0011_nnnn_mmmm_0010"@,
        Sh4Op::CmpGeRmRn => "i0011_nnnn_mmmm_0011"@,
        Sh4Op::Div1RmRn => "i0011_nnnn_mmmm_0100"@,
        Sh4Op::DmuluLRmRn => "i0011_nnnn_mmmm_0101"@,
        Sh4Op::CmpHiRmRn => "i0011_nnnn_mmmm_0110"@,
        Sh4Op::CmpGtRmRn => "i0011_nnnn_mmmm_0111"@,
        Sh4Op::SubcRmRn => "i0011_nnnn_mmmm_1010"@,
        Sh4Op::SubvRmRn => "i0011_nnnn_mmmm_1011"@,
        Sh4Op::DmulsLRmRn => "i0011_nnnn_mmmm_1101"@,
        Sh4Op::AddcRmRn => "i0011_nnnn_mmmm_1110"@,
        Sh4Op::AddvRmRn => "i0011_nnnn_mmmm_1111"@,
        Sh4Op::StsLFpulPreDecRn => "i0100_nnnn_0101_0010"@,
        Sh4Op::StsLFpscrPreDecRn => "i0100_nnnn_0110_0010"@,
        Sh4Op::StsLMachPreDecRn => "i0100_nnnn_0000_0010"@,
        Sh4Op::StsLMaclPreDecRn => "i0100_nnnn_0001_0010"@,
        Sh4Op::StsLPrPreDecRn => "i0100_nnnn_0010_0010"@,
        Sh4Op::StcLDbrPreDecRn => "i0100_nnnn_1111_0010"@,
        Sh4Op::StcLSrPreDecRn => "i0100_nnnn_0000_0011"@,
        Sh4Op::StcLGbrPreDecRn => "i0100_nnnn_0001_0011"@,
        Sh4Op::StcLVbrPreDecRn => "i0100_nnnn_0010_0011"@,
        Sh4Op::StcLSsrPreDecRn => "i0100_nnnn_0011_0011"@,
        Sh4Op::StcLSpcPreDecRn => "i0100_nnnn_0100_0011"@,
        Sh4Op::StcRmBankPreDecRn => "i0100_nnnn_1mmm_0011"@,
        Sh4Op::LdsLAtRnPostIncMach => "i0100_nnnn_0000_0110"@,
        Sh4Op::LdsLAtRnPostIncMacl => "i0100_nnnn_0001_0110"@,
        Sh4Op::LdsLAtRnPostIncPr => "i0100_nnnn_0010_0110"@,
        Sh4Op::LdcLAtRnPostIncSgr => "i0100_nnnn_0011_0110"@,
        Sh4Op::LdsLAtRnPostIncFpul => "i0100_nnnn_0101_0110"@,
        Sh4Op::LdsLAtRnPostIncFpscr => "i0100_nnnn_0110_0110"@,
        Sh4Op::LdcLAtRnPostIncDbr => "i0100_nnnn_1111_0110"@,
        Sh4Op::LdcLAtRnPostIncSr => "i0100_nnnn_0000_0111"@,
        Sh4Op::LdcLAtRnPostIncGbr => "i0100_nnnn_0001_0111"@,
        Sh4Op::LdcLAtRnPostIncVbr => "i0100_nnnn_0010_0111"@,
        Sh4Op::LdcLAtRnPostIncSsr => "i0100_nnnn_0011_0111"@,
        Sh4Op::LdcLAtRnPostIncSpc => "i0100_nnnn_0100_0111"@,
        Sh4Op::LdcLAtRnPostIncRmBank => "i0100_nnnn_1mmm_0111"@,
        Sh4Op::LdsRnMach => "i0100_nnnn_0000_1010"@,
        Sh4Op::LdsRnMacl => "i0100_nnnn_0001_1010"@,
        Sh4Op::LdsRnPr => "i0100_nnnn_0010_1010"@,
        Sh4Op::LdsRnFpscr => "i0100_nnnn_0110_1010"@,
        Sh4Op::LdcRnDbr => "i0100_nnnn_1111_1010"@,
        Sh4Op::LdcRnSr => "i0100_nnnn_0000_1110"@,
        Sh4Op::LdcRnGbr => "i0100_nnnn_0001_1110"@,
        Sh4Op::LdcRnVbr => "i0100_nnnn_0010_1110"@,
        Sh4Op::LdcRnSsr => "i0100_nnnn_0011_1110"@,
        Sh4Op::LdcRnSpc => "i0100_nnnn_0100_1110"@,
        Sh4Op::LdcRnRmBank => "i0100_nnnn_1mmm_1110"@,
        Sh4Op::ShllRn => "i0100_nnnn_0000_0000"@,
        Sh4Op::ShalRn => "i0100_nnnn_0010_0000"@,
        Sh4Op::CmpPzRn => "i0100_nnnn_0001_0001"@,
        Sh4Op::SharRn => "i0100_nnnn_0010_0001"@,
        Sh4Op::RotclRn => "i0100_nnnn_0010_0100"@,
        Sh4Op::RotlRn => "i0100_nnnn_0000_0100"@,
        Sh4Op::CmpPlRn => "i0100_nnnn_0001_0101"@,
        Sh4Op::RotcrRn => "i0100_nnnn_0010_0101"@,
        Sh4Op::RotrRn => "i0100_nnnn_0000_0101"@,
        Sh4Op::Shll2Rn => "i0100_nnnn_0000_1000"@,
        Sh4Op::Shll16Rn => "i0100_nnnn_0010_1000"@,
        Sh4Op::Shlr8Rn => "i0100_nnnn_0001_1001"@,
        Sh4Op::JmpAtRn => "i0100_nnnn_0010_1011"@,
        Sh4Op::JsrAtRn => "i0100_nnnn_0000_1011"@,
        Sh4Op::TasBAtRn => "i0100_nnnn_0001_1011"@,
        Sh4Op::ShadRmRn => "i0100_nnnn_mmmm_1100"@,
        Sh4Op::ShldRmRn => "i0100_nnnn_mmmm_1101"@,
        Sh4Op::MacWAtRmPostIncAtRnPostInc => "i0100_nnnn_mmmm_1111"@,
        Sh4Op::MovLAtDispRmRn => "i0101_nnnn_mmmm_iiii"@,
        Sh4Op::MovWAtRmRn => "i0110_nnnn_mmmm_0001"@,
        Sh4Op::MovLAtRmRn => "i0110_nnnn_mmmm_0010"@,
        Sh4Op::MovBAtRmPostIncRn => "i0110_nnnn_mmmm_0100"@,
        Sh4Op::MovWAtRmPostIncRn => "i0110_nnnn_mmmm_0101"@,
        Sh4Op::MovLAtRmPostIncRn => "i0110_nnnn_mmmm_0110"@,
        Sh4Op::NotRmRn => "i0110_nnnn_mmmm_0111"@,
        Sh4Op::SwapBRmRn => "i0110_nnnn_mmmm_1000"@,
        Sh4Op::SwapWRmRn => "i0110_nnnn_mmmm_1001"@,
        Sh4Op::NegcRmRn => "i0110_nnnn_mmmm_1010"@,
        Sh4Op::ExtuWRmRn => "i0110_nnnn_mmmm_1101"@,
        Sh4Op::ExtsBRmRn => "i0110_nnnn_mmmm_1110"@,
        Sh4Op::ExtsWRmRn => "i0110_nnnn_mmmm_1111"@,
        Sh4Op::MovWAtPcDispRn => "i1001_nnnn_iiii_iiii"@,
        Sh4Op::BtDisp => "i1000_1001_iiii_iiii"@,
        Sh4Op::BtSDisp => "i1000_1101_iiii_iiii"@,
        Sh4Op::BsrDisp => "i1011_iiii_iiii_iiii"@,
        Sh4Op::MovBR0AtDispGbr => "i1100_0000_iiii_iiii"@,
        Sh4Op::MovWR0AtDispGbr => "i1100_0001_iiii_iiii"@,
        Sh4Op::MovLR0AtDispGbr => "i1100_0010_iiii_iiii"@,
        Sh4Op::TrapaImm => "i1100_0011_iiii_iiii"@,
        Sh4Op::MovBAtGbrDispR0 => "i1100_0100_iiii_iiii"@,
        Sh4Op::MovWAtGbrDispR0 => "i1100_0101_iiii_iiii"@,
        Sh4Op::MovLAtGbrDispR0 => "i1100_0110_iiii_iiii"@,
        Sh4Op::TstImmR0 => "i1100_1000_iiii_iiii"@,
        Sh4Op::AndImmR0 => "i1100_1001_iiii_iiii"@,
        Sh4Op::XorImmR0 => "i1100_1010_iiii_iiii"@,
        Sh4Op::OrImmR0 => "i1100_1011_iiii_iiii"@,
        Sh4Op::TstBImmAtR0Gbr => "i1100_1100_iiii_iiii"@,
        Sh4Op::AndBImmAtR0Gbr => "i1100_1101_iiii_iiii"@,
        Sh4Op::XorBImmAtR0Gbr => "i1100_1110_iiii_iiii"@,
        Sh4Op::OrBImmAtR0Gbr => "i1100_1111_iiii_iiii"@,
        Sh4Op::FldsFnFpul => "i1111_nnnn_0001_1101"@,
        Sh4Op::FnegFn => "i1111_nnnn_0100_1101"@,
        Sh4Op::FabsFn => "i1111_nnnn_0101_1101"@,
        Sh4Op::FsqrtFn => "i1111_nnnn_0110_1101"@,
        Sh4Op::Fldi0Fn => "i1111_nnnn_1000_1101"@,
        Sh4Op::Fldi1Fn => "i1111_nnnn_1001_1101"@,
        Sh4Op::FtrvXmtrxFvn => "i1111_nn01_1111_1101"@,
        Sh4Op::FcmpEqFmFn => "i1111_nnnn_mmmm_0100"@,
        Sh4Op::FcmpGtFmFn => "i1111_nnnn_mmmm_0101"@,
        Sh4Op::FmovSAtR0RmFn => "i1111_nnnn_mmmm_0110"@,
        Sh4Op::FmovSFmAtR0Rn => "i1111_nnnn_mmmm_0111"@,
        Sh4Op::FmovSAtRmPostIncFn => "i1111_nnnn_mmmm_1001"@,
        Sh4Op::FmovSFmAtRn => "i1111_nnnn_mmmm_1010"@,
        Sh4Op::FmovSFmPreDecRn => "i1111_nnnn_mmmm_1011"@,
        Sh4Op::FcnvdsDnFpul => "i1111_nnnn_1011_1101"@,
        Sh4Op::FcnvsdFpulDn => "i1111_nnnn_1010_1101"@,
        Sh4Op::FiprFvmFvn => "i1111_nnmm_1110_1101"@,
        Sh4Op::Frchg => "i1111_1011_1111_1101"@,
        Sh4Op::Fschg => "i1111_0011_1111_1101"@,
        Sh4Op::FstsFpulFn => "i1111_nnnn_0000_1101"@,
        Sh4Op::FsrraFn => "i1111_nnnn_0111_1101"@,
        Sh4Op::FmacF0FmFn => "i1111_nnnn_mmmm_1110"@,
        Sh4Op::StsPrRn => "i0000_nnnn_0010_1010"@,
        Sh4Op::LdcRnSgr => "i0100_nnnn_0011_1010"@,
        Sh4Op::StcLSgrPreDecRn => "i0100_nnnn_0011_0010"@,
        Sh4Op::ReiosTrap => "i0000_1000_0101_1011"@,
        _ => Seq::empty(),
    }
}

#[verifier::rlimit(60)]
proof fn lemma_entries_match_encoding_0()
    ensures
        forall|i: int| 0 <= i < 10 ==> #[trigger] op_encoding(op_at(i)) == pattern_at(i)@,
{
    assert(op_encoding(op_at(0)) == pattern_at(0)@);
    assert(op_encoding(op_at(1)) == pattern_at(1)@);
    assert(op_encoding(op_at(2)) == pattern_at(2)@);
    assert(op_encoding(op_at(3)) == pattern_at(3)@);
    assert(op_encoding(op_at(4)) == pattern_at(4)@);
    assert(op_encoding(op_at(5)) == pattern_at(5)@);
    assert(op_encoding(op_at(6)) == pattern_at(6)@);
    assert(op_encoding(op_at(7)) == pattern_at(7)@);
    assert(op_encoding(op_at(8)) == pattern_at(8)@);
    assert(op_encoding(op_at(9)) == pattern_at(9)@);
}

#[verifier::rlimit(60)]
proof fn lemma_entries_match_encoding_10()
    ensures
        forall|i: int| 10 <= i < 20 ==> #[trigger] op_encoding(op_at(i)) == pattern_at(i)@,
{
    assert(op_encoding(op_at(10)) == pattern_at(10)@);
    assert(op_encoding(op_at(11)) == pattern_at(11)@);
    assert(op_encoding(op_at(12)) == pattern_at(12)@);
    assert(op_encoding(op_at(13)) == pattern_at(13)@);
    assert(op_encoding(op_at(14)) == pattern_at(14)@);
    assert(op_encoding(op_at(15)) == pattern_at(15)@);
    assert(op_encoding(op_at(16)) == pattern_at(16)@);
    assert(op_encoding(op_at(17)) == pattern_at(17)@);
    assert(op_encoding(op_at(18)) == pattern_at(18)@);
    assert(op_encoding(op_at(19)) == pattern_at(19)@);
}

#[verifier::rlimit(60)]
proof fn lemma_entries_match_encoding_20()
    ensures
        forall|i: int| 20 <= i < 30 ==> #[trigger] op_encoding(op_at(i)) == pattern_at(i)@,
{
    assert(op_encoding(op_at(20)) == pattern_at(20)@);
    assert(op_encoding(op_at(21)) == pattern_at(21)@);
    assert(op_encoding(op_at(22)) == pattern_at(22)@);
    assert(op_encoding(op_at(23)) == pattern_at(23)@);
    assert(op_encoding(op_at(24)) == pattern_at(24)@);
    assert(op_encoding(op_at(25)) == pattern_at(25)@);
    assert(op_encoding(op_at(26)) == pattern_at(26)@);
    assert(op_encoding(op_at(27)) == pattern_at(27)@);
    assert(op_encoding(op_at(28)) == pattern_at(28)@);
    assert(op_encoding(op_at(29)) == pattern_at(29)@);
}

#[verifier::rlimit(60)]
proof fn lemma_entries_match_encoding_30()
    ensures
        forall|i: int| 30 <= i < 40 ==> #[trigger] op_encoding(op_at(i)) == pattern_at(i)@,
{
    assert(op_encoding(op_at(30)) == pattern_at(30)@);
    assert(op_encoding(op_at(31)) == pattern_at(31)@);
    assert(op_encoding(op_at(32)) == pattern_at(32)@);
    assert(op_encoding(op_at(33)) == pattern_at(33)@);
    assert(op_encoding(op_at(34)) == pattern_at(34)@);
    assert(op_encoding(op_at(35)) == pattern_at(35)@);
    assert(op_encoding(op_at(36)) == pattern_at(36)@);
    assert(op_encoding(op_at(37)) == pattern_at(37)@);
    assert(op_encoding(op_at(38)) == pattern_at(38)@);
    assert(op_encoding(op_at(39)) == pattern_at(39)@);
}

#[verifier::rlimit(60)]
proof fn lemma_entries_match_encoding_40()
    ensures
        forall|i: int| 40 <= i < 50 ==> #[trigger] op_encoding(op_at(i)) == pattern_at(i)@,
{
    assert(op_encoding(op_at(40)) == pattern_at(40)@);
    assert(op_encoding(op_at(41)) == pattern_at(41)@);
    assert(op_encoding(op_at(42)) == pattern_at(42)@);
    assert(op_encoding(op_at(43)) == pattern_at(43)@);
    assert(op_encoding(op_at(44)) == pattern_at(44)@);
    assert(op_encoding(op_at(45)) == pattern_at(45)@);
    assert(op_encoding(op_at(46)) == pattern_at(46)@);
    assert(op_encoding(op_at(47)) == pattern_at(47)@);
    assert(op_encoding(op_at(48)) == pattern_at(48)@);
    assert(op_encoding(op_at(49)) == pattern_at(49)@);
}

#[verifier::rlimit(60)]
proof fn lemma_entries_match_encoding_50()
    ensures
        forall|i: int| 50 <= i < 60 ==> #[trigger] op_encoding(op_at(i)) == pattern_at(i)@,
{
    assert(op_encoding(op_at(50)) == pattern_at(50)@);
    assert(op_encoding(op_at(51)) == pattern_at(51)@);
    assert(op_encoding(op_at(52)) == pattern_at(52)@);
    assert(op_encoding(op_at(53)) == pattern_at(53)@);
    assert(op_encoding(op_at(54)) == pattern_at(54)@);
    assert(op_encoding(op_at(55)) == pattern_at(55)@);
    assert(op_encoding(op_at(56)) == pattern_at(56)@);
    assert(op_encoding(op_at(57)) == pattern_at(57)@);
    assert(op_encoding(op_at(58)) == pattern_at(58)@);
    assert(op_encoding(op_at(59)) == pattern_at(59)@);
}

#[verifier::rlimit(60)]
proof fn lemma_entries_match_encoding_60()
    ensures
        forall|i: int| 60 <= i < 70 ==> #[trigger] op_encoding(op_at(i)) == pattern_at(i)@,
{
    assert(op_encoding(op_at(60)) == pattern_at(60)@);
    assert(op_encoding(op_at(61)) == pattern_at(61)@);
    assert(op_encoding(op_at(62)) == pattern_at(62)@);
    assert(op_encoding(op_at(63)) == pattern_at(63)@);
    assert(op_encoding(op_at(64)) == pattern_at(64)@);
    assert(op_encoding(op_at(65)) == pattern_at(65)@);
    assert(op_encoding(op_at(66)) == pattern_at(66)@);
    assert(op_encoding(op_at(67)) == pattern_at(67)@);
    assert(op_encoding(op_at(68)) == pattern_at(68)@);
    assert(op_encoding(op_at(69)) == pattern_at(69)@);
}

#[verifier::rlimit(60)]
proof fn lemma_entries_match_encoding_70()
    ensures
        forall|i: int| 70 <= i < 80 ==> #[trigger] op_encoding(op_at(i)) == pattern_at(i)@,
{
    assert(op_encoding(op_at(70)) == pattern_at(70)@);
    assert(op_encoding(op_at(71)) == pattern_at(71)@);
    assert(op_encoding(op_at(72)) == pattern_at(72)@);
    assert(op_encoding(op_at(73)) == pattern_at(73)@);
    assert(op_encoding(op_at(74)) == pattern_at(74)@);
    assert(op_encoding(op_at(75)) == pattern_at(75)@);
    assert(op_encoding(op_at(76)) == pattern_at(76)@);
    assert(op_encoding(op_at(77)) == pattern_at(77)@);
    assert(op_encoding(op_at(78)) == pattern_at(78)@);
    assert(op_encoding(op_at(79)) == pattern_at(79)@);
}

#[verifier::rlimit(60)]
proof fn lemma_entries_match_encoding_80()
    ensures
        forall|i: int| 80 <= i < 90 ==> #[trigger] op_encoding(op_at(i)) == pattern_at(i)@,
{
    assert(op_encoding(op_at(80)) == pattern_at(80)@);
    assert(op_encoding(op_at(81)) == pattern_at(81)@);
    assert(op_encoding(op_at(82)) == pattern_at(82)@);
    assert(op_encoding(op_at(83)) == pattern_at(83)@);
    assert(op_encoding(op_at(84)) == pattern_at(84)@);
    assert(op_encoding(op_at(85)) == pattern_at(85)@);
    assert(op_encoding(op_at(86)) == pattern_at(86)@);
    assert(op_encoding(op_at(87)) == pattern_at(87)@);
    assert(op_encoding(op_at(88)) == pattern_at(88)@);
    assert(op_encoding(op_at(89)) == pattern_at(89)@);
}

#[verifier::rlimit(60)]
proof fn lemma_entries_match_encoding_90()
    ensures
        forall|i: int| 90 <= i < 100 ==> #[trigger] op_encoding(op_at(i)) == pattern_at(i)@,
{
    assert(op_encoding(op_at(90)) == pattern_at(90)@);
    assert(op_encoding(op_at(91)) == pattern_at(91)@);
    assert(op_encoding(op_at(92)) == pattern_at(92)@);
    assert(op_encoding(op_at(93)) == pattern_at(93)@);
    assert(op_encoding(op_at(94)) == pattern_at(94)@);
    assert(op_encoding(op_at(95)) == pattern_at(95)@);
    assert(op_encoding(op_at(96)) == pattern_at(96)@);
    assert(op_encoding(op_at(97)) == pattern_at(97)@);
    assert(op_encoding(op_at(98)) == pattern_at(98)@);
    assert(op_encoding(op_at(99)) == pattern_at(99)@);
}

#[verifier::rlimit(60)]
proof fn lemma_entries_match_encoding_100()
    ensures
        forall|i: int| 100 <= i < 110 ==> #[trigger] op_encoding(op_at(i)) == pattern_at(i)@,
{
    assert(op_encoding(op_at(100)) == pattern_at(100)@);
    assert(op_encoding(op_at(101)) == pattern_at(101)@);
    assert(op_encoding(op_at(102)) == pattern_at(102)@);
    assert(op_encoding(op_at(103)) == pattern_at(103)@);
    assert(op_encoding(op_at(104)) == pattern_at(104)@);
    assert(op_encoding(op_at(105)) == pattern_at(105)@);
    assert(op_encoding(op_at(106)) == pattern_at(106)@);
    assert(op_encoding(op_at(107)) == pattern_at(107)@);
    assert(op_encoding(op_at(108)) == pattern_at(108)@);
    assert(op_encoding(op_at(109)) == pattern_at(109)@);
}

#[verifier::rlimit(60)]
proof fn lemma_entries_match_encoding_110()
    ensures
        forall|i: int| 110 <= i < 120 ==> #[trigger] op_encoding(op_at(i)) == pattern_at(i)@,
{
    assert(op_encoding(op_at(110)) == pattern_at(110)@);
    assert(op_encoding(op_at(111)) == pattern_at(111)@);
    assert(op_encoding(op_at(112)) == pattern_at(112)@);
    assert(op_encoding(op_at(113)) == pattern_at(113)@);
    assert(op_encoding(op_at(114)) == pattern_at(114)@);
    assert(op_encoding(op_at(115)) == pattern_at(115)@);
    assert(op_encoding(op_at(116)) == pattern_at(116)@);
    assert(op_encoding(op_at(117)) == pattern_at(117)@);
    assert(op_encoding(op_at(118)) == pattern_at(118)@);
    assert(op_encoding(op_at(119)) == pattern_at(119)@);
}

#[verifier::rlimit(60)]
proof fn lemma_entries_match_encoding_120()
    ensures
        forall|i: int| 120 <= i < 130 ==> #[trigger] op_encoding(op_at(i)) == pattern_at(i)@,
{
    assert(op_encoding(op_at(120)) == pattern_at(120)@);
    assert(op_encoding(op_at(121)) == pattern_at(121)@);
    assert(op_encoding(op_at(122)) == pattern_at(122)@);
    assert(op_encoding(op_at(123)) == pattern_at(123)@);
    assert(op_encoding(op_at(124)) == pattern_at(124)@);
    assert(op_encoding(op_at(125)) == pattern_at(125)@);
    assert(op_encoding(op_at(126)) == pattern_at(126)@);
    assert(op_encoding(op_at(127)) == pattern_at(127)@);
    assert(op_encoding(op_at(128)) == pattern_at(128)@);
    assert(op_encoding(op_at(129)) == pattern_at(129)@);
}

#[verifier::rlimit(60)]
proof fn lemma_entries_match_encoding_130()
    ensures
        forall|i: int| 130 <= i < 140 ==> #[trigger] op_encoding(op_at(i)) == pattern_at(i)@,
{
    assert(op_encoding(op_at(130)) == pattern_at(130)@);
    assert(op_encoding(op_at(131)) == pattern_at(131)@);
    assert(op_encoding(op_at(132)) == pattern_at(132)@);
    assert(op_encoding(op_at(133)) == pattern_at(133)@);
    assert(op_encoding(op_at(134)) == pattern_at(134)@);
    assert(op_encoding(op_at(135)) == pattern_at(135)@);
    assert(op_encoding(op_at(136)) == pattern_at(136)@);
    assert(op_encoding(op_at(137)) == pattern_at(137)@);
    assert(op_encoding(op_at(138)) == pattern_at(138)@);
    assert(op_encoding(op_at(139)) == pattern_at(139)@);
}

#[verifier::rlimit(60)]
proof fn lemma_entries_match_encoding_140()
    ensures
        forall|i: int| 140 <= i < 150 ==> #[trigger] op_encoding(op_at(i)) == pattern_at(i)@,
{
    assert(op_encoding(op_at(140)) == pattern_at(140)@);
    assert(op_encoding(op_at(141)) == pattern_at(141)@);
    assert(op_encoding(op_at(142)) == pattern_at(142)@);
    assert(op_encoding(op_at(143)) == pattern_at(143)@);
    assert(op_encoding(op_at(144)) == pattern_at(144)@);
    assert(op_encoding(op_at(145)) == pattern_at(145)@);
    assert(op_encoding(op_at(146)) == pattern_at(146)@);
    assert(op_encoding(op_at(147)) == pattern_at(147)@);
    assert(op_encoding(op_at(148)) == pattern_at(148)@);
    assert(op_encoding(op_at(149)) == pattern_at(149)@);
}

#[verifier::rlimit(60)]
proof fn lemma_entries_match_encoding_150()
    ensures
        forall|i: int| 150 <= i < 160 ==> #[trigger] op_encoding(op_at(i)) == pattern_at(i)@,
{
    assert(op_encoding(op_at(150)) == pattern_at(150)@);
    assert(op_encoding(op_at(151)) == pattern_at(151)@);
    assert(op_encoding(op_at(152)) == pattern_at(152)@);
    assert(op_encoding(op_at(153)) == pattern_at(153)@);
    assert(op_encoding(op_at(154)) == pattern_at(154)@);
    assert(op_encoding(op_at(155)) == pattern_at(155)@);
    assert(op_encoding(op_at(156)) == pattern_at(156)@);
    assert(op_encoding(op_at(157)) == pattern_at(157)@);
    assert(op_encoding(op_at(158)) == pattern_at(158)@);
    assert(op_encoding(op_at(159)) == pattern_at(159)@);
}

#[verifier::rlimit(60)]
proof fn lemma_entries_match_encoding_160()
    ensures
        forall|i: int| 160 <= i < 170 ==> #[trigger] op_encoding(op_at(i)) == pattern_at(i)@,
{
    assert(op_encoding(op_at(160)) == pattern_at(160)@);
    assert(op_encoding(op_at(161)) == pattern_at(161)@);
    assert(op_encoding(op_at(162)) == pattern_at(162)@);
    assert(op_encoding(op_at(163)) == pattern_at(163)@);
    assert(op_encoding(op_at(164)) == pattern_at(164)@);
    assert(op_encoding(op_at(165)) == pattern_at(165)@);
    assert(op_encoding(op_at(166)) == pattern_at(166)@);
    assert(op_encoding(op_at(167)) == pattern_at(167)@);
    assert(op_encoding(op_at(168)) == pattern_at(168)@);
    assert(op_encoding(op_at(169)) == pattern_at(169)@);
}

#[verifier::rlimit(60)]
proof fn lemma_entries_match_encoding_170()
    ensures
        forall|i: int| 170 <= i < 180 ==> #[trigger] op_encoding(op_at(i)) == pattern_at(i)@,
{
    assert(op_encoding(op_at(170)) == pattern_at(170)@);
    assert(op_encoding(op_at(171)) == pattern_at(171)@);
    assert(op_encoding(op_at(172)) == pattern_at(172)@);
    assert(op_encoding(op_at(173)) == pattern_at(173)@);
    assert(op_encoding(op_at(174)) == pattern_at(174)@);
    assert(op_encoding(op_at(175)) == pattern_at(175)@);
    assert(op_encoding(op_at(176)) == pattern_at(176)@);
    assert(op_encoding(op_at(177)) == pattern_at(177)@);
    assert(op_encoding(op_at(178)) == pattern_at(178)@);
    assert(op_encoding(op_at(179)) == pattern_at(179)@);
}

#[verifier::rlimit(60)]
proof fn lemma_entries_match_encoding_180()
    ensures
        forall|i: int| 180 <= i < 190 ==> #[trigger] op_encoding(op_at(i)) == pattern_at(i)@,
{
    assert(op_encoding(op_at(180)) == pattern_at(180)@);
    assert(op_encoding(op_at(181)) == pattern_at(181)@);
    assert(op_encoding(op_at(182)) == pattern_at(182)@);
    assert(op_encoding(op_at(183)) == pattern_at(183)@);
    assert(op_encoding(op_at(184)) == pattern_at(184)@);
    assert(op_encoding(op_at(185)) == pattern_at(185)@);
    assert(op_encoding(op_at(186)) == pattern_at(186)@);
    assert(op_encoding(op_at(187)) == pattern_at(187)@);
    assert(op_encoding(op_at(188)) == pattern_at(188)@);
    assert(op_encoding(op_at(189)) == pattern_at(189)@);
}

#[verifier::rlimit(60)]
proof fn lemma_entries_match_encoding_190()
    ensures
        forall|i: int| 190 <= i < 200 ==> #[trigger] op_encoding(op_at(i)) == pattern_at(i)@,
{
    assert(op_encoding(op_at(190)) == pattern_at(190)@);
    assert(op_encoding(op_at(191)) == pattern_at(191)@);
    assert(op_encoding(op_at(192)) == pattern_at(192)@);
    assert(op_encoding(op_at(193)) == pattern_at(193)@);
    assert(op_encoding(op_at(194)) == pattern_at(194)@);
    assert(op_encoding(op_at(195)) == pattern_at(195)@);
    assert(op_encoding(op_at(196)) == pattern_at(196)@);
    assert(op_encoding(op_at(197)) == pattern_at(197)@);
    assert(op_encoding(op_at(198)) == pattern_at(198)@);
    assert(op_encoding(op_at(199)) == pattern_at(199)@);
}

#[verifier::rlimit(60)]
proof fn lemma_entries_match_encoding_200()
    ensures
        forall|i: int| 200 <= i < 210 ==> #[trigger] op_encoding(op_at(i)) == pattern_at(i)@,
{
    assert(op_encoding(op_at(200)) == pattern_at(200)@);
    assert(op_encoding(op_at(201)) == pattern_at(201)@);
    assert(op_encoding(op_at(202)) == pattern_at(202)@);
    assert(op_encoding(op_at(203)) == pattern_at(203)@);
    assert(op_encoding(op_at(204)) == pattern_at(204)@);
    assert(op_encoding(op_at(205)) == pattern_at(205)@);
    assert(op_encoding(op_at(206)) == pattern_at(206)@);
    assert(op_encoding(op_at(207)) == pattern_at(207)@);
    assert(op_encoding(op_at(208)) == pattern_at(208)@);
    assert(op_encoding(op_at(209)) == pattern_at(209)@);
}

#[verifier::rlimit(60)]
proof fn lemma_entries_match_encoding_210()
    ensures
        forall|i: int| 210 <= i < 212 ==> #[trigger] op_encoding(op_at(i)) == pattern_at(i)@,
{
    assert(op_encoding(op_at(210)) == pattern_at(210)@);
    assert(op_encoding(op_at(211)) == pattern_at(211)@);
}

/// Every entry of the opcode table decodes its own instruction: the
/// pattern that gives the entry's mask and key is the encoding of the
/// entry's instruction.
pub proof fn lemma_entries_match_encoding()
    ensures
        forall|i: int| 0 <= i < NUM_OPCODE_ENTRIES - 1 ==> #[trigger] op_encoding(opcode_table()[i].op) == opcode_table()[i].handler_name@,
{
    lemma_entries_match_encoding_0();
    lemma_entries_match_encoding_10();
    lemma_entries_match_encoding_20();
    lemma_entries_match_encoding_30();
    lemma_entries_match_encoding_40();
    lemma_entries_match_encoding_50();
    lemma_entries_match_encoding_60();
    lemma_entries_match_encoding_70();
    lemma_entries_match_encoding_80();
    lemma_entries_match_encoding_90();
    lemma_entries_match_encoding_100();
    lemma_entries_match_encoding_110();
    lemma_entries_match_encoding_120();
    lemma_entries_match_encoding_130();
    lemma_entries_match_encoding_140();
    lemma_entries_match_encoding_150();
    lemma_entries_match_encoding_160();
    lemma_entries_match_encoding_170();
    lemma_entries_match_encoding_180();
    lemma_entries_match_encoding_190();
    lemma_entries_match_encoding_200();
    lemma_entries_match_encoding_210();
    assert forall|i: int| 0 <= i < NUM_OPCODE_ENTRIES - 1 implies #[trigger] op_encoding(opcode_table()[i].op) == opcode_table()[i].handler_name@ by {
        assert(opcode_table()[i] == table_entry(i));
        assert(op_encoding(op_at(i)) == pattern_at(i)@);
    }
}

} // verus!
