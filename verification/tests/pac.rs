use clock_tree::pac::gmac::{gmac_mft, gmac_pefrsl, gmac_tbft1518};
use clock_tree::pac::sdhc0::eistr::{
    ACMD_A, ADMA_A, CMDCRC_A, CMDEND_A, CMDIDX_A, CMDTEO_A, CURLIM_A, DATCRC_A, DATEND_A,
    DATTEO_A, EISTR_SPEC, R, W,
};
use clock_tree::pac::tc0::tc_channel::tc_ra;

#[test]
fn reader_takes_the_word_apart() {
    let r = R::new(0b10_0101_0110);
    assert_eq!(r.bits(), 0x256);
    assert!(r.cmdteo().is_no());
    assert!(r.cmdcrc().is_yes());
    assert!(r.cmdend().is_yes());
    assert!(r.cmdidx().is_no());
    assert!(r.datteo().is_yes());
    assert!(r.datcrc().is_no());
    assert!(r.datend().is_yes());
    assert!(r.curlim().is_no());
    assert!(r.acmd().is_no());
    assert!(r.adma().is_yes());
    assert_eq!(r.cmdteo().variant(), CMDTEO_A::NO);
    assert_eq!(r.cmdcrc().variant(), CMDCRC_A::YES);
    assert_eq!(r.cmdend().variant(), CMDEND_A::YES);
    assert_eq!(r.cmdidx().variant(), CMDIDX_A::NO);
    assert_eq!(r.datteo().variant(), DATTEO_A::YES);
    assert_eq!(r.datcrc().variant(), DATCRC_A::NO);
    assert_eq!(r.datend().variant(), DATEND_A::YES);
    assert_eq!(r.curlim().variant(), CURLIM_A::NO);
    assert_eq!(r.acmd().variant(), ACMD_A::NO);
    assert_eq!(r.adma().variant(), ADMA_A::YES);
    assert!(r.adma().bit());
    assert!(!r.acmd().bit());
}

#[test]
fn reader_ignores_the_reserved_bits() {
    let r = R::new(0xFC00);
    assert!(r.cmdteo().is_no() && r.cmdcrc().is_no() && r.cmdend().is_no());
    assert!(r.cmdidx().is_no() && r.datteo().is_no() && r.datcrc().is_no());
    assert!(r.datend().is_no() && r.curlim().is_no() && r.acmd().is_no() && r.adma().is_no());
    let r = R::new(0x03FF);
    assert!(r.cmdteo().is_yes() && r.cmdcrc().is_yes() && r.cmdend().is_yes());
    assert!(r.cmdidx().is_yes() && r.datteo().is_yes() && r.datcrc().is_yes());
    assert!(r.datend().is_yes() && r.curlim().is_yes() && r.acmd().is_yes());
    assert!(r.adma().is_yes());
}

#[test]
fn writer_sets_one_bit_at_a_time() {
    let mut w = W::new(EISTR_SPEC::reset_value());
    assert_eq!(w.get(), 0);
    w.cmdteo().set_bit();
    assert_eq!(w.get(), 0x001);
    w.cmdcrc().yes();
    assert_eq!(w.get(), 0x003);
    w.cmdend().variant(CMDEND_A::YES);
    assert_eq!(w.get(), 0x007);
    w.cmdidx().bit(true);
    assert_eq!(w.get(), 0x00F);
    w.datteo().set_bit().datcrc().set_bit().datend().set_bit();
    assert_eq!(w.get(), 0x07F);
    w.curlim().yes().acmd().yes().adma().yes();
    assert_eq!(w.get(), 0x3FF);
    w.cmdteo().clear_bit();
    assert_eq!(w.get(), 0x3FE);
    w.cmdcrc().no();
    assert_eq!(w.get(), 0x3FC);
    w.cmdend().variant(CMDEND_A::NO);
    assert_eq!(w.get(), 0x3F8);
    w.cmdidx().bit(false);
    assert_eq!(w.get(), 0x3F0);
    w.datteo().no().datcrc().no().datend().no().curlim().no().acmd().no();
    assert_eq!(w.get(), 0x200);
    w.adma().clear_bit();
    assert_eq!(w.get(), 0);
}

#[test]
fn writer_leaves_the_other_bits() {
    let mut w = W::new(0xFFFF);
    w.datcrc().clear_bit();
    assert_eq!(w.get(), 0xFFDF);
    w.datcrc().set_bit();
    assert_eq!(w.get(), 0xFFFF);
    w.bits(0x8000).acmd().yes();
    assert_eq!(w.get(), 0x8100);
    w.acmd().variant(ACMD_A::YES).adma().variant(ADMA_A::YES);
    w.curlim().variant(CURLIM_A::YES).datend().variant(DATEND_A::YES);
    w.datcrc().variant(DATCRC_A::YES).datteo().variant(DATTEO_A::YES);
    w.cmdidx().variant(CMDIDX_A::YES).cmdcrc().variant(CMDCRC_A::YES);
    w.cmdteo().variant(CMDTEO_A::YES);
    assert_eq!(w.get(), 0x83FB);
    assert!(CMDTEO_A::YES.bit());
    assert!(!CMDTEO_A::NO.bit());
}

#[test]
fn whole_word_registers() {
    assert_eq!(gmac_mft::R::new(0xDEAD_BEEF).mftx().bits(), 0xDEAD_BEEF);
    assert_eq!(gmac_mft::R::new(7).bits(), 7);
    assert_eq!(gmac_pefrsl::R::new(0x1234_5678).rud().bits(), 0x1234_5678);
    assert_eq!(gmac_tbft1518::R::new(u32::MAX).nftx().bits(), u32::MAX);
    assert_eq!(gmac_mft::GMAC_MFT_SPEC::reset_value(), 0);
    assert_eq!(gmac_pefrsl::GMAC_PEFRSL_SPEC::reset_value(), 0);
    assert_eq!(gmac_tbft1518::GMAC_TBFT1518_SPEC::reset_value(), 0);
    assert_eq!(tc_ra::R::new(99).ra().bits(), 99);
    let mut w = tc_ra::W::new(tc_ra::TC_RA_SPEC::reset_value());
    w.ra().bits(0xCAFE);
    assert_eq!(w.get(), 0xCAFE);
    w.bits(5);
    assert_eq!(w.get(), 5);
}
