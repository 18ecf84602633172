use hifive1_bsp::error::ConfigError;
use hifive1_bsp::fe310::plic::{
    plic_disable_src_to_interrupt, plic_enable_src_to_interrupt, plic_set_intr_priority_for_src,
    plic_set_priority_threshold, PlicIntrPriorityLevels, PlicIntrSources, PlicRegisterFile,
    SourceMask, COUNT_PLIC_INTR_SRCS,
};

#[test]
fn source_identifiers_follow_the_hardware_numbering() {
    assert_eq!(PlicIntrSources::aon_wdog.id(), 1);
    assert_eq!(PlicIntrSources::aon_rtc.id(), 2);
    assert_eq!(PlicIntrSources::uart0.id(), 3);
    assert_eq!(PlicIntrSources::uart1.id(), 4);
    assert_eq!(PlicIntrSources::qspi0.id(), 5);
    assert_eq!(PlicIntrSources::gpio0.id(), 8);
    assert_eq!(PlicIntrSources::gpio31.id(), 39);
    assert_eq!(PlicIntrSources::pwm0a.id(), 40);
    assert_eq!(PlicIntrSources::pwm2d.id(), 51);
    assert_eq!(PlicIntrSources::i2c.id(), 52);
    assert_eq!(PlicIntrSources::all.id(), 53);
}

#[test]
fn source_identifiers_round_trip() {
    for id in 1..=COUNT_PLIC_INTR_SRCS {
        let src = PlicIntrSources::from_id(id).expect("a source");
        assert_eq!(src.id(), id);
    }
    assert_eq!(PlicIntrSources::from_id(0), None);
    assert_eq!(PlicIntrSources::from_id(53), None);
    assert_eq!(PlicIntrSources::from_id(u32::MAX), None);
}

#[test]
fn priority_levels_round_trip() {
    for v in 0..=7u32 {
        let level = PlicIntrPriorityLevels::from_level(v).expect("a level");
        assert_eq!(level.level(), v);
    }
    assert_eq!(PlicIntrPriorityLevels::from_level(8), None);
    assert_eq!(PlicIntrPriorityLevels::level0_lowest.level(), 0);
    assert_eq!(PlicIntrPriorityLevels::level7_highest.level(), 7);
}

#[test]
fn set_priority_reads_back_for_every_source_and_level() {
    for id in 1..=COUNT_PLIC_INTR_SRCS {
        for v in 0..=7u32 {
            let mut plic = PlicRegisterFile::new();
            let src = PlicIntrSources::from_id(id).unwrap();
            let level = PlicIntrPriorityLevels::from_level(v).unwrap();
            assert_eq!(plic_set_intr_priority_for_src(&mut plic, src, level), Ok(()));
            assert_eq!(plic.read_priority(id), Ok(v));
            for other in 1..=COUNT_PLIC_INTR_SRCS {
                if other != id {
                    assert_eq!(plic.read_priority(other), Ok(0));
                }
            }
        }
    }
}

#[test]
fn priority_outside_the_scale_is_rejected() {
    let mut plic = PlicRegisterFile::new();
    assert_eq!(plic.write_priority(3, 5), Ok(()));
    assert_eq!(plic.write_priority(3, 8), Err(ConfigError::InvalidPriority));
    assert_eq!(plic.write_priority(3, u32::MAX), Err(ConfigError::InvalidPriority));
    assert_eq!(plic.read_priority(3), Ok(5));
}

#[test]
fn priority_of_no_source_is_rejected() {
    let mut plic = PlicRegisterFile::new();
    assert_eq!(plic.write_priority(0, 1), Err(ConfigError::InvalidSource));
    assert_eq!(plic.write_priority(53, 1), Err(ConfigError::InvalidSource));
    assert_eq!(plic.read_priority(0), Err(ConfigError::InvalidSource));
    assert_eq!(plic.read_priority(53), Err(ConfigError::InvalidSource));
    assert_eq!(
        plic_set_intr_priority_for_src(
            &mut plic,
            PlicIntrSources::all,
            PlicIntrPriorityLevels::level1
        ),
        Err(ConfigError::InvalidSource)
    );
    assert_eq!(
        plic_enable_src_to_interrupt(&mut plic, PlicIntrSources::all),
        Err(ConfigError::InvalidSource)
    );
    assert_eq!(plic.enable_words(), SourceMask { word1: 0, word2: 0 });
    assert_eq!(plic.raise(0), Err(ConfigError::InvalidSource));
    assert_eq!(plic.raise(53), Err(ConfigError::InvalidSource));
}

#[test]
fn threshold_is_written_and_read_back() {
    let mut plic = PlicRegisterFile::new();
    assert_eq!(plic.read_threshold(), 0);
    plic_set_priority_threshold(&mut plic, PlicIntrPriorityLevels::level3);
    assert_eq!(plic.read_threshold(), 3);
    plic_set_priority_threshold(&mut plic, PlicIntrPriorityLevels::level7_highest);
    assert_eq!(plic.read_threshold(), 7);
}

#[test]
fn enable_sets_the_bit_of_the_source() {
    let mut plic = PlicRegisterFile::new();
    assert_eq!(plic_enable_src_to_interrupt(&mut plic, PlicIntrSources::uart0), Ok(()));
    assert_eq!(plic.enable_words(), SourceMask { word1: 1 << 3, word2: 0 });
    assert_eq!(plic_enable_src_to_interrupt(&mut plic, PlicIntrSources::gpio31), Ok(()));
    assert_eq!(plic.enable_words(), SourceMask { word1: 1 << 3, word2: 1 << 7 });
    assert_eq!(plic_enable_src_to_interrupt(&mut plic, PlicIntrSources::i2c), Ok(()));
    assert_eq!(plic.enable_words(), SourceMask { word1: 1 << 3, word2: (1 << 7) | (1 << 20) });
    plic_disable_src_to_interrupt(&mut plic, PlicIntrSources::gpio31);
    assert_eq!(plic.enable_words(), SourceMask { word1: 1 << 3, word2: 1 << 20 });
    plic_disable_src_to_interrupt(&mut plic, PlicIntrSources::all);
    assert_eq!(plic.enable_words(), SourceMask { word1: 0, word2: 0 });
}

fn armed(sources: &[(PlicIntrSources, PlicIntrPriorityLevels)]) -> PlicRegisterFile {
    let mut plic = PlicRegisterFile::new();
    for (src, level) in sources {
        plic_set_intr_priority_for_src(&mut plic, *src, *level).unwrap();
        plic_enable_src_to_interrupt(&mut plic, *src).unwrap();
    }
    plic
}

#[test]
fn claim_with_nothing_pending_returns_zero() {
    let mut plic = armed(&[(PlicIntrSources::uart0, PlicIntrPriorityLevels::level4)]);
    assert_eq!(plic.claim(), 0);
    assert_eq!(plic.pending_words(), SourceMask { word1: 0, word2: 0 });
    assert!(!plic.is_in_service(3));
}

#[test]
fn claim_complete_then_claim_returns_zero() {
    let mut plic = armed(&[(PlicIntrSources::uart0, PlicIntrPriorityLevels::level4)]);
    plic.raise(3).unwrap();
    assert_eq!(plic.pending_words(), SourceMask { word1: 1 << 3, word2: 0 });
    assert_eq!(plic.claim(), 3);
    assert!(plic.is_in_service(3));
    assert_eq!(plic.pending_words(), SourceMask { word1: 0, word2: 0 });
    plic.complete(3);
    assert!(!plic.is_in_service(3));
    assert_eq!(plic.claim(), 0);
}

#[test]
fn second_claim_returns_the_next_source_when_two_are_pending() {
    let mut plic = armed(&[
        (PlicIntrSources::uart0, PlicIntrPriorityLevels::level4),
        (PlicIntrSources::uart1, PlicIntrPriorityLevels::level2),
    ]);
    plic.raise(3).unwrap();
    plic.raise(4).unwrap();
    assert_eq!(plic.claim(), 3);
    plic.complete(3);
    assert_eq!(plic.claim(), 4);
    plic.complete(4);
    assert_eq!(plic.claim(), 0);
}

#[test]
fn claim_prefers_priority_then_lower_identifier() {
    let mut plic = armed(&[
        (PlicIntrSources::uart0, PlicIntrPriorityLevels::level2),
        (PlicIntrSources::gpio5, PlicIntrPriorityLevels::level6),
        (PlicIntrSources::i2c, PlicIntrPriorityLevels::level6),
        (PlicIntrSources::aon_rtc, PlicIntrPriorityLevels::level2),
    ]);
    for id in [3, 13, 52, 2] {
        plic.raise(id).unwrap();
    }
    assert_eq!(plic.claim(), 13);
    assert_eq!(plic.claim(), 52);
    assert_eq!(plic.claim(), 2);
    assert_eq!(plic.claim(), 3);
    assert_eq!(plic.claim(), 0);
}

#[test]
fn a_source_of_priority_zero_is_never_claimed() {
    let mut plic = armed(&[(PlicIntrSources::uart0, PlicIntrPriorityLevels::level0_lowest)]);
    plic.raise(3).unwrap();
    assert_eq!(plic.claim(), 0);
    assert_eq!(plic.pending_words(), SourceMask { word1: 1 << 3, word2: 0 });
}

#[test]
fn a_disabled_source_is_never_claimed() {
    let mut plic = PlicRegisterFile::new();
    plic_set_intr_priority_for_src(
        &mut plic,
        PlicIntrSources::uart0,
        PlicIntrPriorityLevels::level4,
    )
    .unwrap();
    plic.raise(3).unwrap();
    assert_eq!(plic.claim(), 0);
}

#[test]
fn disable_all_makes_every_claim_return_zero() {
    let mut plic = armed(&[
        (PlicIntrSources::uart0, PlicIntrPriorityLevels::level4),
        (PlicIntrSources::gpio0, PlicIntrPriorityLevels::level7_highest),
        (PlicIntrSources::i2c, PlicIntrPriorityLevels::level1),
    ]);
    for id in [3, 8, 52] {
        plic.raise(id).unwrap();
    }
    plic_disable_src_to_interrupt(&mut plic, PlicIntrSources::all);
    assert_eq!(plic.claim(), 0);
    plic.raise(4).unwrap();
    assert_eq!(plic.claim(), 0);
    assert_eq!(plic.claim(), 0);
    assert!(!plic.interrupt_pending());
}

#[test]
fn completing_another_source_does_not_release_the_claimed_one() {
    let mut plic = armed(&[(PlicIntrSources::uart0, PlicIntrPriorityLevels::level4)]);
    plic.raise(3).unwrap();
    assert_eq!(plic.claim(), 3);
    plic.complete(4);
    assert!(plic.is_in_service(3));
    plic.raise(3).unwrap();
    assert_eq!(plic.claim(), 0);
    plic.complete(3);
    plic.raise(3).unwrap();
    assert_eq!(plic.claim(), 3);
}

#[test]
fn a_request_during_service_is_lost() {
    let mut plic = armed(&[(PlicIntrSources::uart0, PlicIntrPriorityLevels::level4)]);
    plic.raise(3).unwrap();
    assert_eq!(plic.claim(), 3);
    plic.raise(3).unwrap();
    assert_eq!(plic.pending_words(), SourceMask { word1: 0, word2: 0 });
    plic.complete(3);
    assert_eq!(plic.claim(), 0);
}

#[test]
fn completing_no_source_changes_nothing() {
    let mut plic = armed(&[(PlicIntrSources::uart0, PlicIntrPriorityLevels::level4)]);
    plic.raise(3).unwrap();
    assert_eq!(plic.claim(), 3);
    plic.complete(0);
    plic.complete(53);
    plic.complete(u32::MAX);
    assert!(plic.is_in_service(3));
}

#[test]
fn the_hart_is_interrupted_only_above_the_threshold() {
    let mut plic = armed(&[(PlicIntrSources::uart0, PlicIntrPriorityLevels::level4)]);
    plic.raise(3).unwrap();
    plic_set_priority_threshold(&mut plic, PlicIntrPriorityLevels::level3);
    assert!(plic.interrupt_pending());
    plic_set_priority_threshold(&mut plic, PlicIntrPriorityLevels::level4);
    assert!(!plic.interrupt_pending());
    plic_set_priority_threshold(&mut plic, PlicIntrPriorityLevels::level7_highest);
    assert!(!plic.interrupt_pending());
    assert_eq!(plic.claim(), 3);
}

#[test]
fn source_mask_words() {
    let m = SourceMask::new();
    assert_eq!(m, SourceMask { word1: 0, word2: 0 });
    let m = m.with(0).with(31).with(32).with(63);
    assert_eq!(m, SourceMask { word1: 0x8000_0001, word2: 0x8000_0001 });
    assert!(m.contains(31) && m.contains(32) && !m.contains(1) && !m.contains(33));
    let m = m.without(31).without(32).without(5);
    assert_eq!(m, SourceMask { word1: 1, word2: 0x8000_0000 });
    assert!(!m.contains(31) && !m.contains(32));
}
