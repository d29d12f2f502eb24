use lzma_safe::decoder::options::Flags;
use lzma_safe::encoder::options::filter::{
    prepare_filters, RawFilter, CompressionMode, MatchFinder as FilterMatchFinder, OwnedFilterOptions,
};
use lzma_safe::encoder::options::lzma1::{MatchFinder, Mode};
use lzma_safe::encoder::options::{
    BcjOptions, Compression, DeltaOptions, FilterConfig, FilterOptions, FilterType,
    IntegrityCheck, Lzma1Options, LzmaOptions,
};
use lzma_safe::raw::{
    LZMA_CHECK_CRC32, LZMA_CHECK_CRC64, LZMA_CHECK_NONE, LZMA_CHECK_SHA256, LZMA_MF_BT4,
    LZMA_MF_HC4, LZMA_MODE_FAST, LZMA_MODE_NORMAL, LZMA_RESERVED_ENUM,
};
use lzma_safe::{decoder, encoder};

#[test]
fn flag_helpers_reflect_bits() {
    let flags = Flags::NO_CHECK() | Flags::UNSUPPORTED_CHECK() | Flags::CONCATENATED();
    assert!(flags.is_no_check());
    assert!(flags.is_unsupported_check());
    assert!(flags.is_concatenated());
    assert!(!flags.is_any_check());
    assert!(!flags.is_ignore_check());
    assert_eq!(flags.to_liblzma_flags(), 0x01 | 0x02 | 0x08);
}

#[test]
fn flag_helpers_for_ignore_and_any() {
    let flags = Flags::ANY_CHECK() | Flags::IGNORE_CHECK();
    assert!(flags.is_any_check());
    assert!(flags.is_ignore_check());
}

#[test]
fn flag_union_contains_both_sides() {
    let a = Flags::NO_CHECK();
    let b = Flags::IGNORE_CHECK();
    let u = a | b;
    assert!(u.contains(a));
    assert!(u.contains(b));
    assert!(!u.contains(Flags::CONCATENATED()));
    assert_eq!(u.bits(), 0x11);
    assert_eq!(Flags::empty().bits(), 0);
    assert_eq!(Flags::default().bits(), 0);
    assert_eq!(Flags::from_bits_retain(0x40).bits(), 0x40);
    assert!(Flags::empty().contains(Flags::empty()));
}

#[test]
fn to_lzma_options_sets_expected_fields() {
    let flags = Flags::NO_CHECK() | Flags::CONCATENATED();
    let options = decoder::Options {
        threads: 3,
        memlimit: 32 * 1024 * 1024,
        memlimit_stop: 64 * 1024 * 1024,
        flags,
        timeout: 100,
    };

    let mt = options.to_lzma_options();
    assert_eq!(mt.threads, 3);
    assert_eq!(mt.timeout, 100);
    assert_eq!(mt.flags, flags.to_liblzma_flags());
    assert_eq!(mt.memlimit_threading, 32 * 1024 * 1024);
    assert_eq!(mt.memlimit_stop, 64 * 1024 * 1024);
    assert!(!mt.has_filters);
    assert!(mt.reserved_enum1 == LZMA_RESERVED_ENUM);
    assert!(mt.reserved_enum2 == LZMA_RESERVED_ENUM);
    assert!(mt.reserved_enum3 == LZMA_RESERVED_ENUM);
    assert!(mt.reserved_int1 == 0);
    assert!(mt.reserved_int2 == 0);
    assert!(mt.reserved_int3 == 0);
    assert!(mt.reserved_int4 == 0);
    assert!(mt.reserved_int7 == 0);
    assert!(mt.reserved_int8 == 0);
}

#[test]
fn decoder_options_defaults_and_builders() {
    let d = decoder::Options::default();
    assert_eq!(d.threads, 1);
    assert_eq!(d.memlimit, u64::MAX);
    assert_eq!(d.memlimit_stop, u64::MAX);
    assert_eq!(d.flags.bits(), 0);
    assert_eq!(d.timeout, 0);
    let d = d.with_memlimit(1024).with_flags(Flags::CONCATENATED());
    assert_eq!(d.memlimit, 1024);
    assert!(d.flags.is_concatenated());
    assert_eq!(d.threads, 1);
    let mt = d.to_lzma_options();
    assert_eq!(mt.memlimit_threading, 1024);
    assert_eq!(mt.flags, 0x08);
    assert_eq!(mt.preset, 0);
    assert_eq!(mt.block_size, 0);
}

#[test]
fn size_matches_expected_values() {
    assert_eq!(IntegrityCheck::NoCheck.size(), 0);
    assert_eq!(IntegrityCheck::Crc32.size(), 4);
    assert_eq!(IntegrityCheck::Crc64.size(), 8);
    assert_eq!(IntegrityCheck::Sha256.size(), 32);
}

#[test]
fn try_from_round_trips_valid_values() {
    assert_eq!(
        IntegrityCheck::try_from(LZMA_CHECK_NONE).unwrap(),
        IntegrityCheck::NoCheck
    );
    assert!(IntegrityCheck::try_from(42).is_err());
}

#[test]
fn integrity_check_ids_round_trip() {
    let all = [
        (IntegrityCheck::NoCheck, LZMA_CHECK_NONE),
        (IntegrityCheck::Crc32, LZMA_CHECK_CRC32),
        (IntegrityCheck::Crc64, LZMA_CHECK_CRC64),
        (IntegrityCheck::Sha256, LZMA_CHECK_SHA256),
    ];
    for &(check, id) in &all {
        assert_eq!(check.to_raw(), id);
        let as_u32: u32 = check.into();
        assert_eq!(as_u32, id);
        assert_eq!(IntegrityCheck::try_from(id).unwrap(), check);
    }
    assert_eq!(
        IntegrityCheck::try_from(2).unwrap_err(),
        lzma_safe::Error::UnsupportedCheck
    );
}

#[test]
fn builder_helpers_apply_fields() {
    let opts = Lzma1Options::default()
        .with_dict_size(1 << 20)
        .with_lc(4)
        .with_lp(1)
        .with_pb(2)
        .with_mode(Mode::Fast)
        .with_nice_len(32)
        .with_match_finder(MatchFinder::Hc4)
        .with_depth(64);

    let raw = opts.as_raw();
    assert_eq!(raw.dict_size, 1 << 20);
    assert_eq!(raw.lc, 4);
    assert_eq!(raw.lp, 1);
    assert_eq!(raw.pb, 2);
    assert_eq!(raw.mode, LZMA_MODE_FAST);
    assert_eq!(raw.nice_len, 32);
    assert_eq!(raw.mf, LZMA_MF_HC4);
    assert_eq!(raw.depth, 64);
}

#[test]
fn lzma1_default_configuration() {
    let opts = Lzma1Options::default();
    let raw = opts.as_raw();
    assert_eq!(raw.dict_size, 8 * 1024 * 1024);
    assert_eq!(raw.lc, 3);
    assert_eq!(raw.lp, 0);
    assert_eq!(raw.pb, 2);
    assert_eq!(raw.mode, LZMA_MODE_NORMAL);
    assert_eq!(raw.nice_len, 64);
    assert_eq!(raw.mf, LZMA_MF_BT4);
    assert_eq!(raw.depth, 0);
    assert!(!raw.has_preset_dict);
}

#[test]
fn test_to_preset_levels() {
    assert_eq!(Compression::Level0.to_preset(), 0);
    assert_eq!(Compression::Level6.to_preset(), 6);
    assert_eq!(Compression::Level9.to_preset(), 9);
}

#[test]
fn test_to_preset_extreme() {
    let extreme_flag = 1u32 << 31;
    assert_eq!(Compression::Extreme(0).to_preset(), extreme_flag);
    assert_eq!(Compression::Extreme(6).to_preset(), 6 | extreme_flag);
    assert_eq!(Compression::Extreme(9).to_preset(), 9 | extreme_flag);
    assert_eq!(Compression::Extreme(15).to_preset(), 9 | extreme_flag);
}

#[test]
fn test_try_from_standard_levels() {
    assert_eq!(Compression::try_from(0).unwrap(), Compression::Level0);
    assert_eq!(Compression::try_from(1).unwrap(), Compression::Level1);
    assert_eq!(Compression::try_from(2).unwrap(), Compression::Level2);
    assert_eq!(Compression::try_from(3).unwrap(), Compression::Level3);
    assert_eq!(Compression::try_from(4).unwrap(), Compression::Level4);
    assert_eq!(Compression::try_from(5).unwrap(), Compression::Level5);
    assert_eq!(Compression::try_from(6).unwrap(), Compression::Level6);
    assert_eq!(Compression::try_from(7).unwrap(), Compression::Level7);
    assert_eq!(Compression::try_from(8).unwrap(), Compression::Level8);
    assert_eq!(Compression::try_from(9).unwrap(), Compression::Level9);
}

#[test]
fn test_try_from_extreme_levels() {
    assert_eq!(Compression::try_from(10).unwrap(), Compression::Extreme(10));
    assert_eq!(Compression::try_from(50).unwrap(), Compression::Extreme(50));
    assert_eq!(
        Compression::try_from(100).unwrap(),
        Compression::Extreme(100)
    );
    assert_eq!(
        Compression::try_from(255).unwrap(),
        Compression::Extreme(255)
    );
}

#[test]
fn test_try_from_invalid_values() {
    assert!(Compression::try_from(256).is_err());
    assert!(Compression::try_from(1000).is_err());
    assert!(Compression::try_from(u32::MAX).is_err());

    let error = Compression::try_from(256).unwrap_err();
    assert_eq!(error.kind(), std::io::ErrorKind::InvalidInput);
}

#[test]
fn compression_default_is_level_six() {
    assert_eq!(Compression::default(), Compression::Level6);
    for level in 0u32..=9 {
        assert_eq!(Compression::try_from(level).unwrap().to_preset(), level);
    }
}

#[test]
fn to_lzma_options_without_filters_sets_core_fields() {
    let options = encoder::Options::default()
        .with_level(Compression::Level4)
        .with_check(IntegrityCheck::Sha256)
        .with_threads(3)
        .with_block_size(512 * 1024)
        .with_timeout(250);

    let (mt, prepared) = options.to_lzma_options();

    assert_eq!(mt.threads, 3);
    assert_eq!(mt.block_size, 512 * 1024);
    assert_eq!(mt.timeout, 250);
    assert_eq!(mt.preset, Compression::Level4.to_preset());
    assert_eq!(mt.check, IntegrityCheck::Sha256.into());
    assert!(!mt.has_filters);
    assert!(prepared.is_none());
}

#[test]
fn to_lzma_options_with_filters_builds_chain() {
    let options = encoder::Options::default().with_filters(vec![
        FilterConfig {
            filter_type: FilterType::Lzma2,
            options: None,
        },
        FilterConfig {
            filter_type: FilterType::Delta,
            options: None,
        },
    ]);

    let (mt, prepared) = options.to_lzma_options();
    let raw = prepared.expect("expected prepared filters");

    assert!(mt.has_filters);
    assert_eq!(raw.filters.len(), 3);
    assert_eq!(raw.filters[0].id, FilterType::Lzma2.to_lzma_id());
    assert_eq!(raw.filters[1].id, FilterType::Delta.to_lzma_id());
    assert_eq!(raw.filters[2].id, 0);
    assert!(raw.filters[0].options.is_some());
    assert!(raw.filters[1].options.is_some());
}

#[test]
fn encoder_options_defaults_and_with_filter() {
    let o = encoder::Options::default();
    assert_eq!(o.level, Compression::Level6);
    assert_eq!(o.check, IntegrityCheck::Crc32);
    assert_eq!(o.threads, 0);
    assert_eq!(o.block_size, 0);
    assert_eq!(o.timeout, 0);
    assert!(o.filters.is_empty());
    let (mt, prepared) = o.to_lzma_options();
    assert_eq!(mt.preset, 6);
    assert_eq!(mt.check, LZMA_CHECK_CRC32);
    assert!(prepared.is_none());

    let o = encoder::Options::default()
        .with_level(Compression::Extreme(3))
        .with_filter(FilterConfig {
            filter_type: FilterType::X86,
            options: None,
        })
        .with_filter(FilterConfig {
            filter_type: FilterType::Lzma2,
            options: None,
        });
    assert_eq!(o.filters.len(), 2);
    let (mt, prepared) = o.to_lzma_options();
    assert_eq!(mt.preset, 3 | 0x8000_0000);
    let raw = prepared.unwrap();
    assert_eq!(raw.filters[0].id, 0x04);
    assert_eq!(raw.filters[1].id, 0x21);
    assert_eq!(raw.filters[2].options, None);
}

#[test]
fn filter_ids_match_liblzma() {
    assert_eq!(FilterType::Lzma1.to_lzma_id(), 0x4000_0000_0000_0001);
    assert_eq!(FilterType::Lzma1Ext.to_lzma_id(), 0x4000_0000_0000_0002);
    assert_eq!(FilterType::Lzma2.to_lzma_id(), 0x21);
    assert_eq!(FilterType::X86.to_lzma_id(), 0x04);
    assert_eq!(FilterType::PowerPc.to_lzma_id(), 0x05);
    assert_eq!(FilterType::Ia64.to_lzma_id(), 0x06);
    assert_eq!(FilterType::Arm.to_lzma_id(), 0x07);
    assert_eq!(FilterType::ArmThumb.to_lzma_id(), 0x08);
    assert_eq!(FilterType::Sparc.to_lzma_id(), 0x09);
    assert_eq!(FilterType::Arm64.to_lzma_id(), 0x0A);
    assert_eq!(FilterType::RiscV.to_lzma_id(), 0x0B);
    assert_eq!(FilterType::Delta.to_lzma_id(), 0x03);
}

#[test]
fn prepare_filters_keeps_user_options() {
    let lzma = LzmaOptions {
        dict_size: 1 << 16,
        mode: CompressionMode::Fast,
        mf: FilterMatchFinder::Bt4,
        preset_dict: Some(vec![1, 2, 3]),
        ..LzmaOptions::default()
    };
    let configs = vec![
        FilterConfig {
            filter_type: FilterType::Delta,
            options: Some(FilterOptions::Delta(DeltaOptions { distance: 4 })),
        },
        FilterConfig {
            filter_type: FilterType::Arm,
            options: Some(FilterOptions::Bcj(BcjOptions { start_offset: 16 })),
        },
        FilterConfig {
            filter_type: FilterType::Lzma2,
            options: Some(FilterOptions::Lzma(lzma)),
        },
        FilterConfig {
            filter_type: FilterType::Delta,
            options: None,
        },
    ];
    let raw = prepare_filters(&configs);
    assert_eq!(raw.filters.len(), 5);
    assert_eq!(raw.owned.len(), 4);
    for i in 0..4 {
        assert_eq!(raw.filters[i].options, Some(i));
    }
    match &raw.owned[0] {
        OwnedFilterOptions::Delta(d) => {
            assert_eq!(d.dist, 4);
            assert_eq!(d.type_, 0);
        }
        other => panic!("unexpected {other:?}"),
    }
    match &raw.owned[1] {
        OwnedFilterOptions::Bcj(b) => assert_eq!(b.start_offset, 16),
        other => panic!("unexpected {other:?}"),
    }
    match &raw.owned[2] {
        OwnedFilterOptions::Lzma { opts, dict } => {
            assert_eq!(opts.dict_size, 1 << 16);
            assert_eq!(opts.mode, LZMA_MODE_FAST);
            assert_eq!(opts.mf, LZMA_MF_BT4);
            assert!(opts.has_preset_dict);
            assert_eq!(opts.preset_dict_size, 3);
            assert_eq!(dict.as_deref(), Some(&[1u8, 2, 3][..]));
        }
        other => panic!("unexpected {other:?}"),
    }
    match &raw.owned[3] {
        OwnedFilterOptions::Delta(d) => assert_eq!(d.dist, 1),
        other => panic!("unexpected {other:?}"),
    }
    assert_eq!(raw.filters[4].id, 0);
    assert!(raw.as_ptr().is_some());
}

#[test]
fn prepare_filters_defaults_and_empty_chain() {
    let raw = prepare_filters(&[FilterConfig {
        filter_type: FilterType::Lzma1,
        options: None,
    }]);
    match &raw.owned[0] {
        OwnedFilterOptions::Lzma { opts, dict } => {
            assert_eq!(opts.dict_size, 8 * 1024 * 1024);
            assert_eq!(opts.lc, 3);
            assert_eq!(opts.lp, 0);
            assert_eq!(opts.pb, 2);
            assert_eq!(opts.mode, LZMA_MODE_NORMAL);
            assert_eq!(opts.mf, LZMA_MF_HC4);
            assert!(dict.is_none());
        }
        other => panic!("unexpected {other:?}"),
    }
    let empty = prepare_filters(&[]);
    assert_eq!(empty.filters.len(), 1);
    assert_eq!(empty.filters[0].id, 0);
    assert!(empty.owned.is_empty());
}

#[test]
fn mode_and_match_finder_codes() {
    assert_eq!(u32::from(Mode::Fast), 1);
    assert_eq!(u32::from(Mode::Normal), 2);
    assert_eq!(u32::from(MatchFinder::Hc3), 0x03);
    assert_eq!(u32::from(MatchFinder::Hc4), 0x04);
    assert_eq!(u32::from(MatchFinder::Bt2), 0x12);
    assert_eq!(u32::from(MatchFinder::Bt3), 0x13);
    assert_eq!(u32::from(MatchFinder::Bt4), 0x14);
    assert_eq!(u32::from(CompressionMode::Fast), 1);
    assert_eq!(u32::from(FilterMatchFinder::Bt2), 0x12);
}

#[test]
fn lzma1_from_raw_keeps_the_structure() {
    let raw = *Lzma1Options::default().with_lc(1).with_depth(9).as_raw();
    assert_eq!(*Lzma1Options::from_raw(raw).as_raw(), raw);
}

#[test]
fn chain_ids_for_liblzma() {
    let raw = prepare_filters(&[FilterConfig {
        filter_type: FilterType::Lzma2,
        options: None,
    }]);
    assert_eq!(raw.filters[0].liblzma_id(), 0x21);
    assert_eq!(raw.filters[1].id, 0);
    assert_eq!(raw.filters[1].liblzma_id(), u64::MAX);
    let f = RawFilter {
        id: 0x03,
        options: Some(0),
    };
    assert_eq!(f.liblzma_id(), 0x03);
}
