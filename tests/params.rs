use zrraw::{DemosaicAlgorithm, NativeProcessParams, ProcessingParams};

fn sample(a: DemosaicAlgorithm) -> ProcessingParams {
    ProcessingParams {
        demosaic_algorithm: a,
        wb_temperature: 5500.0f32.to_bits(),
        wb_tint: (-3.25f32).to_bits(),
        highlight_recovery: 0.5f32.to_bits(),
        shadow_lift: 0.125f32.to_bits(),
        exposure_compensation: (-1.0f32).to_bits(),
        output_gamma: 2.2f32.to_bits(),
        output_16bit: true,
    }
}

#[test]
fn params_round_trip_through_native_record() {
    for a in [DemosaicAlgorithm::Fast, DemosaicAlgorithm::Quality, DemosaicAlgorithm::Best] {
        let p = sample(a);
        let n = NativeProcessParams::from(p);
        assert_eq!(n.to_params(), Some(p));
    }
}

#[test]
fn demosaic_codes() {
    assert_eq!(NativeProcessParams::from(sample(DemosaicAlgorithm::Fast)).demosaic_algorithm, 0);
    assert_eq!(NativeProcessParams::from(sample(DemosaicAlgorithm::Quality)).demosaic_algorithm, 1);
    assert_eq!(NativeProcessParams::from(sample(DemosaicAlgorithm::Best)).demosaic_algorithm, 2);
}

#[test]
fn native_fields_keep_their_bits() {
    let n = NativeProcessParams::from(sample(DemosaicAlgorithm::Best));
    assert_eq!(f32::from_bits(n.wb_temperature), 5500.0);
    assert_eq!(f32::from_bits(n.wb_tint), -3.25);
    assert_eq!(f32::from_bits(n.output_gamma), 2.2);
    assert!(n.output_16bit);
}

#[test]
fn unknown_demosaic_code_reads_back_as_none() {
    let mut n = NativeProcessParams::from(sample(DemosaicAlgorithm::Fast));
    n.demosaic_algorithm = 3;
    assert_eq!(n.to_params(), None);
    n.demosaic_algorithm = -1;
    assert_eq!(n.to_params(), None);
}

#[test]
fn default_params() {
    let p = ProcessingParams::default();
    assert_eq!(p.demosaic_algorithm, DemosaicAlgorithm::Quality);
    assert_eq!(f32::from_bits(p.wb_temperature), 0.0);
    assert_eq!(f32::from_bits(p.output_gamma), 0.0);
    assert!(!p.output_16bit);
    assert_eq!(NativeProcessParams::from(p).demosaic_algorithm, 1);
}
