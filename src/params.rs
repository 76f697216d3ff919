//! Processing parameters and the native parameter record they become.
//!
//! Real-valued parameters are carried as the IEEE 754 bit patterns of
//! their `f32` values (`f32::to_bits`), so that they cross the boundary
//! bit for bit.
use vstd::prelude::*;

verus! {

/// The demosaicing algorithm the native processor runs.
#[derive(Debug, Clone, Copy, PartialEq, Eq, Structural)]
pub enum DemosaicAlgorithm {
    Fast,
    Quality,
    Best,
}

/// The native code of each algorithm.
pub open spec fn demosaic_code(a: DemosaicAlgorithm) -> i32 {
    match a {
        DemosaicAlgorithm::Fast => 0,
        DemosaicAlgorithm::Quality => 1,
        DemosaicAlgorithm::Best => 2,
    }
}

/// The algorithm a native code names, if any.
pub open spec fn demosaic_of_code(code: i32) -> Option<DemosaicAlgorithm> {
    if code == 0 {
        Some(DemosaicAlgorithm::Fast)
    } else if code == 1 {
        Some(DemosaicAlgorithm::Quality)
    } else if code == 2 {
        Some(DemosaicAlgorithm::Best)
    } else {
        None
    }
}

impl Default for DemosaicAlgorithm {
    fn default() -> (r: DemosaicAlgorithm)
        ensures
            r == DemosaicAlgorithm::Quality,
    {
        DemosaicAlgorithm::Quality
    }
}

impl DemosaicAlgorithm {
    /// The native code of this algorithm.
    pub fn code(&self) -> (r: i32)
        ensures
            r == demosaic_code(*self),
    {
        match self {
            DemosaicAlgorithm::Fast => 0,
            DemosaicAlgorithm::Quality => 1,
            DemosaicAlgorithm::Best => 2,
        }
    }

    /// The algorithm a native code names, if any.
    pub fn from_code(code: i32) -> (r: Option<DemosaicAlgorithm>)
        ensures
            r == demosaic_of_code(code),
    {
        match code {
            0 => Some(DemosaicAlgorithm::Fast),
            1 => Some(DemosaicAlgorithm::Quality),
            2 => Some(DemosaicAlgorithm::Best),
            _ => None,
        }
    }
}

/// How a RAW file is developed. Each real-valued field holds the bit
/// pattern of an `f32`.
#[derive(Debug, Clone, Copy, PartialEq, Eq, Structural)]
pub struct ProcessingParams {
    pub demosaic_algorithm: DemosaicAlgorithm,
    pub wb_temperature: u32,
    pub wb_tint: u32,
    pub highlight_recovery: u32,
    pub shadow_lift: u32,
    pub exposure_compensation: u32,
    pub output_gamma: u32,
    pub output_16bit: bool,
}

impl Default for ProcessingParams {
    /// Quality demosaicing, every real-valued field `0.0`, 8-bit output.
    fn default() -> (r: ProcessingParams)
        ensures
            r == (ProcessingParams {
                demosaic_algorithm: DemosaicAlgorithm::Quality,
                wb_temperature: 0,
                wb_tint: 0,
                highlight_recovery: 0,
                shadow_lift: 0,
                exposure_compensation: 0,
                output_gamma: 0,
                output_16bit: false,
            }),
    {
        ProcessingParams {
            demosaic_algorithm: DemosaicAlgorithm::default(),
            wb_temperature: 0,
            wb_tint: 0,
            highlight_recovery: 0,
            shadow_lift: 0,
            exposure_compensation: 0,
            output_gamma: 0,
            output_16bit: false,
        }
    }
}

/// The native parameter record, field for field.
#[derive(Debug, Clone, Copy, PartialEq, Eq, Structural)]
pub struct NativeProcessParams {
    pub demosaic_algorithm: i32,
    pub wb_temperature: u32,
    pub wb_tint: u32,
    pub highlight_recovery: u32,
    pub shadow_lift: u32,
    pub exposure_compensation: u32,
    pub output_gamma: u32,
    pub output_16bit: bool,
}

/// The native record for the given parameters: the algorithm by its code,
/// every other field unchanged.
pub open spec fn native_of(p: ProcessingParams) -> NativeProcessParams {
    NativeProcessParams {
        demosaic_algorithm: demosaic_code(p.demosaic_algorithm),
        wb_temperature: p.wb_temperature,
        wb_tint: p.wb_tint,
        highlight_recovery: p.highlight_recovery,
        shadow_lift: p.shadow_lift,
        exposure_compensation: p.exposure_compensation,
        output_gamma: p.output_gamma,
        output_16bit: p.output_16bit,
    }
}

impl From<ProcessingParams> for NativeProcessParams {
    fn from(val: ProcessingParams) -> (r: NativeProcessParams)
        ensures
            r == native_of(val),
    {
        NativeProcessParams {
            demosaic_algorithm: val.demosaic_algorithm.code(),
            wb_temperature: val.wb_temperature,
            wb_tint: val.wb_tint,
            highlight_recovery: val.highlight_recovery,
            shadow_lift: val.shadow_lift,
            exposure_compensation: val.exposure_compensation,
            output_gamma: val.output_gamma,
            output_16bit: val.output_16bit,
        }
    }
}

impl vstd::std_specs::convert::FromSpecImpl<ProcessingParams> for NativeProcessParams {
    open spec fn obeys_from_spec() -> bool {
        true
    }

    open spec fn from_spec(val: ProcessingParams) -> NativeProcessParams {
        native_of(val)
    }
}

/// The parameters a native record stands for: `None` exactly when its
/// algorithm code names no algorithm.
pub open spec fn params_of(n: NativeProcessParams) -> Option<ProcessingParams> {
    match demosaic_of_code(n.demosaic_algorithm) {
        Some(a) => Some(
            ProcessingParams {
                demosaic_algorithm: a,
                wb_temperature: n.wb_temperature,
                wb_tint: n.wb_tint,
                highlight_recovery: n.highlight_recovery,
                shadow_lift: n.shadow_lift,
                exposure_compensation: n.exposure_compensation,
                output_gamma: n.output_gamma,
                output_16bit: n.output_16bit,
            },
        ),
        None => None,
    }
}

impl NativeProcessParams {
    /// A record with every field zero.
    pub fn zeroed() -> (r: NativeProcessParams)
        ensures
            r == (NativeProcessParams {
                demosaic_algorithm: 0,
                wb_temperature: 0,
                wb_tint: 0,
                highlight_recovery: 0,
                shadow_lift: 0,
                exposure_compensation: 0,
                output_gamma: 0,
                output_16bit: false,
            }),
    {
        NativeProcessParams {
            demosaic_algorithm: 0,
            wb_temperature: 0,
            wb_tint: 0,
            highlight_recovery: 0,
            shadow_lift: 0,
            exposure_compensation: 0,
            output_gamma: 0,
            output_16bit: false,
        }
    }

    /// Reads a native record back into parameters.
    pub fn to_params(&self) -> (r: Option<ProcessingParams>)
        ensures
            r == params_of(*self),
    {
        match DemosaicAlgorithm::from_code(self.demosaic_algorithm) {
            Some(a) => Some(
                ProcessingParams {
                    demosaic_algorithm: a,
                    wb_temperature: self.wb_temperature,
                    wb_tint: self.wb_tint,
                    highlight_recovery: self.highlight_recovery,
                    shadow_lift: self.shadow_lift,
                    exposure_compensation: self.exposure_compensation,
                    output_gamma: self.output_gamma,
                    output_16bit: self.output_16bit,
                },
            ),
            None => None,
        }
    }
}

/// Parameters taken to the native record and read back come out unchanged:
/// every numeric field bit for bit, and the algorithm by its code
/// (Fast 0, Quality 1, Best 2). Conversely a record that reads back is the
/// record of what it reads back as.
pub proof fn lemma_params_round_trip(p: ProcessingParams, n: NativeProcessParams)
    ensures
        params_of(native_of(p)) == Some(p),
        demosaic_code(DemosaicAlgorithm::Fast) == 0,
        demosaic_code(DemosaicAlgorithm::Quality) == 1,
        demosaic_code(DemosaicAlgorithm::Best) == 2,
        params_of(n) matches Some(q) ==> native_of(q) == n,
{
}

} // verus!
