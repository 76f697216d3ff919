//! Safe, verified core of the zrraw bindings: native status and format
//! codes, the conversions between native fixed-layout records and owned
//! values, target resolution, and the decisions of provisioning the native
//! library, locating it at run time and binding its entry points.
pub mod format;
pub mod locate;
pub mod metadata;
pub mod params;
pub mod pixels;
pub mod provision;
pub mod status;
pub mod symbols;
pub mod target;
pub mod text;

pub use format::{
    format_from_detection, AdobeFormat, CanonFormat, FujifilmFormat, NikonFormat, OlympusFormat,
    RawFormat, SonyFormat,
};
pub use locate::{candidates, Candidate, FileVariant, LocateAction, Locator, SearchBase, SearchDir};
pub use metadata::{c_text, metadata_from_extraction, NativeMetadata, Rational, RawMetadata};
pub use params::{DemosaicAlgorithm, NativeProcessParams, ProcessingParams};
pub use pixels::{
    convert_to_dynamic_image, processed_from_native, NativeImage, PixelLayout, ProcessedRawFile,
};
pub use provision::{download_url, header_file_name, provisioning_plan, BuildStrategy, ProvisionStep};
pub use status::{check_status, ZrRawError};
pub use symbols::{bind_entry_points, EntryPoint, EntryPoints};
pub use target::{convert_rust_target_to_zig, get_dynamic_lib_name, TargetFamily};
