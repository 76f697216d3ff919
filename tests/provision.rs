use zrraw::{download_url, header_file_name, provisioning_plan, BuildStrategy, ProvisionStep};

fn present_after(steps: &[ProvisionStep], lib: bool, header: bool) -> (bool, bool) {
    let (mut l, mut h) = (lib, header);
    for s in steps {
        match s {
            ProvisionStep::Compile => {
                l = true;
                h = true;
            }
            ProvisionStep::PlaceLibrary => l = true,
            ProvisionStep::PlaceHeader => h = true,
            _ => {}
        }
    }
    (l, h)
}

#[test]
fn cached_artifacts_need_no_work() {
    for s in [BuildStrategy::CompileFromSource, BuildStrategy::Download] {
        assert_eq!(provisioning_plan(s, true, true), vec![ProvisionStep::GenerateBindings]);
    }
}

#[test]
fn second_run_fetches_and_compiles_nothing() {
    for s in [BuildStrategy::CompileFromSource, BuildStrategy::Download] {
        for (lib, header) in [(false, false), (true, false), (false, true), (true, true)] {
            let first = provisioning_plan(s, lib, header);
            let (l, h) = present_after(&first, lib, header);
            assert!(l && h);
            let second = provisioning_plan(s, l, h);
            assert!(!second.contains(&ProvisionStep::Fetch));
            assert!(!second.contains(&ProvisionStep::Compile));
        }
    }
}

#[test]
fn download_extracts_only_missing_artifacts() {
    assert_eq!(
        provisioning_plan(BuildStrategy::Download, false, false),
        vec![ProvisionStep::Fetch, ProvisionStep::PlaceLibrary, ProvisionStep::PlaceHeader, ProvisionStep::GenerateBindings]
    );
    assert_eq!(provisioning_plan(BuildStrategy::Download, true, false), vec![ProvisionStep::Fetch, ProvisionStep::PlaceHeader, ProvisionStep::GenerateBindings]);
    assert_eq!(provisioning_plan(BuildStrategy::Download, false, true), vec![ProvisionStep::Fetch, ProvisionStep::PlaceLibrary, ProvisionStep::GenerateBindings]);
}

#[test]
fn source_build_compiles_when_missing() {
    assert_eq!(provisioning_plan(BuildStrategy::CompileFromSource, false, true), vec![ProvisionStep::Compile, ProvisionStep::GenerateBindings]);
    assert_eq!(provisioning_plan(BuildStrategy::CompileFromSource, false, false), vec![ProvisionStep::Compile, ProvisionStep::GenerateBindings]);
}

#[test]
fn release_archive_url() {
    assert_eq!(
        download_url("https://example.org/zrraw", "0.3.1", "x86_64-unknown-linux-gnu"),
        "https://example.org/zrraw/releases/download/v0.3.1/zrraw-v0.3.1-x86_64-unknown-linux-gnu.zip"
    );
    assert_eq!(header_file_name(), "zrraw.h");
}
