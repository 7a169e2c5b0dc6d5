use std::io::{Cursor, Write};

use godot_manager::acquire::{download_godot, AcquisitionRequest, Action};
use godot_manager::error::PipelineError;
use godot_manager::platform::{Arch, Os, PlatformTarget, Variant};
use godot_manager::release::{
    get_godot_version_downloads, get_godot_versions, GodotVersion, RawAsset, RawRelease,
};
use godot_manager::select::filter_download_links_and_download;
use zip::write::FileOptions;
use zip::ZipWriter;

fn registry_page() -> Vec<RawRelease> {
    vec![RawRelease {
        name: Some(String::new()),
        tag_name: "4.2.1".to_string(),
        published_at: Some(1_702_000_000),
        prerelease: false,
        assets: vec![RawAsset {
            name: "proj-4.2.1-linux_x86_64.zip".to_string(),
            browser_download_url: "https://example.org/proj-4.2.1-linux_x86_64.zip".to_string(),
            content_type: "application/zip".to_string(),
        }],
    }]
}

fn listed_version() -> GodotVersion {
    let mut versions = get_godot_versions(registry_page());
    assert_eq!(versions.len(), 1);
    versions.remove(0)
}

fn build_archive() -> Vec<u8> {
    let mut writer = ZipWriter::new(Cursor::new(Vec::new()));
    let options = FileOptions::default();
    writer.add_directory("root/", options).unwrap();
    writer.start_file("root/a.txt", options).unwrap();
    writer.write_all(b"first file").unwrap();
    writer.add_directory("root/sub/", options).unwrap();
    writer.start_file("root/sub/b.txt", options).unwrap();
    writer.write_all(b"second file").unwrap();
    writer.finish().unwrap().into_inner()
}

#[test]
fn listed_release_is_named_by_its_tag_and_its_asset_is_chosen() {
    let version = listed_version();
    assert_eq!(version.version, "4.2.1");
    let downloads = get_godot_version_downloads(&version);
    let platform = PlatformTarget::new(Os::Linux, Arch::X86_64);
    let chosen = filter_download_links_and_download(&downloads, platform, Variant::Standard);
    assert_eq!(chosen, Ok(&downloads[0]));
    assert_eq!(chosen.unwrap().name, "proj-4.2.1-linux_x86_64.zip");
    assert_eq!(chosen.unwrap().url, "https://example.org/proj-4.2.1-linux_x86_64.zip");
}

#[test]
fn listed_release_has_no_extended_build() {
    let version = listed_version();
    let downloads = get_godot_version_downloads(&version);
    let platform = PlatformTarget::new(Os::Linux, Arch::X86_64);
    let chosen = filter_download_links_and_download(&downloads, platform, Variant::Extended);
    assert_eq!(chosen, Err(PipelineError::NotFound));
}

#[test]
fn listed_release_has_nothing_for_macos_on_arm64() {
    let version = listed_version();
    let downloads = get_godot_version_downloads(&version);
    let platform = PlatformTarget::new(Os::MacOs, Arch::Arm64);
    for variant in [Variant::Standard, Variant::Extended] {
        let chosen = filter_download_links_and_download(&downloads, platform, variant);
        assert_eq!(chosen, Err(PipelineError::UnsupportedPlatform));
    }
}

#[test]
fn well_formed_archive_lands_below_the_target_without_its_root() {
    let version = listed_version();
    let request = AcquisitionRequest::new(&version, Variant::Standard, "/data");
    let target = request.target_directory.clone();
    assert_eq!(target, "/data/Godot Manager/Instances/standalone/4.2.1");
    let mut extraction = download_godot(build_archive(), request).unwrap();
    let mut files = Vec::new();
    let mut directories = Vec::new();
    let count = loop {
        match extraction.next_action() {
            Action::CreateDir(path) => directories.push(path),
            Action::WriteFile(path, data) => files.push((path, data)),
            Action::Finished(count) => break count,
            Action::Failed(e) => panic!("{:?}", e),
        }
    };
    assert_eq!(count, 2);
    assert_eq!(
        files,
        vec![
            (format!("{}/a.txt", target), b"first file".to_vec()),
            (format!("{}/sub/b.txt", target), b"second file".to_vec()),
        ]
    );
    assert_eq!(
        directories,
        vec![target.clone(), format!("{}/", target), format!("{}/sub/", target)]
    );
}

#[test]
fn truncated_download_is_corrupt_and_nothing_is_handed_out() {
    let version = listed_version();
    let archive = build_archive();
    for keep in [0, 1, 21, archive.len() / 2, archive.len() - 1] {
        let request = AcquisitionRequest::new(&version, Variant::Standard, "/data");
        let started = download_godot(archive[..keep].to_vec(), request);
        assert_eq!(started.err(), Some(PipelineError::CorruptArchive), "{}", keep);
    }
    let request = AcquisitionRequest::new(&version, Variant::Standard, "/data");
    let garbage: Vec<u8> = (0..2000u32).map(|i| (i * 37 % 251) as u8).collect();
    assert_eq!(download_godot(garbage, request).err(), Some(PipelineError::CorruptArchive));
}
