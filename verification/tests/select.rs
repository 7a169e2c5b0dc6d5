use godot_manager::error::PipelineError;
use godot_manager::platform::{Arch, Os, PlatformTarget, Variant};
use godot_manager::release::GodotVersionDownload;
use godot_manager::select::{
    count_candidates, filter_download_links_and_download, filter_mono_and_download_godot,
    is_eligible,
};
use godot_manager::text::{chars_of, contains, contains_chars, occurs_in_at};

fn download(name: &str, content_type: &str) -> GodotVersionDownload {
    GodotVersionDownload {
        name: name.to_string(),
        url: format!("https://example.org/{}", name),
        content_type: content_type.to_string(),
    }
}

fn zip(name: &str) -> GodotVersionDownload {
    download(name, "application/zip")
}

fn linux64() -> PlatformTarget {
    PlatformTarget::new(Os::Linux, Arch::X86_64)
}

fn release_4_2_1() -> Vec<GodotVersionDownload> {
    vec![
        download("SHA512-SUMS.txt", "text/plain"),
        zip("Godot_v4.2.1-stable_linux.x86_32.zip"),
        zip("Godot_v4.2.1-stable_mono_linux_x86_32.zip"),
        zip("Godot_v4.2.1-stable_mono_linux_x86_64.zip"),
        zip("Godot_v4.2.1-stable_mono_win32.zip"),
        zip("Godot_v4.2.1-stable_mono_win64.zip"),
        zip("Godot_v4.2.1-stable_linux_x86_32.zip"),
        zip("Godot_v4.2.1-stable_linux_x86_64.zip"),
        zip("Godot_v4.2.1-stable_win32.exe.zip"),
        zip("Godot_v4.2.1-stable_win64.exe.zip"),
        zip("Godot_v4.2.1-stable_macos.universal.zip"),
    ]
}

#[test]
fn single_matching_asset_is_chosen() {
    let downloads = vec![zip("proj-4.2.1-linux_x86_64.zip")];
    let chosen = filter_download_links_and_download(&downloads, linux64(), Variant::Standard);
    assert_eq!(chosen, Ok(&downloads[0]));
}

#[test]
fn extended_variant_finds_nothing_without_mono_asset() {
    let downloads = vec![zip("proj-4.2.1-linux_x86_64.zip")];
    let chosen = filter_download_links_and_download(&downloads, linux64(), Variant::Extended);
    assert_eq!(chosen, Err(PipelineError::NotFound));
}

#[test]
fn macos_arm64_is_unsupported_whatever_the_assets() {
    let platform = PlatformTarget::new(Os::MacOs, Arch::Arm64);
    for variant in [Variant::Standard, Variant::Extended] {
        assert_eq!(
            filter_download_links_and_download(&vec![], platform, variant),
            Err(PipelineError::UnsupportedPlatform)
        );
        assert_eq!(
            filter_download_links_and_download(&release_4_2_1(), platform, variant),
            Err(PipelineError::UnsupportedPlatform)
        );
        let tempting = vec![zip("linux_x86_64 win64 win32 linux_x86_32 mono macos arm64")];
        assert_eq!(
            filter_download_links_and_download(&tempting, platform, variant),
            Err(PipelineError::UnsupportedPlatform)
        );
    }
}

#[test]
fn every_platform_outside_the_four_is_unsupported() {
    let oses = [Os::Linux, Os::Windows, Os::MacOs, Os::Other];
    let arches = [Arch::X86_64, Arch::X86, Arch::Arm64, Arch::Other];
    for os in oses {
        for arch in arches {
            let platform = PlatformTarget::new(os, arch);
            let supported = matches!(
                (os, arch),
                (Os::Linux, Arch::X86_64)
                    | (Os::Linux, Arch::X86)
                    | (Os::Windows, Arch::X86_64)
                    | (Os::Windows, Arch::X86)
            );
            assert_eq!(platform.is_supported(), supported);
            assert_eq!(platform.token().is_some(), supported);
            let downloads = release_4_2_1();
            let chosen = filter_download_links_and_download(&downloads, platform, Variant::Standard);
            assert_eq!(chosen == Err(PipelineError::UnsupportedPlatform), !supported);
            assert_eq!(chosen.is_ok(), supported);
        }
    }
}

#[test]
fn platform_tokens() {
    assert_eq!(PlatformTarget::new(Os::Linux, Arch::X86_64).token(), Some("linux_x86_64"));
    assert_eq!(PlatformTarget::new(Os::Linux, Arch::X86).token(), Some("linux_x86_32"));
    assert_eq!(PlatformTarget::new(Os::Windows, Arch::X86_64).token(), Some("win64"));
    assert_eq!(PlatformTarget::new(Os::Windows, Arch::X86).token(), Some("win32"));
    assert_eq!(PlatformTarget::new(Os::Windows, Arch::Arm64).token(), None);
    assert_eq!(PlatformTarget::new(Os::Other, Arch::X86_64).token(), None);
}

#[test]
fn each_platform_gets_its_own_build() {
    let downloads = release_4_2_1();
    let cases = [
        (Os::Linux, Arch::X86_64, Variant::Standard, "Godot_v4.2.1-stable_linux_x86_64.zip"),
        (Os::Linux, Arch::X86, Variant::Standard, "Godot_v4.2.1-stable_linux_x86_32.zip"),
        (Os::Windows, Arch::X86_64, Variant::Standard, "Godot_v4.2.1-stable_win64.exe.zip"),
        (Os::Windows, Arch::X86, Variant::Standard, "Godot_v4.2.1-stable_win32.exe.zip"),
        (Os::Linux, Arch::X86_64, Variant::Extended, "Godot_v4.2.1-stable_mono_linux_x86_64.zip"),
        (Os::Linux, Arch::X86, Variant::Extended, "Godot_v4.2.1-stable_mono_linux_x86_32.zip"),
        (Os::Windows, Arch::X86_64, Variant::Extended, "Godot_v4.2.1-stable_mono_win64.zip"),
        (Os::Windows, Arch::X86, Variant::Extended, "Godot_v4.2.1-stable_mono_win32.zip"),
    ];
    for (os, arch, variant, expected) in cases {
        let chosen =
            filter_download_links_and_download(&downloads, PlatformTarget::new(os, arch), variant);
        assert_eq!(chosen.map(|d| d.name.as_str()), Ok(expected));
    }
}

#[test]
fn only_archives_are_chosen() {
    let downloads = vec![
        download("proj-linux_x86_64.zip", "text/plain"),
        download("proj-linux_x86_64.zip.sha256", "application/octet-stream"),
        download("proj-linux_x86_64.tar.gz", "application/gzip"),
        download("proj-linux_x86_64.zip", "APPLICATION/ZIP"),
        download("proj-linux_x86_64.zip", ""),
    ];
    assert_eq!(
        filter_download_links_and_download(&downloads, linux64(), Variant::Standard),
        Err(PipelineError::NotFound)
    );
    let mut with_archive = downloads.clone();
    with_archive.push(zip("late-linux_x86_64.zip"));
    let chosen = filter_download_links_and_download(&with_archive, linux64(), Variant::Standard);
    assert_eq!(chosen, Ok(&with_archive[5]));
    assert_eq!(chosen.unwrap().content_type, "application/zip");
}

#[test]
fn first_match_in_registry_order_wins() {
    let downloads = vec![
        zip("other-win64.zip"),
        zip("second-linux_x86_64.zip"),
        zip("third-linux_x86_64.zip"),
    ];
    let chosen = filter_download_links_and_download(&downloads, linux64(), Variant::Standard);
    assert_eq!(chosen.map(|d| d.name.as_str()), Ok("second-linux_x86_64.zip"));

    let same_name_twice = vec![
        GodotVersionDownload {
            name: "a-linux_x86_64.zip".to_string(),
            url: "https://example.org/first".to_string(),
            content_type: "application/zip".to_string(),
        },
        GodotVersionDownload {
            name: "a-linux_x86_64.zip".to_string(),
            url: "https://example.org/second".to_string(),
            content_type: "application/zip".to_string(),
        },
    ];
    let chosen = filter_download_links_and_download(&same_name_twice, linux64(), Variant::Standard);
    assert_eq!(chosen.map(|d| d.url.as_str()), Ok("https://example.org/first"));
}

#[test]
fn variant_decides_between_mono_and_plain() {
    let downloads = vec![zip("a_mono_linux_x86_64.zip"), zip("a_linux_x86_64.zip")];
    let standard = filter_download_links_and_download(&downloads, linux64(), Variant::Standard);
    assert_eq!(standard, Ok(&downloads[1]));
    assert!(!standard.unwrap().name.contains("mono"));
    let extended = filter_download_links_and_download(&downloads, linux64(), Variant::Extended);
    assert_eq!(extended, Ok(&downloads[0]));
    assert!(extended.unwrap().name.contains("mono"));

    let only_mono = vec![zip("a_mono_linux_x86_64.zip")];
    assert_eq!(
        filter_download_links_and_download(&only_mono, linux64(), Variant::Standard),
        Err(PipelineError::NotFound)
    );
}

#[test]
fn candidates_are_counted() {
    let downloads = vec![
        zip("a-linux_x86_64.zip"),
        zip("a_mono_linux_x86_64.zip"),
        download("b-linux_x86_64.zip", "text/plain"),
        zip("c-linux_x86_64.zip"),
        zip("d-win64.zip"),
    ];
    assert_eq!(count_candidates(&downloads, linux64(), Variant::Standard), 2);
    assert_eq!(count_candidates(&downloads, linux64(), Variant::Extended), 1);
    let win64 = PlatformTarget::new(Os::Windows, Arch::X86_64);
    assert_eq!(count_candidates(&downloads, win64, Variant::Standard), 1);
    assert_eq!(count_candidates(&downloads, win64, Variant::Extended), 0);
    assert_eq!(
        filter_download_links_and_download(&downloads, win64, Variant::Extended),
        Err(PipelineError::NotFound)
    );
    let macos = PlatformTarget::new(Os::MacOs, Arch::X86_64);
    assert_eq!(count_candidates(&downloads, macos, Variant::Standard), 0);
    assert_eq!(count_candidates(&vec![], linux64(), Variant::Standard), 0);
    assert_eq!(count_candidates(&release_4_2_1(), linux64(), Variant::Standard), 1);
}

#[test]
fn empty_list_finds_nothing() {
    assert_eq!(
        filter_download_links_and_download(&vec![], linux64(), Variant::Standard),
        Err(PipelineError::NotFound)
    );
}

#[test]
fn selection_is_repeatable() {
    let downloads = release_4_2_1();
    for variant in [Variant::Standard, Variant::Extended] {
        let first = filter_download_links_and_download(&downloads, linux64(), variant);
        let second = filter_download_links_and_download(&downloads, linux64(), variant);
        let on_a_copy = filter_download_links_and_download(&downloads.clone(), linux64(), variant)
            .map(|d| d.clone());
        assert_eq!(first, second);
        assert_eq!(first.map(|d| d.clone()), on_a_copy);
    }
}

#[test]
fn mono_filter() {
    assert!(filter_mono_and_download_godot("Godot_v4_mono_win64.zip", Variant::Extended));
    assert!(!filter_mono_and_download_godot("Godot_v4_mono_win64.zip", Variant::Standard));
    assert!(filter_mono_and_download_godot("Godot_v4_win64.zip", Variant::Standard));
    assert!(!filter_mono_and_download_godot("Godot_v4_win64.zip", Variant::Extended));
    assert!(filter_mono_and_download_godot("", Variant::Standard));
    assert!(!filter_mono_and_download_godot("", Variant::Extended));
    assert!(!filter_mono_and_download_godot("MONO", Variant::Extended));
    assert!(filter_mono_and_download_godot("monomono", Variant::Extended));
    assert!(!filter_mono_and_download_godot("mon-o", Variant::Extended));
}

#[test]
fn eligibility_needs_all_three() {
    let good = zip("x-linux_x86_64.zip");
    assert!(is_eligible(&good, "linux_x86_64", Variant::Standard));
    assert!(!is_eligible(&good, "linux_x86_64", Variant::Extended));
    assert!(!is_eligible(&good, "win64", Variant::Standard));
    assert!(!is_eligible(&download("x-linux_x86_64.zip", "text/plain"), "linux_x86_64", Variant::Standard));
}

#[test]
fn variant_of_the_mono_flag() {
    assert_eq!(Variant::from_mono(true), Variant::Extended);
    assert_eq!(Variant::from_mono(false), Variant::Standard);
    assert!(Variant::Extended.is_mono());
    assert!(!Variant::Standard.is_mono());
    assert_eq!(Variant::Extended.directory(), "mono");
    assert_eq!(Variant::Standard.directory(), "standalone");
}

#[test]
fn platform_from_the_names_of_the_host() {
    assert_eq!(PlatformTarget::from_names("linux", "x86_64"), PlatformTarget::new(Os::Linux, Arch::X86_64));
    assert_eq!(PlatformTarget::from_names("windows", "x86"), PlatformTarget::new(Os::Windows, Arch::X86));
    assert_eq!(PlatformTarget::from_names("macos", "aarch64"), PlatformTarget::new(Os::MacOs, Arch::Arm64));
    assert_eq!(PlatformTarget::from_names("freebsd", "riscv64"), PlatformTarget::new(Os::Other, Arch::Other));
    assert_eq!(PlatformTarget::from_names("Linux", "X86_64"), PlatformTarget::new(Os::Other, Arch::Other));
    assert_eq!(PlatformTarget::from_names("", ""), PlatformTarget::new(Os::Other, Arch::Other));
}

#[test]
fn data_directory_variable_of_each_system() {
    for arch in [Arch::X86_64, Arch::X86, Arch::Arm64, Arch::Other] {
        assert_eq!(PlatformTarget::new(Os::Windows, arch).app_data_variable(), "APPDATA");
        assert_eq!(PlatformTarget::new(Os::Linux, arch).app_data_variable(), "HOME");
        assert_eq!(PlatformTarget::new(Os::MacOs, arch).app_data_variable(), "HOME");
        assert_eq!(PlatformTarget::new(Os::Other, arch).app_data_variable(), "HOME");
    }
}

#[test]
fn text_search() {
    assert!(contains("abc", ""));
    assert!(contains("", ""));
    assert!(!contains("", "a"));
    assert!(contains("abc", "abc"));
    assert!(!contains("abc", "abcd"));
    assert!(contains("abc", "a"));
    assert!(contains("abc", "c"));
    assert!(contains("abc", "bc"));
    assert!(!contains("abc", "ac"));
    assert!(contains("aab", "ab"));
    assert!(contains("ミmonoミ", "mono"));
    assert!(contains("aミb", "ミ"));
    assert!(!contains("ab", "ミ"));
    for (hay, needle) in [("linux_x86_64", "x86"), ("win64", "win32"), ("xyxyz", "xyz"), ("aaa", "aaaa")] {
        assert_eq!(contains(hay, needle), hay.contains(needle));
    }
}

#[test]
fn text_search_on_characters() {
    let hay = chars_of("héllo");
    assert_eq!(hay, vec!['h', 'é', 'l', 'l', 'o']);
    assert_eq!(chars_of(""), Vec::<char>::new());
    let needle = chars_of("llo");
    assert!(contains_chars(&hay, &needle));
    assert!(occurs_in_at(&hay, &needle, 2));
    assert!(!occurs_in_at(&hay, &needle, 1));
    assert!(!occurs_in_at(&hay, &needle, 0));
    assert!(occurs_in_at(&hay, &vec![], 5));
    assert!(!occurs_in_at(&hay, &vec![], 6));
    assert!(!occurs_in_at(&hay, &needle, 3));
    assert!(!occurs_in_at(&hay, &needle, usize::MAX));
    assert!(!occurs_in_at(&needle, &hay, 0));
    assert!(!contains_chars(&needle, &hay));
}
