use serverbee_deploy::config::Config;
use serverbee_deploy::platform::{join_path, Arch, Os};

#[test]
fn filename_for_each_supported_platform() {
    assert_eq!(Config::get_filename(Os::MacOs, Arch::X86_64), "serverbee-web-x86_64-apple-darwin.zip");
    assert_eq!(
        Config::get_filename(Os::Linux, Arch::X86_64),
        "serverbee-web-x86_64-unknown-linux-musl.zip"
    );
    assert_eq!(
        Config::get_filename(Os::Windows, Arch::X86_64),
        "serverbee-web-x86_64-pc-windows-gnu.zip"
    );
    assert_eq!(
        Config::get_filename(Os::MacOs, Arch::Aarch64),
        "serverbee-web-aarch64-apple-darwin.zip"
    );
    assert_eq!(
        Config::get_filename(Os::Linux, Arch::Aarch64),
        "serverbee-web-aarch64-unknown-linux-musl.zip"
    );
    assert_eq!(
        Config::get_filename(Os::Windows, Arch::Aarch64),
        "serverbee-web-aarch64-pc-windows-gnu.zip"
    );
}

#[test]
fn unknown_os_takes_the_linux_asset() {
    assert_eq!(
        Config::get_filename(Os::Unknown, Arch::X86_64),
        "serverbee-web-x86_64-unknown-linux-musl.zip"
    );
    assert_eq!(
        Config::get_filename(Os::Unknown, Arch::Aarch64),
        Config::get_filename(Os::Linux, Arch::Aarch64)
    );
}

#[test]
fn supported_platforms_have_distinct_filenames() {
    let systems = [Os::MacOs, Os::Linux, Os::Windows];
    let arches = [Arch::X86_64, Arch::Aarch64];
    let mut names: Vec<String> = Vec::new();
    for os in systems {
        for arch in arches {
            let name = Config::get_filename(os, arch);
            assert!(name.starts_with("serverbee-web-"));
            assert!(name.ends_with(".zip"));
            assert!(!names.contains(&name));
            names.push(name);
        }
    }
    assert_eq!(names.len(), 6);
}

#[test]
fn os_is_read_from_its_name() {
    assert_eq!(Os::from_name("macos"), Os::MacOs);
    assert_eq!(Os::from_name("linux"), Os::Linux);
    assert_eq!(Os::from_name("windows"), Os::Windows);
    assert_eq!(Os::from_name("freebsd"), Os::Unknown);
    assert_eq!(Os::from_name(""), Os::Unknown);
    assert_eq!(Os::from_name("Linux"), Os::Unknown);
    assert!(Os::Linux.is_known());
    assert!(!Os::Unknown.is_known());
}

#[test]
fn arch_is_read_from_its_name() {
    assert_eq!(Arch::from_name("x86_64"), Some(Arch::X86_64));
    assert_eq!(Arch::from_name("aarch64"), Some(Arch::Aarch64));
    assert_eq!(Arch::from_name("riscv64"), None);
}

#[test]
fn paths_are_joined_with_the_systems_separator() {
    assert_eq!(join_path("/opt/bee", "1.2.3", Os::Linux), "/opt/bee/1.2.3");
    assert_eq!(join_path("/opt/bee", "1.2.3", Os::MacOs), "/opt/bee/1.2.3");
    assert_eq!(join_path("/opt/bee", "1.2.3", Os::Unknown), "/opt/bee/1.2.3");
    assert_eq!(join_path("C:\\bee", "1.2.3", Os::Windows), "C:\\bee\\1.2.3");
}
