use run_in_roblox::roblox_install::{LocateError, RobloxStudio, VersionFolder};

fn folder(name: &str, is_directory: bool, has_executable: bool) -> VersionFolder {
    VersionFolder {
        is_directory,
        has_executable,
        executable: format!("C:/Roblox/Versions/{}/RobloxStudioBeta.exe", name),
        built_in_plugins: format!("C:/Roblox/Versions/{}/BuiltInPlugins", name),
    }
}

fn plugins() -> Option<String> {
    Some("C:/Roblox/Plugins".to_string())
}

#[test]
fn without_a_base_folder_there_is_no_installation() {
    let versions = vec![folder("a", true, true)];
    assert_eq!(RobloxStudio::locate(None, &versions).unwrap_err(), LocateError::InstallNotFound);
    assert_eq!(RobloxStudio::locate(None, &vec![]).unwrap_err(), LocateError::InstallNotFound);
}

#[test]
fn without_a_version_that_holds_studio_there_is_no_studio() {
    assert_eq!(RobloxStudio::locate(plugins(), &vec![]).unwrap_err(), LocateError::StudioNotFound);
    let versions =
        vec![folder("player", true, false), folder("file", false, true), folder("x", false, false)];
    assert_eq!(RobloxStudio::locate(plugins(), &versions).unwrap_err(), LocateError::StudioNotFound);
}

#[test]
fn the_first_version_that_holds_studio_is_the_installation() {
    let versions = vec![
        folder("player", true, false),
        folder("file", false, true),
        folder("studio-1", true, true),
        folder("studio-2", true, true),
    ];
    let studio = RobloxStudio::locate(plugins(), &versions).unwrap();
    assert_eq!(studio.exe_path(), "C:/Roblox/Versions/studio-1/RobloxStudioBeta.exe");
    assert_eq!(studio.built_in_plugins_path(), "C:/Roblox/Versions/studio-1/BuiltInPlugins");
    assert_eq!(studio.plugins_path(), "C:/Roblox/Plugins");
}

#[test]
fn a_single_version_is_enough() {
    let studio = RobloxStudio::locate(plugins(), &vec![folder("only", true, true)]).unwrap();
    assert_eq!(studio.exe_path(), "C:/Roblox/Versions/only/RobloxStudioBeta.exe");
}
