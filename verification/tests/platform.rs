use cuemate_audio::panel_utils::setup_nonactivating_panel;
use cuemate_audio::platform::get_current_platform;
use cuemate_audio::platform::log_platform_info;
use cuemate_audio::platform::Platform;
use cuemate_audio::virtual_driver::VirtualAudioDriverInstaller;

#[test]
fn platform_is_told_by_the_operating_system_name() {
    assert_eq!(get_current_platform("macos"), Platform::MacOS);
    assert_eq!(get_current_platform("windows"), Platform::Windows);
    assert_eq!(get_current_platform("linux"), Platform::Linux);
}

#[test]
fn unknown_operating_systems_count_as_linux() {
    for os in ["freebsd", "android", "", "MacOS", "Windows", "macos "] {
        assert_eq!(get_current_platform(os), Platform::Linux);
    }
}

#[test]
fn platform_info_names_the_platform_as_its_debug_form_does() {
    for os in ["macos", "windows", "linux", "plan9"] {
        let platform = get_current_platform(os);
        let lines = log_platform_info(os);
        assert_eq!(lines.len(), 5);
        assert_eq!(lines[0], format!("当前运行平台: {:?}", platform));
    }
}

#[test]
fn platform_info_for_macos() {
    assert_eq!(
        log_platform_info("macos"),
        vec![
            "当前运行平台: MacOS",
            "macOS 平台特性:",
            "  - 支持 NSPanel 和 NSWindow",
            "  - 支持 Cocoa 原生窗口操作",
            "  - 支持多桌面空间",
        ]
    );
}

#[test]
fn platform_info_for_windows() {
    assert_eq!(
        log_platform_info("windows"),
        vec![
            "当前运行平台: Windows",
            "Windows 平台特性:",
            "  - 支持 Win32 窗口操作",
            "  - 支持系统任务栏集成",
            "  - 支持 DWM 合成窗口管理器",
        ]
    );
}

#[test]
fn platform_info_for_linux_and_others() {
    let expected = vec![
        "当前运行平台: Linux",
        "Linux 平台特性:",
        "  - 支持 X11/Wayland 窗口系统",
        "  - 支持多种窗口管理器",
        "  - 支持桌面环境集成",
    ];
    assert_eq!(log_platform_info("linux"), expected);
    assert_eq!(log_platform_info("openbsd"), expected);
}

#[test]
fn installed_driver_is_the_driver_of_the_platform() {
    assert_eq!(
        VirtualAudioDriverInstaller::detect_installed_drivers(Platform::Windows, true),
        vec!["VB-Audio Cable"]
    );
    assert_eq!(
        VirtualAudioDriverInstaller::detect_installed_drivers(Platform::MacOS, true),
        vec!["BlackHole"]
    );
    assert_eq!(
        VirtualAudioDriverInstaller::detect_installed_drivers(Platform::Linux, true),
        vec!["PulseAudio Virtual"]
    );
}

#[test]
fn no_driver_is_reported_where_the_probe_found_none() {
    for platform in [Platform::Windows, Platform::MacOS, Platform::Linux] {
        assert!(VirtualAudioDriverInstaller::detect_installed_drivers(platform, false).is_empty());
    }
}

#[test]
fn driver_names() {
    assert_eq!(VirtualAudioDriverInstaller::driver_for(Platform::Windows), "VB-Audio Cable");
    assert_eq!(VirtualAudioDriverInstaller::driver_for(Platform::MacOS), "BlackHole");
    assert_eq!(VirtualAudioDriverInstaller::driver_for(Platform::Linux), "PulseAudio Virtual");
}

#[test]
fn panel_setup_on_macos_reports_four_lines() {
    assert_eq!(
        setup_nonactivating_panel("control-bar", Platform::MacOS),
        Ok(vec![
            "开始配置 control-bar 为无焦点模式...".to_string(),
            "control-bar 使用配置文件中的无焦点设置".to_string(),
            "control-bar 依赖事件处理器自动恢复焦点".to_string(),
            "control-bar 无焦点配置完成".to_string(),
        ])
    );
}

#[test]
fn panel_setup_elsewhere_is_skipped() {
    for platform in [Platform::Windows, Platform::Linux] {
        assert_eq!(
            setup_nonactivating_panel("close-button", platform),
            Ok(vec![
                "非 macOS 平台，跳过 close-button 无焦点设置".to_string(),
                "close-button 无焦点配置完成".to_string(),
            ])
        );
    }
}
